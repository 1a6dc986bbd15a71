[package]
name = "chrome_leap"
version = "0.1.0"
edition = "2021"
publish = false

[dependencies]
anyhow = "=1.0.104"
dotenv = "=0.15.0"
futures-util = { version = "=0.3.34", features = ["sink"] }
rdev = "=0.5.3"
serde = { version = "=1.0.229", features = ["derive"] }
serde_json = "=1.0.154"
tokio = { version = "=1.54.1", features = ["full"] }
tokio-tungstenite = "=0.30.0"
toml = "=1.1.8"
windows = { version = "=0.58.0", features = ["Win32_Foundation", "Win32_System_ProcessStatus", "Win32_System_Threading", "Win32_UI_WindowsAndMessaging"] }
x-win = "=5.8.0"
