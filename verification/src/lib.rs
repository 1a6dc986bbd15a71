//! Relay and device registry for handing browser tabs from one machine to
//! another: a gesture at a screen edge asks the local browser extensions for
//! their open tabs, and the tab list that comes back is routed to the peer
//! machine registered for that edge.

pub mod client;
pub mod clock;
pub mod config;
pub mod edge;
pub mod extension;
pub mod gesture;
pub mod json;
pub mod peer;
pub mod registry;
pub mod router;
pub mod text;
pub mod trigger;
pub mod window;
