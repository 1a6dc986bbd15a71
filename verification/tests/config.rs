use chrome_leap::config::{build_map, resolve_edge, Config, Device};
use chrome_leap::edge::Edge;

fn device(address: &str, edge: &str) -> Device {
    Device { address: address.to_string(), edge: edge.to_string() }
}

#[test]
fn map_holds_every_configured_address() {
    let config = Config {
        devices: vec![device("192.168.1.10", "left"), device("192.168.1.11", "right")],
    };
    let map = build_map(&config);
    assert_eq!(map.len(), 2);
    assert_eq!(map.get("192.168.1.10"), Some(&"left".to_string()));
    assert_eq!(map.get("192.168.1.11"), Some(&"right".to_string()));
    assert_eq!(map.get("192.168.1.12"), None);
}

#[test]
fn empty_config_gives_an_empty_map() {
    let map = build_map(&Config { devices: Vec::new() });
    assert_eq!(map.len(), 0);
    assert!(map.is_empty());
}

#[test]
fn last_entry_of_an_address_counts() {
    let config = Config {
        devices: vec![
            device("192.168.1.10", "left"),
            device("192.168.1.11", "left"),
            device("192.168.1.10", "right"),
        ],
    };
    let map = build_map(&config);
    assert_eq!(map.len(), 2);
    assert_eq!(map.get("192.168.1.10"), Some(&"right".to_string()));
    assert_eq!(map.get("192.168.1.11"), Some(&"left".to_string()));
}

#[test]
fn address_resolves_to_its_edge() {
    let config = Config {
        devices: vec![device("192.168.1.10", "left"), device("192.168.1.11", "right")],
    };
    let map = build_map(&config);
    assert_eq!(resolve_edge(&map, "192.168.1.10"), Some(Edge::Left));
    assert_eq!(resolve_edge(&map, "192.168.1.11"), Some(Edge::Right));
}

#[test]
fn unknown_address_resolves_to_nothing() {
    let map = build_map(&Config { devices: vec![device("192.168.1.10", "left")] });
    assert_eq!(resolve_edge(&map, "192.168.1.1"), None);
    assert_eq!(resolve_edge(&map, ""), None);
}

#[test]
fn unknown_edge_name_resolves_to_nothing() {
    let map = build_map(&Config { devices: vec![device("192.168.1.10", "top")] });
    assert_eq!(map.get("192.168.1.10"), Some(&"top".to_string()));
    assert_eq!(resolve_edge(&map, "192.168.1.10"), None);
}
