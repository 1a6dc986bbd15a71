use chrome_leap::config::{build_map, Config, Device};
use chrome_leap::edge::Edge;
use chrome_leap::peer::{PeerAction, PeerEvent, PeerGateway};
use chrome_leap::registry::{DeviceInfo, DeviceRegistry};

fn config() -> Config {
    Config {
        devices: vec![
            Device { address: "192.168.1.10".to_string(), edge: "left".to_string() },
            Device { address: "192.168.1.11".to_string(), edge: "right".to_string() },
            Device { address: "192.168.1.12".to_string(), edge: "top".to_string() },
        ],
    }
}

#[test]
fn configured_peer_is_registered_on_accept() {
    let map = build_map(&config());
    let mut registry = DeviceRegistry::new();
    let gateway = PeerGateway::accept(&map, &mut registry, "192.168.1.11".to_string(), 5u32);
    assert!(gateway.open());
    assert_eq!(gateway.peer_address(), "192.168.1.11");
    assert_eq!(gateway.registered_edge(), Some(Edge::Right));
    assert_eq!(
        registry.lookup(Edge::Right),
        Some(&DeviceInfo { edge: Edge::Right, address: "192.168.1.11".to_string(), outbound: 5 })
    );
    assert_eq!(registry.lookup(Edge::Left), None);
}

#[test]
fn unconfigured_peer_is_served_but_not_registered() {
    let map = build_map(&config());
    let mut registry: DeviceRegistry<u32> = DeviceRegistry::new();
    let mut gateway = PeerGateway::accept(&map, &mut registry, "10.1.1.1".to_string(), 5);
    assert!(gateway.open());
    assert_eq!(gateway.registered_edge(), None);
    assert_eq!(registry.len(), 0);
    assert_eq!(gateway.step(PeerEvent::Read(3)), PeerAction::Note(3));
}

#[test]
fn peer_with_an_unknown_edge_name_is_not_registered() {
    let map = build_map(&config());
    let mut registry: DeviceRegistry<u32> = DeviceRegistry::new();
    let gateway = PeerGateway::accept(&map, &mut registry, "192.168.1.12".to_string(), 5);
    assert_eq!(gateway.registered_edge(), None);
    assert_eq!(registry.len(), 0);
}

#[test]
fn second_connection_for_an_edge_replaces_the_first() {
    let map = build_map(&config());
    let mut registry = DeviceRegistry::new();
    let _first = PeerGateway::accept(&map, &mut registry, "192.168.1.10".to_string(), 1u32);
    let _second = PeerGateway::accept(&map, &mut registry, "192.168.1.10".to_string(), 2u32);
    assert_eq!(registry.len(), 1);
    assert_eq!(registry.lookup(Edge::Left).map(|d| d.outbound), Some(2));
}

#[test]
fn outbound_payload_is_written_verbatim() {
    let map = build_map(&config());
    let mut registry = DeviceRegistry::new();
    let mut gateway = PeerGateway::accept(&map, &mut registry, "192.168.1.10".to_string(), 1u32);
    assert_eq!(
        gateway.step(PeerEvent::Outbound("[\"https://x\"]".to_string())),
        PeerAction::Write("[\"https://x\"]".to_string())
    );
    assert_eq!(gateway.step(PeerEvent::Outbound(String::new())), PeerAction::Write(String::new()));
    assert!(gateway.open());
}

#[test]
fn received_bytes_are_only_noted() {
    let map = build_map(&config());
    let mut registry = DeviceRegistry::new();
    let mut gateway = PeerGateway::accept(&map, &mut registry, "192.168.1.10".to_string(), 1u32);
    assert_eq!(gateway.step(PeerEvent::Read(1)), PeerAction::Note(1));
    assert_eq!(gateway.step(PeerEvent::Read(1024)), PeerAction::Note(1024));
    assert!(gateway.open());
    assert!(registry.is_registered(Edge::Left));
}

#[test]
fn empty_read_closes_the_connection() {
    let map = build_map(&config());
    let mut registry = DeviceRegistry::new();
    let mut gateway = PeerGateway::accept(&map, &mut registry, "192.168.1.10".to_string(), 1u32);
    assert_eq!(gateway.step(PeerEvent::Read(0)), PeerAction::Close);
    assert!(!gateway.open());
    assert_eq!(gateway.step(PeerEvent::Outbound("[]".to_string())), PeerAction::Close);
    assert_eq!(gateway.step(PeerEvent::Read(4)), PeerAction::Close);
}

#[test]
fn failed_read_or_write_closes_the_connection() {
    let map = build_map(&config());
    for event in [PeerEvent::ReadFailed, PeerEvent::WriteFailed] {
        let mut registry = DeviceRegistry::new();
        let mut gateway = PeerGateway::accept(&map, &mut registry, "192.168.1.10".to_string(), 1u32);
        assert_eq!(gateway.step(event), PeerAction::Close);
        assert!(!gateway.open());
        assert_eq!(gateway.registered_edge(), Some(Edge::Left));
    }
}

#[test]
fn finishing_removes_the_entry_of_the_edge() {
    let map = build_map(&config());
    let mut registry = DeviceRegistry::new();
    let left = PeerGateway::accept(&map, &mut registry, "192.168.1.10".to_string(), 1u32);
    let _right = PeerGateway::accept(&map, &mut registry, "192.168.1.11".to_string(), 2u32);
    left.finish(&mut registry);
    assert_eq!(registry.lookup(Edge::Left), None);
    assert_eq!(registry.lookup(Edge::Right).map(|d| d.outbound), Some(2));
}

#[test]
fn finishing_an_unregistered_connection_changes_nothing() {
    let map = build_map(&config());
    let mut registry = DeviceRegistry::new();
    let _left = PeerGateway::accept(&map, &mut registry, "192.168.1.10".to_string(), 1u32);
    let stranger = PeerGateway::accept(&map, &mut registry, "10.1.1.1".to_string(), 9u32);
    stranger.finish(&mut registry);
    assert_eq!(registry.len(), 1);
    assert_eq!(registry.lookup(Edge::Left).map(|d| d.outbound), Some(1));
}

#[test]
fn outbound_channel_holds_thirty_two_payloads() {
    assert_eq!(chrome_leap::peer::OUTBOUND_CAPACITY, 32);
}
