use chrome_leap::config::{build_map, Config, Device};
use chrome_leap::edge::{Edge, GestureEvent};
use chrome_leap::extension::{ExtensionGateway, Frame, FrameAction, GestureAction, GestureSignal};
use chrome_leap::client::{ClientAction, ClientEvent, ReconnectingPeerClient};
use chrome_leap::peer::{PeerAction, PeerEvent, PeerGateway};
use chrome_leap::registry::DeviceRegistry;

#[test]
fn gesture_to_peer_end_to_end() {
    let config = Config {
        devices: vec![
            Device { address: "192.168.1.10".to_string(), edge: "left".to_string() },
            Device { address: "192.168.1.11".to_string(), edge: "right".to_string() },
        ],
    };
    let map = build_map(&config);
    let mut registry = DeviceRegistry::new();
    let mut left_peer = PeerGateway::accept(&map, &mut registry, "192.168.1.10".to_string(), 10u32);
    let _right_peer = PeerGateway::accept(&map, &mut registry, "192.168.1.11".to_string(), 11u32);

    let mut first = ExtensionGateway::new();
    let second = ExtensionGateway::new();

    let published = GestureEvent { edge: Edge::Left }.to_text();
    let request = "{\"action\":\"get_tabs\",\"edge\":\"left\"}".to_string();
    assert_eq!(
        first.on_gesture(GestureSignal::Message(published.clone())),
        GestureAction::Request(request.clone())
    );
    assert_eq!(
        second.on_gesture(GestureSignal::Message(published)),
        GestureAction::Request(request)
    );

    let reply = Frame::Report { tabs: vec!["https://x".to_string()], edge: "left".to_string() };
    let payload = match first.on_frame(&registry, reply) {
        FrameAction::Forward { device, payload } => {
            assert_eq!(device.edge, Edge::Left);
            assert_eq!(device.outbound, 10);
            assert_eq!(device.address, "192.168.1.10");
            payload
        }
        other => panic!("not forwarded: {:?}", other),
    };
    assert_eq!(payload, "[\"https://x\"]");

    let written = match left_peer.step(PeerEvent::Outbound(payload)) {
        PeerAction::Write(bytes) => bytes,
        other => panic!("not written: {:?}", other),
    };
    assert_eq!(written, "[\"https://x\"]");

    let mut client = ReconnectingPeerClient::new();
    assert_eq!(client.step(ClientEvent::Ready), ClientAction::Dial);
    assert_eq!(client.step(ClientEvent::DialSucceeded), ClientAction::Read);
    assert_eq!(
        client.step(ClientEvent::Received(written.into_bytes())),
        ClientAction::Open(vec!["https://x".to_string()])
    );
}
