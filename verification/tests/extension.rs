use chrome_leap::edge::{Edge, GestureEvent};
use chrome_leap::extension::{
    encode_request, request_from, DropReason, ExtensionGateway, Frame, FrameAction, GestureAction,
    GestureSignal,
};
use chrome_leap::registry::{DeviceInfo, DeviceRegistry};

fn list(items: &[&str]) -> Vec<String> {
    items.iter().map(|s| s.to_string()).collect()
}

fn report(tabs: &[&str], edge: &str) -> Frame {
    Frame::Report { tabs: list(tabs), edge: edge.to_string() }
}

fn registry_with_left() -> DeviceRegistry<u32> {
    let mut registry = DeviceRegistry::new();
    registry.register(Edge::Left, "192.168.1.10".to_string(), 1u32);
    registry
}

#[test]
fn request_is_tagged_with_the_edge() {
    assert_eq!(
        encode_request("left"),
        Some("{\"action\":\"get_tabs\",\"edge\":\"left\"}".to_string())
    );
    assert_eq!(
        encode_request("right"),
        Some("{\"action\":\"get_tabs\",\"edge\":\"right\"}".to_string())
    );
}

#[test]
fn request_escapes_the_edge_name() {
    assert_eq!(encode_request(""), Some("{\"action\":\"get_tabs\",\"edge\":\"\"}".to_string()));
    assert_eq!(
        encode_request("a\"b"),
        Some("{\"action\":\"get_tabs\",\"edge\":\"a\\\"b\"}".to_string())
    );
}

#[test]
fn request_is_json_with_action_and_edge() {
    let text = encode_request("left").unwrap();
    let value: serde_json::Value = serde_json::from_str(&text).unwrap();
    let object = value.as_object().unwrap();
    assert_eq!(object.len(), 2);
    assert_eq!(object.get("action").and_then(|v| v.as_str()), Some("get_tabs"));
    assert_eq!(object.get("edge").and_then(|v| v.as_str()), Some("left"));
}

#[test]
fn request_is_framed_around_the_quoted_name() {
    assert_eq!(
        request_from(Some("\"left\"".to_string())),
        Some("{\"action\":\"get_tabs\",\"edge\":\"left\"}".to_string())
    );
    assert_eq!(request_from(None), None);
}

#[test]
fn gesture_becomes_one_request() {
    let gateway = ExtensionGateway::new();
    let text = GestureEvent { edge: Edge::Left }.to_text();
    assert_eq!(
        gateway.on_gesture(GestureSignal::Message(text)),
        GestureAction::Request("{\"action\":\"get_tabs\",\"edge\":\"left\"}".to_string())
    );
    assert!(gateway.open());
}

#[test]
fn other_messages_lead_to_nothing() {
    let gateway = ExtensionGateway::new();
    assert_eq!(gateway.on_gesture(GestureSignal::Message("hello".to_string())), GestureAction::Idle);
    assert_eq!(gateway.on_gesture(GestureSignal::Message("tabs-left".to_string())), GestureAction::Idle);
    assert_eq!(gateway.on_gesture(GestureSignal::Message(String::new())), GestureAction::Idle);
}

#[test]
fn missed_gestures_are_a_gap_and_no_more() {
    let gateway = ExtensionGateway::new();
    assert_eq!(gateway.on_gesture(GestureSignal::Missed), GestureAction::Idle);
    assert!(gateway.open());
    assert_eq!(
        gateway.on_gesture(GestureSignal::Message("get_tabs-right".to_string())),
        GestureAction::Request("{\"action\":\"get_tabs\",\"edge\":\"right\"}".to_string())
    );
}

#[test]
fn every_subscriber_gets_the_request() {
    let text = GestureEvent { edge: Edge::Right }.to_text();
    let gateways = [ExtensionGateway::new(), ExtensionGateway::new(), ExtensionGateway::new()];
    for gateway in gateways.iter() {
        assert_eq!(
            gateway.on_gesture(GestureSignal::Message(text.clone())),
            GestureAction::Request("{\"action\":\"get_tabs\",\"edge\":\"right\"}".to_string())
        );
    }
}

#[test]
fn failed_send_ends_the_connection() {
    let mut gateway = ExtensionGateway::new();
    gateway.on_send_failed();
    assert!(!gateway.open());
    assert_eq!(
        gateway.on_gesture(GestureSignal::Message("get_tabs-left".to_string())),
        GestureAction::Stop
    );
    let registry = registry_with_left();
    assert_eq!(gateway.on_frame(&registry, report(&["https://x"], "left")), FrameAction::Stop);
}

#[test]
fn report_is_forwarded_to_the_peer_of_its_edge() {
    let registry = registry_with_left();
    let mut gateway = ExtensionGateway::new();
    let device = DeviceInfo { edge: Edge::Left, address: "192.168.1.10".to_string(), outbound: 1u32 };
    assert_eq!(
        gateway.on_frame(&registry, report(&["https://a.test", "https://b.test"], "left")),
        FrameAction::Forward {
            device: &device,
            payload: "[\"https://a.test\",\"https://b.test\"]".to_string(),
        }
    );
    assert!(gateway.open());
}

#[test]
fn report_for_an_edge_without_a_peer_is_dropped() {
    let registry = registry_with_left();
    let mut gateway = ExtensionGateway::new();
    assert_eq!(
        gateway.on_frame(&registry, report(&["https://a.test"], "right")),
        FrameAction::Drop(DropReason::NoDevice)
    );
    assert!(gateway.open());
}

#[test]
fn report_for_an_unknown_edge_is_dropped() {
    let registry = registry_with_left();
    let mut gateway = ExtensionGateway::new();
    assert_eq!(
        gateway.on_frame(&registry, report(&["https://a.test"], "top")),
        FrameAction::Drop(DropReason::UnknownEdge)
    );
    assert_eq!(
        gateway.on_frame(&registry, report(&["https://a.test"], "")),
        FrameAction::Drop(DropReason::UnknownEdge)
    );
    assert!(gateway.open());
}

#[test]
fn malformed_frame_does_not_end_the_connection() {
    let registry = registry_with_left();
    let mut gateway = ExtensionGateway::new();
    assert_eq!(gateway.on_frame(&registry, Frame::Malformed), FrameAction::Drop(DropReason::Malformed));
    assert!(gateway.open());
    assert!(matches!(
        gateway.on_frame(&registry, report(&["https://a.test"], "left")),
        FrameAction::Forward { .. }
    ));
}

#[test]
fn other_frames_are_passed_over() {
    let registry = registry_with_left();
    let mut gateway = ExtensionGateway::new();
    assert_eq!(gateway.on_frame(&registry, Frame::Other), FrameAction::Idle);
    assert!(gateway.open());
}

#[test]
fn close_frame_ends_the_connection() {
    let registry = registry_with_left();
    let mut gateway = ExtensionGateway::new();
    assert_eq!(gateway.on_frame(&registry, Frame::Close), FrameAction::Stop);
    assert!(!gateway.open());
    assert_eq!(gateway.on_frame(&registry, Frame::Other), FrameAction::Stop);
    assert_eq!(gateway.on_gesture(GestureSignal::Missed), GestureAction::Stop);
}

#[test]
fn failed_receive_ends_the_connection() {
    let registry = registry_with_left();
    let mut gateway = ExtensionGateway::new();
    assert_eq!(gateway.on_frame(&registry, Frame::Failed), FrameAction::Stop);
    assert!(!gateway.open());
}
