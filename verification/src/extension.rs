//! The gateway that serves one browser extension.
//!
//! A connection to an extension does two things side by side: it passes each
//! gesture on to the extension as a request for its tabs, and it takes the tab
//! lists that the extension reports and has them routed to the peer of their
//! edge. The gateway decides; sending and receiving are the caller's part.
//!
//! The wire format is one coherent version of the extension protocol: a
//! request is `{"action":"get_tabs","edge":"<name>"}`, and a report carries the
//! tabs together with the name of the edge they are meant for.

use crate::edge::Edge;
use crate::json::{encode_string, json_string, tab_list_json};
use crate::registry::{DeviceInfo, DeviceRegistry};
use crate::router::{route, routing, RouteOutcome, Routing};
use crate::trigger::{parse_trigger, requested_edge, trigger_round_trip, trigger_text};
use vstd::prelude::*;
use vstd::string::*;

verus! {

/// What the subscription to the gesture channel yields.
#[derive(Debug, PartialEq, Eq)]
pub enum GestureSignal {
    /// A message from the channel.
    Message(String),
    /// The connection fell behind and messages were lost to it.
    Missed,
}

/// What comes in from the extension.
#[derive(Debug, PartialEq, Eq)]
pub enum Frame {
    /// A text frame that decoded as a report of tabs for an edge.
    Report { tabs: Vec<String>, edge: String },
    /// A text frame that did not decode.
    Malformed,
    /// A close frame.
    Close,
    /// Any other frame.
    Other,
    /// Receiving failed.
    Failed,
}

/// What to do about a gesture signal.
#[derive(Debug, PartialEq, Eq)]
pub enum GestureAction {
    /// Send this text to the extension; tell the gateway if that fails.
    Request(String),
    /// The request has no JSON text: note it and go on.
    Skip,
    /// Nothing to do.
    Idle,
    /// The connection has ended.
    Stop,
}

/// Why a frame was dropped.
#[derive(Clone, Copy, Debug, PartialEq, Eq, Structural)]
pub enum DropReason {
    /// The frame did not decode.
    Malformed,
    /// The report names no edge.
    UnknownEdge,
    /// No peer is registered for the edge.
    NoDevice,
    /// The tab list has no JSON text.
    Unencodable,
}

/// What to do about a frame.
#[derive(Debug, PartialEq, Eq)]
pub enum FrameAction<'a, H> {
    /// Put `payload` on the outbound channel of `device`.
    Forward { device: &'a DeviceInfo<H>, payload: String },
    /// Note the reason and go on; the connection stays.
    Drop(DropReason),
    /// Nothing to do.
    Idle,
    /// The connection has ended.
    Stop,
}

/// A gesture action as a mathematical value.
pub enum GestureActionView {
    Request(Seq<char>),
    Skip,
    Idle,
    Stop,
}

/// A frame action as a mathematical value.
pub enum FrameActionView<H> {
    Forward { device: DeviceInfo<H>, payload: Seq<char> },
    Drop(DropReason),
    Idle,
    Stop,
}

impl View for GestureAction {
    type V = GestureActionView;

    open spec fn view(&self) -> GestureActionView {
        match *self {
            GestureAction::Request(text) => GestureActionView::Request(text@),
            GestureAction::Skip => GestureActionView::Skip,
            GestureAction::Idle => GestureActionView::Idle,
            GestureAction::Stop => GestureActionView::Stop,
        }
    }
}

impl<'a, H> View for FrameAction<'a, H> {
    type V = FrameActionView<H>;

    open spec fn view(&self) -> FrameActionView<H> {
        match *self {
            FrameAction::Forward { device, payload } => FrameActionView::Forward {
                device: *device,
                payload: payload@,
            },
            FrameAction::Drop(reason) => FrameActionView::Drop(reason),
            FrameAction::Idle => FrameActionView::Idle,
            FrameAction::Stop => FrameActionView::Stop,
        }
    }
}

/// The request for the tabs of the edge named `edge`, given the JSON string
/// literal of that name.
pub open spec fn request_with(quoted: Seq<char>) -> Seq<char> {
    "{\"action\":\"get_tabs\",\"edge\":"@ + quoted + "}"@
}

/// What an open connection does about a gesture signal. A message that asks
/// for tabs becomes one request, tagged with the edge of the gesture; any
/// other message, and a gap in the channel, leads to nothing.
pub open spec fn gesture_reaction(signal: GestureSignal) -> GestureActionView {
    match signal {
        GestureSignal::Missed => GestureActionView::Idle,
        GestureSignal::Message(msg) => match requested_edge(msg@) {
            None => GestureActionView::Idle,
            Some(edge) => match json_string(edge) {
                Some(quoted) => GestureActionView::Request(request_with(quoted)),
                None => GestureActionView::Skip,
            },
        },
    }
}

/// What an open connection does about a report.
pub open spec fn report_reaction<H>(
    devices: Map<Edge, DeviceInfo<H>>,
    tabs: Seq<Seq<char>>,
    edge: Seq<char>,
) -> FrameActionView<H> {
    match Edge::named(edge) {
        None => FrameActionView::Drop(DropReason::UnknownEdge),
        Some(to) => match routing(devices, to, tabs) {
            Routing::Deliver { device, payload } => FrameActionView::Forward { device, payload },
            Routing::NoDevice => FrameActionView::Drop(DropReason::NoDevice),
            Routing::Unencodable => FrameActionView::Drop(DropReason::Unencodable),
        },
    }
}

/// What an open connection does about a frame. Only a close frame and a
/// failure to receive end the connection; a frame that did not decode is
/// dropped and the connection stays.
pub open spec fn frame_reaction<H>(devices: Map<Edge, DeviceInfo<H>>, frame: Frame)
    -> FrameActionView<H> {
    match frame {
        Frame::Report { tabs, edge } => report_reaction(devices, tabs.deep_view(), edge@),
        Frame::Malformed => FrameActionView::Drop(DropReason::Malformed),
        Frame::Close => FrameActionView::Stop,
        Frame::Other => FrameActionView::Idle,
        Frame::Failed => FrameActionView::Stop,
    }
}

/// The text of the request for the tabs of an edge.
pub fn encode_request(edge: &str) -> (text: Option<String>)
    ensures
        match text {
            Some(t) => json_string(edge@) matches Some(quoted) && t@ == request_with(quoted),
            None => json_string(edge@) is None,
        },
{
    request_from(encode_string(edge))
}

/// Frames a request around the JSON string literal of an edge name.
pub fn request_from(quoted: Option<String>) -> (text: Option<String>)
    ensures
        match text {
            Some(t) => quoted matches Some(q) && t@ == request_with(q@),
            None => quoted is None,
        },
{
    match quoted {
        Some(q) => {
            let mut text = String::from_str("{\"action\":\"get_tabs\",\"edge\":");
            text.append(q.as_str());
            text.append("}");
            Some(text)
        },
        None => None,
    }
}

/// One connection to an extension.
pub struct ExtensionGateway {
    open: bool,
}

impl ExtensionGateway {
    /// Whether the connection still stands.
    pub closed spec fn is_open(&self) -> bool {
        self.open
    }

    /// The gateway of a connection that has just been accepted.
    pub fn new() -> (gateway: Self)
        ensures
            gateway.is_open(),
    {
        ExtensionGateway { open: true }
    }

    /// Whether the connection still stands.
    pub fn open(&self) -> (open: bool)
        ensures
            open == self.is_open(),
    {
        self.open
    }

    /// Takes what the gesture channel yielded. An ended connection answers
    /// `Stop`; nothing here ends a connection.
    pub fn on_gesture(&self, signal: GestureSignal) -> (action: GestureAction)
        ensures
            action@ == if self.is_open() {
                gesture_reaction(signal)
            } else {
                GestureActionView::Stop
            },
    {
        if !self.open {
            return GestureAction::Stop;
        }
        match signal {
            GestureSignal::Missed => GestureAction::Idle,
            GestureSignal::Message(msg) => match parse_trigger(msg.as_str()) {
                None => GestureAction::Idle,
                Some(edge) => match encode_request(edge.as_str()) {
                    Some(text) => GestureAction::Request(text),
                    None => GestureAction::Skip,
                },
            },
        }
    }

    /// Takes the news that a request could not be sent: the extension is
    /// taken to be gone and the connection ends.
    pub fn on_send_failed(&mut self)
        ensures
            !final(self).is_open(),
    {
        self.open = false;
    }

    /// Takes a frame from the extension. An ended connection answers `Stop`;
    /// a close frame and a failure to receive end the connection.
    pub fn on_frame<'a, H>(&mut self, registry: &'a DeviceRegistry<H>, frame: Frame) -> (action:
        FrameAction<'a, H>)
        ensures
            action@ == if old(self).is_open() {
                frame_reaction(registry@, frame)
            } else {
                FrameActionView::Stop
            },
            final(self).is_open() == (old(self).is_open() && !(action@ is Stop)),
    {
        if !self.open {
            return FrameAction::Stop;
        }
        match frame {
            Frame::Report { tabs, edge } => match Edge::from_name(edge.as_str()) {
                None => FrameAction::Drop(DropReason::UnknownEdge),
                Some(to) => match route(registry, to, &tabs) {
                    RouteOutcome::Deliver { device, payload } => FrameAction::Forward {
                        device,
                        payload,
                    },
                    RouteOutcome::NoDevice => FrameAction::Drop(DropReason::NoDevice),
                    RouteOutcome::Unencodable => FrameAction::Drop(DropReason::Unencodable),
                },
            },
            Frame::Malformed => FrameAction::Drop(DropReason::Malformed),
            Frame::Close => {
                self.open = false;
                FrameAction::Stop
            },
            Frame::Other => FrameAction::Idle,
            Frame::Failed => {
                self.open = false;
                FrameAction::Stop
            },
        }
    }
}

/// A gesture that is announced on the channel reaches the extension as one
/// request tagged with the name of its edge.
pub proof fn gesture_becomes_request(edge: Edge, msg: String)
    requires
        msg@ == trigger_text(edge),
    ensures
        gesture_reaction(GestureSignal::Message(msg)) == match json_string(edge.name_text()) {
            Some(quoted) => GestureActionView::Request(request_with(quoted)),
            None => GestureActionView::Skip,
        },
{
    trigger_round_trip(edge);
}

/// A report that names an edge is forwarded to the peer registered for that
/// edge, as the JSON text of exactly the reported list.
pub proof fn report_reaches_registered_peer<H>(
    devices: Map<Edge, DeviceInfo<H>>,
    edge: Edge,
    info: DeviceInfo<H>,
    tabs: Seq<Seq<char>>,
)
    ensures
        report_reaction(devices.insert(edge, info), tabs, edge.name_text()) == match tab_list_json(
            tabs,
        ) {
            Some(payload) => FrameActionView::Forward { device: info, payload },
            None => FrameActionView::Drop(DropReason::Unencodable),
        },
{
    Edge::name_round_trip(edge);
}

/// A report for an edge without a registered peer is dropped, and so is one
/// whose edge name names no edge; neither is forwarded to anybody.
pub proof fn report_without_peer_is_dropped<H>(
    devices: Map<Edge, DeviceInfo<H>>,
    tabs: Seq<Seq<char>>,
    edge: Seq<char>,
)
    requires
        Edge::named(edge) matches Some(to) ==> !devices.contains_key(to),
    ensures
        report_reaction(devices, tabs, edge) is Drop,
{
}

} // verus!
