//! Routing of a reported tab list to the peer registered for an edge.
//!
//! Routing is targeted: a tab list goes to the one peer registered for its
//! edge and to no other. The router only decides; putting the payload on the
//! peer's channel is left to the caller, who does it after the registry has
//! been released, so that a full queue of one peer holds up nobody else.

use crate::edge::Edge;
use crate::json::{encode_tab_list, tab_list_json};
use crate::registry::{DeviceInfo, DeviceRegistry};
use vstd::prelude::*;

verus! {

/// What is to be done with a tab list.
#[derive(Debug, PartialEq, Eq)]
pub enum RouteOutcome<'a, H> {
    /// Put `payload` on the outbound channel of `device`.
    Deliver { device: &'a DeviceInfo<H>, payload: String },
    /// No peer is registered for the edge: the tab list is dropped.
    NoDevice,
    /// The tab list has no JSON text: it is dropped.
    Unencodable,
}

/// A routing decision as a mathematical value.
pub enum Routing<H> {
    Deliver { device: DeviceInfo<H>, payload: Seq<char> },
    NoDevice,
    Unencodable,
}

impl<'a, H> View for RouteOutcome<'a, H> {
    type V = Routing<H>;

    open spec fn view(&self) -> Routing<H> {
        match *self {
            RouteOutcome::Deliver { device, payload } => Routing::Deliver {
                device: *device,
                payload: payload@,
            },
            RouteOutcome::NoDevice => Routing::NoDevice,
            RouteOutcome::Unencodable => Routing::Unencodable,
        }
    }
}

/// The decision for a tab list whose JSON text is `encoded`: it goes, as that
/// text, to the peer registered for `edge`.
pub open spec fn routing_of_encoded<H>(
    devices: Map<Edge, DeviceInfo<H>>,
    edge: Edge,
    encoded: Option<Seq<char>>,
) -> Routing<H> {
    match encoded {
        None => Routing::Unencodable,
        Some(payload) => if devices.contains_key(edge) {
            Routing::Deliver { device: devices[edge], payload }
        } else {
            Routing::NoDevice
        },
    }
}

/// The decision for a tab list addressed to `edge`.
pub open spec fn routing<H>(
    devices: Map<Edge, DeviceInfo<H>>,
    edge: Edge,
    tabs: Seq<Seq<char>>,
) -> Routing<H> {
    routing_of_encoded(devices, edge, tab_list_json(tabs))
}

/// Decides where an already serialised tab list goes.
pub fn route_encoded<'a, H>(
    registry: &'a DeviceRegistry<H>,
    edge: Edge,
    encoded: Option<String>,
) -> (outcome: RouteOutcome<'a, H>)
    ensures
        outcome@ == routing_of_encoded(
            registry@,
            edge,
            match encoded {
                Some(text) => Some(text@),
                None => None,
            },
        ),
{
    match encoded {
        None => RouteOutcome::Unencodable,
        Some(payload) => match registry.lookup(edge) {
            Some(device) => RouteOutcome::Deliver { device, payload },
            None => RouteOutcome::NoDevice,
        },
    }
}

/// Serialises a tab list and decides where it goes.
pub fn route<'a, H>(registry: &'a DeviceRegistry<H>, edge: Edge, tabs: &Vec<String>) -> (outcome:
    RouteOutcome<'a, H>)
    ensures
        outcome@ == routing(registry@, edge, tabs.deep_view()),
{
    let encoded = encode_tab_list(tabs);
    route_encoded(registry, edge, encoded)
}

/// A tab list addressed to an edge goes to the peer that was registered for
/// that edge last, as the JSON text of exactly that list.
pub proof fn registered_peer_receives<H>(
    devices: Map<Edge, DeviceInfo<H>>,
    edge: Edge,
    info: DeviceInfo<H>,
    tabs: Seq<Seq<char>>,
)
    ensures
        routing(devices.insert(edge, info), edge, tabs) == match tab_list_json(tabs) {
            Some(payload) => Routing::Deliver { device: info, payload },
            None => Routing::Unencodable,
        },
{
}

/// A tab list addressed to an edge without a registered peer is delivered to
/// nobody.
pub proof fn unregistered_edge_receives_nothing<H>(
    devices: Map<Edge, DeviceInfo<H>>,
    edge: Edge,
    tabs: Seq<Seq<char>>,
)
    requires
        !devices.contains_key(edge),
    ensures
        !(routing(devices, edge, tabs) is Deliver),
        devices.remove(edge) == devices,
{
    assert(devices.remove(edge) =~= devices);
}

/// Once the entry of an edge is removed, nothing is delivered for that edge.
pub proof fn unregistered_peer_receives_nothing<H>(
    devices: Map<Edge, DeviceInfo<H>>,
    edge: Edge,
    tabs: Seq<Seq<char>>,
)
    ensures
        !(routing(devices.remove(edge), edge, tabs) is Deliver),
{
}

/// Registering a second peer for an edge replaces the first: the registry is
/// as if the first had never been registered, and whatever is routed
/// afterwards goes to the second peer or to a peer of another edge that was
/// there before, never to the first.
pub proof fn reregistration_replaces<H>(
    devices: Map<Edge, DeviceInfo<H>>,
    edge: Edge,
    first: DeviceInfo<H>,
    second: DeviceInfo<H>,
    to: Edge,
    tabs: Seq<Seq<char>>,
)
    ensures
        devices.insert(edge, first).insert(edge, second) == devices.insert(edge, second),
        devices.insert(edge, first).insert(edge, second).get(edge) == Some(second),
        routing(devices.insert(edge, first).insert(edge, second), to, tabs) matches Routing::Deliver {
            device,
            ..
        } ==> if to == edge {
            device == second
        } else {
            devices.contains_key(to) && device == devices[to]
        },
{
    assert(devices.insert(edge, first).insert(edge, second) =~= devices.insert(edge, second));
}

/// Routing for one edge does not depend on who is registered for another.
pub proof fn other_edges_do_not_interfere<H>(
    devices: Map<Edge, DeviceInfo<H>>,
    edge: Edge,
    info: DeviceInfo<H>,
    to: Edge,
    tabs: Seq<Seq<char>>,
)
    requires
        to != edge,
    ensures
        routing(devices.insert(edge, info), to, tabs) == routing(devices, to, tabs),
        routing(devices.remove(edge), to, tabs) == routing(devices, to, tabs),
{
}

} // verus!
