//! The gateway that serves one connected peer machine.
//!
//! When a peer connects, its address is looked up in the configuration. A
//! peer with an edge is filed in the registry under that edge; a peer without
//! one is served all the same, but nothing can be routed to it. While the
//! connection stands, whatever arrives on its outbound channel is written to
//! the peer as it is, with no length in front and no delimiter behind: one
//! write carries one payload. What the peer sends is only noted. When the
//! connection ends, its edge is taken out of the registry.

use crate::config::{resolve_edge, resolved, texts, AddressMap};
use crate::edge::Edge;
use crate::registry::{DeviceInfo, DeviceRegistry};
use vstd::prelude::*;

verus! {

/// How many payloads may wait on the outbound channel of one peer. Each peer
/// has a channel of its own, so a full one holds up no other peer.
pub const OUTBOUND_CAPACITY: usize = 32;

/// What happened on the connection.
#[derive(Debug, PartialEq, Eq)]
pub enum PeerEvent {
    /// A payload arrived on the outbound channel.
    Outbound(String),
    /// A read returned this many bytes; none at all means that the peer closed
    /// the connection.
    Read(usize),
    /// A read failed.
    ReadFailed,
    /// A write failed.
    WriteFailed,
}

/// What to do next.
#[derive(Debug, PartialEq, Eq)]
pub enum PeerAction {
    /// Write exactly the bytes of this payload to the peer.
    Write(String),
    /// Note that the peer sent this many bytes, and go on.
    Note(usize),
    /// The connection has ended: leave the loop and finish.
    Close,
}

/// An action as a mathematical value.
pub enum PeerActionView {
    Write(Seq<char>),
    Note(nat),
    Close,
}

impl View for PeerAction {
    type V = PeerActionView;

    open spec fn view(&self) -> PeerActionView {
        match *self {
            PeerAction::Write(payload) => PeerActionView::Write(payload@),
            PeerAction::Note(n) => PeerActionView::Note(n as nat),
            PeerAction::Close => PeerActionView::Close,
        }
    }
}

/// What an open connection does about an event.
pub open spec fn peer_reaction(event: PeerEvent) -> PeerActionView {
    match event {
        PeerEvent::Outbound(payload) => PeerActionView::Write(payload@),
        PeerEvent::Read(n) => if n == 0 {
            PeerActionView::Close
        } else {
            PeerActionView::Note(n as nat)
        },
        PeerEvent::ReadFailed => PeerActionView::Close,
        PeerEvent::WriteFailed => PeerActionView::Close,
    }
}

/// The registry after a peer from `address` with the channel `outbound` has
/// been accepted: filed under its edge if it has one, unchanged if not.
pub open spec fn accepted<H>(
    devices: Map<Edge, DeviceInfo<H>>,
    edge: Option<Edge>,
    address: String,
    outbound: H,
) -> Map<Edge, DeviceInfo<H>> {
    match edge {
        Some(e) => devices.insert(e, DeviceInfo { edge: e, address, outbound }),
        None => devices,
    }
}

/// The registry after a connection with this edge has finished.
pub open spec fn finished<H>(devices: Map<Edge, DeviceInfo<H>>, edge: Option<Edge>) -> Map<
    Edge,
    DeviceInfo<H>,
> {
    match edge {
        Some(e) => devices.remove(e),
        None => devices,
    }
}

/// One connection to a peer.
pub struct PeerGateway {
    address: String,
    edge: Option<Edge>,
    open: bool,
}

impl PeerGateway {
    /// The address the peer connected from.
    pub closed spec fn address(&self) -> Seq<char> {
        self.address@
    }

    /// The edge the peer was filed under, if its address is configured.
    pub closed spec fn edge(&self) -> Option<Edge> {
        self.edge
    }

    /// Whether the connection still stands.
    pub closed spec fn is_open(&self) -> bool {
        self.open
    }

    /// Accepts a peer that connected from `address`, with `outbound` as the
    /// handle of the channel that its connection will drain.
    pub fn accept<H>(
        map: &AddressMap,
        registry: &mut DeviceRegistry<H>,
        address: String,
        outbound: H,
    ) -> (gateway: Self)
        ensures
            gateway.is_open(),
            gateway.address() == address@,
            gateway.edge() == resolved(texts(map@), address@),
            final(registry)@ == accepted(old(registry)@, gateway.edge(), address, outbound),
    {
        let edge = resolve_edge(map, address.as_str());
        let kept = address.clone();
        match edge {
            Some(e) => {
                let _ = registry.register(e, address, outbound);
            },
            None => {},
        }
        PeerGateway { address: kept, edge, open: true }
    }

    /// The address the peer connected from.
    pub fn peer_address(&self) -> (address: &str)
        ensures
            address@ == self.address(),
    {
        self.address.as_str()
    }

    /// The edge the peer was filed under, if its address is configured.
    pub fn registered_edge(&self) -> (edge: Option<Edge>)
        ensures
            edge == self.edge(),
    {
        self.edge
    }

    /// Whether the connection still stands.
    pub fn open(&self) -> (open: bool)
        ensures
            open == self.is_open(),
    {
        self.open
    }

    /// Takes an event and answers with what to do next. A read of no bytes
    /// and a failed read or write end the connection; an ended connection
    /// answers `Close` to everything.
    pub fn step(&mut self, event: PeerEvent) -> (action: PeerAction)
        ensures
            action@ == if old(self).is_open() {
                peer_reaction(event)
            } else {
                PeerActionView::Close
            },
            final(self).is_open() == (old(self).is_open() && !(action@ is Close)),
            final(self).edge() == old(self).edge(),
            final(self).address() == old(self).address(),
    {
        if !self.open {
            return PeerAction::Close;
        }
        match event {
            PeerEvent::Outbound(payload) => PeerAction::Write(payload),
            PeerEvent::Read(n) => {
                if n == 0 {
                    self.open = false;
                    PeerAction::Close
                } else {
                    PeerAction::Note(n)
                }
            },
            PeerEvent::ReadFailed => {
                self.open = false;
                PeerAction::Close
            },
            PeerEvent::WriteFailed => {
                self.open = false;
                PeerAction::Close
            },
        }
    }

    /// Ends the connection: the entry of its edge leaves the registry.
    pub fn finish<H>(self, registry: &mut DeviceRegistry<H>)
        ensures
            final(registry)@ == finished(old(registry)@, self.edge()),
    {
        match self.edge {
            Some(e) => {
                let _ = registry.unregister(e);
            },
            None => {},
        }
    }
}

} // verus!
