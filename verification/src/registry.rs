//! The live registry of connected peers: for each edge, the peer that is
//! connected for it now, with the handle of its outbound channel.
//!
//! The registry is a plain value. Whoever shares it between tasks guards it
//! with one exclusive lock; every operation here runs in constant time and
//! performs no input or output, so the lock is never held across a wait.

use crate::edge::Edge;
use vstd::prelude::*;

verus! {

/// A connected peer: the edge it serves, the address it connected from, and
/// the handle `H` of the channel that its connection drains.
#[derive(Debug, PartialEq, Eq)]
pub struct DeviceInfo<H> {
    pub edge: Edge,
    pub address: String,
    pub outbound: H,
}

/// At most one connected peer per edge.
pub struct DeviceRegistry<H> {
    left: Option<DeviceInfo<H>>,
    right: Option<DeviceInfo<H>>,
}

/// Every entry of the map is filed under its own edge.
pub open spec fn filed_by_edge<H>(devices: Map<Edge, DeviceInfo<H>>) -> bool {
    forall|edge: Edge| #[trigger] devices.contains_key(edge) ==> devices[edge].edge == edge
}

impl<H> View for DeviceRegistry<H> {
    type V = Map<Edge, DeviceInfo<H>>;

    closed spec fn view(&self) -> Map<Edge, DeviceInfo<H>> {
        let none = Map::<Edge, DeviceInfo<H>>::empty();
        let left = match self.left {
            Some(info) => none.insert(Edge::Left, info),
            None => none,
        };
        match self.right {
            Some(info) => left.insert(Edge::Right, info),
            None => left,
        }
    }
}

impl<H> DeviceRegistry<H> {
    #[verifier::type_invariant]
    spec fn slots_match(self) -> bool {
        &&& self.left matches Some(info) ==> info.edge == Edge::Left
        &&& self.right matches Some(info) ==> info.edge == Edge::Right
    }

    /// A registry with no peer connected.
    pub fn new() -> (registry: Self)
        ensures
            registry@ == Map::<Edge, DeviceInfo<H>>::empty(),
    {
        DeviceRegistry { left: None, right: None }
    }

    /// Moves every entry out and leaves the registry empty.
    fn take_all(&mut self) -> (all: Self)
        ensures
            all == *old(self),
            final(self).left is None,
            final(self).right is None,
    {
        let mut all = DeviceRegistry { left: None, right: None };
        core::mem::swap(self, &mut all);
        all
    }

    /// Files a newly connected peer under `edge`. A peer already filed there
    /// is replaced and handed back; no other entry changes.
    pub fn register(&mut self, edge: Edge, address: String, outbound: H) -> (replaced: Option<
        DeviceInfo<H>,
    >)
        ensures
            final(self)@ == old(self)@.insert(edge, DeviceInfo { edge, address, outbound }),
            replaced == old(self)@.get(edge),
    {
        proof {
            use_type_invariant(&*self);
        }
        let info = DeviceInfo { edge, address, outbound };
        let DeviceRegistry { left, right } = self.take_all();
        let replaced = match edge {
            Edge::Left => {
                *self = DeviceRegistry { left: Some(info), right };
                left
            },
            Edge::Right => {
                *self = DeviceRegistry { left, right: Some(info) };
                right
            },
        };
        assert(self@ =~= old(self)@.insert(edge, info));
        replaced
    }

    /// The peer that is connected for `edge` now, if there is one.
    pub fn lookup(&self, edge: Edge) -> (found: Option<&DeviceInfo<H>>)
        ensures
            match found {
                Some(info) => self@.get(edge) == Some(*info) && info.edge == edge,
                None => !self@.contains_key(edge),
            },
            filed_by_edge(self@),
    {
        proof {
            use_type_invariant(self);
        }
        match edge {
            Edge::Left => self.left.as_ref(),
            Edge::Right => self.right.as_ref(),
        }
    }

    /// Removes the entry for `edge` and hands it back; no other entry changes.
    pub fn unregister(&mut self, edge: Edge) -> (removed: Option<DeviceInfo<H>>)
        ensures
            final(self)@ == old(self)@.remove(edge),
            removed == old(self)@.get(edge),
    {
        proof {
            use_type_invariant(&*self);
        }
        let DeviceRegistry { left, right } = self.take_all();
        let removed = match edge {
            Edge::Left => {
                *self = DeviceRegistry { left: None, right };
                left
            },
            Edge::Right => {
                *self = DeviceRegistry { left, right: None };
                right
            },
        };
        assert(self@ =~= old(self)@.remove(edge));
        removed
    }

    /// Whether a peer is connected for `edge`.
    pub fn is_registered(&self, edge: Edge) -> (yes: bool)
        ensures
            yes == self@.contains_key(edge),
    {
        match edge {
            Edge::Left => self.left.is_some(),
            Edge::Right => self.right.is_some(),
        }
    }

    /// How many peers are connected.
    pub fn len(&self) -> (n: usize)
        ensures
            n == self@.len(),
            n <= 2,
    {
        let l: usize = if self.left.is_some() { 1 } else { 0 };
        let r: usize = if self.right.is_some() { 1 } else { 0 };
        proof {
            Self::count_entries(self@);
        }
        l + r
    }

    proof fn count_entries(devices: Map<Edge, DeviceInfo<H>>)
        ensures
            devices.dom().finite(),
            devices.len() == (if devices.contains_key(Edge::Left) { 1nat } else { 0nat })
                + (if devices.contains_key(Edge::Right) { 1nat } else { 0nat }),
    {
        let dom = devices.dom();
        let empty = Set::<Edge>::empty();
        let with_left = if dom.contains(Edge::Left) { empty.insert(Edge::Left) } else { empty };
        let both = if dom.contains(Edge::Right) { with_left.insert(Edge::Right) } else { with_left };
        assert(dom =~= both) by {
            assert forall|e: Edge| dom.contains(e) == both.contains(e) by {
                match e {
                    Edge::Left => {},
                    Edge::Right => {},
                }
            }
        }
    }
}

} // verus!
