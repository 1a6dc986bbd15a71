//! Screen edges, the logical identifiers by which peers are addressed.

use crate::text::same_text;
use vstd::prelude::*;

verus! {

/// A screen edge. A peer machine is addressed by the edge it sits at, never by
/// its network address.
#[derive(Clone, Copy, Debug, PartialEq, Eq, Hash, Structural)]
pub enum Edge {
    Left,
    Right,
}

/// A gesture at a screen edge: the trigger that asks the extensions for their
/// tabs.
#[derive(Clone, Copy, Debug, PartialEq, Eq, Structural)]
pub struct GestureEvent {
    pub edge: Edge,
}

impl Edge {
    /// The name of the edge as it is written in the configuration and on the
    /// wire.
    pub open spec fn name_text(self) -> Seq<char> {
        match self {
            Edge::Left => "left"@,
            Edge::Right => "right"@,
        }
    }

    /// The edge that a name stands for, if it names one.
    pub open spec fn named(name: Seq<char>) -> Option<Edge> {
        if name == "left"@ {
            Some(Edge::Left)
        } else if name == "right"@ {
            Some(Edge::Right)
        } else {
            None
        }
    }

    pub fn name(&self) -> (text: &'static str)
        ensures
            text@ == self.name_text(),
    {
        match self {
            Edge::Left => "left",
            Edge::Right => "right",
        }
    }

    pub fn from_name(name: &str) -> (edge: Option<Edge>)
        ensures
            edge == Edge::named(name@),
    {
        if same_text(name, "left") {
            Some(Edge::Left)
        } else if same_text(name, "right") {
            Some(Edge::Right)
        } else {
            None
        }
    }

    /// Every edge is found again by its name.
    pub proof fn name_round_trip(edge: Edge)
        ensures
            Edge::named(edge.name_text()) == Some(edge),
    {
        reveal_strlit("left");
        reveal_strlit("right");
        if edge == Edge::Right {
            assert("right"@.len() != "left"@.len());
        }
    }

    /// Only the name of an edge names it.
    pub proof fn named_is_exact(name: Seq<char>, edge: Edge)
        ensures
            Edge::named(name) == Some(edge) <==> name == edge.name_text(),
    {
        Edge::name_round_trip(edge);
    }
}

} // verus!
