//! The text form in which a gesture travels from the detector to the gateways
//! that serve the extensions: a kind, a dash, and the name of the edge, as in
//! `get_tabs-left`.

use crate::edge::{Edge, GestureEvent};
use crate::text::{chars_of, same_text};
use vstd::prelude::*;
use vstd::string::*;

verus! {

/// How many messages the gesture channel keeps for a subscriber that has
/// fallen behind. A subscriber that falls further behind loses the oldest
/// messages; the publisher never waits for it.
pub const GESTURE_CAPACITY: usize = 16;

/// The index of the first dash of `s` at or after `from`, or the length of `s`
/// where there is none.
pub open spec fn dash_from(s: Seq<char>, from: int) -> int
    decreases s.len() - from,
{
    if from < 0 || from >= s.len() {
        s.len() as int
    } else if s[from] == '-' {
        from
    } else {
        dash_from(s, from + 1)
    }
}

/// What stands before the first dash of a message: its kind.
pub open spec fn kind_of(msg: Seq<char>) -> Seq<char> {
    msg.take(dash_from(msg, 0))
}

/// What stands between the first dash of a message and the second, or its
/// end; empty where the message has no dash.
pub open spec fn argument_of(msg: Seq<char>) -> Seq<char> {
    let first = dash_from(msg, 0);
    if first < msg.len() {
        msg.subrange(first + 1, dash_from(msg, first + 1))
    } else {
        Seq::empty()
    }
}

/// The edge name that a message asks tabs for, if it is a request for tabs.
pub open spec fn requested_edge(msg: Seq<char>) -> Option<Seq<char>> {
    if kind_of(msg) == "get_tabs"@ {
        Some(argument_of(msg))
    } else {
        None
    }
}

/// The message that announces a gesture at `edge`.
pub open spec fn trigger_text(edge: Edge) -> Seq<char> {
    "get_tabs-"@ + edge.name_text()
}

/// Where `dash_from` lands: on a dash or at the end, with no dash before it.
pub proof fn dash_from_is_first(s: Seq<char>, from: int)
    requires
        0 <= from <= s.len(),
    ensures
        from <= dash_from(s, from) <= s.len(),
        dash_from(s, from) < s.len() ==> s[dash_from(s, from)] == '-',
        forall|k: int| from <= k < dash_from(s, from) ==> s[k] != '-',
    decreases s.len() - from,
{
    if from < s.len() && s[from] != '-' {
        dash_from_is_first(s, from + 1);
    }
}

fn find_dash(chars: &Vec<char>, from: usize) -> (at: usize)
    requires
        from <= chars.len(),
    ensures
        at == dash_from(chars@, from as int),
        from <= at <= chars.len(),
{
    let mut at: usize = from;
    while at < chars.len() && chars[at] != '-'
        invariant
            from <= at <= chars.len(),
            dash_from(chars@, from as int) == dash_from(chars@, at as int),
        decreases chars.len() - at,
    {
        at = at + 1;
    }
    at
}

impl GestureEvent {
    /// The message that announces this gesture.
    pub fn to_text(&self) -> (text: String)
        ensures
            text@ == trigger_text(self.edge),
    {
        let mut text = String::from_str("get_tabs-");
        text.append(self.edge.name());
        text
    }
}

/// Reads a message from the gesture channel. A message whose kind is
/// `get_tabs` asks for tabs and yields the edge name that follows the dash
/// (empty where nothing follows); any other message yields nothing.
pub fn parse_trigger(msg: &str) -> (edge: Option<String>)
    ensures
        match edge {
            Some(name) => requested_edge(msg@) == Some(name@),
            None => requested_edge(msg@) is None,
        },
{
    let chars = chars_of(msg);
    let first = find_dash(&chars, 0);
    let kind = msg.substring_char(0, first);
    if !same_text(kind, "get_tabs") {
        return None;
    }
    if first < chars.len() {
        let second = find_dash(&chars, first + 1);
        let name = msg.substring_char(first + 1, second);
        Some(name.to_owned())
    } else {
        Some(String::new())
    }
}

/// A gesture that is announced and read again asks for tabs at its own edge.
pub proof fn trigger_round_trip(edge: Edge)
    ensures
        requested_edge(trigger_text(edge)) == Some(edge.name_text()),
{
    reveal_strlit("get_tabs-");
    reveal_strlit("get_tabs");
    reveal_strlit("left");
    reveal_strlit("right");
    let msg = trigger_text(edge);
    reveal_with_fuel(dash_from, 10);
    assert(dash_from(msg, 0) == 8);
    assert(kind_of(msg) =~= "get_tabs"@);
    let name = edge.name_text();
    assert(forall|k: int| 0 <= k < name.len() ==> name[k] != '-');
    assert(forall|k: int| 9 <= k < msg.len() ==> msg[k] == name[k - 9]);
    dash_from_is_first(msg, 9);
    assert(dash_from(msg, 9) == msg.len());
    assert(argument_of(msg) =~= name);
}

} // verus!
