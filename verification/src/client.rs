//! The peer side: a client that dials the relay, backs off after a failed
//! dial, and hands every tab list it receives to whoever opens the tabs.
//!
//! The client is a state machine. It performs no input or output itself: it
//! is told what happened and answers with what to do next.
//!
//! The relay writes one payload with one write, unframed, and the client
//! takes what one read returns for one payload. A read that holds half a
//! payload, or two, is no tab list and is discarded.

use crate::json::{decode_tab_list, lossy_text, tab_list_of_json, text_from_bytes};
use vstd::prelude::*;

verus! {

/// The wait after the first failed dial, in time units.
pub const INITIAL_DELAY: u64 = 1;

/// The longest wait between two dials, in time units.
pub const MAX_DELAY: u64 = 30;

/// Where the client stands.
#[derive(Clone, Copy, Debug, PartialEq, Eq, Structural)]
pub enum Link {
    /// No connection, and no dial under way.
    Disconnected,
    /// A dial is under way.
    Connecting,
    /// The connection stands and is being read.
    Connected,
}

/// What happened.
#[derive(Debug, PartialEq, Eq)]
pub enum ClientEvent {
    /// The client may dial now: at the start, after a wait, after a drop.
    Ready,
    /// The dial succeeded.
    DialSucceeded,
    /// The dial failed.
    DialFailed,
    /// A read returned these bytes; none at all means that the relay closed
    /// the connection.
    Received(Vec<u8>),
    /// A read failed.
    ReadFailed,
}

/// What to do next.
#[derive(Debug, PartialEq, Eq)]
pub enum ClientAction {
    /// Dial the relay and report `DialSucceeded` or `DialFailed`.
    Dial,
    /// Wait this many time units, then report `Ready`.
    Wait(u64),
    /// The connection is gone: report `Ready` at once.
    Redial,
    /// Read from the connection and report `Received` or `ReadFailed`.
    Read,
    /// Open these tabs, then read on.
    Open(Vec<String>),
    /// The payload was no tab list: note it, then read on.
    Discard,
    /// The event does not belong to the state: nothing changed.
    Ignore,
}

/// An action as a mathematical value.
pub enum ClientActionView {
    Dial,
    Wait(nat),
    Redial,
    Read,
    Open(Seq<Seq<char>>),
    Discard,
    Ignore,
}

impl View for ClientAction {
    type V = ClientActionView;

    open spec fn view(&self) -> ClientActionView {
        match *self {
            ClientAction::Dial => ClientActionView::Dial,
            ClientAction::Wait(units) => ClientActionView::Wait(units as nat),
            ClientAction::Redial => ClientActionView::Redial,
            ClientAction::Read => ClientActionView::Read,
            ClientAction::Open(tabs) => ClientActionView::Open(tabs.deep_view()),
            ClientAction::Discard => ClientActionView::Discard,
            ClientAction::Ignore => ClientActionView::Ignore,
        }
    }
}

/// The wait that follows a wait of `delay`: twice as long, but never more
/// than `MAX_DELAY`.
pub open spec fn next_delay(delay: nat) -> nat {
    if 2 * delay < MAX_DELAY {
        2 * delay
    } else {
        MAX_DELAY as nat
    }
}

/// The wait after a failed dial that `failures` failed dials went before,
/// with no success in between.
pub open spec fn backoff(failures: nat) -> nat
    decreases failures,
{
    if failures == 0 {
        INITIAL_DELAY as nat
    } else {
        next_delay(backoff((failures - 1) as nat))
    }
}

/// What a payload asks the client to do: open the tabs it lists, or, where it
/// is no JSON array of strings, nothing.
pub open spec fn payload_action(bytes: Seq<u8>) -> ClientActionView {
    match tab_list_of_json(lossy_text(bytes)) {
        Some(tabs) => ClientActionView::Open(tabs),
        None => ClientActionView::Discard,
    }
}

/// The state machine: from where the client stands, the wait it would impose
/// after the next failed dial, and an event, to where it stands afterwards,
/// the wait after the next failed dial, and what to do.
pub open spec fn transition(link: Link, delay: nat, event: ClientEvent) -> (
    Link,
    nat,
    ClientActionView,
) {
    match (link, event) {
        (Link::Disconnected, ClientEvent::Ready) => (Link::Connecting, delay, ClientActionView::Dial),
        (Link::Connecting, ClientEvent::DialSucceeded) => (
            Link::Connected,
            INITIAL_DELAY as nat,
            ClientActionView::Read,
        ),
        (Link::Connecting, ClientEvent::DialFailed) => (
            Link::Disconnected,
            next_delay(delay),
            ClientActionView::Wait(delay),
        ),
        (Link::Connected, ClientEvent::Received(bytes)) => if bytes@.len() == 0 {
            (Link::Disconnected, delay, ClientActionView::Redial)
        } else {
            (Link::Connected, delay, payload_action(bytes@))
        },
        (Link::Connected, ClientEvent::ReadFailed) => (
            Link::Disconnected,
            delay,
            ClientActionView::Redial,
        ),
        _ => (link, delay, ClientActionView::Ignore),
    }
}

/// A client that reconnects for ever.
pub struct ReconnectingPeerClient {
    link: Link,
    delay: u64,
}

impl ReconnectingPeerClient {
    #[verifier::type_invariant]
    spec fn delay_in_range(self) -> bool {
        INITIAL_DELAY <= self.delay <= MAX_DELAY
    }

    /// Where the client stands.
    pub closed spec fn link(&self) -> Link {
        self.link
    }

    /// The wait that the next failed dial will be answered with.
    pub closed spec fn delay(&self) -> nat {
        self.delay as nat
    }

    /// A client that has not dialled yet.
    pub fn new() -> (client: Self)
        ensures
            client.link() == Link::Disconnected,
            client.delay() == INITIAL_DELAY,
    {
        ReconnectingPeerClient { link: Link::Disconnected, delay: INITIAL_DELAY }
    }

    /// Where the client stands.
    pub fn state(&self) -> (link: Link)
        ensures
            link == self.link(),
    {
        self.link
    }

    /// The wait that the next failed dial will be answered with; always from
    /// `INITIAL_DELAY` to `MAX_DELAY`.
    pub fn pending_delay(&self) -> (delay: u64)
        ensures
            delay == self.delay(),
            INITIAL_DELAY <= delay <= MAX_DELAY,
    {
        proof {
            use_type_invariant(self);
        }
        self.delay
    }

    /// Takes an event and answers with what to do next.
    pub fn step(&mut self, event: ClientEvent) -> (action: ClientAction)
        ensures
            (final(self).link(), final(self).delay(), action@) == transition(
                old(self).link(),
                old(self).delay(),
                event,
            ),
    {
        proof {
            use_type_invariant(&*self);
        }
        match (self.link, event) {
            (Link::Disconnected, ClientEvent::Ready) => {
                self.link = Link::Connecting;
                ClientAction::Dial
            },
            (Link::Connecting, ClientEvent::DialSucceeded) => {
                self.link = Link::Connected;
                self.delay = INITIAL_DELAY;
                ClientAction::Read
            },
            (Link::Connecting, ClientEvent::DialFailed) => {
                let wait: u64 = self.delay;
                self.link = Link::Disconnected;
                self.delay = if 2 * wait < MAX_DELAY {
                    2 * wait
                } else {
                    MAX_DELAY
                };
                ClientAction::Wait(wait)
            },
            (Link::Connected, ClientEvent::Received(bytes)) => {
                if bytes.len() == 0 {
                    self.link = Link::Disconnected;
                    ClientAction::Redial
                } else {
                    read_payload(bytes.as_slice())
                }
            },
            (Link::Connected, ClientEvent::ReadFailed) => {
                self.link = Link::Disconnected;
                ClientAction::Redial
            },
            _ => ClientAction::Ignore,
        }
    }
}

/// Reads a payload as a tab list.
pub fn read_payload(bytes: &[u8]) -> (action: ClientAction)
    ensures
        action@ == payload_action(bytes@),
{
    let text = text_from_bytes(bytes);
    read_decoded(decode_tab_list(text.as_str()))
}

/// What to do with a payload once it has been read: open the tabs, or drop a
/// payload that held no tab list.
pub fn read_decoded(decoded: Option<Vec<String>>) -> (action: ClientAction)
    ensures
        action@ == match decoded {
            Some(tabs) => ClientActionView::Open(tabs.deep_view()),
            None => ClientActionView::Discard,
        },
{
    match decoded {
        Some(tabs) => ClientAction::Open(tabs),
        None => ClientAction::Discard,
    }
}

/// The waits after consecutive failed dials are 1, 2, 4, 8, 16, and 30 from
/// then on.
pub proof fn backoff_sequence(failures: nat)
    ensures
        backoff(0) == 1,
        backoff(1) == 2,
        backoff(2) == 4,
        backoff(3) == 8,
        backoff(4) == 16,
        failures >= 5 ==> backoff(failures) == 30,
        INITIAL_DELAY <= backoff(failures) <= MAX_DELAY,
    decreases failures,
{
    reveal_with_fuel(backoff, 6);
    if failures > 5 {
        backoff_sequence((failures - 1) as nat);
    }
}

/// Where a client stands, and the wait it has pending, after `failures`
/// rounds of dialling and failing, starting out disconnected with a pending
/// wait of `delay`.
pub open spec fn after_failed_dials(delay: nat, failures: nat) -> (Link, nat)
    decreases failures,
{
    if failures == 0 {
        (Link::Disconnected, delay)
    } else {
        let before = after_failed_dials(delay, (failures - 1) as nat);
        let dialling = transition(before.0, before.1, ClientEvent::Ready);
        let failed = transition(dialling.0, dialling.1, ClientEvent::DialFailed);
        (failed.0, failed.1)
    }
}

/// A client that starts out fresh, or has just been connected, and then fails
/// to dial time after time, is told to wait `backoff(0)`, `backoff(1)`, ...:
/// the dial that follows `failures` failed ones is answered with
/// `Wait(backoff(failures))`.
pub proof fn failed_dials_back_off(failures: nat)
    ensures
        after_failed_dials(INITIAL_DELAY as nat, failures) == (
            Link::Disconnected,
            backoff(failures),
        ),
        transition(Link::Disconnected, backoff(failures), ClientEvent::Ready) == (
            Link::Connecting,
            backoff(failures),
            ClientActionView::Dial,
        ),
        transition(Link::Connecting, backoff(failures), ClientEvent::DialFailed) == (
            Link::Disconnected,
            backoff(failures + 1),
            ClientActionView::Wait(backoff(failures)),
        ),
    decreases failures,
{
    if failures > 0 {
        failed_dials_back_off((failures - 1) as nat);
    }
}

/// A successful dial resets the wait: whatever went before, the next failed
/// dial is answered with the initial wait again, also after the connection
/// has been used and lost.
pub proof fn success_resets_backoff(delay: nat, bytes: Vec<u8>)
    ensures
        transition(Link::Connecting, delay, ClientEvent::DialSucceeded) == (
            Link::Connected,
            INITIAL_DELAY as nat,
            ClientActionView::Read,
        ),
        transition(Link::Connected, INITIAL_DELAY as nat, ClientEvent::Received(bytes)).1
            == INITIAL_DELAY,
        transition(Link::Connected, INITIAL_DELAY as nat, ClientEvent::ReadFailed) == (
            Link::Disconnected,
            INITIAL_DELAY as nat,
            ClientActionView::Redial,
        ),
{
}

} // verus!
