//! The gesture that asks for tabs: the pointer is dragged to a screen edge
//! with the button held.
//!
//! The detector is told what the pointer did and when, and answers whether a
//! gesture fired. It holds no clock and asks no window system: times are
//! nanoseconds on the caller's monotonic clock, and whether the browser is the
//! active window is the caller's to find out.

use crate::edge::Edge;
use vstd::prelude::*;

verus! {

/// The button must have been held for more than this many milliseconds.
pub const HOLD_MILLIS: u64 = 300;

/// More than this many milliseconds must lie between two gestures.
pub const COOLDOWN_MILLIS: u64 = 10_000;

/// The nanoseconds of a millisecond.
pub const NANOS_PER_MILLI: u64 = 1_000_000;

/// What the pointer did.
#[derive(Clone, Copy, Debug, PartialEq, Eq, Structural)]
pub enum PointerEvent {
    /// The main button went down.
    Press,
    /// The main button came up.
    Release,
    /// The pointer moved; it now is at this edge of the screen, or at none.
    Move(Option<Edge>),
    /// Anything else.
    Other,
}

/// The whole milliseconds from `since` to `now`; none where `now` is the
/// earlier of the two.
pub open spec fn millis_between(since: u64, now: u64) -> int {
    if now >= since {
        (now - since) / (NANOS_PER_MILLI as int)
    } else {
        0
    }
}

/// What the detector remembers.
#[derive(Clone, Copy, Debug, PartialEq, Eq, Structural)]
pub struct GestureDetector {
    /// Whether the button is down.
    pub dragging: bool,
    /// When the button last went down; before that, when the detector was
    /// made.
    pub drag_start: u64,
    /// When the detector was made.
    pub created: u64,
    /// When the last gesture fired, if one has.
    pub last_trigger: Option<u64>,
}

impl GestureDetector {
    /// Whether the button has been held long enough at `now`.
    pub open spec fn held(self, now: u64) -> bool {
        millis_between(self.drag_start, now) > HOLD_MILLIS
    }

    /// Whether enough time has passed since the last gesture at `now`. A new
    /// detector counts as one whose last gesture fired `COOLDOWN_MILLIS`
    /// before it was made.
    pub open spec fn cooled(self, now: u64) -> bool {
        match self.last_trigger {
            Some(at) => millis_between(at, now) > COOLDOWN_MILLIS,
            None => millis_between(self.created, now) >= 1,
        }
    }

    /// Whether the caller has to find out if the browser is the active window
    /// before it hands the event in: only for a move to an edge with the
    /// button held long enough.
    pub open spec fn asks_for_window(self, event: PointerEvent, now: u64) -> bool {
        event matches PointerEvent::Move(Some(_)) && self.dragging && self.held(now)
    }

    /// The gesture that an event fires, if it fires one.
    pub open spec fn fires(self, event: PointerEvent, now: u64, browser_active: bool) -> Option<
        Edge,
    > {
        match event {
            PointerEvent::Move(Some(edge)) => if self.dragging && self.held(now) && browser_active
                && self.cooled(now) {
                Some(edge)
            } else {
                None
            },
            _ => None,
        }
    }

    /// What the detector remembers after an event.
    pub open spec fn after(self, event: PointerEvent, now: u64, browser_active: bool) -> Self {
        match event {
            PointerEvent::Press => GestureDetector { dragging: true, drag_start: now, ..self },
            PointerEvent::Release => GestureDetector { dragging: false, ..self },
            PointerEvent::Move(_) => if self.fires(event, now, browser_active) is Some {
                GestureDetector { last_trigger: Some(now), ..self }
            } else {
                self
            },
            PointerEvent::Other => self,
        }
    }

    /// A detector made at `now`, with the button up.
    pub fn new(now: u64) -> (detector: Self)
        ensures
            detector == (GestureDetector {
                dragging: false,
                drag_start: now,
                created: now,
                last_trigger: None,
            }),
    {
        GestureDetector { dragging: false, drag_start: now, created: now, last_trigger: None }
    }

    /// Whether the caller has to find out if the browser is the active window
    /// before it hands this event in. Where it need not, `on_event` does not
    /// read what it is told of the window.
    pub fn needs_window_check(&self, event: PointerEvent, now: u64) -> (needed: bool)
        ensures
            needed == self.asks_for_window(event, now),
            !needed ==> forall|active: bool| (#[trigger] self.fires(event, now, active)) is None,
    {
        match event {
            PointerEvent::Move(Some(_)) => self.dragging && whole_millis(self.drag_start, now)
                > HOLD_MILLIS,
            _ => false,
        }
    }

    /// Takes an event that happened at `now`, and whether the browser is the
    /// active window, and answers with the edge of the gesture that fired, if
    /// one did.
    pub fn on_event(&mut self, event: PointerEvent, now: u64, browser_active: bool) -> (fired:
        Option<Edge>)
        ensures
            fired == old(self).fires(event, now, browser_active),
            *final(self) == old(self).after(event, now, browser_active),
    {
        match event {
            PointerEvent::Press => {
                self.dragging = true;
                self.drag_start = now;
                None
            },
            PointerEvent::Release => {
                self.dragging = false;
                None
            },
            PointerEvent::Move(Some(edge)) => {
                let cooled = match self.last_trigger {
                    Some(at) => whole_millis(at, now) > COOLDOWN_MILLIS,
                    None => whole_millis(self.created, now) >= 1,
                };
                if self.dragging && whole_millis(self.drag_start, now) > HOLD_MILLIS
                    && browser_active && cooled {
                    self.last_trigger = Some(now);
                    Some(edge)
                } else {
                    None
                }
            },
            PointerEvent::Move(None) => None,
            PointerEvent::Other => None,
        }
    }
}

/// The whole milliseconds from `since` to `now`.
pub fn whole_millis(since: u64, now: u64) -> (millis: u64)
    ensures
        millis == millis_between(since, now),
{
    if now >= since {
        (now - since) / NANOS_PER_MILLI
    } else {
        0
    }
}

/// No gesture fires while the button is up, away from the edges, or while the
/// browser is not the active window.
pub proof fn gesture_needs_drag_edge_and_browser(
    detector: GestureDetector,
    event: PointerEvent,
    now: u64,
    browser_active: bool,
)
    ensures
        detector.fires(event, now, browser_active) matches Some(edge) ==> {
            &&& event == PointerEvent::Move(Some(edge))
            &&& detector.dragging
            &&& browser_active
            &&& millis_between(detector.drag_start, now) > HOLD_MILLIS
        },
{
}

/// After a gesture has fired, none fires until more than `COOLDOWN_MILLIS`
/// have passed.
pub proof fn gestures_keep_their_distance(
    detector: GestureDetector,
    first: PointerEvent,
    at: u64,
    second: PointerEvent,
    now: u64,
    active_first: bool,
    active_second: bool,
)
    requires
        detector.fires(first, at, active_first) is Some,
        detector.after(first, at, active_first).fires(second, now, active_second) is Some,
    ensures
        now >= at,
        (now - at) / (NANOS_PER_MILLI as int) > COOLDOWN_MILLIS,
{
}

} // verus!
