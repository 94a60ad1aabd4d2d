//! The context entry points: what the edge interrupt, the timer-expiry
//! callback and the polling loop each do, as verified functions. The
//! surrounding program only performs the returned actions (start the
//! one-shot timer, write to the sink, idle briefly).

use vstd::prelude::*;
use crate::debounce::{LineDebounce, TimerAction};
use crate::latch::EventLatch;
use crate::render::{dec_rep, decimal_string};
use crate::shared::{SharedLatch, SharedLine};
use crate::shared::{shared_on_edge, shared_on_expiry, shared_read_and_advance, shared_set_current};

verus! {

/// What one poll tells the main loop to do.
pub enum PollAction {
    /// A new event arrived and the sink is connected: transmit this text.
    Send(String),
    /// A new event arrived but the sink is not connected: drop it without
    /// retry — the next physical press makes a fresh event.
    Discard,
    /// No new event since the last poll: idle briefly, then poll again.
    Idle,
}

/// The main loop's decision for one consumed poll result: a fresh event is
/// sent as its decimal text when the sink is connected, dropped when it is
/// not, and no event means idle.
pub open spec fn poll_action_spec(ev: Option<i32>, connected: bool, r: PollAction) -> bool {
    match ev {
        None => r == PollAction::Idle,
        Some(id) => if connected {
            r matches PollAction::Send(s) && s@ == dec_rep(id as int)
        } else {
            r == PollAction::Discard
        },
    }
}

/// Decide what the main loop does with one poll result.
pub fn poll_action(ev: Option<i32>, connected: bool) -> (r: PollAction)
    ensures
        poll_action_spec(ev, connected, r),
{
    match ev {
        Some(id) => if connected {
            PollAction::Send(decimal_string(id))
        } else {
            PollAction::Discard
        },
        None => PollAction::Idle,
    }
}

/// One iteration of the polling loop against the shared latch: consume at
/// most one event and decide what to do with it. The event itself depends
/// on what interrupts have written, so the decision is pinned relative to
/// it: whatever was consumed, the action is the one `poll_action_spec`
/// prescribes, and in particular nothing is ever sent to a disconnected
/// sink.
pub fn poll_shared(sh: &SharedLatch, connected: bool) -> (r: PollAction)
    ensures
        exists|ev: Option<i32>| #[trigger] poll_action_spec(ev, connected, r),
        !connected ==> !(r is Send),
        connected ==> !(r is Discard),
{
    let ev = shared_read_and_advance(sh);
    let r = poll_action(ev, connected);
    proof {
        assert(poll_action_spec(ev, connected, r));
    }
    r
}

/// The edge-interrupt entry point for one line: record the edge in the
/// line's shared debounce state and tell the handler to (re)start the
/// line's one-shot timer. Minimal and non-blocking, as interrupt context
/// demands.
pub fn note_edge(line: &SharedLine) -> (act: TimerAction)
    ensures
        act == TimerAction::Arm,
{
    shared_on_edge(line);
    TimerAction::Arm
}

/// The timer-expiry entry point for one line: close the line's debounce
/// window and, if it confirmed a press, latch that press as the current
/// event. This is the only place a raw edge becomes an accepted event.
pub fn confirm_shared(line: &SharedLine, latch: &SharedLatch) {
    match shared_on_expiry(line) {
        Some(id) => shared_set_current(latch, id),
        None => {},
    }
}

/// The timer-expiry step on owned state: close the debounce window and,
/// if it confirmed a press, write the line's id into the latch; a spurious
/// expiry changes nothing.
pub fn confirm_into(deb: &mut LineDebounce, latch: &mut EventLatch)
    ensures
        *final(deb) == old(deb).spec_on_expiry().0,
        old(deb).pending ==> *final(latch) == old(latch).spec_set_current(old(deb).line_id),
        !old(deb).pending ==> *final(latch) == *old(latch),
{
    match deb.on_expiry() {
        Some(id) => latch.set_current(id),
        None => {},
    }
}

} // verus!
