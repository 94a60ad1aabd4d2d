//! The event latch: two single-value slots, "current event" and "last
//! reported event". Interrupt/timer context overwrites the current slot;
//! the polling loop consumes it through `read_and_advance`, which yields
//! each accepted event at most once.

use vstd::prelude::*;

verus! {

/// A single-slot event holder. `current` is the most recently accepted
/// (debounce-confirmed) line id, or `None` when the last accepted event has
/// already been consumed. `last_reported` is the id last handed to the
/// consumer, kept so that "nothing changed" polls are distinguishable from a
/// fresh press.
///
/// The latch is a plain owned value: whoever needs to share it across an
/// interrupt boundary wraps it in a mutual-exclusion cell and calls these
/// methods inside one critical section.
pub struct EventLatch {
    pub current: Option<i32>,
    pub last_reported: Option<i32>,
}

impl EventLatch {
    /// The state of a freshly constructed latch: both slots empty.
    pub open spec fn spec_new() -> EventLatch {
        EventLatch { current: None, last_reported: None }
    }

    pub fn new() -> (r: EventLatch)
        ensures
            r == EventLatch::spec_new(),
    {
        EventLatch { current: None, last_reported: None }
    }

    /// What `set_current` does: overwrite the current slot unconditionally,
    /// leaving the last-reported slot alone (most-recent-wins: an unconsumed
    /// earlier event is silently superseded).
    pub open spec fn spec_set_current(self, id: i32) -> EventLatch {
        EventLatch { current: Some(id), last_reported: self.last_reported }
    }

    /// Overwrite the current event unconditionally. Called from
    /// interrupt/timer context (under the caller's exclusion mechanism).
    pub fn set_current(&mut self, id: i32)
        ensures
            *final(self) == old(self).spec_set_current(id),
    {
        self.current = Some(id);
    }

    /// What `read_and_advance` does, as (state after, result):
    /// an occupied current slot is consumed, recorded as last reported and
    /// returned; an empty one leaves the last-reported slot as it was and
    /// returns nothing. A repeat of the same id after consumption is
    /// reported again: the last-reported slot only distinguishes "nothing
    /// new since the last poll", it never suppresses repeats.
    pub open spec fn spec_read_and_advance(self) -> (EventLatch, Option<i32>) {
        match self.current {
            Some(c) => (EventLatch { current: None, last_reported: Some(c) }, Some(c)),
            None => (self, None),
        }
    }

    /// The polling loop's only entry point: take both slots, decide, put
    /// back. Yields each accepted event exactly once; never blocks.
    pub fn read_and_advance(&mut self) -> (r: Option<i32>)
        ensures
            (*final(self), r) == old(self).spec_read_and_advance(),
    {
        let curr = self.current;
        self.current = None;
        match curr {
            Some(c) => {
                self.last_reported = Some(c);
                Some(c)
            },
            None => None,
        }
    }
}

/// The latch after a whole sequence of `set_current` calls, applied in
/// order, with no read in between.
pub open spec fn apply_set_currents(l: EventLatch, ids: Seq<i32>) -> EventLatch
    decreases ids.len(),
{
    if ids.len() == 0 {
        l
    } else {
        apply_set_currents(l, ids.drop_last()).spec_set_current(ids.last())
    }
}

/// Single-slot law: after one or more `set_current` calls with no
/// intervening read, `read_and_advance` returns the last id written —
/// never an earlier one.
pub proof fn lemma_single_slot(l: EventLatch, ids: Seq<i32>)
    requires
        ids.len() > 0,
    ensures
        apply_set_currents(l, ids).spec_read_and_advance().1 == Some(ids.last()),
{
}

/// Idempotence of "no change": whatever the state, a second
/// `read_and_advance` with no intervening `set_current` returns `None`.
pub proof fn lemma_second_read_is_none(l: EventLatch)
    ensures
        l.spec_read_and_advance().0.spec_read_and_advance().1 == None::<i32>,
{
}

/// Repeat-id law: setting the same id again after it was consumed reports
/// it again — the last-reported slot never suppresses a repeated id.
pub proof fn lemma_repeat_id(l: EventLatch, x: i32)
    ensures
        ({
            let (l1, r1) = l.spec_set_current(x).spec_read_and_advance();
            let (l2, r2) = l1.spec_set_current(x).spec_read_and_advance();
            r1 == Some(x) && r2 == Some(x)
        }),
{
}

/// Interleaving law (most-recent-wins): two writes with no read between
/// them report only the second; the first event is lost by design.
pub proof fn lemma_most_recent_wins(l: EventLatch, a: i32, b: i32)
    ensures
        l.spec_set_current(a).spec_set_current(b).spec_read_and_advance().1 == Some(b),
{
}

} // verus!
