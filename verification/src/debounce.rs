//! Per-line debounce state. Each physical line owns one `LineDebounce` and
//! one one-shot hardware timer. A qualifying edge arms (or re-arms,
//! extending the window — the restart policy) the timer; only the timer's
//! expiry confirms the edge as a stable press and produces the latch write.
//! One line's bounce never touches another line's state: each line has its
//! own instance.

use vstd::prelude::*;

verus! {

/// What the interrupt handler must do after recording an edge. The handler
/// itself stays minimal: record, arm, return.
pub enum TimerAction {
    /// Start the one-shot debounce timer, or restart it if it is already
    /// running (extending the debounce window).
    Arm,
}

/// An occurrence on one line, as seen by that line's debounce state:
/// either a raw edge interrupt, or the expiry of the line's debounce timer.
pub enum LineEvent {
    Edge,
    DebounceElapsed,
}

/// Debounce state for one physical line: its immutable identity and
/// whether a debounce window is currently open (timer armed, expiry
/// pending).
pub struct LineDebounce {
    pub line_id: i32,
    pub pending: bool,
}

impl LineDebounce {
    pub fn new(line_id: i32) -> (r: LineDebounce)
        ensures
            r.line_id == line_id,
            !r.pending,
    {
        LineDebounce { line_id, pending: false }
    }

    /// What an edge does: open (or keep open) the debounce window. An edge
    /// never writes the latch, whatever the state.
    pub open spec fn spec_on_edge(self) -> LineDebounce {
        LineDebounce { line_id: self.line_id, pending: true }
    }

    /// Record a qualifying edge, from interrupt context. The caller must
    /// perform the returned action: (re)start the line's one-shot timer.
    pub fn on_edge(&mut self) -> (act: TimerAction)
        ensures
            *final(self) == old(self).spec_on_edge(),
            act == TimerAction::Arm,
    {
        self.pending = true;
        TimerAction::Arm
    }

    /// What timer expiry does, as (state after, confirmed id): a pending
    /// window closes and confirms exactly one event, carrying the line's
    /// id; a spurious expiry with no window open confirms nothing.
    pub open spec fn spec_on_expiry(self) -> (LineDebounce, Option<i32>) {
        if self.pending {
            (LineDebounce { line_id: self.line_id, pending: false }, Some(self.line_id))
        } else {
            (self, None)
        }
    }

    /// Close the debounce window, from timer context. `Some(id)` is the
    /// confirmed press that must now be written into the event latch.
    pub fn on_expiry(&mut self) -> (r: Option<i32>)
        ensures
            (*final(self), r) == old(self).spec_on_expiry(),
    {
        if self.pending {
            self.pending = false;
            Some(self.line_id)
        } else {
            None
        }
    }
}

/// One step of a line's history: the state after the event, and whether
/// that event confirmed a press (a latch write).
pub open spec fn spec_step(d: LineDebounce, ev: LineEvent) -> (LineDebounce, Option<i32>) {
    match ev {
        LineEvent::Edge => (d.spec_on_edge(), None),
        LineEvent::DebounceElapsed => d.spec_on_expiry(),
    }
}

/// How many latch writes a sequence of events on one line produces.
pub open spec fn write_count(d: LineDebounce, evs: Seq<LineEvent>) -> nat
    decreases evs.len(),
{
    if evs.len() == 0 {
        0
    } else {
        let (d2, w) = spec_step(d, evs.first());
        (if w is Some {
            1nat
        } else {
            0nat
        }) + write_count(d2, evs.drop_first())
    }
}

/// A burst of edges within one debounce window: n raw edges followed by
/// the single expiry of the (re)armed one-shot timer.
pub open spec fn edge_burst(n: nat) -> Seq<LineEvent> {
    Seq::new(n, |i: int| LineEvent::Edge).push(LineEvent::DebounceElapsed)
}

/// Debounce law: however noisy the contact, n edges (n >= 1) within the
/// debounce window produce exactly one latch write — the one made when the
/// window finally elapses — whatever state the line started in.
pub proof fn lemma_debounce_single_write(d: LineDebounce, n: nat)
    requires
        n >= 1,
    ensures
        write_count(d, edge_burst(n)) == 1,
    decreases n,
{
    let evs = edge_burst(n);
    assert(evs.first() == LineEvent::Edge);
    let d2 = spec_step(d, evs.first()).0;
    if n == 1 {
        let tail = evs.drop_first();
        assert(tail =~= seq![LineEvent::DebounceElapsed]);
        assert(tail.first() == LineEvent::DebounceElapsed);
        assert(d2.pending);
        let d3 = spec_step(d2, tail.first()).0;
        assert(spec_step(d2, tail.first()).1 == Some(d2.line_id));
        assert(tail.drop_first() =~= Seq::<LineEvent>::empty());
        assert(write_count(d3, tail.drop_first()) == 0);
        assert(write_count(d2, tail) == 1);
    } else {
        assert(evs.drop_first() =~= edge_burst((n - 1) as nat));
        lemma_debounce_single_write(d2, (n - 1) as nat);
    }
}

/// Edges alone never write: with the window still open, any number of
/// edges produces no latch write at all.
pub proof fn lemma_edges_alone_write_nothing(d: LineDebounce, n: nat)
    ensures
        write_count(d, Seq::new(n, |i: int| LineEvent::Edge)) == 0,
    decreases n,
{
    let evs = Seq::new(n, |i: int| LineEvent::Edge);
    if n > 0 {
        let d2 = spec_step(d, evs.first()).0;
        assert(evs.drop_first() =~= Seq::new((n - 1) as nat, |i: int| LineEvent::Edge));
        lemma_edges_alone_write_nothing(d2, (n - 1) as nat);
    }
}

} // verus!
