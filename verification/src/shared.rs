//! Interrupt-safe shells around the owned core state. A `critical_section`
//! mutex over a `RefCell` is the single exclusion mechanism shared by
//! interrupt context and the polling loop: every access to a shared cell
//! runs inside one critical section, so no partial state is ever observed.
//!
//! The logic itself lives in the verified `EventLatch` and `LineDebounce`
//! methods; the functions here only run those methods inside a critical
//! section. What an interrupt may have written between two calls is
//! unknowable here, so the shell promises nothing about the cell's
//! contents: the verified consumers state what holds of whatever comes out.

use vstd::prelude::*;
use crate::debounce::LineDebounce;
use crate::latch::EventLatch;

verus! {

#[verifier::external_type_specification]
#[verifier::external_body]
#[verifier::reject_recursive_types(T)]
pub struct ExCsMutex<T>(critical_section::Mutex<T>);

#[verifier::external_type_specification]
#[verifier::external_body]
#[verifier::reject_recursive_types(T)]
pub struct ExRefCell<T: ?Sized>(core::cell::RefCell<T>);

/// Relies on `critical_section::Mutex::new` and `core::cell::RefCell::new`:
/// wraps an owned value in the cross-context exclusion cell, moving it
/// unchanged.
#[verifier::external_body]
fn make_cell<T>(v: T) -> critical_section::Mutex<core::cell::RefCell<T>> {
    critical_section::Mutex::new(core::cell::RefCell::new(v))
}

/// The event latch as shared between interrupt context and the polling
/// loop: one exclusion domain guarding both slots.
pub struct SharedLatch {
    cell: critical_section::Mutex<core::cell::RefCell<EventLatch>>,
}

impl SharedLatch {
    /// A fresh shared latch with both slots empty.
    pub fn new() -> SharedLatch {
        SharedLatch { cell: make_cell(EventLatch::new()) }
    }
}

/// One line's debounce state as shared between the line's edge interrupt
/// and its timer-expiry callback.
pub struct SharedLine {
    cell: critical_section::Mutex<core::cell::RefCell<LineDebounce>>,
}

impl SharedLine {
    /// Fresh debounce state for the line with this id: no window open.
    pub fn new(line_id: i32) -> SharedLine {
        SharedLine { cell: make_cell(LineDebounce::new(line_id)) }
    }
}

/// Relies on `critical_section::with` and
/// `critical_section::Mutex::borrow_ref_mut`: runs the verified
/// `EventLatch::set_current` inside one critical section.
#[verifier::external_body]
pub(crate) fn shared_set_current(sh: &SharedLatch, id: i32) {
    critical_section::with(|cs| sh.cell.borrow_ref_mut(cs).set_current(id));
}

/// Relies on `critical_section::with` and
/// `critical_section::Mutex::borrow_ref_mut`: runs the verified
/// `EventLatch::read_and_advance` inside one critical section. An
/// interrupt may write the latch at any time, so nothing is known of the
/// result beyond its type.
#[verifier::external_body]
pub(crate) fn shared_read_and_advance(sh: &SharedLatch) -> (r: Option<i32>) {
    critical_section::with(|cs| sh.cell.borrow_ref_mut(cs).read_and_advance())
}

/// Relies on `critical_section::with` and
/// `critical_section::Mutex::borrow_ref_mut`: runs the verified
/// `LineDebounce::on_edge` inside one critical section.
#[verifier::external_body]
pub(crate) fn shared_on_edge(line: &SharedLine) {
    critical_section::with(|cs| {
        let _ = line.cell.borrow_ref_mut(cs).on_edge();
    });
}

/// Relies on `critical_section::with` and
/// `critical_section::Mutex::borrow_ref_mut`: runs the verified
/// `LineDebounce::on_expiry` inside one critical section. Whether a window
/// was open depends on the interrupts so far, so nothing is known of the
/// result beyond its type.
#[verifier::external_body]
pub(crate) fn shared_on_expiry(line: &SharedLine) -> (r: Option<i32>) {
    critical_section::with(|cs| line.cell.borrow_ref_mut(cs).on_expiry())
}

} // verus!
