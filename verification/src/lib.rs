//! An embedded input-event pipeline: hardware edge interrupts are debounced
//! into logical "button pressed" events, latched in an interrupt-safe
//! single-slot cell, and consumed by a polling loop that forwards each event
//! at most once to an output sink.

pub mod debounce;
pub mod latch;
pub mod poll;
pub mod render;
pub mod shared;
