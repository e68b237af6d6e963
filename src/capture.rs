//! Input capture: errors, events and the peripheral handle.
use vstd::prelude::*;

verus! {

/// Input / capture error
#[derive(Clone, Copy, Debug, PartialEq, Eq, Structural)]
pub enum Error {
    /// Previous capture value was overwritten
    Overcapture,
}

/// Interrupt event
#[derive(Clone, Copy, Debug, PartialEq, Eq, Structural)]
pub enum Event {
    /// Capture on channel 1
    Capture1,
    /// Capture on channel 2
    Capture2,
    /// Capture on channel 3
    Capture3,
    /// Capture on channel 4
    Capture4,
}

/// Input capture interface, by its timer's register block.
#[derive(Clone, Copy)]
pub struct Capture<'a, T>(pub &'a T);

} // verus!
