//! Pulse width modulation handle.
use vstd::prelude::*;

verus! {

/// PWM driver, by its timer's register block.
pub struct Pwm<'a, T>(pub &'a T);

} // verus!
