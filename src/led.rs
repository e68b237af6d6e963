//! User LED PA5.
use vstd::prelude::*;

verus! {

/// Pin PA5. There's an LED connected to this pin
pub struct PA5;

/// LED connected to pin PA5
pub const LED: PA5 = PA5;

} // verus!
