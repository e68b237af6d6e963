//! General purpose I/O ports.
use vstd::prelude::*;

verus! {

/// Splits a GPIO port into its pins.
pub trait GpioExt {
    /// The pins of the port
    type Pins;

    /// Hands out the pins.
    fn pins(self) -> Self::Pins;
}

} // verus!
