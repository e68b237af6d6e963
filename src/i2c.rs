//! I2C errors and peripheral handle.
use vstd::prelude::*;

verus! {

/// I2C error
#[derive(Clone, Copy, Debug, PartialEq, Eq, Structural)]
pub enum Error {
    /// Overrun occurred
    Overrun,
    /// Timeout occurred, SCL remained LOW for 25 ms
    Timeout,
    /// Bus error
    BusError,
}

/// I2C interface, by its register block.
pub struct I2c<'a, T>(pub &'a T);

} // verus!
