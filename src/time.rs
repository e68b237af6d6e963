//! Units of time and rate, each a newtype over a `u32` count.
use vstd::prelude::*;

verus! {

/// `b/s`, bits per second
#[derive(Clone, Copy, Debug, PartialEq, Eq, Structural)]
pub struct Bps(pub u32);

/// `Hz`
#[derive(Clone, Copy, Debug, PartialEq, Eq, Structural)]
pub struct Hertz(pub u32);

/// `us`
#[derive(Clone, Copy, Debug, PartialEq, Eq, Structural)]
pub struct Microseconds(pub u32);

/// `ms`
#[derive(Clone, Copy, Debug, PartialEq, Eq, Structural)]
pub struct Milliseconds(pub u32);

/// `s`
#[derive(Clone, Copy, Debug, PartialEq, Eq, Structural)]
pub struct Seconds(pub u32);

/// `u32` extension trait: wraps a plain count in a unit.
pub trait U32Ext {
    /// Wrap in `Bps`
    fn bps(self) -> Bps;

    /// Wrap in `Hertz`
    fn hz(self) -> Hertz;

    /// Wrap in `Milliseconds`
    fn ms(self) -> Milliseconds;

    /// Wrap in `Seconds`
    fn s(self) -> Seconds;

    /// Wrap in `Microseconds`
    fn us(self) -> Microseconds;
}

impl U32Ext for u32 {
    fn bps(self) -> (r: Bps)
        ensures
            r.0 == self,
    {
        Bps(self)
    }

    fn hz(self) -> (r: Hertz)
        ensures
            r.0 == self,
    {
        Hertz(self)
    }

    fn ms(self) -> (r: Milliseconds)
        ensures
            r.0 == self,
    {
        Milliseconds(self)
    }

    fn s(self) -> (r: Seconds)
        ensures
            r.0 == self,
    {
        Seconds(self)
    }

    fn us(self) -> (r: Microseconds)
        ensures
            r.0 == self,
    {
        Microseconds(self)
    }
}

} // verus!
