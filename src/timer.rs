//! Timers: channel names and the prescaler/reload split of a period.
use vstd::prelude::*;
use crate::checked::checked_u16;

verus! {

/// Channel associated to a timer
#[derive(Clone, Copy, Debug, PartialEq, Eq, Structural)]
pub enum Channel {
    /// TxC1
    _1,
    /// TxC2
    _2,
    /// TxC3
    _3,
    /// TxC4
    _4,
}

/// A timer peripheral, by its register block.
#[derive(Clone, Copy)]
pub struct Timer<'a, T>(pub &'a T);

/// Splits a period of `period` ticks into a 16-bit prescaler and a reload
/// value: the prescaler is `(period - 1) / 2^16` and the reload
/// `period / (prescaler + 1)`.
pub fn prescaler_reload(period: u32) -> (r: (u16, u32))
    requires
        period >= 1,
    ensures
        r.0 == (period as int - 1) / 0x1_0000,
        r.1 == period as int / (r.0 as int + 1),
{
    let psc = match checked_u16(((period - 1) / 0x1_0000) as usize) {
        Some(v) => v,
        None => 0xFFFF,
    };
    let arr = period / (psc as u32 + 1);
    (psc, arr)
}

} // verus!
