//! Checked narrowing of counts into 16-bit register fields.
use vstd::prelude::*;

verus! {

/// Relies on cast::u16 (from `usize`): `Ok` with the same value when it is at
/// most `u16::MAX`, `Err(Overflow)` otherwise.
#[verifier::external_body]
pub(crate) fn checked_u16(x: usize) -> (r: Option<u16>)
    ensures
        r == (if x <= 0xFFFF {
            Some(x as u16)
        } else {
            None::<u16>
        }),
{
    cast::u16(x).ok()
}

} // verus!
