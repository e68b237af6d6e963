//! Peripheral bit banding: each bit of the peripheral region has a word of its
//! own in the bit-band alias region.
use vstd::prelude::*;

verus! {

/// Start of the peripheral region.
pub const PERIPH_BASE: usize = 0x4000_0000;

/// End (exclusive) of the bit-banded part of the peripheral region.
pub const PERIPH_END: usize = 0x4010_0000;

/// Start of the peripheral bit-band alias region.
pub const ALIAS_BASE: usize = 0x4200_0000;

/// Address of the alias word of bit `bit` of the peripheral register at `addr`.
pub fn alias_address(addr: usize, bit: usize) -> (r: usize)
    requires
        PERIPH_BASE <= addr < PERIPH_END,
        bit < 32,
    ensures
        r == ALIAS_BASE + (addr - PERIPH_BASE) * 32 + 4 * bit,
{
    ALIAS_BASE + (addr - PERIPH_BASE) * 32 + 4 * bit
}

} // verus!
