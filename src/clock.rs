//! System clock arithmetic: PLL configuration from the 16 MHz internal
//! oscillator, and the flash wait states a core clock needs.
use vstd::prelude::*;

verus! {

/// Frequency of the internal oscillator, in Hz.
pub const HSI_FREQ: u32 = 16_000_000;

/// Encoding of the PLL output divisor `p` in the PLL configuration register.
pub open spec fn log2p(p: u8) -> Option<u32> {
    if p == 2 {
        Some(0u32)
    } else if p == 4 {
        Some(1u32)
    } else if p == 6 {
        Some(2u32)
    } else if p == 8 {
        Some(3u32)
    } else {
        None
    }
}

/// The PLL register value and output frequency for input divisor `m`,
/// multiplier `n` and output divisor `p`, when every stage is within its
/// limits: `m` in 2..=63 giving 0.95..=2.1 MHz, `n` in 50..=432 giving a VCO of
/// 100..=432 MHz, `p` one of 2, 4, 6, 8 giving 24..=100 MHz.
pub open spec fn pll_settings(m: u8, n: u16, p: u8) -> Option<(u32, u32)> {
    let input = HSI_FREQ as int / m as int;
    let vco = input * n as int;
    if !(2 <= m <= 63) || !(950_000 <= input <= 2_100_000) {
        None
    } else if !(50 <= n <= 432) || !(100_000_000 <= vco <= 432_000_000) {
        None
    } else if log2p(p) is None {
        None
    } else if !(24_000_000 <= vco / p as int <= 100_000_000) {
        None
    } else {
        Some(
            (
                ((log2p(p)->Some_0 << 16u32) | ((n as u32) << 6u32) | (m as u32)),
                (vco / p as int) as u32,
            ),
        )
    }
}

/// Computes the PLL configuration register value and the PLL output
/// frequency. Settings out of the stages' limits are a configuration error
/// and are not admitted.
pub fn calculate_pll(m: u8, n: u16, p: u8) -> (r: (u32, u32))
    requires
        pll_settings(m, n, p) is Some,
    ensures
        pll_settings(m, n, p) == Some(r),
{
    let pllm_output = HSI_FREQ / m as u32;
    assert(pllm_output as int * n as int <= 2_100_000 * 432) by (nonlinear_arith)
        requires
            pllm_output <= 2_100_000,
            n <= 432,
    ;
    let vco_clock = pllm_output * n as u32;
    let log2p: u32 = if p == 2 {
        0
    } else if p == 4 {
        1
    } else if p == 6 {
        2
    } else {
        3
    };
    let pll_output = vco_clock / p as u32;
    let pll_bitmask = (log2p << 16u32) | ((n as u32) << 6u32) | (m as u32);
    (pll_bitmask, pll_output)
}

/// Flash wait states for a core clock of `hclk` Hz at 3.3 V.
pub open spec fn latency_for(hclk: u32) -> Option<u8> {
    if hclk <= 30_000_000 {
        Some(0u8)
    } else if hclk <= 64_000_000 {
        Some(1u8)
    } else if hclk <= 90_000_000 {
        Some(2u8)
    } else if hclk <= 100_000_000 {
        Some(3u8)
    } else {
        None
    }
}

/// Flash wait states for a core clock of `hclk` Hz; above 100 MHz the part
/// cannot run, a configuration error that is not admitted.
pub fn flash_latency(hclk: u32) -> (r: u8)
    requires
        hclk <= 100_000_000,
    ensures
        latency_for(hclk) == Some(r),
{
    if hclk <= 30_000_000 {
        0
    } else if hclk <= 64_000_000 {
        1
    } else if hclk <= 90_000_000 {
        2
    } else {
        3
    }
}

} // verus!
