//! ADC clock-tree resolution.
//!
//! The ADC samples either synchronously from the bus clock (optionally
//! divided by 2 or 4) or asynchronously from one of three upstream sources
//! (the 16 MHz internal RC oscillator, the PLL P output, or the system
//! clock), divided by a prescaler. The frequencies reported by the
//! clock-tree peripheral are exact rationals; the resolved ADC frequency is
//! truncated towards zero once, at the end.

use vstd::prelude::*;

use crate::ratio::{trunc_div, Ratio};

verus! {

/// ADC clock mode.
///
/// In all synchronous clock modes, there is no jitter in the delay from a
/// timer trigger to the start of a conversion.
#[derive(Debug, PartialEq, Eq, Clone, Copy)]
pub enum Clk {
    /// Asynchronous clock mode, sourced from the 16 MHz internal RC
    /// oscillator.
    RccHsi,
    /// Asynchronous clock mode, sourced from the PLL P output.
    RccPllP,
    /// Asynchronous clock mode, sourced from the system clock.
    RccSysClk,
    /// Synchronous clock mode, bus clock divided by 2.
    PClkDiv2,
    /// Synchronous clock mode, bus clock divided by 4.
    PClkDiv4,
    /// Synchronous clock mode, bus clock.
    ///
    /// This configuration must be enabled only if the bus clock has a 50%
    /// duty cycle.
    PClk,
}

/// The clock-mode selector field of the configuration register.
#[derive(Debug, PartialEq, Eq, Clone, Copy)]
pub enum CkMode {
    /// Asynchronous clock.
    Adclk,
    /// Bus clock divided by 2.
    PclkDiv2,
    /// Bus clock divided by 4.
    PclkDiv4,
    /// Bus clock.
    Pclk,
}

/// The ADC source selection of the clock-tree multiplexer register.
#[derive(Debug, PartialEq, Eq, Clone, Copy)]
pub enum AdcSel {
    /// No clock selected.
    NoClock,
    /// 16 MHz internal RC oscillator.
    Hsi16,
    /// PLL P output.
    PllP,
    /// System clock.
    SysClk,
}

impl CkMode {
    /// The field encoding of the selector.
    pub open spec fn bits_spec(self) -> u32 {
        match self {
            CkMode::Adclk => 0,
            CkMode::PclkDiv2 => 1,
            CkMode::PclkDiv4 => 2,
            CkMode::Pclk => 3,
        }
    }

    /// The field encoding of the selector, as written to the hardware.
    pub fn bits(self) -> (r: u8)
        ensures
            r as u32 == self.bits_spec(),
    {
        match self {
            CkMode::Adclk => 0,
            CkMode::PclkDiv2 => 1,
            CkMode::PclkDiv4 => 2,
            CkMode::Pclk => 3,
        }
    }
}

impl AdcSel {
    /// The field encoding of the selection.
    pub open spec fn bits_spec(self) -> u32 {
        match self {
            AdcSel::NoClock => 0,
            AdcSel::Hsi16 => 1,
            AdcSel::PllP => 2,
            AdcSel::SysClk => 3,
        }
    }

    /// The field encoding of the selection, as written to the hardware.
    pub fn bits(self) -> (r: u8)
        ensures
            r as u32 == self.bits_spec(),
    {
        match self {
            AdcSel::NoClock => 0,
            AdcSel::Hsi16 => 1,
            AdcSel::PllP => 2,
            AdcSel::SysClk => 3,
        }
    }
}

impl Clk {
    /// The clock-mode selector this clock configures.
    pub open spec fn ckmode_spec(self) -> CkMode {
        match self {
            Clk::RccHsi | Clk::RccPllP | Clk::RccSysClk => CkMode::Adclk,
            Clk::PClkDiv2 => CkMode::PclkDiv2,
            Clk::PClkDiv4 => CkMode::PclkDiv4,
            Clk::PClk => CkMode::Pclk,
        }
    }

    /// The clock-tree multiplexer selection this clock configures. The
    /// synchronous modes select no asynchronous source.
    pub open spec fn adcsel_spec(self) -> AdcSel {
        match self {
            Clk::RccHsi => AdcSel::Hsi16,
            Clk::RccPllP => AdcSel::PllP,
            Clk::RccSysClk => AdcSel::SysClk,
            Clk::PClkDiv2 | Clk::PClkDiv4 | Clk::PClk => AdcSel::NoClock,
        }
    }

    /// The clock-mode selector this clock configures.
    pub fn ckmode(&self) -> (r: CkMode)
        ensures
            r == self.ckmode_spec(),
    {
        match self {
            Clk::RccHsi | Clk::RccPllP | Clk::RccSysClk => CkMode::Adclk,
            Clk::PClkDiv2 => CkMode::PclkDiv2,
            Clk::PClkDiv4 => CkMode::PclkDiv4,
            Clk::PClk => CkMode::Pclk,
        }
    }

    /// The clock-tree multiplexer selection this clock configures.
    pub fn adcsel(&self) -> (r: AdcSel)
        ensures
            r == self.adcsel_spec(),
    {
        match self {
            Clk::RccHsi => AdcSel::Hsi16,
            Clk::RccPllP => AdcSel::PllP,
            Clk::RccSysClk => AdcSel::SysClk,
            Clk::PClkDiv2 | Clk::PClkDiv4 | Clk::PClk => AdcSel::NoClock,
        }
    }
}

/// A frequency reported by the clock tree: a non-negative exact rational
/// number of hertz, no larger than the 32-bit range and with a bounded
/// denominator, so that all arithmetic on it stays exact.
pub open spec fn freq_wf(f: Ratio) -> bool {
    &&& 0 < f.denom <= 0x4000_0000
    &&& 0 <= f.numer <= f.denom * 0xFFFF_FFFF
}

/// The clock-tree state the resolver queries: the multiplexer selection
/// and the frequencies the clock-tree peripheral reports.
#[derive(Debug, Clone, Copy)]
pub struct RccClocks {
    /// Source selected for the asynchronous ADC clock.
    pub adcsel: AdcSel,
    /// PLL P output frequency in hertz.
    pub pllp: Ratio,
    /// System clock frequency in hertz.
    pub sysclk: Ratio,
    /// Bus clock frequency in hertz.
    pub pclk: Ratio,
}

impl RccClocks {
    /// All reported frequencies are well-formed.
    pub open spec fn wf(self) -> bool {
        freq_wf(self.pllp) && freq_wf(self.sysclk) && freq_wf(self.pclk)
    }
}

/// The divider a prescaler field encoding selects, or `None` for one of
/// the four reserved encodings.
pub open spec fn presc_div_spec(bits: u8) -> Option<u32> {
    if bits == 0 {
        Some(1u32)
    } else if bits == 1 {
        Some(2u32)
    } else if bits == 2 {
        Some(4u32)
    } else if bits == 3 {
        Some(6u32)
    } else if bits == 4 {
        Some(8u32)
    } else if bits == 5 {
        Some(10u32)
    } else if bits == 6 {
        Some(12u32)
    } else if bits == 7 {
        Some(16u32)
    } else if bits == 8 {
        Some(32u32)
    } else if bits == 9 {
        Some(64u32)
    } else if bits == 10 {
        Some(128u32)
    } else if bits == 11 {
        Some(256u32)
    } else {
        None
    }
}

/// The divider actually applied: a reserved encoding falls back to 1.
pub open spec fn presc_fallback_spec(bits: u8) -> u32 {
    match presc_div_spec(bits) {
        Some(p) => p,
        None => 1,
    }
}

/// Decode a prescaler field. `None` means the field held one of the
/// reserved encodings 12 to 15, which the resolver treats as a divider of
/// 1; a caller that wants a diagnostic for the reserved case tests for
/// `None` here.
pub fn prescaler_div(bits: u8) -> (r: Option<u32>)
    ensures
        r == presc_div_spec(bits),
{
    match bits {
        0 => Some(1),
        1 => Some(2),
        2 => Some(4),
        3 => Some(6),
        4 => Some(8),
        5 => Some(10),
        6 => Some(12),
        7 => Some(16),
        8 => Some(32),
        9 => Some(64),
        10 => Some(128),
        11 => Some(256),
        _ => None,
    }
}

/// The frequency of the asynchronous source the multiplexer selects. With
/// no clock selected the frequency is zero.
pub open spec fn adc_source_spec(rcc: RccClocks) -> Ratio {
    match rcc.adcsel {
        AdcSel::NoClock => Ratio { numer: 0, denom: 1 },
        AdcSel::Hsi16 => Ratio { numer: 16_000_000, denom: 1 },
        AdcSel::PllP => rcc.pllp,
        AdcSel::SysClk => rcc.sysclk,
    }
}

/// The resolved ADC clock frequency in hertz: for the asynchronous mode,
/// the selected source divided by the (fallback-corrected) prescaler; for
/// the synchronous modes, the bus clock divided by 1, 2 or 4. Exact
/// rational division, truncated towards zero once.
pub open spec fn clock_hz_spec(ckmode: CkMode, presc_bits: u8, rcc: RccClocks) -> int {
    match ckmode {
        CkMode::Adclk => {
            let s = adc_source_spec(rcc);
            trunc_div(s.numer as int, s.denom * presc_fallback_spec(presc_bits))
        },
        CkMode::PclkDiv2 => trunc_div(rcc.pclk.numer as int, rcc.pclk.denom * 2),
        CkMode::PclkDiv4 => trunc_div(rcc.pclk.numer as int, rcc.pclk.denom * 4),
        CkMode::Pclk => trunc_div(rcc.pclk.numer as int, rcc.pclk.denom as int),
    }
}

/// Resolve the ADC clock frequency from the configured clock mode, the
/// prescaler field and the reported clock-tree frequencies.
pub fn resolve_clock_hz(ckmode: CkMode, presc_bits: u8, rcc: &RccClocks) -> (r: u32)
    requires
        rcc.wf(),
    ensures
        r == clock_hz_spec(ckmode, presc_bits, *rcc),
{
    let src: Ratio = match ckmode {
        CkMode::Adclk => {
            let s: Ratio = match rcc.adcsel {
                AdcSel::NoClock => Ratio::new_raw(0, 1),
                AdcSel::Hsi16 => Ratio::new_raw(16_000_000, 1),
                AdcSel::PllP => rcc.pllp,
                AdcSel::SysClk => rcc.sysclk,
            };
            // only the asynchronous clock has the prescaler applied; a
            // reserved encoding falls back to a divider of 1
            let p: u32 = match prescaler_div(presc_bits) {
                Some(p) => p,
                None => 1,
            };
            proof {
                lemma_div_product_bounded(s, p as i64);
            }
            s.div_int(p as i64)
        },
        CkMode::PclkDiv2 => {
            proof {
                lemma_div_product_bounded(rcc.pclk, 2);
            }
            rcc.pclk.div_int(2)
        },
        CkMode::PclkDiv4 => {
            proof {
                lemma_div_product_bounded(rcc.pclk, 4);
            }
            rcc.pclk.div_int(4)
        },
        CkMode::Pclk => rcc.pclk,
    };
    proof {
        lemma_resolved_fits_u32(src);
    }
    let hz: i64 = src.to_integer();
    hz as u32
}

/// A frequency value small enough to resolve: positive bounded
/// denominator, and a value within the 32-bit range.
pub open spec fn resolvable(f: Ratio) -> bool {
    &&& 0 < f.denom <= 0x4000_0000_0000_0000
    &&& 0 <= f.numer <= 0x4000_0000_0000_0000
    &&& f.numer <= f.denom * 0xFFFF_FFFF
}

/// A well-formed frequency is resolvable, and stays resolvable when its
/// denominator is multiplied by a small positive divider.
proof fn lemma_div_product_bounded(f: Ratio, p: i64)
    requires
        freq_wf(f),
        1 <= p <= 256,
    ensures
        resolvable(f),
        0 < f.denom * p <= 0x4000_0000_0000_0000,
        resolvable(Ratio { numer: f.numer, denom: (f.denom * p) as i64 }),
{
    assert(0 < f.denom * p <= 0x4000_0000 * 256) by (nonlinear_arith)
        requires
            0 < f.denom <= 0x4000_0000 && 1 <= p <= 256,
    ;
    assert(f.numer <= 0x4000_0000 * 0xFFFF_FFFF) by (nonlinear_arith)
        requires
            0 < f.denom <= 0x4000_0000 && f.numer <= f.denom * 0xFFFF_FFFF,
    ;
    assert(f.denom * 0xFFFF_FFFF <= (f.denom * p) * 0xFFFF_FFFF) by (nonlinear_arith)
        requires
            0 < f.denom && 1 <= p,
    ;
}

/// The truncation of a resolvable frequency is a 32-bit value.
proof fn lemma_resolved_fits_u32(f: Ratio)
    requires
        resolvable(f),
    ensures
        f.bounded(),
        0 <= trunc_div(f.numer as int, f.denom as int) <= 0xFFFF_FFFF,
{
    vstd::arithmetic::div_mod::lemma_div_pos_is_pos(f.numer as int, f.denom as int);
    vstd::arithmetic::div_mod::lemma_multiply_divide_le(
        f.numer as int,
        f.denom as int,
        0xFFFF_FFFF,
    );
}

/// Resolving under a reserved prescaler encoding gives exactly the
/// un-prescaled source frequency: the fallback divider is 1, the same as
/// the encoding for a divider of 1.
pub proof fn lemma_reserved_prescaler_fallback(presc_bits: u8, rcc: RccClocks)
    requires
        presc_div_spec(presc_bits) is None,
    ensures
        clock_hz_spec(CkMode::Adclk, presc_bits, rcc) == clock_hz_spec(CkMode::Adclk, 0, rcc),
{
}

/// With the synchronous bus-clock mode the resolver returns exactly the
/// bus clock frequency, and with the divide-by-4 mode exactly a quarter of
/// it, truncated: stated here for a whole-hertz bus clock.
pub proof fn lemma_sync_modes_exact(presc_bits: u8, rcc: RccClocks)
    requires
        rcc.wf(),
        rcc.pclk.denom == 1,
    ensures
        clock_hz_spec(CkMode::Pclk, presc_bits, rcc) == rcc.pclk.numer,
        clock_hz_spec(CkMode::PclkDiv4, presc_bits, rcc) == rcc.pclk.numer as int / 4,
{
    vstd::arithmetic::div_mod::lemma_div_basics(rcc.pclk.numer as int);
}

} // verus!
