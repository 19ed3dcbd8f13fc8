//! ADC sample times.
//!
//! The hardware offers eight discrete sample-time settings. Setting number
//! `k` holds the input for `(2k + 1) / 2` sampling-clock cycles, from 1.5
//! up to 160.5 cycles. The sample-time register packs two settings and a
//! per-channel selector mask into one word.

use vstd::prelude::*;

use crate::channel::CH_MASK;
use crate::ratio::Ratio;

verus! {

/// ADC sample times.
#[derive(Clone, Copy, Debug, PartialEq, Eq, PartialOrd, Ord)]
pub enum Ts {
    /// 1.5 ADC clock cycles.
    Cyc1,
    /// 3.5 ADC clock cycles.
    Cyc3,
    /// 7.5 ADC clock cycles.
    Cyc7,
    /// 12.5 ADC clock cycles.
    Cyc12,
    /// 19.5 ADC clock cycles.
    Cyc19,
    /// 39.5 ADC clock cycles.
    Cyc39,
    /// 79.5 ADC clock cycles.
    Cyc79,
    /// 160.5 ADC clock cycles.
    Cyc160,
}

impl Ts {
    /// Maximum sample time, 160.5 ADC clock cycles.
    pub const MAX: Ts = Ts::Cyc160;

    /// Minimum sample time, 1.5 ADC clock cycles.
    pub const MIN: Ts = Ts::Cyc1;

    /// The setting's ordinal: its encoding in a sample-time selector field.
    pub open spec fn num_spec(self) -> u32 {
        match self {
            Ts::Cyc1 => 0,
            Ts::Cyc3 => 1,
            Ts::Cyc7 => 2,
            Ts::Cyc12 => 3,
            Ts::Cyc19 => 4,
            Ts::Cyc39 => 5,
            Ts::Cyc79 => 6,
            Ts::Cyc160 => 7,
        }
    }

    /// The whole number of cycles the setting is named after: its exact
    /// cycle count is `(2k + 1) / 2` for this `k`.
    pub open spec fn cycles_whole(self) -> u32 {
        match self {
            Ts::Cyc1 => 1,
            Ts::Cyc3 => 3,
            Ts::Cyc7 => 7,
            Ts::Cyc12 => 12,
            Ts::Cyc19 => 19,
            Ts::Cyc39 => 39,
            Ts::Cyc79 => 79,
            Ts::Cyc160 => 160,
        }
    }

    /// The setting as the hardware encodes it in a 3-bit selector field.
    pub fn num(self) -> (r: u8)
        ensures
            r as u32 == self.num_spec(),
    {
        match self {
            Ts::Cyc1 => 0,
            Ts::Cyc3 => 1,
            Ts::Cyc7 => 2,
            Ts::Cyc12 => 3,
            Ts::Cyc19 => 4,
            Ts::Cyc39 => 5,
            Ts::Cyc79 => 6,
            Ts::Cyc160 => 7,
        }
    }

    /// Number of sampling-clock cycles, as the exact rational
    /// `(2k + 1) / 2` for the whole cycle count `k` the setting is named
    /// after.
    pub fn cycles(&self) -> (r: Ratio)
        ensures
            r.numer == 2 * self.cycles_whole() + 1,
            r.denom == 2,
    {
        match self {
            Ts::Cyc1 => Ratio::new_raw(3, 2),
            Ts::Cyc3 => Ratio::new_raw(7, 2),
            Ts::Cyc7 => Ratio::new_raw(15, 2),
            Ts::Cyc12 => Ratio::new_raw(25, 2),
            Ts::Cyc19 => Ratio::new_raw(39, 2),
            Ts::Cyc39 => Ratio::new_raw(79, 2),
            Ts::Cyc79 => Ratio::new_raw(159, 2),
            Ts::Cyc160 => Ratio::new_raw(321, 2),
        }
    }

    /// The sample time in nanoseconds at the given ADC clock frequency:
    /// `cycles * 1e9 / hz`, with fractional nanoseconds truncated towards
    /// zero.
    pub fn as_duration(&self, hz: u32) -> (r: u64)
        requires
            1 <= hz,
        ensures
            r == (2 * self.cycles_whole() + 1) * 1_000_000_000 / (2 * hz as int),
    {
        let c: Ratio = self.cycles();
        let numer: u64 = (c.numer() as u64) * 1_000_000_000;
        let denom: u64 = (c.denom() as u64) * (hz as u64);
        numer / denom
    }
}

impl Default for Ts {
    /// Reset value of the sample time.
    fn default() -> (r: Self)
        ensures
            r == Ts::Cyc1,
    {
        Ts::Cyc1
    }
}

/// The packed sample-time register word: the selector mask, restricted to
/// the valid channels, in bits 8 and up; the second setting in bits 4 to 6;
/// the first setting in bits 0 to 2.
pub open spec fn smpr_word_spec(mask: u32, sel0: u32, sel1: u32) -> u32 {
    ((mask & CH_MASK) << 8) | (sel1 << 4) | sel0
}

/// Pack a selector mask and two sample-time settings into the sample-time
/// register word. Reserved channel bits in the mask are discarded.
pub fn smpr_word(mask: u32, sel0: Ts, sel1: Ts) -> (r: u32)
    ensures
        r == smpr_word_spec(mask, sel0.num_spec(), sel1.num_spec()),
{
    ((mask & CH_MASK) << 8) | ((sel1.num() as u32) << 4) | (sel0.num() as u32)
}

/// The packed word never carries the reserved channel bits: positions 15
/// and 16 of the selector mask are discarded before they reach the
/// register image.
pub proof fn lemma_smpr_word_masks_reserved(mask: u32, sel0: u32, sel1: u32)
    requires
        sel0 < 8,
        sel1 < 8,
    ensures
        (smpr_word_spec(mask, sel0, sel1) >> 8) & 0x18000u32 == 0,
        (smpr_word_spec(mask, sel0, sel1) >> 8) & 0x27FFFu32 == mask & CH_MASK,
{
    assert(((((mask & 0x27FFFu32) << 8) | (sel1 << 4) | sel0) >> 8) & 0x18000u32 == 0 && ((((mask
        & 0x27FFFu32) << 8) | (sel1 << 4) | sel0) >> 8) & 0x27FFFu32 == mask & 0x27FFFu32)
        by (bit_vector)
        requires
            sel0 < 8 && sel1 < 8,
    ;
}

} // verus!
