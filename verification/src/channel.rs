//! ADC input channels and their one-hot selection masks.
//!
//! Channels 0 to 17 exist, but 15 and 16 are reserved by the hardware and
//! have no variant here, so no mask built from a [`Ch`] can ever address
//! them. Channels 12 to 14 and 17 are internal sources (temperature sensor,
//! voltage reference, battery divider, DAC loopback); 0 to 11 are external
//! pins.

use vstd::prelude::*;

verus! {

/// Mask of all valid channels: bits 0 to 14 and 17. Bits 15 and 16 are
/// reserved and always clear.
pub const CH_MASK: u32 = 0x27FFF;

/// ADC channels.
#[derive(Debug, PartialEq, Eq, Clone, Copy)]
pub enum Ch {
    /// ADC input 0.
    In0,
    /// ADC input 1.
    In1,
    /// ADC input 2.
    In2,
    /// ADC input 3.
    In3,
    /// ADC input 4.
    In4,
    /// ADC input 5.
    In5,
    /// ADC input 6.
    In6,
    /// ADC input 7.
    In7,
    /// ADC input 8.
    In8,
    /// ADC input 9.
    In9,
    /// ADC input 10.
    In10,
    /// ADC input 11.
    In11,
    /// Junction temperature sensor.
    Vts,
    /// Internal voltage reference.
    Vref,
    /// Battery voltage divided by 3.
    Vbat,
    /// Digital to analog converter output, routed back internally.
    Dac,
}

impl Ch {
    /// The channel number: the bit position of the channel in the
    /// channel-selection register.
    pub open spec fn num_spec(self) -> u32 {
        match self {
            Ch::In0 => 0,
            Ch::In1 => 1,
            Ch::In2 => 2,
            Ch::In3 => 3,
            Ch::In4 => 4,
            Ch::In5 => 5,
            Ch::In6 => 6,
            Ch::In7 => 7,
            Ch::In8 => 8,
            Ch::In9 => 9,
            Ch::In10 => 10,
            Ch::In11 => 11,
            Ch::Vts => 12,
            Ch::Vref => 13,
            Ch::Vbat => 14,
            Ch::Dac => 17,
        }
    }

    /// One-hot mask of the channel: exactly the bit at position
    /// [`num_spec`](Ch::num_spec) is set.
    pub open spec fn mask_spec(self) -> u32 {
        1u32 << self.num_spec()
    }

    /// The channel number as the hardware encodes it.
    pub fn num(self) -> (r: u8)
        ensures
            r as u32 == self.num_spec(),
    {
        match self {
            Ch::In0 => 0,
            Ch::In1 => 1,
            Ch::In2 => 2,
            Ch::In3 => 3,
            Ch::In4 => 4,
            Ch::In5 => 5,
            Ch::In6 => 6,
            Ch::In7 => 7,
            Ch::In8 => 8,
            Ch::In9 => 9,
            Ch::In10 => 10,
            Ch::In11 => 11,
            Ch::Vts => 12,
            Ch::Vref => 13,
            Ch::Vbat => 14,
            Ch::Dac => 17,
        }
    }

    /// Bitmask of the channel.
    pub fn mask(self) -> (r: u32)
        ensures
            r == self.mask_spec(),
    {
        let n: u8 = self.num();
        1u32 << (n as u32)
    }
}

/// Every channel mask is one-hot at the channel's own bit position, lies
/// within the valid-channel mask, and never touches the reserved bits 15
/// and 16.
pub proof fn lemma_channel_mask_valid(ch: Ch)
    ensures
        ch.mask_spec() == 1u32 << ch.num_spec(),
        ch.mask_spec() & CH_MASK == ch.mask_spec(),
        ch.mask_spec() & !CH_MASK == 0,
        ch.mask_spec() & 0x18000u32 == 0,
        ch.mask_spec() != 0,
{
    let n: u32 = ch.num_spec();
    assert(n <= 17 && n != 15 && n != 16);
    assert((1u32 << n) & 0x27FFFu32 == (1u32 << n) && (1u32 << n) & !0x27FFFu32 == 0 && (1u32 << n)
        & 0x18000u32 == 0 && (1u32 << n) != 0) by (bit_vector)
        requires
            n <= 17 && n != 15 && n != 16,
    ;
}

} // verus!
