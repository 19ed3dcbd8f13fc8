//! Channel masks: one-hot encoding and reserved channels.

use stm32wl_hal::channel::{Ch, CH_MASK};

const ALL_CHANNELS: [Ch; 16] = [
    Ch::In0,
    Ch::In1,
    Ch::In2,
    Ch::In3,
    Ch::In4,
    Ch::In5,
    Ch::In6,
    Ch::In7,
    Ch::In8,
    Ch::In9,
    Ch::In10,
    Ch::In11,
    Ch::Vts,
    Ch::Vref,
    Ch::Vbat,
    Ch::Dac,
];

#[test]
fn mask_is_one_hot_at_channel_number() {
    for ch in ALL_CHANNELS.iter() {
        let m = ch.mask();
        assert_eq!(m, 1 << ch.num());
        assert_eq!(m.count_ones(), 1);
    }
}

#[test]
fn mask_examples() {
    assert_eq!(Ch::In0.mask(), 0x001);
    assert_eq!(Ch::In8.mask(), 0x100);
    assert_eq!(Ch::Vts.mask(), 0x1000);
    assert_eq!(Ch::Vref.mask(), 0x2000);
    assert_eq!(Ch::Vbat.mask(), 0x4000);
    assert_eq!(Ch::Dac.mask(), 0x20000);
}

#[test]
fn no_mask_addresses_a_reserved_channel() {
    for ch in ALL_CHANNELS.iter() {
        assert_eq!(ch.mask() & 0x18000, 0);
        assert_eq!(ch.mask() & !CH_MASK, 0);
    }
}

#[test]
fn valid_channel_mask_value() {
    // bits 0 to 14 and 17, without the reserved 15 and 16
    assert_eq!(CH_MASK, 0x27FFF);
    let union: u32 = ALL_CHANNELS.iter().map(|c| c.mask()).fold(0, |a, m| a | m);
    assert_eq!(union, CH_MASK);
}
