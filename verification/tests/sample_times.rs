//! Sample-time settings: cycle counts, durations and register packing.

use stm32wl_hal::sample::{smpr_word, Ts};

const ALL_SETTINGS: [Ts; 8] = [
    Ts::Cyc1,
    Ts::Cyc3,
    Ts::Cyc7,
    Ts::Cyc12,
    Ts::Cyc19,
    Ts::Cyc39,
    Ts::Cyc79,
    Ts::Cyc160,
];

#[test]
fn cycles_are_half_integers() {
    // each setting named after k cycles is exactly (2k + 1) / 2
    let whole: [i64; 8] = [1, 3, 7, 12, 19, 39, 79, 160];
    for (ts, k) in ALL_SETTINGS.iter().zip(whole.iter()) {
        let c = ts.cycles();
        assert_eq!(c.numer(), 2 * k + 1);
        assert_eq!(c.denom(), 2);
    }
}

#[test]
fn cycles_exact_values() {
    assert_eq!(Ts::Cyc1.cycles().numer(), 3);
    assert_eq!(Ts::Cyc12.cycles().numer(), 25);
    assert_eq!(Ts::Cyc160.cycles().numer(), 321);
}

#[test]
fn durations_at_16_mhz() {
    const FREQ: u32 = 16_000_000;
    let expect: [u64; 8] = [93, 218, 468, 781, 1_218, 2_468, 4_968, 10_031];
    for (ts, ns) in ALL_SETTINGS.iter().zip(expect.iter()) {
        assert_eq!(ts.as_duration(FREQ), *ns);
    }
}

#[test]
fn duration_truncates_towards_zero() {
    // 1.5 cycles at 16 MHz is 93.75 ns: the fraction is dropped
    assert_eq!(Ts::Cyc1.as_duration(16_000_000), 93);
    // 1.5 cycles at 1 Hz is exactly 1.5 s
    assert_eq!(Ts::Cyc1.as_duration(1), 1_500_000_000);
}

#[test]
fn default_is_reset_value() {
    assert_eq!(Ts::default(), Ts::Cyc1);
}

#[test]
fn extreme_settings() {
    assert_eq!(Ts::MAX, Ts::Cyc160);
    assert_eq!(Ts::MIN, Ts::Cyc1);
}

#[test]
fn selector_encodings() {
    for (i, ts) in ALL_SETTINGS.iter().enumerate() {
        assert_eq!(ts.num() as usize, i);
    }
}

#[test]
fn smpr_word_packs_mask_and_settings() {
    // mask in bits 8 and up, second setting in bits 4 to 6, first in 0 to 2
    assert_eq!(smpr_word(0x5, Ts::Cyc160, Ts::Cyc39), (0x5 << 8) | (5 << 4) | 7);
    assert_eq!(smpr_word(0, Ts::Cyc1, Ts::Cyc1), 0);
}

#[test]
fn smpr_word_drops_reserved_channel_bits() {
    // bits 15 and 16 of the selector mask never reach the register image
    let w = smpr_word(0xFFFF_FFFF, Ts::Cyc1, Ts::Cyc1);
    assert_eq!(w >> 8, 0x27FFF);
    let w2 = smpr_word(1 << 15 | 1 << 16, Ts::Cyc3, Ts::Cyc7);
    assert_eq!(w2 >> 8, 0);
}
