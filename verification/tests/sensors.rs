//! Sensor conversions: temperature interpolation and raw passthrough.

use stm32wl_hal::adc::Adc;
use stm32wl_hal::clock::Clk;
use stm32wl_hal::ratio::Ratio;
use stm32wl_hal::sensor::{
    saturating_add_u16, temperature_from_sample, to_signed16, wrapping_sub_u16,
};

#[test]
fn temperature_worked_example() {
    // raw sample 1500, calibration factor 10, factory samples 1400 at
    // 30 degrees and 1800 at 130 degrees:
    // corrected = 1510, slope = 100/400, t = 0.25 * 110 + 30 = 57.5 -> 57
    let t = temperature_from_sample(1500, 10, 1400, 1800);
    assert_eq!(t.denom(), 400);
    assert_eq!(t.numer(), 100 * 110 + 30 * 400);
    assert_eq!(t.to_integer(), 57);
}

#[test]
fn temperature_exact_at_calibration_points() {
    let t1 = temperature_from_sample(1400, 0, 1400, 1800);
    assert_eq!(t1.to_integer(), 30);
    let t2 = temperature_from_sample(1800, 0, 1400, 1800);
    assert_eq!(t2.to_integer(), 130);
}

#[test]
fn temperature_below_first_point_truncates_towards_zero() {
    // corrected = 1170, slope = 1/4, t = 0.25 * -230 + 30 = -27.5 -> -27
    let t = temperature_from_sample(1170, 0, 1400, 1800);
    assert_eq!(t.to_integer(), -27);
}

#[test]
fn temperature_subtraction_wraps_at_16_bits() {
    // cal2 reads lower than cal1: the difference wraps and reinterprets
    // as a negative signed value, as the register width dictates
    assert_eq!(wrapping_sub_u16(100, 200), 0xFF9C);
    assert_eq!(to_signed16(0xFF9C), -100);
    let t = temperature_from_sample(150, 0, 200, 100);
    assert_eq!(t.denom(), -100);
    // slope = 100 / -100 = -1; t = -1 * -50 + 30 = 80
    assert_eq!(t.to_integer(), 80);
}

#[test]
fn correction_saturates_at_16_bits() {
    assert_eq!(saturating_add_u16(0xFFF0, 0x20), 0xFFFF);
    assert_eq!(saturating_add_u16(0xFF00, 0x20), 0xFF20);
    // a corrected sample clamps at the register width instead of wrapping:
    // corrected = 0xFFFF, so corrected - cal1 is 2 rather than wrapping
    let t = temperature_from_sample(0xFFF0, 0x20, 0xFFFD, 0xFFFE);
    assert_eq!(t.denom(), 1);
    assert_eq!(t.numer(), 100 * 2 + 30);
}

#[test]
fn driver_temperature_uses_the_conversion() {
    let mut adc = Adc::new(Clk::RccHsi);
    adc.enable();
    adc.enable_tsen();
    let t = adc.temperature(1500, 10, 1400, 1800);
    assert_eq!(t.to_integer(), 57);
}

#[test]
fn ratio_truncates_towards_zero_in_all_signs() {
    assert_eq!(Ratio::new_raw(7, 2).to_integer(), 3);
    assert_eq!(Ratio::new_raw(-7, 2).to_integer(), -3);
    assert_eq!(Ratio::new_raw(7, -2).to_integer(), -3);
    assert_eq!(Ratio::new_raw(-7, -2).to_integer(), 3);
    assert_eq!(Ratio::new_raw(0, 5).to_integer(), 0);
}

#[test]
fn ratio_arithmetic_is_exact() {
    let r = Ratio::new_raw(100, 400);
    let r = r.mul_int(110);
    assert_eq!(r.numer(), 11_000);
    assert_eq!(r.denom(), 400);
    let r = r.add_int(30);
    assert_eq!(r.numer(), 23_000);
    assert_eq!(r.denom(), 400);
    let d = Ratio::new_raw(16_000_000, 1).div_int(6);
    assert_eq!(d.numer(), 16_000_000);
    assert_eq!(d.denom(), 6);
    assert_eq!(d.to_integer(), 2_666_666);
}
