//! Conversion of raw internal-sensor samples into physical values.
//!
//! The junction temperature is a two-point linear interpolation between two
//! factory-programmed raw samples taken at 30 °C and 130 °C, corrected by
//! the calibration factor the peripheral reports after self-calibration.
//! Subtraction of the factory constants uses wrap-around 16-bit semantics,
//! matching the width of the raw data register, and the difference is then
//! reinterpreted as a signed value. The voltage-reference and battery
//! channels return their raw code unchanged; the battery code stands for a
//! third of the supply voltage, scaling left to the caller.

use vstd::prelude::*;

use crate::ratio::Ratio;

verus! {

/// Temperature in degrees Celsius at which the first factory calibration
/// sample was taken.
pub const TS_CAL1_TEMP: i64 = 30;

/// Temperature in degrees Celsius at which the second factory calibration
/// sample was taken.
pub const TS_CAL2_TEMP: i64 = 130;

/// Temperature span between the two factory calibration samples.
pub const TS_CAL_TEMP_DELTA: i64 = TS_CAL2_TEMP - TS_CAL1_TEMP;

/// Wrap-around 16-bit difference `a - b`, as the raw register width
/// computes it: always in `0 .. 0x10000`.
pub open spec fn wrap_sub16(a: int, b: int) -> int {
    (a - b) % 0x10000
}

/// A 16-bit word reinterpreted as a signed (two's complement) value.
pub open spec fn as_signed16(x: int) -> int {
    if x >= 0x8000 {
        x - 0x10000
    } else {
        x
    }
}

/// The wrap-around difference `a - b`, reinterpreted as signed.
pub open spec fn signed_sub16(a: int, b: int) -> int {
    as_signed16(wrap_sub16(a, b))
}

/// Wrap-around 16-bit subtraction.
pub fn wrapping_sub_u16(a: u16, b: u16) -> (r: u16)
    ensures
        r == wrap_sub16(a as int, b as int),
{
    if a >= b {
        proof {
            vstd::arithmetic::div_mod::lemma_small_mod((a - b) as nat, 0x10000);
        }
        a - b
    } else {
        let r: u32 = (a as u32) + 0x10000 - (b as u32);
        proof {
            vstd::arithmetic::div_mod::lemma_mod_add_multiples_vanish(
                a as int - b as int,
                0x10000,
            );
            vstd::arithmetic::div_mod::lemma_small_mod(r as nat, 0x10000);
        }
        r as u16
    }
}

/// Saturating 16-bit addition.
pub fn saturating_add_u16(a: u16, b: u16) -> (r: u16)
    ensures
        r == if a + b > 0xFFFF {
            0xFFFF as int
        } else {
            a + b
        },
{
    let sum: u32 = (a as u32) + (b as u32);
    if sum > 0xFFFF {
        0xFFFF
    } else {
        sum as u16
    }
}

/// Reinterpret a 16-bit word as its signed (two's complement) value.
pub fn to_signed16(x: u16) -> (r: i32)
    ensures
        r == as_signed16(x as int),
{
    if x >= 0x8000 {
        (x as i32) - 0x10000
    } else {
        x as i32
    }
}

/// The numerator of the interpolated temperature over the denominator
/// `d` (the signed wrapped difference of the factory constants):
/// `delta * (corrected - cal1) + cal1_temp * d`, all exact.
pub open spec fn temperature_numer_spec(sample: int, calfact: int, cal1: int, cal2: int) -> int {
    TS_CAL_TEMP_DELTA * signed_sub16(corrected_sample_spec(sample, calfact), cal1) + TS_CAL1_TEMP
        * signed_sub16(cal2, cal1)
}

/// The raw sample with the calibration factor applied as an additive
/// correction, saturating at the 16-bit range.
pub open spec fn corrected_sample_spec(sample: int, calfact: int) -> int {
    if sample + calfact > 0xFFFF {
        0xFFFF
    } else {
        sample + calfact
    }
}

/// Interpolate the junction temperature in degrees Celsius from a raw
/// temperature-sensor sample.
///
/// `calfact` is the calibration factor read back after self-calibration;
/// `cal1` and `cal2` are the factory-programmed raw samples at
/// [`TS_CAL1_TEMP`] and [`TS_CAL2_TEMP`]. The result is the exact rational
///
/// ```text
/// (cal2_temp - cal1_temp) / (cal2 - cal1) * (sample + calfact - cal1) + cal1_temp
/// ```
///
/// with both differences computed in wrap-around 16-bit arithmetic and
/// reinterpreted as signed, and the corrected sample saturating at the
/// 16-bit range.
pub fn temperature_from_sample(sample: u16, calfact: u8, cal1: u16, cal2: u16) -> (r: Ratio)
    ensures
        r.denom == signed_sub16(cal2 as int, cal1 as int),
        r.numer == temperature_numer_spec(sample as int, calfact as int, cal1 as int, cal2 as int),
{
    let d: i64 = to_signed16(wrapping_sub_u16(cal2, cal1)) as i64;
    let slope: Ratio = Ratio::new_raw(TS_CAL_TEMP_DELTA, d);
    let corrected: u16 = saturating_add_u16(sample, calfact as u16);
    let x: i64 = to_signed16(wrapping_sub_u16(corrected, cal1)) as i64;
    slope.mul_int(x).add_int(TS_CAL1_TEMP)
}

} // verus!
