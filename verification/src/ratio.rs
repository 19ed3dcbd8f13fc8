//! Exact rational arithmetic.
//!
//! Clock frequencies, sample-time cycle counts and the temperature
//! interpolation are all exact rationals; rounding happens once, at the
//! final truncating conversion to an integer. Nothing here reduces a
//! fraction: `numer` and `denom` are kept exactly as constructed, so
//! contracts can speak about both fields literally.

use vstd::prelude::*;

verus! {

/// Truncating division of the rational `n / d`: the quotient rounded
/// towards zero. For non-negative operands this is Euclidean division.
pub open spec fn trunc_div(n: int, d: int) -> int {
    if n >= 0 {
        if d > 0 {
            n / d
        } else {
            -(n / -d)
        }
    } else {
        if d > 0 {
            -(-n / d)
        } else {
            -n / -d
        }
    }
}

/// An exact rational number `numer / denom`.
///
/// The fields are raw: no normalisation, no implicit reduction. A zero
/// denominator is representable but every operation that divides requires
/// it away.
#[derive(Clone, Copy, Debug)]
pub struct Ratio {
    pub numer: i64,
    pub denom: i64,
}

/// Magnitude bound under which all `Ratio` arithmetic here stays exact in
/// `i64`: every operation requires its operands and result within it.
pub const RATIO_LIMIT: i64 = 0x4000_0000_0000_0000;

impl Ratio {
    /// Both fields within [`RATIO_LIMIT`] in magnitude.
    pub open spec fn bounded(self) -> bool {
        -RATIO_LIMIT <= self.numer <= RATIO_LIMIT && -RATIO_LIMIT <= self.denom <= RATIO_LIMIT
    }

    /// Build the rational `numer / denom` exactly as given.
    pub fn new_raw(numer: i64, denom: i64) -> (r: Ratio)
        ensures
            r.numer == numer,
            r.denom == denom,
    {
        Ratio { numer, denom }
    }

    /// The numerator, exactly as constructed.
    pub fn numer(&self) -> (r: i64)
        ensures
            r == self.numer,
    {
        self.numer
    }

    /// The denominator, exactly as constructed.
    pub fn denom(&self) -> (r: i64)
        ensures
            r == self.denom,
    {
        self.denom
    }

    /// Multiply by an integer: `(n / d) * m == (n * m) / d`.
    pub fn mul_int(self, m: i64) -> (r: Ratio)
        requires
            -RATIO_LIMIT <= self.numer * m <= RATIO_LIMIT,
        ensures
            r.numer == self.numer * m,
            r.denom == self.denom,
    {
        Ratio { numer: self.numer * m, denom: self.denom }
    }

    /// Divide by an integer: `(n / d) / m == n / (d * m)`.
    pub fn div_int(self, m: i64) -> (r: Ratio)
        requires
            -RATIO_LIMIT <= self.denom * m <= RATIO_LIMIT,
        ensures
            r.numer == self.numer,
            r.denom == self.denom * m,
    {
        Ratio { numer: self.numer, denom: self.denom * m }
    }

    /// Add an integer: `(n / d) + m == (n + m * d) / d`.
    pub fn add_int(self, m: i64) -> (r: Ratio)
        requires
            -RATIO_LIMIT <= self.numer + m * self.denom <= RATIO_LIMIT,
            -RATIO_LIMIT <= m * self.denom <= RATIO_LIMIT,
        ensures
            r.numer == self.numer + m * self.denom,
            r.denom == self.denom,
    {
        Ratio { numer: self.numer + m * self.denom, denom: self.denom }
    }

    /// The rational truncated towards zero.
    pub fn to_integer(&self) -> (r: i64)
        requires
            self.denom != 0,
            self.bounded(),
        ensures
            r == trunc_div(self.numer as int, self.denom as int),
    {
        let n_neg: bool = self.numer < 0;
        let d_neg: bool = self.denom < 0;
        let n_abs: u64 = if n_neg {
            (-self.numer) as u64
        } else {
            self.numer as u64
        };
        let d_abs: u64 = if d_neg {
            (-self.denom) as u64
        } else {
            self.denom as u64
        };
        let q: u64 = n_abs / d_abs;
        assert(q <= n_abs) by {
            vstd::arithmetic::div_mod::lemma_div_is_ordered_by_denominator(
                n_abs as int,
                1,
                d_abs as int,
            );
            vstd::arithmetic::div_mod::lemma_div_basics(n_abs as int);
        };
        if n_neg != d_neg {
            -(q as i64)
        } else {
            q as i64
        }
    }
}

} // verus!
