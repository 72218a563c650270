//! Temperatures as whole degrees with a unit tag.
//!
//! Readings arrive from the diagnostic tool in Celsius; thresholds may be
//! expressed in either unit. Comparisons never round: a Celsius reading `c`
//! is at or above a Fahrenheit bound `f` exactly when `c * 1.8 + 32 >= f`,
//! i.e. `9 * c + 160 >= 5 * f`. Display values round the converted reading
//! to the nearest whole degree.

use vstd::prelude::*;

verus! {

/// The unit a temperature value is expressed in.
#[derive(Clone, Copy, PartialEq, Eq, Structural, Debug)]
pub enum TempUnit {
    Celsius,
    Fahrenheit,
}

/// A temperature: a whole number of degrees together with its unit.
#[derive(Clone, Copy, PartialEq, Eq, Structural, Debug)]
pub struct Temperature {
    pub degrees: i32,
    pub unit: TempUnit,
}

/// The display value of a Celsius reading: unchanged when displaying
/// Celsius, otherwise `c * 1.8 + 32` rounded to the nearest whole degree
/// (`(18 * c + 325) / 10` with flooring division; the scaled numerator is
/// never a multiple of ten, so no true tie exists).
pub open spec fn spec_to_fahrenheit_or(c: int, need: bool) -> int {
    if need {
        (18 * c + 325) / 10
    } else {
        c
    }
}

/// Whether the Celsius reading `reading_c` is at or above `bound`,
/// comparing exact temperatures (no rounding).
pub open spec fn spec_reaches(reading_c: int, bound: Temperature) -> bool {
    match bound.unit {
        TempUnit::Celsius => reading_c >= bound.degrees,
        TempUnit::Fahrenheit => 9 * reading_c + 160 >= 5 * bound.degrees,
    }
}

/// Convert a Celsius reading to its display value: itself, or the nearest
/// whole Fahrenheit degree when `need` is set.
pub fn to_fahrenheit_or(degrees: i32, need: bool) -> (r: i64)
    ensures
        r == spec_to_fahrenheit_or(degrees as int, need),
{
    if need {
        let n: i64 = 18 * (degrees as i64) + 325;
        if n >= 0 {
            ((n as u64) / 10) as i64
        } else {
            let m: u64 = (-n) as u64;
            let q: u64 = (m + 9) / 10;
            proof {
                lemma_neg_div_10(m as int);
            }
            -(q as i64)
        }
    } else {
        degrees as i64
    }
}

/// Flooring division of a negative number by ten, computed through the
/// magnitude: `(-m) / 10 == -((m + 9) / 10)` for `m >= 1`.
proof fn lemma_neg_div_10(m: int)
    requires
        m >= 1,
    ensures
        (-m) / 10 == -((m + 9) / 10),
{
    let q = (m + 9) / 10;
    let r = (m + 9) % 10;
    assert(m + 9 == 10 * q + r && 0 <= r < 10) by (nonlinear_arith)
        requires q == (m + 9) / 10 && r == (m + 9) % 10,
    ;
    assert((-m) == 10 * (-q) + (9 - r));
    assert((-m) / 10 == -q) by (nonlinear_arith)
        requires (-m) == 10 * (-q) + (9 - r) && 0 <= 9 - r < 10,
    ;
}

/// For Celsius values that are multiples of five — the class defaults
/// among them — the display conversion rounds nothing away: it equals the
/// exact conversion `(9 * c + 160) / 5`, i.e. `c * 1.8 + 32`.
pub proof fn lemma_display_conversion_exact(c: int)
    requires
        c % 5 == 0,
    ensures
        spec_to_fahrenheit_or(c, true) == (9 * c + 160) / 5,
{
    let k = c / 5;
    assert(c == 5 * k) by (nonlinear_arith)
        requires c % 5 == 0 && k == c / 5,
    ;
    assert(18 * c + 325 == 10 * (9 * k + 32) + 5);
    assert((10 * (9 * k + 32) + 5) / 10 == 9 * k + 32) by (nonlinear_arith);
    assert(9 * c + 160 == 5 * (9 * k + 32));
    assert((5 * (9 * k + 32)) / 5 == 9 * k + 32) by (nonlinear_arith);
}

/// Whether the Celsius reading is at or above `bound`; exact, per
/// `spec_reaches`.
pub fn reaches(reading_c: i32, bound: Temperature) -> (r: bool)
    ensures
        r == spec_reaches(reading_c as int, bound),
{
    match bound.unit {
        TempUnit::Celsius => reading_c >= bound.degrees,
        TempUnit::Fahrenheit => 9 * (reading_c as i64) + 160 >= 5 * (bound.degrees as i64),
    }
}

} // verus!
