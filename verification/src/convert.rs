//! Temperature unit conversion.
//!
//! The sensor reports degrees Celsius at a resolution of a tenth of a
//! degree, so temperatures are carried as integers in deci-degrees Celsius.
//! The Fahrenheit result of the linear transform `f = c * 9/5 + 32` is then
//! exactly representable in centi-degrees Fahrenheit: no rounding occurs
//! anywhere in the conversion.

use vstd::prelude::*;

verus! {

/// The Fahrenheit value, in hundredths of a degree, of a Celsius temperature
/// given in tenths of a degree: the linear transform `f = c * 9/5 + 32`
/// written over the scaled units.
pub open spec fn fahrenheit_centi(celsius_deci: int) -> int {
    18 * celsius_deci + 3200
}

/// Convert a temperature from tenths of a degree Celsius to hundredths of a
/// degree Fahrenheit, exactly.
pub fn celsius_deci_to_fahrenheit_centi(celsius_deci: i32) -> (fahrenheit: i64)
    ensures
        fahrenheit == fahrenheit_centi(celsius_deci as int),
{
    18 * (celsius_deci as i64) + 3200
}

/// The conversion is the Fahrenheit map `f = c * 9/5 + 32` and nothing else:
/// stated over milli-degrees, where both scales meet, a Celsius temperature
/// of `celsius_deci` tenths of a degree is `100 * celsius_deci`
/// milli-degrees, the result is `10 * fahrenheit_centi(celsius_deci)`
/// milli-degrees, and the two are related by exactly `* 9 / 5 + 32`, with
/// the division exact.
pub proof fn lemma_fahrenheit_linear(celsius_deci: int)
    ensures
        10 * fahrenheit_centi(celsius_deci) == (9 * (100 * celsius_deci)) / 5 + 32000,
{
    assert((9 * (100 * celsius_deci)) / 5 == 180 * celsius_deci) by (nonlinear_arith);
}

/// The anchor points of the transform: freezing water, boiling water, and
/// the point where both scales agree.
pub proof fn lemma_fahrenheit_anchors()
    ensures
        fahrenheit_centi(0) == 3200,
        fahrenheit_centi(1000) == 21200,
        fahrenheit_centi(-400) == -4000,
{
}

} // verus!
