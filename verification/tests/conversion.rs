// The temperature conversion: exact anchor points of f = c * 9/5 + 32 over
// the scaled integer units (deci-Celsius in, centi-Fahrenheit out).

use motion_sampler::convert::celsius_deci_to_fahrenheit_centi;

#[test]
fn freezing_point_converts_to_32() {
    assert_eq!(celsius_deci_to_fahrenheit_centi(0), 3200);
}

#[test]
fn boiling_point_converts_to_212() {
    assert_eq!(celsius_deci_to_fahrenheit_centi(1000), 21200);
}

#[test]
fn scales_agree_at_minus_40() {
    assert_eq!(celsius_deci_to_fahrenheit_centi(-400), -4000);
}

#[test]
fn room_temperature_converts_exactly() {
    // 20.0 degrees Celsius is 68.00 degrees Fahrenheit.
    assert_eq!(celsius_deci_to_fahrenheit_centi(200), 6800);
    // The sensor's tenth-of-a-degree resolution stays exact: 21.3 -> 70.34.
    assert_eq!(celsius_deci_to_fahrenheit_centi(213), 7034);
}

#[test]
fn extreme_inputs_convert_without_overflow() {
    assert_eq!(
        celsius_deci_to_fahrenheit_centi(i32::MAX),
        18 * (i32::MAX as i64) + 3200
    );
    assert_eq!(
        celsius_deci_to_fahrenheit_centi(i32::MIN),
        18 * (i32::MIN as i64) + 3200
    );
}
