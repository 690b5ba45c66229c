use macs_calc::macs::{check_macs_inputs, ValidationError};

#[test]
fn length_mismatch_is_rejected() {
    let energies = [0.001, 0.002, 0.003];
    let cross_sections = [10.0, 8.0];
    let r = check_macs_inputs(energies.len(), cross_sections.len(), 30.0 > 0.0);
    assert_eq!(r, Err(ValidationError::LengthMismatch));
}

#[test]
fn zero_temperature_is_rejected() {
    let t: f64 = 0.0;
    assert_eq!(check_macs_inputs(2, 2, t > 0.0), Err(ValidationError::NonPositiveTemperature));
}

#[test]
fn negative_temperature_is_rejected() {
    let t: f64 = -5.0;
    assert_eq!(check_macs_inputs(2, 2, t > 0.0), Err(ValidationError::NonPositiveTemperature));
}

#[test]
fn empty_series_is_rejected() {
    assert_eq!(check_macs_inputs(0, 0, true), Err(ValidationError::EmptyInput));
}

#[test]
fn length_is_checked_before_temperature() {
    assert_eq!(check_macs_inputs(3, 2, false), Err(ValidationError::LengthMismatch));
    assert_eq!(check_macs_inputs(0, 0, false), Err(ValidationError::EmptyInput));
}

#[test]
fn single_point_series_is_accepted() {
    assert_eq!(check_macs_inputs(1, 1, 30.0 > 0.0), Ok(()));
}

#[test]
fn repeated_checks_agree() {
    assert_eq!(check_macs_inputs(2, 2, true), check_macs_inputs(2, 2, true));
    assert_eq!(check_macs_inputs(3, 2, true), check_macs_inputs(3, 2, true));
}
