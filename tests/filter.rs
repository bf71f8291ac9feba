use xnav::filter::{check_dimensions, NavError};

#[test]
fn matching_lengths_are_accepted() {
    assert_eq!(check_dimensions(4, 4, 4), Ok(()));
}

#[test]
fn zero_pulsars_are_accepted() {
    assert_eq!(check_dimensions(0, 0, 0), Ok(()));
}

#[test]
fn mismatched_measurements_are_rejected() {
    assert_eq!(check_dimensions(4, 3, 4), Err(NavError::InvalidDimensions));
}

#[test]
fn mismatched_variances_are_rejected() {
    assert_eq!(check_dimensions(4, 4, 5), Err(NavError::InvalidDimensions));
    assert_eq!(check_dimensions(0, 0, 1), Err(NavError::InvalidDimensions));
}
