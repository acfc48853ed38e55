use use_control::{deadband, relative_error, ControlErrorError, Scalar};

fn s(x: f64) -> Scalar {
    Scalar::from_bits(x.to_bits())
}

fn f(x: Scalar) -> f64 {
    f64::from_bits(x.to_bits())
}

/// The relative error as a caller computes it: the quotient in binary64
/// arithmetic handed to the verified rule.
fn relative(setpoint: f64, measured: f64) -> Option<f64> {
    relative_error(s(setpoint), s(measured), s((setpoint - measured) / setpoint)).map(f)
}

fn percent(setpoint: f64, measured: f64) -> Option<f64> {
    relative(setpoint, measured).map(|value| value * 100.0)
}

#[test]
fn computes_error_forms() {
    assert_eq!(relative(10.0, 8.0), Some(0.2));
    assert_eq!(percent(10.0, 8.0), Some(20.0));
}

#[test]
fn applies_deadband() {
    assert_eq!(deadband(s(0.05), s(0.1)).unwrap(), s(0.0));
    assert_eq!(deadband(s(-0.2), s(0.1)).unwrap(), s(-0.2));
}

#[test]
fn rejects_invalid_values() {
    assert_eq!(relative(0.0, 1.0), None);
    assert_eq!(percent(f64::NAN, 1.0), None);
    assert_eq!(deadband(s(f64::NAN), s(0.1)), Err(ControlErrorError::InvalidError));
    assert_eq!(deadband(s(0.1), s(-0.1)), Err(ControlErrorError::InvalidThreshold));
}

#[test]
fn deadband_returns_positive_zero_inside_the_band() {
    let inside = deadband(s(-0.05), s(0.1)).unwrap();
    assert_eq!(inside.to_bits(), 0);
    assert_eq!(deadband(s(0.1), s(0.1)).unwrap().to_bits(), 0);
    assert_eq!(deadband(s(0.2), s(0.1)).unwrap(), s(0.2));
}

#[test]
fn deadband_twice_changes_nothing() {
    for &(e, t) in [(0.05, 0.1), (-0.2, 0.1), (3.0, 0.0), (0.0, 0.0), (-0.0, 1.0)].iter() {
        let once = deadband(s(e), s(t)).unwrap();
        let twice = deadband(once, s(t)).unwrap();
        assert_eq!(once.to_bits(), twice.to_bits());
    }
}

#[test]
fn deadband_refuses_infinite_threshold_and_error() {
    assert_eq!(deadband(s(1.0), s(f64::INFINITY)), Err(ControlErrorError::InvalidThreshold));
    assert_eq!(deadband(s(f64::NEG_INFINITY), s(1.0)), Err(ControlErrorError::InvalidError));
    assert_eq!(deadband(s(f64::NAN), s(-1.0)), Err(ControlErrorError::InvalidError));
}

#[test]
fn relative_error_needs_a_nonzero_finite_setpoint() {
    assert_eq!(relative(-0.0, 1.0), None);
    assert_eq!(relative(1.0, f64::INFINITY), None);
    assert_eq!(relative(f64::INFINITY, 1.0), None);
    assert_eq!(relative(4.0, 1.0), Some(0.75));
    // The quotient handed in is what comes back.
    assert_eq!(relative_error(s(4.0), s(1.0), s(123.0)), Some(s(123.0)));
}
