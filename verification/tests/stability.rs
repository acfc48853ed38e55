use use_control::{classify_gain, is_bounded, settling_index, Scalar, Stability, StabilityError};

fn s(x: f64) -> Scalar {
    Scalar::from_bits(x.to_bits())
}

fn scalars(values: &[f64]) -> Vec<Scalar> {
    values.iter().map(|v| s(*v)).collect()
}

/// Per-sample tolerance check as a caller computes it, with a few ulps of
/// slack scaled by the magnitudes involved.
fn sample_within(value: f64, target: f64, tolerance: f64) -> bool {
    let scale = 1.0_f64.max(value.abs()).max(target.abs()).max(tolerance.abs());
    (value - target).abs() <= tolerance + f64::EPSILON * scale * 8.0
}

/// The settling time: the verified settling index times the timestep.
fn settling_time(values: &[f64], target: f64, tolerance: f64, dt: f64) -> Result<Option<f64>, StabilityError> {
    let within: Vec<bool> = values.iter().map(|v| sample_within(*v, target, tolerance)).collect();
    let index = settling_index(&scalars(values), s(target), s(tolerance), s(dt), &within)?;
    Ok(index.map(|i| i as f64 * dt))
}

#[test]
fn classifies_gain_magnitude() {
    assert_eq!(classify_gain(s(0.8), s(1.0)).unwrap(), Stability::Stable);
    assert_eq!(classify_gain(s(1.0), s(1.0)).unwrap(), Stability::Marginal);
    assert_eq!(classify_gain(s(1.2), s(1.0)).unwrap(), Stability::Unstable);
}

#[test]
fn detects_bounded_series() {
    assert!(is_bounded(&scalars(&[0.5, -0.5, 0.25]), s(1.0)).unwrap());
    assert!(!is_bounded(&scalars(&[0.5, 1.5]), s(1.0)).unwrap());
}

#[test]
fn computes_settling_time_when_response_stays_within_tolerance() {
    let time = settling_time(&[1.4, 1.05, 1.01, 1.0], 1.0, 0.05, 0.5).unwrap();
    assert_eq!(time, Some(0.5));

    let no_settle = settling_time(&[1.4, 1.2, 1.1], 1.0, 0.05, 0.5).unwrap();
    assert_eq!(no_settle, None);
}

#[test]
fn stability_rejects_invalid_inputs() {
    assert_eq!(classify_gain(s(f64::NAN), s(1.0)), Err(StabilityError::InvalidGain));
    assert_eq!(is_bounded(&scalars(&[1.0]), s(0.0)), Err(StabilityError::InvalidBound));
    assert_eq!(settling_time(&[1.0], 1.0, -0.1, 0.5), Err(StabilityError::InvalidTolerance));
    assert_eq!(settling_time(&[1.0], 1.0, 0.1, 0.0), Err(StabilityError::InvalidTimestep));
}

#[test]
fn classification_ignores_the_sign_of_the_gain() {
    assert_eq!(classify_gain(s(-0.8), s(1.0)).unwrap(), Stability::Stable);
    assert_eq!(classify_gain(s(-1.0), s(1.0)).unwrap(), Stability::Marginal);
    assert_eq!(classify_gain(s(-1.2), s(1.0)).unwrap(), Stability::Unstable);
    assert_eq!(classify_gain(s(f64::INFINITY), s(1.0)), Err(StabilityError::InvalidGain));
    assert_eq!(classify_gain(s(0.5), s(0.0)), Err(StabilityError::InvalidLimit));
    assert_eq!(classify_gain(s(0.5), s(-1.0)), Err(StabilityError::InvalidLimit));
    assert_eq!(classify_gain(s(0.5), s(f64::INFINITY)), Err(StabilityError::InvalidLimit));
}

#[test]
fn boundedness_edges() {
    assert!(is_bounded(&scalars(&[]), s(1.0)).unwrap());
    assert!(is_bounded(&scalars(&[1.0, -1.0]), s(1.0)).unwrap());
    assert_eq!(is_bounded(&scalars(&[0.5, f64::NAN]), s(1.0)), Err(StabilityError::InvalidValues));
    assert_eq!(is_bounded(&scalars(&[f64::NAN]), s(f64::NAN)), Err(StabilityError::InvalidBound));
    // a larger bound keeps a bounded series bounded
    assert!(is_bounded(&scalars(&[0.5, -0.5, 0.25]), s(2.0)).unwrap());
}

#[test]
fn settling_index_is_the_first_index_of_the_settled_tail() {
    let values = scalars(&[0.0, 0.0, 0.0, 0.0, 0.0]);
    let t = s(0.0);
    let tol = s(1.0);
    let dt = s(1.0);
    assert_eq!(settling_index(&values, t, tol, dt, &[true, false, true, true, true]), Ok(Some(2)));
    assert_eq!(settling_index(&values, t, tol, dt, &[true, true, true, true, true]), Ok(Some(0)));
    assert_eq!(settling_index(&values, t, tol, dt, &[true, true, true, true, false]), Ok(None));
    assert_eq!(settling_index(&values, t, tol, dt, &[false, false, false, false, true]), Ok(Some(4)));
    assert_eq!(settling_index(&[], t, tol, dt, &[]), Ok(None));
}

#[test]
fn settling_checks_arguments_in_order() {
    assert_eq!(settling_time(&[f64::NAN], f64::NAN, -1.0, 0.0), Err(StabilityError::InvalidTarget));
    assert_eq!(settling_time(&[f64::NAN], 1.0, -1.0, 0.0), Err(StabilityError::InvalidTolerance));
    assert_eq!(settling_time(&[f64::NAN], 1.0, 1.0, 0.0), Err(StabilityError::InvalidTimestep));
    assert_eq!(settling_time(&[f64::NAN], 1.0, 1.0, 1.0), Err(StabilityError::InvalidValues));
    assert_eq!(settling_time(&[2.0, 1.0], 1.0, 0.0, 0.25), Ok(Some(0.25)));
}
