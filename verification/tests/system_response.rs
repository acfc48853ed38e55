use use_control::{
    check_timestep, first_order_response, sample_first_order_response, Scalar, StepResponsePoint, SystemResponseError,
};

fn s(x: f64) -> Scalar {
    Scalar::from_bits(x.to_bits())
}

fn f(x: Scalar) -> f64 {
    f64::from_bits(x.to_bits())
}

fn curve(initial: f64, target: f64, time_constant: f64, time: f64) -> f64 {
    initial + (target - initial) * (1.0 - (-time / time_constant).exp())
}

/// The response as a caller computes it, the verified checks applied.
fn response(initial: f64, target: f64, time_constant: f64, time: f64) -> Result<f64, SystemResponseError> {
    first_order_response(s(initial), s(target), s(time_constant), s(time), s(curve(initial, target, time_constant, time)))
        .map(f)
}

fn sample(
    initial: f64,
    target: f64,
    time_constant: f64,
    dt: f64,
    steps: usize,
) -> Result<Vec<StepResponsePoint>, SystemResponseError> {
    let candidates: Vec<StepResponsePoint> = (0..=steps)
        .map(|step| {
            let time = step as f64 * dt;
            StepResponsePoint { time: s(time), value: s(curve(initial, target, time_constant, time)) }
        })
        .collect();
    sample_first_order_response(s(initial), s(target), s(time_constant), s(dt), steps, &candidates)
}

#[test]
fn first_order_response_matches_expected_limits() {
    assert_eq!(response(0.0, 1.0, 1.0, 0.0).unwrap(), 0.0);

    let value = response(0.0, 1.0, 1.0, 1.0).unwrap();
    assert!((value - (1.0 - (-1.0f64).exp())).abs() < 1e-12);
}

#[test]
fn samples_first_order_response_over_time() {
    let samples = sample(0.0, 1.0, 1.0, 0.5, 3).unwrap();

    assert_eq!(samples.len(), 4);
    assert_eq!(samples[0].time, s(0.0));
    assert!(f(samples[1].value) > f(samples[0].value));
    assert!(f(samples[3].value) < 1.0);
}

#[test]
fn system_response_rejects_invalid_inputs() {
    assert_eq!(response(f64::NAN, 1.0, 1.0, 0.0), Err(SystemResponseError::InvalidInput));
    assert_eq!(response(0.0, 1.0, 0.0, 1.0), Err(SystemResponseError::InvalidTimeConstant));
    assert_eq!(sample(0.0, 1.0, 1.0, 0.0, 3), Err(SystemResponseError::InvalidTimestep));
}

#[test]
fn response_checks_in_order() {
    assert_eq!(response(0.0, f64::INFINITY, -1.0, -1.0), Err(SystemResponseError::InvalidInput));
    assert_eq!(response(0.0, 1.0, f64::NAN, -1.0), Err(SystemResponseError::InvalidTimeConstant));
    assert_eq!(response(0.0, 1.0, 1.0, -1.0), Err(SystemResponseError::InvalidTime));
    assert_eq!(response(0.0, 1.0, 1.0, f64::INFINITY), Err(SystemResponseError::InvalidTime));
    assert_eq!(
        first_order_response(s(0.0), s(1.0), s(1.0), s(1.0), s(f64::INFINITY)),
        Err(SystemResponseError::NonFiniteResponse)
    );
    // the computed response is what comes back
    assert_eq!(first_order_response(s(0.0), s(1.0), s(1.0), s(1.0), s(0.25)), Ok(s(0.25)));
}

#[test]
fn sampling_reports_the_first_refused_sample() {
    assert_eq!(sample(f64::NAN, 1.0, 1.0, 0.5, 2), Err(SystemResponseError::InvalidInput));
    // the time of a late step overflows
    assert_eq!(sample(0.0, 1.0, 1.0, f64::MAX, 2), Err(SystemResponseError::InvalidTime));
    let candidates = [
        StepResponsePoint { time: s(0.0), value: s(0.0) },
        StepResponsePoint { time: s(1.0), value: s(f64::NAN) },
        StepResponsePoint { time: s(-1.0), value: s(0.0) },
    ];
    assert_eq!(
        sample_first_order_response(s(0.0), s(1.0), s(1.0), s(1.0), 2, &candidates),
        Err(SystemResponseError::NonFiniteResponse)
    );
    assert_eq!(
        sample_first_order_response(s(0.0), s(1.0), s(1.0), s(f64::NAN), 2, &candidates),
        Err(SystemResponseError::InvalidTimestep)
    );
}

#[test]
fn sampling_keeps_every_valid_sample() {
    let samples = sample(2.0, -2.0, 0.5, 0.25, 4).unwrap();
    assert_eq!(samples.len(), 5);
    for (k, p) in samples.iter().enumerate() {
        assert_eq!(p.time, s(k as f64 * 0.25));
        assert_eq!(p.value, s(curve(2.0, -2.0, 0.5, k as f64 * 0.25)));
    }
}

#[test]
fn sampling_gives_one_point_per_step_and_checks_the_timestep_first() {
    assert_eq!(sample(0.0, 1.0, 1.0, 0.5, 0).unwrap().len(), 1);
    assert_eq!(sample(0.0, 1.0, 1.0, 0.5, 7).unwrap().len(), 8);
    assert_eq!(check_timestep(s(0.5)), Ok(()));
    assert_eq!(check_timestep(s(0.0)), Err(SystemResponseError::InvalidTimestep));
    assert_eq!(check_timestep(s(-0.0)), Err(SystemResponseError::InvalidTimestep));
    assert_eq!(check_timestep(s(f64::INFINITY)), Err(SystemResponseError::InvalidTimestep));
    // an invalid timestep wins over invalid parameters
    assert_eq!(sample(f64::NAN, 1.0, 1.0, -1.0, 2), Err(SystemResponseError::InvalidTimestep));
}
