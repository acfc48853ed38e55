use use_control::{FeedbackDirection, FeedbackError, FeedbackLoop, Scalar};

fn s(x: f64) -> Scalar {
    Scalar::from_bits(x.to_bits())
}

fn f(x: Scalar) -> f64 {
    f64::from_bits(x.to_bits())
}

/// The loop's output as a caller computes it: `input + signed_gain * feedback`.
fn apply(loop_gain: &FeedbackLoop, input: f64, feedback: f64) -> f64 {
    input + f(loop_gain.signed_gain()) * feedback
}

fn negative_feedback(input: f64, feedback: f64, gain: f64) -> Result<f64, FeedbackError> {
    Ok(apply(&FeedbackLoop::new(s(gain), FeedbackDirection::Negative)?, input, feedback))
}

fn positive_feedback(input: f64, feedback: f64, gain: f64) -> Result<f64, FeedbackError> {
    Ok(apply(&FeedbackLoop::new(s(gain), FeedbackDirection::Positive)?, input, feedback))
}

#[test]
fn applies_negative_feedback() {
    let loop_gain = FeedbackLoop::new(s(0.5), FeedbackDirection::Negative).unwrap();

    assert_eq!(apply(&loop_gain, 10.0, 2.0), 9.0);
    assert_eq!(negative_feedback(10.0, 2.0, 0.5).unwrap(), 9.0);
}

#[test]
fn applies_positive_feedback() {
    let loop_gain = FeedbackLoop::new(s(0.5), FeedbackDirection::Positive).unwrap();

    assert_eq!(apply(&loop_gain, 10.0, 2.0), 11.0);
    assert_eq!(positive_feedback(10.0, 2.0, 0.5).unwrap(), 11.0);
}

#[test]
fn rejects_non_finite_gain() {
    assert_eq!(
        FeedbackLoop::new(s(f64::NAN), FeedbackDirection::Negative),
        Err(FeedbackError::InvalidGain)
    );
    assert_eq!(positive_feedback(10.0, 2.0, f64::INFINITY), Err(FeedbackError::InvalidGain));
}

#[test]
fn signed_gain_follows_direction() {
    let positive = FeedbackLoop::new(s(0.25), FeedbackDirection::Positive).unwrap();
    let negative = FeedbackLoop::new(s(0.25), FeedbackDirection::Negative).unwrap();
    assert_eq!(positive.signed_gain(), s(0.25));
    assert_eq!(negative.signed_gain(), s(-0.25));
    assert_eq!(positive.gain, s(0.25));
    assert_eq!(negative.direction, FeedbackDirection::Negative);
}

#[test]
fn negated_factor_matches_subtraction() {
    for &(input, fb, g) in [(10.0, 2.0, 0.5), (1e16, 3.0, 0.1), (-7.25, 1e-3, 3.0), (0.1, 0.2, 0.3)].iter() {
        assert_eq!(negative_feedback(input, fb, g).unwrap().to_bits(), (input - g * fb).to_bits());
        assert_eq!(positive_feedback(input, fb, g).unwrap().to_bits(), (input + g * fb).to_bits());
    }
}
