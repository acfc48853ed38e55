use use_control::Scalar;

fn s(x: f64) -> Scalar {
    Scalar::from_bits(x.to_bits())
}

fn f(x: Scalar) -> f64 {
    f64::from_bits(x.to_bits())
}

fn samples() -> Vec<f64> {
    vec![
        0.0,
        -0.0,
        1.0,
        -1.0,
        0.5,
        -0.5,
        2.0,
        1e-300,
        -1e-300,
        f64::MIN_POSITIVE,
        f64::MIN_POSITIVE / 4.0,
        -f64::MIN_POSITIVE / 4.0,
        5e-324,
        -5e-324,
        f64::MAX,
        f64::MIN,
        f64::EPSILON,
        1.0 + f64::EPSILON,
        123456.789,
        -98765.4321,
        f64::INFINITY,
        f64::NEG_INFINITY,
        f64::NAN,
        -f64::NAN,
        f64::from_bits(0x7ff0_0000_0000_0001),
    ]
}

#[test]
fn comparisons_agree_with_hardware() {
    for &a in samples().iter() {
        for &b in samples().iter() {
            assert_eq!(s(a).lt(&s(b)), a < b, "{} < {}", a, b);
            assert_eq!(s(a).le(&s(b)), a <= b, "{} <= {}", a, b);
            assert_eq!(s(a).eq_value(&s(b)), a == b, "{} == {}", a, b);
            assert_eq!(s(a) == s(b), a == b, "{} == {}", a, b);
        }
    }
}

#[test]
fn classification_agrees_with_hardware() {
    for &a in samples().iter() {
        assert_eq!(s(a).is_finite(), a.is_finite(), "{}", a);
        assert_eq!(s(a).is_nan(), a.is_nan(), "{}", a);
    }
}

#[test]
fn abs_and_neg_agree_with_hardware() {
    for &a in samples().iter() {
        assert_eq!(s(a).abs().to_bits(), a.abs().to_bits(), "{}", a);
        assert_eq!(s(a).neg().to_bits(), (-a).to_bits(), "{}", a);
    }
}

#[test]
fn zero_is_positive_zero() {
    assert_eq!(Scalar::zero().to_bits(), 0);
    assert_eq!(f(Scalar::zero()), 0.0);
    assert!(!f(Scalar::zero()).is_sign_negative());
}

#[test]
fn negative_zero_equals_positive_zero() {
    assert!(s(-0.0) == s(0.0));
    assert!(!s(-0.0).lt(&s(0.0)));
    assert!(s(f64::NAN) != s(f64::NAN));
}
