//! Control signal primitives: construct, clamp, scale, or saturate a finite
//! scalar value.

use vstd::prelude::*;
use crate::scalar::Scalar;

verus! {

/// A finite control signal.
#[derive(Debug, Clone, Copy, PartialEq)]
pub struct ControlSignal {
    value: Scalar,
}

/// Why a control signal operation was refused.
#[derive(Debug, Clone, Copy, PartialEq, Eq, Structural)]
pub enum ControlSignalError {
    InvalidValue,
    InvalidBounds,
    InvalidFactor,
}

/// What [`clamp_signal`] returns: `InvalidValue` unless all three inputs are
/// finite, `InvalidBounds` when `min > max`, otherwise `min` below the range,
/// `max` above it and `value` itself inside it.
pub open spec fn clamp_signal_spec(value: Scalar, min: Scalar, max: Scalar) -> Result<Scalar, ControlSignalError> {
    if !value.is_finite() || !min.is_finite() || !max.is_finite() {
        Err(ControlSignalError::InvalidValue)
    } else if min.value() > max.value() {
        Err(ControlSignalError::InvalidBounds)
    } else if value.value() < min.value() {
        Ok(min)
    } else if value.value() > max.value() {
        Ok(max)
    } else {
        Ok(value)
    }
}

/// What [`saturate`] returns: `InvalidBounds` unless `limit` is finite and not
/// below zero, otherwise `value` clamped to `[-limit, limit]`.
pub open spec fn saturate_spec(value: Scalar, limit: Scalar) -> Result<Scalar, ControlSignalError> {
    if !limit.is_finite() || limit.value() < 0 {
        Err(ControlSignalError::InvalidBounds)
    } else {
        clamp_signal_spec(value, limit.neg(), limit)
    }
}

impl View for ControlSignal {
    type V = Scalar;

    closed spec fn view(&self) -> Scalar {
        self.value
    }
}

impl ControlSignal {
    #[verifier::type_invariant]
    spec fn value_is_finite(self) -> bool {
        self.value.is_finite()
    }

    /// A signal holding `value`, which must be finite.
    pub fn new(value: Scalar) -> (r: Result<ControlSignal, ControlSignalError>)
        ensures
            value.is_finite() ==> (r matches Ok(s) && s@ == value),
            !value.is_finite() ==> r == Err::<ControlSignal, _>(ControlSignalError::InvalidValue),
    {
        if !value.is_finite() {
            return Err(ControlSignalError::InvalidValue);
        }
        Ok(ControlSignal { value })
    }

    /// The signal's value, always finite.
    pub fn value(&self) -> (r: Scalar)
        ensures
            r == self@,
            r.is_finite(),
    {
        proof {
            use_type_invariant(self);
        }
        self.value
    }

    /// The signal clamped to `[min, max]`, as [`clamp_signal`] does it.
    pub fn clamp(self, min: Scalar, max: Scalar) -> (r: Result<ControlSignal, ControlSignalError>)
        ensures
            match clamp_signal_spec(self@, min, max) {
                Ok(v) => (r matches Ok(s) && s@ == v),
                Err(e) => r == Err::<ControlSignal, _>(e),
            },
    {
        let v = clamp_signal(self.value(), min, max)?;
        ControlSignal::new(v)
    }

    /// The signal scaled by `factor`. `product` is `value * factor` as computed
    /// in binary64 arithmetic; it becomes the new signal when `factor` is finite
    /// and the product is too.
    pub fn scale(self, factor: Scalar, product: Scalar) -> (r: Result<ControlSignal, ControlSignalError>)
        ensures
            !factor.is_finite() ==> r == Err::<ControlSignal, _>(ControlSignalError::InvalidFactor),
            factor.is_finite() && !product.is_finite() ==> r == Err::<ControlSignal, _>(
                ControlSignalError::InvalidValue,
            ),
            factor.is_finite() && product.is_finite() ==> (r matches Ok(s) && s@ == product),
    {
        if !factor.is_finite() {
            return Err(ControlSignalError::InvalidFactor);
        }
        ControlSignal::new(product)
    }
}

/// `value` clamped to `[min, max]`; refuses non-finite inputs and `min > max`.
pub fn clamp_signal(value: Scalar, min: Scalar, max: Scalar) -> (r: Result<Scalar, ControlSignalError>)
    ensures
        r == clamp_signal_spec(value, min, max),
{
    if !value.is_finite() || !min.is_finite() || !max.is_finite() {
        return Err(ControlSignalError::InvalidValue);
    }
    if max.lt(&min) {
        return Err(ControlSignalError::InvalidBounds);
    }
    if value.lt(&min) {
        Ok(min)
    } else if max.lt(&value) {
        Ok(max)
    } else {
        Ok(value)
    }
}

/// `value` clamped to `[-limit, limit]`; refuses a non-finite or negative limit.
pub fn saturate(value: Scalar, limit: Scalar) -> (r: Result<Scalar, ControlSignalError>)
    ensures
        r == saturate_spec(value, limit),
{
    if !limit.is_finite() || limit.lt(&Scalar::zero()) {
        return Err(ControlSignalError::InvalidBounds);
    }
    clamp_signal(value, limit.neg(), limit)
}

/// A clamped signal lies in `[min, max]`, and clamping succeeds exactly when
/// all inputs are finite and `min <= max`.
pub proof fn lemma_clamp_within_bounds(value: Scalar, min: Scalar, max: Scalar)
    ensures
        clamp_signal_spec(value, min, max) is Ok <==> (value.is_finite() && min.is_finite()
            && max.is_finite() && min.value() <= max.value()),
        clamp_signal_spec(value, min, max) matches Ok(v) ==> v.is_finite() && min.value()
            <= v.value() <= max.value(),
{
}

/// A value already inside `[min, max]` comes back unchanged, so clamping
/// twice gives what clamping once gave.
pub proof fn lemma_clamp_idempotent(value: Scalar, min: Scalar, max: Scalar)
    ensures
        value.is_finite() && min.is_finite() && max.is_finite() && min.value() <= value.value()
            <= max.value() ==> clamp_signal_spec(value, min, max) == Ok::<Scalar, ControlSignalError>(value),
        clamp_signal_spec(value, min, max) matches Ok(v) ==> clamp_signal_spec(v, min, max) == Ok::<
            Scalar,
            ControlSignalError,
        >(v),
{
}

/// A saturated value lies in `[-limit, limit]`, and saturation succeeds for
/// every finite value once the limit is finite and not negative.
pub proof fn lemma_saturate_within_limit(value: Scalar, limit: Scalar)
    ensures
        saturate_spec(value, limit) matches Ok(v) ==> -limit.value() <= v.value() <= limit.value(),
        value.is_finite() && limit.is_finite() && limit.value() >= 0 ==> saturate_spec(value, limit) is Ok,
{
    if limit.is_finite() {
        assert(limit.neg().value() == -limit.value());
        assert(limit.neg().is_finite());
    }
}

/// Clamping to `[min, max]`: non-finite inputs are refused as invalid values,
/// reversed bounds as invalid bounds; otherwise a value below `min` becomes
/// `min`, a value above `max` becomes `max`, and a value in between comes
/// back unchanged.
pub proof fn lemma_clamp_signal_result(value: Scalar, min: Scalar, max: Scalar)
    ensures
        !value.is_finite() || !min.is_finite() || !max.is_finite() ==> clamp_signal_spec(value, min, max)
            == Err::<Scalar, ControlSignalError>(ControlSignalError::InvalidValue),
        value.is_finite() && min.is_finite() && max.is_finite() && min.value() > max.value()
            ==> clamp_signal_spec(value, min, max) == Err::<Scalar, ControlSignalError>(
            ControlSignalError::InvalidBounds,
        ),
        value.is_finite() && min.is_finite() && max.is_finite() && min.value() <= max.value() ==> {
            &&& value.value() < min.value() ==> clamp_signal_spec(value, min, max) == Ok::<
                Scalar,
                ControlSignalError,
            >(min)
            &&& value.value() > max.value() ==> clamp_signal_spec(value, min, max) == Ok::<
                Scalar,
                ControlSignalError,
            >(max)
            &&& min.value() <= value.value() <= max.value() ==> clamp_signal_spec(value, min, max)
                == Ok::<Scalar, ControlSignalError>(value)
        },
{
}

/// Saturation against a finite, non-negative limit: a finite value inside
/// `[-limit, limit]` comes back unchanged, a value above `limit` becomes
/// `limit`, a value below `-limit` becomes `-limit`; a non-finite value is an
/// invalid value. A non-finite or negative limit is refused as invalid bounds.
pub proof fn lemma_saturate_result(value: Scalar, limit: Scalar)
    ensures
        !limit.is_finite() || limit.value() < 0 ==> saturate_spec(value, limit) == Err::<
            Scalar,
            ControlSignalError,
        >(ControlSignalError::InvalidBounds),
        limit.is_finite() && limit.value() >= 0 && !value.is_finite() ==> saturate_spec(value, limit)
            == Err::<Scalar, ControlSignalError>(ControlSignalError::InvalidValue),
        limit.is_finite() && limit.value() >= 0 && value.is_finite() ==> {
            &&& -limit.value() <= value.value() <= limit.value() ==> saturate_spec(value, limit)
                == Ok::<Scalar, ControlSignalError>(value)
            &&& value.value() > limit.value() ==> saturate_spec(value, limit) == Ok::<
                Scalar,
                ControlSignalError,
            >(limit)
            &&& value.value() < -limit.value() ==> (saturate_spec(value, limit) matches Ok(v)
                && v.is_finite() && v.value() == -limit.value())
        },
        limit.is_finite() && limit.value() >= 0 ==> saturate_spec(value, limit) == clamp_signal_spec(
            value,
            limit.neg(),
            limit,
        ),
{
    crate::scalar::lemma_neg_abs(limit);
}

/// A value and its negation saturate to opposite values.
pub proof fn lemma_saturate_odd(value: Scalar, limit: Scalar)
    requires
        value.is_finite(),
        limit.is_finite(),
        limit.value() >= 0,
    ensures
        saturate_spec(value, limit) matches Ok(v) && saturate_spec(value.neg(), limit) matches Ok(w)
            && v.value() == -w.value(),
{
    crate::scalar::lemma_neg_abs(limit);
    crate::scalar::lemma_neg_abs(value);
}

} // verus!
