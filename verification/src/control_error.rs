//! Control error primitives: relative error and deadbands over scalar errors.

use vstd::prelude::*;
use crate::scalar::{Scalar, abs_value};

verus! {

/// Why a control error operation was refused.
#[derive(Debug, Clone, Copy, PartialEq, Eq, Structural)]
pub enum ControlErrorError {
    InvalidError,
    InvalidThreshold,
}

/// Whether the relative error of `measured` against `setpoint` is defined:
/// both finite and the setpoint not zero.
pub open spec fn relative_error_defined(setpoint: Scalar, measured: Scalar) -> bool {
    setpoint.is_finite() && measured.is_finite() && setpoint.value() != 0
}

/// What [`deadband`] returns: `InvalidError` for a non-finite error,
/// `InvalidThreshold` for a non-finite or negative threshold, otherwise zero
/// when `|error| <= threshold` and the error itself beyond it.
pub open spec fn deadband_spec(error: Scalar, threshold: Scalar) -> Result<Scalar, ControlErrorError> {
    if !error.is_finite() {
        Err(ControlErrorError::InvalidError)
    } else if !threshold.is_finite() || threshold.value() < 0 {
        Err(ControlErrorError::InvalidThreshold)
    } else if abs_value(error.value()) <= threshold.value() {
        Ok(Scalar { bits: 0 })
    } else {
        Ok(error)
    }
}

/// The relative error `(setpoint - measured) / setpoint`, defined only for
/// finite inputs and a non-zero setpoint. `quotient` is that expression as
/// computed in binary64 arithmetic; it is returned where the relative error is
/// defined.
pub fn relative_error(setpoint: Scalar, measured: Scalar, quotient: Scalar) -> (r: Option<Scalar>)
    ensures
        relative_error_defined(setpoint, measured) ==> r == Some(quotient),
        !relative_error_defined(setpoint, measured) ==> r is None,
{
    if !setpoint.is_finite() || !measured.is_finite() || setpoint.eq_value(&Scalar::zero()) {
        return None;
    }
    Some(quotient)
}

/// Suppresses errors whose magnitude is within `threshold`.
pub fn deadband(error: Scalar, threshold: Scalar) -> (r: Result<Scalar, ControlErrorError>)
    ensures
        r == deadband_spec(error, threshold),
{
    if !error.is_finite() {
        return Err(ControlErrorError::InvalidError);
    }
    let zero = Scalar::zero();
    if !threshold.is_finite() || threshold.lt(&zero) {
        return Err(ControlErrorError::InvalidThreshold);
    }
    if error.abs().le(&threshold) {
        Ok(zero)
    } else {
        Ok(error)
    }
}

/// A deadband passes either zero or the error itself, zero exactly for errors
/// within the threshold, and applying it a second time changes nothing.
pub proof fn lemma_deadband_idempotent(error: Scalar, threshold: Scalar)
    ensures
        deadband_spec(error, threshold) matches Ok(v) ==> (v == error || v.value() == 0),
        deadband_spec(error, threshold) matches Ok(v) ==> (v.value() == 0 <==> abs_value(
            error.value(),
        ) <= threshold.value()),
        deadband_spec(error, threshold) matches Ok(v) ==> deadband_spec(v, threshold) == Ok::<
            Scalar,
            ControlErrorError,
        >(v),
{
    let zero = Scalar { bits: 0 };
    assert(zero.is_finite() && zero.value() == 0) by {
        crate::scalar::lemma_zero_value();
    }
}

/// The deadband in terms of its inputs: a non-finite error is an invalid
/// error, then a non-finite or negative threshold an invalid threshold;
/// otherwise an error in `[-threshold, threshold]` gives positive zero and an
/// error outside it comes back unchanged.
pub proof fn lemma_deadband_result(error: Scalar, threshold: Scalar)
    ensures
        !error.is_finite() ==> deadband_spec(error, threshold) == Err::<Scalar, ControlErrorError>(
            ControlErrorError::InvalidError,
        ),
        error.is_finite() && (!threshold.is_finite() || threshold.value() < 0) ==> deadband_spec(
            error,
            threshold,
        ) == Err::<Scalar, ControlErrorError>(ControlErrorError::InvalidThreshold),
        error.is_finite() && threshold.is_finite() && threshold.value() >= 0 ==> {
            &&& -threshold.value() <= error.value() <= threshold.value() ==> (deadband_spec(
                error,
                threshold,
            ) matches Ok(v) && v.bits == 0)
            &&& (error.value() > threshold.value() || error.value() < -threshold.value())
                ==> deadband_spec(error, threshold) == Ok::<Scalar, ControlErrorError>(error)
        },
{
}

/// A deadband and its mirror image: negating the error negates what passes
/// (as a value), and errors of either sign are suppressed alike.
pub proof fn lemma_deadband_odd(error: Scalar, threshold: Scalar)
    requires
        error.is_finite(),
        threshold.is_finite(),
        threshold.value() >= 0,
    ensures
        deadband_spec(error, threshold) matches Ok(v) && deadband_spec(error.neg(), threshold) matches Ok(
            w,
        ) && v.value() == -w.value(),
{
    crate::scalar::lemma_neg_abs(error);
    crate::scalar::lemma_zero_value();
}

/// The relative error is defined exactly for a finite measurement and a
/// finite setpoint that is neither `+0` nor `-0`.
pub proof fn lemma_relative_error_defined(setpoint: Scalar, measured: Scalar)
    ensures
        relative_error_defined(setpoint, measured) <==> (setpoint.is_finite() && measured.is_finite()
            && setpoint.value() != 0),
        setpoint.value() == 0 ==> !relative_error_defined(setpoint, measured),
        !measured.is_finite() ==> !relative_error_defined(setpoint, measured),
{
}

} // verus!
