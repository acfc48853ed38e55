//! Setpoints for simple control loops: a target and a tolerance.

use vstd::prelude::*;
use crate::scalar::{Scalar, abs_value};

verus! {

/// A target with a tolerance around it.
#[derive(Debug, Clone, Copy, PartialEq)]
pub struct Setpoint {
    pub target: Scalar,
    pub tolerance: Scalar,
}

/// Why a setpoint operation was refused.
#[derive(Debug, Clone, Copy, PartialEq, Eq, Structural)]
pub enum SetpointError {
    InvalidTarget,
    InvalidTolerance,
    InvalidMeasured,
}

/// What [`Setpoint::new`] returns: `InvalidTarget` for a non-finite target,
/// `InvalidTolerance` for a non-finite or negative tolerance.
pub open spec fn setpoint_new_spec(target: Scalar, tolerance: Scalar) -> Result<Setpoint, SetpointError> {
    if !target.is_finite() {
        Err(SetpointError::InvalidTarget)
    } else if !tolerance.is_finite() || tolerance.value() < 0 {
        Err(SetpointError::InvalidTolerance)
    } else {
        Ok(Setpoint { target, tolerance })
    }
}

/// A measurement reaches the setpoint when it is finite and its deviation
/// from the target (`target - measured`) lies within the tolerance; a NaN
/// deviation or tolerance never does.
pub open spec fn reached_spec(setpoint: Setpoint, measured: Scalar, deviation: Scalar) -> bool {
    &&& measured.is_finite()
    &&& !deviation.is_nan()
    &&& !setpoint.tolerance.is_nan()
    &&& abs_value(deviation.value()) <= setpoint.tolerance.value()
}

/// What [`within_tolerance`] returns: the errors of [`Setpoint::new`], then
/// `InvalidMeasured` for a non-finite measurement, else whether the setpoint
/// is reached.
pub open spec fn within_tolerance_spec(
    target: Scalar,
    measured: Scalar,
    tolerance: Scalar,
    deviation: Scalar,
) -> Result<bool, SetpointError> {
    match setpoint_new_spec(target, tolerance) {
        Err(e) => Err(e),
        Ok(s) => if !measured.is_finite() {
            Err(SetpointError::InvalidMeasured)
        } else {
            Ok(reached_spec(s, measured, deviation))
        },
    }
}

impl Setpoint {
    /// A setpoint with a finite target and a finite, non-negative tolerance.
    pub fn new(target: Scalar, tolerance: Scalar) -> (r: Result<Setpoint, SetpointError>)
        ensures
            r == setpoint_new_spec(target, tolerance),
    {
        if !target.is_finite() {
            return Err(SetpointError::InvalidTarget);
        }
        if !tolerance.is_finite() || tolerance.lt(&Scalar::zero()) {
            return Err(SetpointError::InvalidTolerance);
        }
        Ok(Setpoint { target, tolerance })
    }

    /// Whether `measured` reaches this setpoint. `deviation` is
    /// `target - measured` as computed in binary64 arithmetic.
    pub fn is_reached(&self, measured: Scalar, deviation: Scalar) -> (r: bool)
        ensures
            r == reached_spec(*self, measured, deviation),
    {
        measured.is_finite() && deviation.abs().le(&self.tolerance)
    }
}

/// Whether `measured` is within `tolerance` of `target`, refusing invalid
/// inputs. `deviation` is `target - measured` as computed in binary64
/// arithmetic.
pub fn within_tolerance(target: Scalar, measured: Scalar, tolerance: Scalar, deviation: Scalar) -> (r:
    Result<bool, SetpointError>)
    ensures
        r == within_tolerance_spec(target, measured, tolerance, deviation),
{
    let setpoint = Setpoint::new(target, tolerance)?;
    if !measured.is_finite() {
        return Err(SetpointError::InvalidMeasured);
    }
    Ok(setpoint.is_reached(measured, deviation))
}

/// A wider tolerance keeps every reached measurement reached.
pub proof fn lemma_reached_monotone_in_tolerance(
    setpoint: Setpoint,
    wider: Scalar,
    measured: Scalar,
    deviation: Scalar,
)
    requires
        !wider.is_nan(),
        !setpoint.tolerance.is_nan(),
        setpoint.tolerance.value() <= wider.value(),
    ensures
        reached_spec(setpoint, measured, deviation) ==> reached_spec(
            Setpoint { target: setpoint.target, tolerance: wider },
            measured,
            deviation,
        ),
{
}

/// A setpoint is made exactly from a finite target and a finite, non-negative
/// tolerance, and keeps both; otherwise the target is refused first, then the
/// tolerance.
pub proof fn lemma_setpoint_new_result(target: Scalar, tolerance: Scalar)
    ensures
        !target.is_finite() ==> setpoint_new_spec(target, tolerance) == Err::<Setpoint, SetpointError>(
            SetpointError::InvalidTarget,
        ),
        target.is_finite() && (!tolerance.is_finite() || tolerance.value() < 0) ==> setpoint_new_spec(
            target,
            tolerance,
        ) == Err::<Setpoint, SetpointError>(SetpointError::InvalidTolerance),
        target.is_finite() && tolerance.is_finite() && tolerance.value() >= 0 ==> setpoint_new_spec(
            target,
            tolerance,
        ) == Ok::<Setpoint, SetpointError>(Setpoint { target, tolerance }),
{
}

/// Reaching in terms of the inputs: a finite measurement with a non-NaN
/// deviation reaches a setpoint with a non-NaN tolerance exactly when
/// `-tolerance <= deviation <= tolerance`; a non-finite measurement, a NaN
/// deviation or a NaN tolerance never reaches it.
pub proof fn lemma_reached_result(setpoint: Setpoint, measured: Scalar, deviation: Scalar)
    ensures
        measured.is_finite() && !deviation.is_nan() && !setpoint.tolerance.is_nan() ==> (reached_spec(
            setpoint,
            measured,
            deviation,
        ) <==> -setpoint.tolerance.value() <= deviation.value() <= setpoint.tolerance.value()),
        !measured.is_finite() || deviation.is_nan() || setpoint.tolerance.is_nan() ==> !reached_spec(
            setpoint,
            measured,
            deviation,
        ),
{
}

/// A zero deviation reaches every valid setpoint, whatever the signs of the
/// target and the measurement.
pub proof fn lemma_zero_deviation_reaches(
    target: Scalar,
    tolerance: Scalar,
    measured: Scalar,
    deviation: Scalar,
)
    requires
        target.is_finite(),
        tolerance.is_finite(),
        tolerance.value() >= 0,
        measured.is_finite(),
        !deviation.is_nan(),
        deviation.value() == 0,
    ensures
        reached_spec(Setpoint { target, tolerance }, measured, deviation),
        within_tolerance_spec(target, measured, tolerance, deviation) == Ok::<bool, SetpointError>(true),
{
}

/// `within_tolerance` in terms of its inputs: for a valid setpoint and a
/// finite measurement it answers whether `-tolerance <= deviation <= tolerance`
/// (false for a NaN deviation); a non-finite measurement of a valid setpoint
/// is an invalid measurement.
pub proof fn lemma_within_tolerance_result(
    target: Scalar,
    measured: Scalar,
    tolerance: Scalar,
    deviation: Scalar,
)
    requires
        target.is_finite(),
        tolerance.is_finite(),
        tolerance.value() >= 0,
    ensures
        !measured.is_finite() ==> within_tolerance_spec(target, measured, tolerance, deviation) == Err::<
            bool,
            SetpointError,
        >(SetpointError::InvalidMeasured),
        measured.is_finite() ==> within_tolerance_spec(target, measured, tolerance, deviation) == Ok::<
            bool,
            SetpointError,
        >(!deviation.is_nan() && -tolerance.value() <= deviation.value() <= tolerance.value()),
{
}

} // verus!
