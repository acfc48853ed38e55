//! System response helpers: the first-order step response and its sampling
//! at fixed time intervals.

use vstd::prelude::*;
use crate::scalar::Scalar;

verus! {

/// One sample of a step response.
#[derive(Debug, Clone, Copy, PartialEq)]
pub struct StepResponsePoint {
    pub time: Scalar,
    pub value: Scalar,
}

/// Why a response computation was refused.
#[derive(Debug, Clone, Copy, PartialEq, Eq, Structural)]
pub enum SystemResponseError {
    InvalidInput,
    InvalidTimeConstant,
    InvalidTime,
    InvalidTimestep,
    NonFiniteResponse,
}

/// What [`first_order_response`] returns, checking in this order: finite
/// initial and target values, a finite positive time constant, a finite
/// non-negative time, and a finite response.
pub open spec fn first_order_response_spec(
    initial: Scalar,
    target: Scalar,
    time_constant: Scalar,
    time: Scalar,
    response: Scalar,
) -> Result<Scalar, SystemResponseError> {
    if !initial.is_finite() || !target.is_finite() {
        Err(SystemResponseError::InvalidInput)
    } else if !time_constant.is_finite() || time_constant.value() <= 0 {
        Err(SystemResponseError::InvalidTimeConstant)
    } else if !time.is_finite() || time.value() < 0 {
        Err(SystemResponseError::InvalidTime)
    } else if !response.is_finite() {
        Err(SystemResponseError::NonFiniteResponse)
    } else {
        Ok(response)
    }
}

/// The check of one candidate sample.
pub open spec fn sample_check(
    initial: Scalar,
    target: Scalar,
    time_constant: Scalar,
    point: StepResponsePoint,
) -> Result<Scalar, SystemResponseError> {
    first_order_response_spec(initial, target, time_constant, point.time, point.value)
}

/// A finite positive timestep.
pub open spec fn valid_timestep(dt: Scalar) -> bool {
    dt.is_finite() && dt.value() > 0
}

/// The first-order step response from `initial` toward `target` with the
/// given time constant, at `time`. `response` is
/// `initial + (target - initial) * (1 - exp(-time / time_constant))` as
/// computed in binary64 arithmetic; it is returned when every argument is
/// valid and it is finite.
pub fn first_order_response(
    initial: Scalar,
    target: Scalar,
    time_constant: Scalar,
    time: Scalar,
    response: Scalar,
) -> (r: Result<Scalar, SystemResponseError>)
    ensures
        r == first_order_response_spec(initial, target, time_constant, time, response),
{
    let zero = Scalar::zero();
    if !initial.is_finite() || !target.is_finite() {
        return Err(SystemResponseError::InvalidInput);
    }
    if !time_constant.is_finite() || time_constant.le(&zero) {
        return Err(SystemResponseError::InvalidTimeConstant);
    }
    if !time.is_finite() || time.lt(&zero) {
        return Err(SystemResponseError::InvalidTime);
    }
    if !response.is_finite() {
        return Err(SystemResponseError::NonFiniteResponse);
    }
    Ok(response)
}

/// Refuses a timestep that is not finite and positive; sampling checks this
/// before anything else.
pub fn check_timestep(dt: Scalar) -> (r: Result<(), SystemResponseError>)
    ensures
        valid_timestep(dt) ==> r is Ok,
        !valid_timestep(dt) ==> r == Err::<(), _>(SystemResponseError::InvalidTimestep),
{
    if !dt.is_finite() || dt.le(&Scalar::zero()) {
        return Err(SystemResponseError::InvalidTimestep);
    }
    Ok(())
}

/// Samples the first-order response at steps `0, 1, ..., steps` of `dt`:
/// `steps + 1` samples. `candidates[k]` holds the time `k * dt` and the
/// response at that time, both as computed in binary64 arithmetic. The
/// timestep is checked first; then each candidate in order goes through
/// [`first_order_response`], the first refusal being returned; otherwise every
/// candidate is kept, one sample per step.
pub fn sample_first_order_response(
    initial: Scalar,
    target: Scalar,
    time_constant: Scalar,
    dt: Scalar,
    steps: usize,
    candidates: &[StepResponsePoint],
) -> (r: Result<Vec<StepResponsePoint>, SystemResponseError>)
    requires
        candidates@.len() == steps + 1,
    ensures
        !valid_timestep(dt) ==> r == Err::<Vec<StepResponsePoint>, _>(SystemResponseError::InvalidTimestep),
        valid_timestep(dt) ==> match r {
            Ok(points) => points@.len() == steps + 1 && points@ == candidates@ && forall|k: int|
                0 <= k <= steps ==> (#[trigger] sample_check(
                    initial,
                    target,
                    time_constant,
                    candidates@[k],
                )) == Ok::<Scalar, SystemResponseError>(candidates@[k].value),
            Err(e) => exists|k: int|
                0 <= k <= steps && #[trigger] sample_check(
                    initial,
                    target,
                    time_constant,
                    candidates@[k],
                ) == Err::<Scalar, _>(e) && forall|j: int|
                    0 <= j < k ==> (#[trigger] sample_check(
                        initial,
                        target,
                        time_constant,
                        candidates@[j],
                    )) is Ok,
        },
{
    check_timestep(dt)?;
    let mut points: Vec<StepResponsePoint> = Vec::new();
    let mut k: usize = 0;
    while k < candidates.len()
        invariant
            k <= candidates@.len(),
            candidates@.len() == steps + 1,
            valid_timestep(dt),
            points@ == candidates@.take(k as int),
            forall|j: int|
                0 <= j < k ==> (#[trigger] sample_check(
                    initial,
                    target,
                    time_constant,
                    candidates@[j],
                )) is Ok,
        decreases candidates@.len() - k,
    {
        let candidate = candidates[k];
        let value = match first_order_response(
            initial,
            target,
            time_constant,
            candidate.time,
            candidate.value,
        ) {
            Ok(v) => v,
            Err(e) => {
                assert(sample_check(initial, target, time_constant, candidates@[k as int]) == Err::<
                    Scalar,
                    SystemResponseError,
                >(e));
                return Err(e);
            },
        };
        points.push(StepResponsePoint { time: candidate.time, value });
        assert(candidates@.take(k + 1) =~= candidates@.take(k as int).push(candidates@[k as int]));
        k = k + 1;
    }
    assert(candidates@.take(k as int) =~= candidates@);
    Ok(points)
}

/// A candidate that passes its check keeps its value, has a finite,
/// non-negative time and a finite value, and was computed from valid
/// response parameters.
pub proof fn lemma_samples_are_finite(
    initial: Scalar,
    target: Scalar,
    time_constant: Scalar,
    point: StepResponsePoint,
)
    ensures
        sample_check(initial, target, time_constant, point) matches Ok(v) ==> v == point.value
            && v.is_finite() && point.time.is_finite() && point.time.value() >= 0
            && initial.is_finite() && target.is_finite() && time_constant.value() > 0,
{
}

/// The response check in terms of its inputs: `InvalidInput` exactly for a
/// non-finite initial value or target; then `InvalidTimeConstant` for a
/// non-finite or non-positive time constant, `InvalidTime` for a non-finite
/// or negative time, `NonFiniteResponse` for a non-finite response; with all
/// of them valid the computed response is returned unchanged.
pub proof fn lemma_first_order_response_result(
    initial: Scalar,
    target: Scalar,
    time_constant: Scalar,
    time: Scalar,
    response: Scalar,
)
    ensures
        (first_order_response_spec(initial, target, time_constant, time, response) == Err::<
            Scalar,
            SystemResponseError,
        >(SystemResponseError::InvalidInput)) <==> (!initial.is_finite() || !target.is_finite()),
        initial.is_finite() && target.is_finite() && (!time_constant.is_finite()
            || time_constant.value() <= 0) ==> first_order_response_spec(
            initial,
            target,
            time_constant,
            time,
            response,
        ) == Err::<Scalar, SystemResponseError>(SystemResponseError::InvalidTimeConstant),
        initial.is_finite() && target.is_finite() && time_constant.is_finite() && time_constant.value()
            > 0 && (!time.is_finite() || time.value() < 0) ==> first_order_response_spec(
            initial,
            target,
            time_constant,
            time,
            response,
        ) == Err::<Scalar, SystemResponseError>(SystemResponseError::InvalidTime),
        initial.is_finite() && target.is_finite() && time_constant.is_finite() && time_constant.value()
            > 0 && time.is_finite() && time.value() >= 0 && !response.is_finite()
            ==> first_order_response_spec(initial, target, time_constant, time, response) == Err::<
            Scalar,
            SystemResponseError,
        >(SystemResponseError::NonFiniteResponse),
        initial.is_finite() && target.is_finite() && time_constant.is_finite() && time_constant.value()
            > 0 && time.is_finite() && time.value() >= 0 && response.is_finite()
            ==> first_order_response_spec(initial, target, time_constant, time, response) == Ok::<
            Scalar,
            SystemResponseError,
        >(response),
{
}

} // verus!
