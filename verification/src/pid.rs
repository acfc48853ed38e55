//! Minimal PID controller primitives: the gains and the state required for
//! the integral and derivative terms.

use vstd::prelude::*;
use crate::scalar::Scalar;

verus! {

/// Proportional, integral and derivative gains.
#[derive(Debug, Clone, Copy, PartialEq)]
pub struct PidGains {
    pub kp: Scalar,
    pub ki: Scalar,
    pub kd: Scalar,
}

/// The error of the previous update and the accumulated integral.
#[derive(Debug, Clone, Copy, PartialEq)]
pub struct PidState {
    pub previous_error: Scalar,
    pub integral: Scalar,
}

/// A PID controller: gains plus state.
#[derive(Debug, Clone, Copy, PartialEq)]
pub struct PidController {
    pub gains: PidGains,
    pub state: PidState,
}

/// Why a controller operation was refused.
#[derive(Debug, Clone, Copy, PartialEq, Eq, Structural)]
pub enum PidError {
    InvalidGains,
    InvalidSignal,
    InvalidTimestep,
    NonFiniteOutput,
}

/// The quantities of one update, each computed in binary64 arithmetic from the
/// controller before the update and the update's inputs:
/// `current_error = setpoint - measured`,
/// `integral = state.integral + current_error * dt`,
/// `derivative = (current_error - state.previous_error) / dt`,
/// `output = kp * current_error + ki * integral + kd * derivative`.
#[derive(Debug, Clone, Copy, PartialEq)]
pub struct PidTerms {
    pub current_error: Scalar,
    pub integral: Scalar,
    pub derivative: Scalar,
    pub output: Scalar,
}

/// The state of a fresh or reset controller: both fields positive zero.
pub open spec fn zero_state() -> PidState {
    PidState { previous_error: Scalar { bits: 0 }, integral: Scalar { bits: 0 } }
}

/// All three gains are finite.
pub open spec fn gains_finite(gains: PidGains) -> bool {
    gains.kp.is_finite() && gains.ki.is_finite() && gains.kd.is_finite()
}

/// The controller after an update and the update's result. Non-finite
/// signals, and then a non-finite or non-positive timestep, are refused with
/// the controller untouched, as is a non-finite current error. Otherwise the
/// integral is stored; if the integral, derivative or output is non-finite the
/// update fails with `NonFiniteOutput` and the previous error is kept,
/// else the current error becomes the previous error and the output is
/// returned.
pub open spec fn update_spec(
    controller: PidController,
    setpoint: Scalar,
    measured: Scalar,
    dt: Scalar,
    terms: PidTerms,
) -> (PidController, Result<Scalar, PidError>) {
    if !setpoint.is_finite() || !measured.is_finite() {
        (controller, Err(PidError::InvalidSignal))
    } else if !dt.is_finite() || dt.value() <= 0 {
        (controller, Err(PidError::InvalidTimestep))
    } else if !terms.current_error.is_finite() {
        (controller, Err(PidError::InvalidSignal))
    } else {
        let integrated = PidController {
            gains: controller.gains,
            state: PidState { previous_error: controller.state.previous_error, integral: terms.integral },
        };
        if !terms.integral.is_finite() || !terms.derivative.is_finite() || !terms.output.is_finite() {
            (integrated, Err(PidError::NonFiniteOutput))
        } else {
            (
                PidController {
                    gains: controller.gains,
                    state: PidState { previous_error: terms.current_error, integral: terms.integral },
                },
                Ok(terms.output),
            )
        }
    }
}

impl PidController {
    /// A controller with the given gains and zero state; all gains must be
    /// finite.
    pub fn new(gains: PidGains) -> (r: Result<PidController, PidError>)
        ensures
            gains_finite(gains) ==> r == Ok::<PidController, PidError>(
                PidController { gains, state: zero_state() },
            ),
            !gains_finite(gains) ==> r == Err::<PidController, PidError>(PidError::InvalidGains),
    {
        if !gains.kp.is_finite() || !gains.ki.is_finite() || !gains.kd.is_finite() {
            return Err(PidError::InvalidGains);
        }
        Ok(PidController {
            gains,
            state: PidState { previous_error: Scalar::zero(), integral: Scalar::zero() },
        })
    }

    /// One controller update for `setpoint`, `measured` and timestep `dt`,
    /// with `terms` computed as [`PidTerms`] describes.
    pub fn update(&mut self, setpoint: Scalar, measured: Scalar, dt: Scalar, terms: PidTerms) -> (r:
        Result<Scalar, PidError>)
        ensures
            (*final(self), r) == update_spec(*old(self), setpoint, measured, dt, terms),
    {
        if !setpoint.is_finite() || !measured.is_finite() {
            return Err(PidError::InvalidSignal);
        }
        if !dt.is_finite() || dt.le(&Scalar::zero()) {
            return Err(PidError::InvalidTimestep);
        }
        if !terms.current_error.is_finite() {
            return Err(PidError::InvalidSignal);
        }
        self.state.integral = terms.integral;
        if !self.state.integral.is_finite() || !terms.derivative.is_finite()
            || !terms.output.is_finite() {
            return Err(PidError::NonFiniteOutput);
        }
        self.state.previous_error = terms.current_error;
        Ok(terms.output)
    }

    /// Clears the integral and the previous error; the gains stay.
    pub fn reset(&mut self)
        ensures
            final(self).gains == old(self).gains,
            final(self).state == zero_state(),
    {
        self.state = PidState { previous_error: Scalar::zero(), integral: Scalar::zero() };
    }
}

/// Updates never change the gains; refused inputs leave the whole controller
/// as it was; a successful update stores the current error and the integral
/// it was given and returns the output.
pub proof fn lemma_update_transitions(
    controller: PidController,
    setpoint: Scalar,
    measured: Scalar,
    dt: Scalar,
    terms: PidTerms,
)
    ensures
        update_spec(controller, setpoint, measured, dt, terms).0.gains == controller.gains,
        update_spec(controller, setpoint, measured, dt, terms).1 matches Err(e) && e
            != PidError::NonFiniteOutput ==> update_spec(controller, setpoint, measured, dt, terms).0
            == controller,
        update_spec(controller, setpoint, measured, dt, terms).1 matches Ok(out) ==> out
            == terms.output && out.is_finite() && update_spec(
            controller,
            setpoint,
            measured,
            dt,
            terms,
        ).0.state == (PidState {
            previous_error: terms.current_error,
            integral: terms.integral,
        }),
        update_spec(controller, setpoint, measured, dt, terms).1 is Ok <==> (setpoint.is_finite()
            && measured.is_finite() && dt.is_finite() && dt.value() > 0
            && terms.current_error.is_finite() && terms.integral.is_finite()
            && terms.derivative.is_finite() && terms.output.is_finite()),
{
}

/// Which error an update gives, in terms of its inputs, and what a
/// `NonFiniteOutput` failure leaves behind: the new integral is stored while
/// the previous error and the gains are kept.
pub proof fn lemma_update_errors(
    controller: PidController,
    setpoint: Scalar,
    measured: Scalar,
    dt: Scalar,
    terms: PidTerms,
)
    ensures
        (update_spec(controller, setpoint, measured, dt, terms).1 == Err::<Scalar, PidError>(
            PidError::InvalidSignal)) <==> (!setpoint.is_finite() || !measured.is_finite() || (
        dt.is_finite() && dt.value() > 0 && !terms.current_error.is_finite())),
        (update_spec(controller, setpoint, measured, dt, terms).1 == Err::<Scalar, PidError>(
            PidError::InvalidTimestep)) <==> (setpoint.is_finite() && measured.is_finite() && (
        !dt.is_finite() || dt.value() <= 0)),
        (update_spec(controller, setpoint, measured, dt, terms).1 == Err::<Scalar, PidError>(
            PidError::NonFiniteOutput)) <==> (setpoint.is_finite() && measured.is_finite()
            && dt.is_finite() && dt.value() > 0 && terms.current_error.is_finite() && (
        !terms.integral.is_finite() || !terms.derivative.is_finite() || !terms.output.is_finite())),
        update_spec(controller, setpoint, measured, dt, terms).1 == Err::<Scalar, PidError>(
            PidError::NonFiniteOutput) ==> update_spec(controller, setpoint, measured, dt, terms).0
            == (PidController {
            gains: controller.gains,
            state: PidState {
                previous_error: controller.state.previous_error,
                integral: terms.integral,
            },
        }),
        update_spec(controller, setpoint, measured, dt, terms).1 != Err::<Scalar, PidError>(
            PidError::InvalidGains),
{
}

} // verus!
