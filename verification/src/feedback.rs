//! Primitive feedback loops: a gain plus a positive or negative direction.

use vstd::prelude::*;
use crate::scalar::Scalar;

verus! {

/// Whether feedback is added to or subtracted from the input.
#[derive(Debug, Clone, Copy, PartialEq, Eq, Structural)]
pub enum FeedbackDirection {
    Positive,
    Negative,
}

/// A feedback loop: `input + gain * feedback` for positive feedback,
/// `input - gain * feedback` for negative feedback.
#[derive(Debug, Clone, Copy, PartialEq)]
pub struct FeedbackLoop {
    pub gain: Scalar,
    pub direction: FeedbackDirection,
}

/// Why a feedback loop was refused.
#[derive(Debug, Clone, Copy, PartialEq, Eq, Structural)]
pub enum FeedbackError {
    InvalidGain,
}

impl FeedbackLoop {
    /// The gain with the loop's sign applied: `gain` for positive feedback,
    /// `-gain` for negative feedback.
    pub open spec fn signed_gain_spec(&self) -> Scalar {
        match self.direction {
            FeedbackDirection::Positive => self.gain,
            FeedbackDirection::Negative => self.gain.neg(),
        }
    }

    /// A loop with the given gain and direction; the gain must be finite.
    pub fn new(gain: Scalar, direction: FeedbackDirection) -> (r: Result<FeedbackLoop, FeedbackError>)
        ensures
            gain.is_finite() ==> r == Ok::<FeedbackLoop, FeedbackError>(FeedbackLoop { gain, direction }),
            !gain.is_finite() ==> r == Err::<FeedbackLoop, FeedbackError>(FeedbackError::InvalidGain),
    {
        if !gain.is_finite() {
            return Err(FeedbackError::InvalidGain);
        }
        Ok(FeedbackLoop { gain, direction })
    }

    /// The factor by which feedback enters the output, so that the loop's
    /// output is `input + signed_gain * feedback` in binary64 arithmetic (IEEE
    /// subtraction is addition of the negated operand, and negating a factor
    /// negates the product).
    #[verifier::when_used_as_spec(signed_gain_spec)]
    pub fn signed_gain(&self) -> (r: Scalar)
        ensures
            r == self.signed_gain_spec(),
            r.is_finite() == self.gain.is_finite(),
            self.direction == FeedbackDirection::Positive ==> r.value() == self.gain.value(),
            self.direction == FeedbackDirection::Negative ==> r.value() == -self.gain.value(),
    {
        match self.direction {
            FeedbackDirection::Positive => self.gain,
            FeedbackDirection::Negative => self.gain.neg(),
        }
    }
}

/// Loops that differ only in direction weigh feedback by opposite factors.
pub proof fn lemma_opposite_directions(gain: Scalar)
    ensures
        (FeedbackLoop { gain, direction: FeedbackDirection::Negative }).signed_gain().value() == -(
        FeedbackLoop { gain, direction: FeedbackDirection::Positive }).signed_gain().value(),
        (FeedbackLoop { gain, direction: FeedbackDirection::Negative }).signed_gain().is_finite()
            == gain.is_finite(),
{
}

} // verus!
