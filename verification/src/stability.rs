//! Stability-oriented helpers: gain classification, boundedness of sampled
//! responses, and the index from which a sampled response stays settled.

use vstd::prelude::*;
use crate::scalar::{Scalar, abs_value};

verus! {

/// How a loop gain compares with the stability limit.
#[derive(Debug, Clone, Copy, PartialEq, Eq, Structural)]
pub enum Stability {
    Stable,
    Unstable,
    Marginal,
}

/// Why a stability query was refused.
#[derive(Debug, Clone, Copy, PartialEq, Eq, Structural)]
pub enum StabilityError {
    InvalidGain,
    InvalidLimit,
    InvalidValues,
    InvalidBound,
    InvalidTarget,
    InvalidTolerance,
    InvalidTimestep,
}

/// What [`classify_gain`] returns: `InvalidGain` for a non-finite gain,
/// `InvalidLimit` for a non-finite or non-positive limit, otherwise `Stable`,
/// `Unstable` or `Marginal` as `|gain|` is below, above or at the limit.
pub open spec fn classify_gain_spec(gain: Scalar, stable_limit: Scalar) -> Result<Stability, StabilityError> {
    if !gain.is_finite() {
        Err(StabilityError::InvalidGain)
    } else if !stable_limit.is_finite() || stable_limit.value() <= 0 {
        Err(StabilityError::InvalidLimit)
    } else if abs_value(gain.value()) < stable_limit.value() {
        Ok(Stability::Stable)
    } else if abs_value(gain.value()) > stable_limit.value() {
        Ok(Stability::Unstable)
    } else {
        Ok(Stability::Marginal)
    }
}

/// Every value is finite.
pub open spec fn all_finite(values: Seq<Scalar>) -> bool {
    forall|i: int| 0 <= i < values.len() ==> (#[trigger] values[i]).is_finite()
}

/// What [`is_bounded`] returns: `InvalidBound` for a non-finite or
/// non-positive bound, `InvalidValues` when some value is not finite,
/// otherwise whether every `|value| <= bound`.
pub open spec fn is_bounded_spec(values: Seq<Scalar>, bound: Scalar) -> Result<bool, StabilityError> {
    if !bound.is_finite() || bound.value() <= 0 {
        Err(StabilityError::InvalidBound)
    } else if !all_finite(values) {
        Err(StabilityError::InvalidValues)
    } else {
        Ok(
            forall|i: int|
                0 <= i < values.len() ==> abs_value((#[trigger] values[i]).value()) <= bound.value(),
        )
    }
}

/// Every sample from index `start` on is within tolerance.
pub open spec fn settled_from(within: Seq<bool>, start: int) -> bool {
    forall|j: int| start <= j < within.len() ==> #[trigger] within[j]
}

/// The argument errors of a settling query, checked in this order: target,
/// tolerance, timestep, values.
pub open spec fn settling_error(values: Seq<Scalar>, target: Scalar, tolerance: Scalar, dt: Scalar) -> Option<
    StabilityError,
> {
    if !target.is_finite() {
        Some(StabilityError::InvalidTarget)
    } else if !tolerance.is_finite() || tolerance.value() < 0 {
        Some(StabilityError::InvalidTolerance)
    } else if !dt.is_finite() || dt.value() <= 0 {
        Some(StabilityError::InvalidTimestep)
    } else if !all_finite(values) {
        Some(StabilityError::InvalidValues)
    } else {
        None
    }
}

/// Classifies a loop gain against a positive stability limit by magnitude.
pub fn classify_gain(gain: Scalar, stable_limit: Scalar) -> (r: Result<Stability, StabilityError>)
    ensures
        r == classify_gain_spec(gain, stable_limit),
{
    if !gain.is_finite() {
        return Err(StabilityError::InvalidGain);
    }
    if !stable_limit.is_finite() || stable_limit.le(&Scalar::zero()) {
        return Err(StabilityError::InvalidLimit);
    }
    let magnitude = gain.abs();
    if magnitude.lt(&stable_limit) {
        Ok(Stability::Stable)
    } else if stable_limit.lt(&magnitude) {
        Ok(Stability::Unstable)
    } else {
        Ok(Stability::Marginal)
    }
}

fn has_non_finite(values: &[Scalar]) -> (r: bool)
    ensures
        r == !all_finite(values@),
{
    let mut i: usize = 0;
    while i < values.len()
        invariant
            i <= values@.len(),
            all_finite(values@.take(i as int)),
        decreases values@.len() - i,
    {
        if !values[i].is_finite() {
            return true;
        }
        proof {
            assert forall|k: int| 0 <= k < i + 1 implies (#[trigger] values@.take(i + 1)[k]).is_finite() by {
                if k < i {
                    assert(values@.take(i + 1)[k] == values@.take(i as int)[k]);
                }
            }
        }
        i = i + 1;
    }
    assert(values@.take(i as int) =~= values@);
    false
}

/// Whether every sampled value lies within `[-bound, bound]`.
pub fn is_bounded(values: &[Scalar], bound: Scalar) -> (r: Result<bool, StabilityError>)
    ensures
        r == is_bounded_spec(values@, bound),
{
    if !bound.is_finite() || bound.le(&Scalar::zero()) {
        return Err(StabilityError::InvalidBound);
    }
    if has_non_finite(values) {
        return Err(StabilityError::InvalidValues);
    }
    let mut i: usize = 0;
    while i < values.len()
        invariant
            i <= values@.len(),
            bound.is_finite(),
            bound.value() > 0,
            all_finite(values@),
            forall|k: int| 0 <= k < i ==> abs_value((#[trigger] values@[k]).value()) <= bound.value(),
        decreases values@.len() - i,
    {
        assert(values@[i as int].is_finite());
        if !values[i].abs().le(&bound) {
            assert(!(abs_value(values@[i as int].value()) <= bound.value()));
            return Ok(false);
        }
        i = i + 1;
    }
    Ok(true)
}

/// The index from which a sampled response stays within tolerance of its
/// target, the time being that index times `dt`. `within[i]` tells whether
/// sample `i` is within tolerance as the caller judged it in binary64
/// arithmetic. Refused arguments give the first of [`settling_error`];
/// otherwise the result is the least index from which every sample is within
/// tolerance, or `None` when no index of the series qualifies.
pub fn settling_index(
    values: &[Scalar],
    target: Scalar,
    tolerance: Scalar,
    dt: Scalar,
    within: &[bool],
) -> (r: Result<Option<usize>, StabilityError>)
    requires
        within@.len() == values@.len(),
    ensures
        settling_error(values@, target, tolerance, dt) matches Some(e) ==> r == Err::<
            Option<usize>,
            StabilityError,
        >(e),
        settling_error(values@, target, tolerance, dt) is None ==> r is Ok,
        r matches Ok(Some(i)) ==> i < within@.len() && settled_from(within@, i as int) && forall|
            k: int,
        |
            0 <= k < i ==> !settled_from(within@, k),
        r matches Ok(None) ==> forall|k: int| 0 <= k < within@.len() ==> !settled_from(within@, k),
{
    let zero = Scalar::zero();
    if !target.is_finite() {
        return Err(StabilityError::InvalidTarget);
    }
    if !tolerance.is_finite() || tolerance.lt(&zero) {
        return Err(StabilityError::InvalidTolerance);
    }
    if !dt.is_finite() || dt.le(&zero) {
        return Err(StabilityError::InvalidTimestep);
    }
    if has_non_finite(values) {
        return Err(StabilityError::InvalidValues);
    }
    let n = within.len();
    let mut start: usize = n;
    while start > 0 && within[start - 1]
        invariant
            start <= n,
            n == within@.len(),
            settled_from(within@, start as int),
        decreases start,
    {
        start = start - 1;
    }
    if start == n {
        proof {
            assert forall|k: int| 0 <= k < n implies !settled_from(within@, k) by {
                assert(!within@[n - 1]);
            }
        }
        Ok(None)
    } else {
        proof {
            assert forall|k: int| 0 <= k < start implies !settled_from(within@, k) by {
                assert(!within@[start - 1]);
            }
        }
        Ok(Some(start))
    }
}

/// A response settles within the series exactly when it has samples and its
/// last sample is within tolerance; from the settling index on it stays
/// settled.
pub proof fn lemma_settles_iff_last_within(within: Seq<bool>)
    ensures
        (exists|k: int| 0 <= k < within.len() && settled_from(within, k)) <==> (within.len() > 0
            && within[within.len() - 1]),
        forall|k: int, l: int| 0 <= k <= l && settled_from(within, k) ==> settled_from(within, l),
{
    if within.len() > 0 && within[within.len() - 1] {
        assert(settled_from(within, within.len() - 1));
    }
}

/// Classification depends only on the magnitude of the gain: a gain and its
/// negation are classified alike.
pub proof fn lemma_classify_gain_sign_symmetric(gain: Scalar, stable_limit: Scalar)
    ensures
        classify_gain_spec(gain.neg(), stable_limit) == classify_gain_spec(gain, stable_limit),
{
}

/// A series bounded by `bound` is bounded by every larger valid bound.
pub proof fn lemma_bounded_monotone(values: Seq<Scalar>, bound: Scalar, larger: Scalar)
    requires
        larger.is_finite(),
        bound.is_finite(),
        bound.value() <= larger.value(),
        is_bounded_spec(values, bound) == Ok::<bool, StabilityError>(true),
    ensures
        is_bounded_spec(values, larger) == Ok::<bool, StabilityError>(true),
{
}

/// Classification in terms of its inputs: a non-finite gain is refused, then
/// a non-finite or non-positive limit; otherwise the gain is `Stable`,
/// `Unstable` or `Marginal` exactly as `-limit < gain < limit`, `gain` lies
/// beyond `limit` or `-limit`, or `gain` equals `limit` or `-limit`.
pub proof fn lemma_classify_gain_result(gain: Scalar, stable_limit: Scalar)
    ensures
        !gain.is_finite() ==> classify_gain_spec(gain, stable_limit) == Err::<Stability, StabilityError>(
            StabilityError::InvalidGain,
        ),
        gain.is_finite() && (!stable_limit.is_finite() || stable_limit.value() <= 0) ==> classify_gain_spec(
            gain,
            stable_limit,
        ) == Err::<Stability, StabilityError>(StabilityError::InvalidLimit),
        gain.is_finite() && stable_limit.is_finite() && stable_limit.value() > 0 ==> {
            &&& (classify_gain_spec(gain, stable_limit) == Ok::<Stability, StabilityError>(
                Stability::Stable,
            ) <==> -stable_limit.value() < gain.value() < stable_limit.value())
            &&& (classify_gain_spec(gain, stable_limit) == Ok::<Stability, StabilityError>(
                Stability::Unstable,
            ) <==> (gain.value() > stable_limit.value() || gain.value() < -stable_limit.value()))
            &&& (classify_gain_spec(gain, stable_limit) == Ok::<Stability, StabilityError>(
                Stability::Marginal,
            ) <==> (gain.value() == stable_limit.value() || gain.value() == -stable_limit.value()))
        },
{
}

/// A larger limit never makes a gain less stable: a stable gain stays stable
/// and a marginal gain becomes stable; a smaller limit makes an unstable gain
/// stay unstable.
pub proof fn lemma_classify_gain_monotone_in_limit(gain: Scalar, limit: Scalar, larger: Scalar)
    requires
        gain.is_finite(),
        limit.is_finite(),
        larger.is_finite(),
        0 < limit.value(),
        limit.value() < larger.value(),
    ensures
        classify_gain_spec(gain, limit) == Ok::<Stability, StabilityError>(Stability::Stable)
            ==> classify_gain_spec(gain, larger) == Ok::<Stability, StabilityError>(Stability::Stable),
        classify_gain_spec(gain, limit) == Ok::<Stability, StabilityError>(Stability::Marginal)
            ==> classify_gain_spec(gain, larger) == Ok::<Stability, StabilityError>(Stability::Stable),
        classify_gain_spec(gain, larger) == Ok::<Stability, StabilityError>(Stability::Unstable)
            ==> classify_gain_spec(gain, limit) == Ok::<Stability, StabilityError>(Stability::Unstable),
{
}

/// Boundedness in terms of the samples: with a finite positive bound and
/// finite samples the series is bounded exactly when every sample lies in
/// `[-bound, bound]`, and unbounded exactly when some sample lies outside.
pub proof fn lemma_is_bounded_result(values: Seq<Scalar>, bound: Scalar)
    ensures
        !bound.is_finite() || bound.value() <= 0 ==> is_bounded_spec(values, bound) == Err::<
            bool,
            StabilityError,
        >(StabilityError::InvalidBound),
        bound.is_finite() && bound.value() > 0 && (exists|i: int|
            0 <= i < values.len() && !(#[trigger] values[i]).is_finite()) ==> is_bounded_spec(
            values,
            bound,
        ) == Err::<bool, StabilityError>(StabilityError::InvalidValues),
        bound.is_finite() && bound.value() > 0 && (forall|i: int|
            0 <= i < values.len() ==> (#[trigger] values[i]).is_finite()) ==> {
            &&& (is_bounded_spec(values, bound) == Ok::<bool, StabilityError>(true) <==> forall|i: int|
                0 <= i < values.len() ==> -bound.value() <= (#[trigger] values[i]).value()
                    <= bound.value())
            &&& (is_bounded_spec(values, bound) == Ok::<bool, StabilityError>(false) <==> exists|
                i: int,
            |
                0 <= i < values.len() && ((#[trigger] values[i]).value() > bound.value()
                    || values[i].value() < -bound.value()))
        },
{
}

/// A series and its negation are judged alike.
pub proof fn lemma_is_bounded_negation(values: Seq<Scalar>, bound: Scalar)
    ensures
        is_bounded_spec(values.map_values(|v: Scalar| v.neg()), bound) == is_bounded_spec(values, bound),
{
    let negated = values.map_values(|v: Scalar| v.neg());
    assert forall|i: int| 0 <= i < values.len() implies (#[trigger] negated[i]).is_finite()
        == values[i].is_finite() && negated[i].value() == -values[i].value() by {
        crate::scalar::lemma_neg_abs(values[i]);
    }
    if bound.is_finite() && bound.value() > 0 {
        if all_finite(values) {
            assert(all_finite(negated));
            assert((forall|i: int|
                0 <= i < negated.len() ==> abs_value((#[trigger] negated[i]).value()) <= bound.value())
                == (forall|i: int|
                0 <= i < values.len() ==> abs_value((#[trigger] values[i]).value()) <= bound.value())) by {
                if forall|i: int|
                    0 <= i < values.len() ==> abs_value((#[trigger] values[i]).value()) <= bound.value() {
                    assert forall|i: int| 0 <= i < negated.len() implies abs_value(
                        (#[trigger] negated[i]).value(),
                    ) <= bound.value() by {
                        assert(abs_value(values[i].value()) <= bound.value());
                    }
                }
                if forall|i: int|
                    0 <= i < negated.len() ==> abs_value((#[trigger] negated[i]).value()) <= bound.value() {
                    assert forall|i: int| 0 <= i < values.len() implies abs_value(
                        (#[trigger] values[i]).value(),
                    ) <= bound.value() by {
                        assert(abs_value(negated[i].value()) <= bound.value());
                    }
                }
            }
        } else {
            let k = choose|k: int| 0 <= k < values.len() && !(#[trigger] values[k]).is_finite();
            assert(!negated[k].is_finite());
        }
    }
}

/// The arguments of a settling query are refused in the order target,
/// tolerance, timestep, values; valid arguments are never refused.
pub proof fn lemma_settling_error_result(values: Seq<Scalar>, target: Scalar, tolerance: Scalar, dt: Scalar)
    ensures
        !target.is_finite() ==> settling_error(values, target, tolerance, dt) == Some(
            StabilityError::InvalidTarget,
        ),
        target.is_finite() && (!tolerance.is_finite() || tolerance.value() < 0) ==> settling_error(
            values,
            target,
            tolerance,
            dt,
        ) == Some(StabilityError::InvalidTolerance),
        target.is_finite() && tolerance.is_finite() && tolerance.value() >= 0 && (!dt.is_finite()
            || dt.value() <= 0) ==> settling_error(values, target, tolerance, dt) == Some(
            StabilityError::InvalidTimestep,
        ),
        target.is_finite() && tolerance.is_finite() && tolerance.value() >= 0 && dt.is_finite()
            && dt.value() > 0 ==> (settling_error(values, target, tolerance, dt) is None <==> forall|
            i: int,
        |
            0 <= i < values.len() ==> (#[trigger] values[i]).is_finite()),
{
}

/// The settled tail grows one sample at a time: every series is settled from
/// its end, and it is settled from index `i - 1` exactly when it is settled
/// from `i` and sample `i - 1` is within tolerance.
pub proof fn lemma_settled_from_step(within: Seq<bool>, i: int)
    requires
        0 < i <= within.len(),
    ensures
        settled_from(within, within.len() as int),
        settled_from(within, i - 1) <==> (settled_from(within, i) && within[i - 1]),
{
}

} // verus!
