//! The arithmetic of the running stake-weighted average.
//!
//! An agent's score is the average of every score it has received, each
//! weighed by the stake of the rater that gave it. Only the current average
//! and the weight behind it are kept, so a new rating is folded in as
//! `(average * weight + score * stake) / (weight + stake)`, rounded down.

use crate::error::AvellumError;
use vstd::arithmetic::div_mod::{
    lemma_div_is_ordered, lemma_div_multiples_vanish, lemma_fundamental_div_mod, lemma_mod_bound,
};
use vstd::prelude::*;

verus! {

/// The highest score that a rater may give.
pub const MAX_SCORE: u8 = 100;

/// The numerator of the new average: the standing average weighed by the
/// stake behind it, plus the new score weighed by the rater's stake.
pub open spec fn weighted_sum(trust_score: int, total_weight: int, score: int, stake: int) -> int {
    trust_score * total_weight + score * stake
}

/// The average after a rating of `score` backed by `stake` has been folded
/// into an average of `trust_score` backed by `total_weight`: the weighted
/// sum divided by the new weight, rounded down.
pub open spec fn averaged_score(trust_score: int, total_weight: int, score: int, stake: int) -> int
    recommends
        0 <= trust_score,
        0 <= total_weight,
        0 <= score,
        0 < stake,
{
    weighted_sum(trust_score, total_weight, score, stake) / (total_weight + stake)
}

/// Why a rating cannot be folded in, or `None` when it can: the score must
/// be at most `MAX_SCORE`, a stake must back it, and the new weight must fit
/// in 64 bits.
pub open spec fn fold_rejection(total_weight: int, score: int, stake: int) -> Option<
    AvellumError,
> {
    if score > MAX_SCORE {
        Some(AvellumError::InvalidScore)
    } else if stake == 0 {
        Some(AvellumError::NoStake)
    } else if total_weight + stake > u64::MAX {
        Some(AvellumError::ArithmeticOverflow)
    } else {
        None
    }
}

/// `averaged_score` rounds down: it is the one integer `q` for which
/// `q * (weight + stake) <= sum < (q + 1) * (weight + stake)`, where `sum` is
/// the weighted sum.
pub proof fn lemma_average_is_floor(
    average: int,
    trust_score: int,
    total_weight: int,
    score: int,
    stake: int,
)
    requires
        0 <= total_weight,
        0 < stake,
    ensures
        average == averaged_score(trust_score, total_weight, score, stake) <==> average * (
        total_weight + stake) <= weighted_sum(trust_score, total_weight, score, stake) < (average
            + 1) * (total_weight + stake),
{
    let total: int = total_weight + stake;
    let sum: int = weighted_sum(trust_score, total_weight, score, stake);
    let quotient: int = sum / total;
    lemma_fundamental_div_mod(sum, total);
    lemma_mod_bound(sum, total);
    assert(quotient * total <= sum < (quotient + 1) * total) by (nonlinear_arith)
        requires
            sum == total * quotient + sum % total,
            0 <= sum % total < total,
    ;
    if average * total <= sum < (average + 1) * total {
        assert(average == quotient) by (nonlinear_arith)
            requires
                total > 0,
                average * total <= sum < (average + 1) * total,
                quotient * total <= sum < (quotient + 1) * total,
        ;
    }
}

/// An average lies between the scores it is made of: where the standing
/// average and the new score are both within `lo..=hi`, so is the result. An
/// average that nothing backs yet (`total_weight == 0`) places no demand.
pub proof fn lemma_average_within_bounds(
    trust_score: int,
    total_weight: int,
    score: int,
    stake: int,
    lo: int,
    hi: int,
)
    requires
        0 <= total_weight,
        0 < stake,
        lo <= score <= hi,
        total_weight == 0 || lo <= trust_score <= hi,
    ensures
        lo <= averaged_score(trust_score, total_weight, score, stake) <= hi,
{
    let total: int = total_weight + stake;
    let sum: int = weighted_sum(trust_score, total_weight, score, stake);
    assert(lo * total <= sum <= hi * total) by (nonlinear_arith)
        requires
            total == total_weight + stake,
            sum == trust_score * total_weight + score * stake,
            0 <= total_weight,
            0 < stake,
            lo <= score <= hi,
            total_weight == 0 || lo <= trust_score <= hi,
    ;
    lemma_div_is_ordered(lo * total, sum, total);
    lemma_div_is_ordered(sum, hi * total, total);
    lemma_div_multiples_vanish(lo, total);
    lemma_div_multiples_vanish(hi, total);
    assert(lo * total == total * lo && hi * total == total * hi) by (nonlinear_arith);
}

/// The first rating decides the score alone: folded into an average that
/// nothing backs yet, a rating yields its own score.
pub proof fn lemma_first_rating_sets_score(trust_score: int, score: int, stake: int)
    requires
        0 < stake,
    ensures
        averaged_score(trust_score, 0, score, stake) == score,
{
    lemma_average_within_bounds(trust_score, 0, score, stake, score, score);
}

/// The 128-bit accumulator is wide enough: whatever 64-bit average and
/// weights come in, the weighted sum fits whenever the new weight fits in 64
/// bits, so no rating is ever lost to the width of the sum.
pub proof fn lemma_weighted_sum_fits(trust_score: int, total_weight: int, score: int, stake: int)
    requires
        0 <= trust_score <= u64::MAX,
        0 <= score <= u64::MAX,
        0 <= total_weight,
        0 <= stake,
        total_weight + stake <= u64::MAX,
    ensures
        0 <= trust_score * total_weight <= weighted_sum(trust_score, total_weight, score, stake),
        0 <= score * stake <= weighted_sum(trust_score, total_weight, score, stake),
        weighted_sum(trust_score, total_weight, score, stake) <= u128::MAX,
{
    let limit: int = u64::MAX as int;
    assert(0 <= trust_score * total_weight && 0 <= score * stake && trust_score * total_weight
        + score * stake <= limit * limit) by (nonlinear_arith)
        requires
            0 <= trust_score <= limit,
            0 <= score <= limit,
            0 <= total_weight,
            0 <= stake,
            total_weight + stake <= limit,
    ;
    assert(limit * limit <= u128::MAX) by (nonlinear_arith)
        requires
            limit == 0xffff_ffff_ffff_ffff,
    ;
}

/// Folds one rating into a running average.
///
/// Returns the new average and the new weight behind it. The weighted sum is
/// taken in 128 bits, where it cannot overflow; a rating that would carry
/// the weight beyond 64 bits is rejected rather than wrapped.
pub fn fold_rating(trust_score: u64, total_weight: u64, score: u8, stake: u64) -> (folded: Result<
    (u64, u64),
    AvellumError,
>)
    ensures
        match folded {
            Ok((new_score, new_weight)) => {
                &&& fold_rejection(total_weight as int, score as int, stake as int) is None
                &&& new_score == averaged_score(
                    trust_score as int,
                    total_weight as int,
                    score as int,
                    stake as int,
                )
                &&& new_weight == total_weight + stake
            },
            Err(reason) => fold_rejection(total_weight as int, score as int, stake as int) == Some(
                reason,
            ),
        },
{
    if score > MAX_SCORE {
        return Err(AvellumError::InvalidScore);
    }
    if stake == 0 {
        return Err(AvellumError::NoStake);
    }
    let new_weight: u64 = match total_weight.checked_add(stake) {
        Some(sum) => sum,
        None => { return Err(AvellumError::ArithmeticOverflow); },
    };
    proof {
        lemma_weighted_sum_fits(
            trust_score as int,
            total_weight as int,
            score as int,
            stake as int,
        );
    }
    let standing: u128 = (trust_score as u128) * (total_weight as u128);
    let incoming: u128 = (score as u128) * (stake as u128);
    let averaged: u128 = (standing + incoming) / (new_weight as u128);
    proof {
        let larger: int = if trust_score >= score { trust_score as int } else { score as int };
        lemma_average_within_bounds(
            trust_score as int,
            total_weight as int,
            score as int,
            stake as int,
            0,
            larger,
        );
    }
    Ok((averaged as u64, new_weight))
}

} // verus!
