//! What holds of an agent over its whole history of ratings.
//!
//! The protocol keeps only the current aggregate of an agent, yet every
//! rating leaves a receipt. Replaying the receipts of an agent, oldest first,
//! gives the aggregate back; the laws below are stated over that replay.

use crate::aggregation::lemma_average_within_bounds;
use crate::records::{Agent, Rating};
use anchor_lang::prelude::Pubkey;
use vstd::prelude::*;

verus! {

/// The record of the agent at `address` after the ratings in `receipts`,
/// oldest first.
pub open spec fn replay(address: Pubkey, receipts: Seq<Rating>) -> Agent
    decreases receipts.len(),
{
    if receipts.len() == 0 {
        Agent::fresh(address)
    } else {
        replay(address, receipts.drop_last()).rated(receipts.last().score, receipts.last().weight)
    }
}

/// Whether every rating in `receipts` was taken in its turn, none of them
/// turned down.
pub open spec fn accepted(address: Pubkey, receipts: Seq<Rating>) -> bool
    decreases receipts.len(),
{
    receipts.len() == 0 || {
        &&& accepted(address, receipts.drop_last())
        &&& replay(address, receipts.drop_last()).rating_rejection(
            receipts.last().score,
            receipts.last().weight,
        ) is None
    }
}

/// The lowest score among `receipts`, which must not be empty.
pub open spec fn lowest_score(receipts: Seq<Rating>) -> nat
    recommends
        receipts.len() > 0,
    decreases receipts.len(),
{
    if receipts.len() <= 1 {
        receipts[0].score as nat
    } else if receipts.last().score <= lowest_score(receipts.drop_last()) {
        receipts.last().score as nat
    } else {
        lowest_score(receipts.drop_last())
    }
}

/// The highest score among `receipts`, which must not be empty.
pub open spec fn highest_score(receipts: Seq<Rating>) -> nat
    recommends
        receipts.len() > 0,
    decreases receipts.len(),
{
    if receipts.len() <= 1 {
        receipts[0].score as nat
    } else if receipts.last().score >= highest_score(receipts.drop_last()) {
        receipts.last().score as nat
    } else {
        highest_score(receipts.drop_last())
    }
}

/// The sum of the stakes behind `receipts`.
pub open spec fn total_stake(receipts: Seq<Rating>) -> nat
    decreases receipts.len(),
{
    if receipts.len() == 0 {
        0
    } else {
        total_stake(receipts.drop_last()) + receipts.last().weight as nat
    }
}

/// `lowest_score` and `highest_score` are the minimum and the maximum: each
/// is the score of some receipt, and every score lies between them.
pub proof fn lemma_score_extremes(receipts: Seq<Rating>)
    requires
        receipts.len() > 0,
    ensures
        forall|i: int|
            0 <= i < receipts.len() ==> lowest_score(receipts) <= (#[trigger] receipts[i]).score
                <= highest_score(receipts),
        exists|i: int| 0 <= i < receipts.len() && receipts[i].score == lowest_score(receipts),
        exists|i: int| 0 <= i < receipts.len() && receipts[i].score == highest_score(receipts),
    decreases receipts.len(),
{
    if receipts.len() > 1 {
        let earlier = receipts.drop_last();
        lemma_score_extremes(earlier);
        let low = choose|i: int| 0 <= i < earlier.len() && earlier[i].score == lowest_score(earlier);
        let high = choose|i: int|
            0 <= i < earlier.len() && earlier[i].score == highest_score(earlier);
        let end = receipts.len() - 1;
        assert(receipts[low] == earlier[low] && receipts[high] == earlier[high]);
        assert(receipts[end] == receipts.last());
        assert forall|i: int| 0 <= i < receipts.len() implies lowest_score(receipts) <= (
        #[trigger] receipts[i]).score <= highest_score(receipts) by {
            if i < end {
                assert(receipts[i] == earlier[i]);
            }
        }
    } else {
        assert(receipts[0].score == lowest_score(receipts));
        assert(receipts[0].score == highest_score(receipts));
    }
}

/// Replaying one more receipt is rating the replayed agent once more.
pub proof fn lemma_replay_step(address: Pubkey, receipts: Seq<Rating>, receipt: Rating)
    ensures
        replay(address, receipts.push(receipt)) == replay(address, receipts).rated(
            receipt.score,
            receipt.weight,
        ),
        accepted(address, receipts.push(receipt)) <==> accepted(address, receipts) && replay(
            address,
            receipts,
        ).rating_rejection(receipt.score, receipt.weight) is None,
{
    let longer = receipts.push(receipt);
    assert(longer.drop_last() == receipts);
    assert(longer.last() == receipt);
}

/// An agent is what its receipts say: after any history of accepted
/// ratings its record is well formed, it counts one rating per receipt, and
/// its weight is the sum of the stakes behind them, which is positive as
/// soon as there is one rating.
pub proof fn lemma_replay_summary(address: Pubkey, receipts: Seq<Rating>)
    requires
        accepted(address, receipts),
    ensures
        replay(address, receipts).well_formed(),
        replay(address, receipts).address == address,
        replay(address, receipts).rating_count == receipts.len(),
        replay(address, receipts).total_weight == total_stake(receipts),
        receipts.len() > 0 ==> replay(address, receipts).total_weight > 0,
        forall|i: int| 0 <= i < receipts.len() ==> (#[trigger] receipts[i]).well_formed(),
    decreases receipts.len(),
{
    if receipts.len() > 0 {
        let earlier = receipts.drop_last();
        let last = receipts.last();
        lemma_replay_summary(address, earlier);
        let before = replay(address, earlier);
        before.lemma_rated_preserves_well_formed(last.score, last.weight);
        assert forall|i: int| 0 <= i < receipts.len() implies (#[trigger] receipts[i]).well_formed() by {
            if i < receipts.len() - 1 {
                assert(receipts[i] == earlier[i]);
            }
        }
    }
}

/// The score stays within what was given: after any history of accepted
/// ratings, the agent's score is no lower than the lowest score received so
/// far and no higher than the highest.
pub proof fn lemma_score_within_history(address: Pubkey, receipts: Seq<Rating>)
    requires
        receipts.len() > 0,
        accepted(address, receipts),
    ensures
        lowest_score(receipts) <= replay(address, receipts).trust_score <= highest_score(receipts),
    decreases receipts.len(),
{
    let earlier = receipts.drop_last();
    let last = receipts.last();
    let before = replay(address, earlier);
    before.lemma_rated_is_exact(last.score, last.weight);
    if earlier.len() == 0 {
        before.lemma_first_rating(last.score, last.weight);
    } else {
        lemma_score_within_history(address, earlier);
        lemma_replay_summary(address, earlier);
        lemma_average_within_bounds(
            before.trust_score as int,
            before.total_weight as int,
            last.score as int,
            last.weight as int,
            lowest_score(receipts) as int,
            highest_score(receipts) as int,
        );
    }
}

/// The first two ratings may come in either order, whatever their weights:
/// the first is taken over exactly, so nothing has been rounded away when the
/// second is folded in. Given to an unrated agent, the one then the other
/// leaves the same record as the other then the one. (From the third rating
/// on, the order can show in the last digit.)
pub proof fn lemma_two_ratings_commute(
    address: Pubkey,
    first: u8,
    first_stake: u64,
    second: u8,
    second_stake: u64,
)
    requires
        first_stake > 0,
        second_stake > 0,
    ensures
        Agent::fresh(address).rated(first, first_stake).rated(second, second_stake) == Agent::fresh(
            address,
        ).rated(second, second_stake).rated(first, first_stake),
{
    let unrated = Agent::fresh(address);
    unrated.lemma_first_rating(first, first_stake);
    unrated.lemma_first_rating(second, second_stake);
    assert(first * first_stake + second * second_stake == second * second_stake + first
        * first_stake);
}

/// Two ratings of equal weight may come in either order: given to an
/// unrated agent, `first` then `second` leaves the same record, and so the
/// same score, as `second` then `first`; and the pair is taken in one order
/// exactly when it is taken in the other.
pub proof fn lemma_equal_weights_commute(address: Pubkey, first: u8, second: u8, stake: u64)
    ensures
        Agent::fresh(address).rated(first, stake).rated(second, stake) == Agent::fresh(
            address,
        ).rated(second, stake).rated(first, stake),
        Agent::fresh(address).rated(first, stake).rated(second, stake).trust_score == Agent::fresh(
            address,
        ).rated(second, stake).rated(first, stake).trust_score,
        ({
            &&& Agent::fresh(address).rating_rejection(first, stake) is None
            &&& Agent::fresh(address).rated(first, stake).rating_rejection(second, stake) is None
        }) <==> ({
            &&& Agent::fresh(address).rating_rejection(second, stake) is None
            &&& Agent::fresh(address).rated(second, stake).rating_rejection(first, stake) is None
        }),
{
    let unrated = Agent::fresh(address);
    if stake > 0 {
        lemma_two_ratings_commute(address, first, stake, second, stake);
        unrated.lemma_first_rating(first, stake);
        unrated.lemma_first_rating(second, stake);
    }
}

} // verus!
