//! The four kinds of record that the protocol keeps, and the rules that each
//! one obeys.

use crate::aggregation::{
    averaged_score, fold_rating, fold_rejection, lemma_average_within_bounds,
    lemma_first_rating_sets_score, MAX_SCORE,
};
use crate::confidence::{confidence_for, confidence_level, AgentStage};
use crate::error::AvellumError;
use anchor_lang::prelude::Pubkey;
use vstd::prelude::*;

verus! {

/// The protocol-wide counters, of which there is one per deployment.
#[derive(Clone, Copy, Debug, PartialEq, Eq)]
pub struct ProtocolState {
    /// The administrator that set the protocol up.
    pub authority: Pubkey,
    /// How many agents have been registered.
    pub total_agents: u32,
    /// How many ratings have been submitted.
    pub total_ratings: u64,
}

/// The aggregate that the protocol keeps for one rated agent.
#[derive(Clone, Copy, Debug, PartialEq, Eq)]
pub struct Agent {
    /// The identity that this record stands for.
    pub address: Pubkey,
    /// The current stake-weighted average of the scores received, 0 to 100.
    pub trust_score: u64,
    /// The sum of the stakes behind every rating received.
    pub total_weight: u64,
    /// How many ratings have been received.
    pub rating_count: u32,
    /// The confidence tier that belongs to `rating_count`, stored as 0, 1 or 2.
    pub confidence: u8,
}

/// The collateral that one identity has staked; its size is the weight that
/// the identity's ratings carry.
#[derive(Clone, Copy, Debug, PartialEq, Eq)]
pub struct Verifier {
    /// The identity that controls this stake.
    pub owner: Pubkey,
    /// The collateral deposited so far.
    pub staked_amount: u64,
}

/// The receipt of one rating, kept unchanged as an audit trail.
#[derive(Clone, Copy, Debug, PartialEq, Eq)]
pub struct Rating {
    /// The identity that gave the rating.
    pub rater: Pubkey,
    /// The identity that was rated.
    pub agent: Pubkey,
    /// The score given, 0 to 100.
    pub score: u8,
    /// The rater's stake at the moment of the rating.
    pub weight: u64,
    /// When the rating was given, in seconds since the Unix epoch.
    pub timestamp: i64,
}

impl ProtocolState {
    /// The counters of a protocol that has just been set up by `authority`.
    pub open spec fn fresh(authority: Pubkey) -> ProtocolState {
        ProtocolState { authority, total_agents: 0, total_ratings: 0 }
    }

    /// Sets up the counters for a new deployment.
    pub fn new(authority: Pubkey) -> (state: ProtocolState)
        ensures
            state == ProtocolState::fresh(authority),
    {
        ProtocolState { authority, total_agents: 0, total_ratings: 0 }
    }
}

impl Agent {
    /// The record of an agent that nobody has rated yet.
    pub open spec fn fresh(address: Pubkey) -> Agent {
        Agent { address, trust_score: 0, total_weight: 0, rating_count: 0, confidence: 0 }
    }

    /// What holds of every agent record that the protocol has produced: the
    /// score is at most 100, an agent with no weight behind it has no
    /// ratings, and the confidence is the one that its rating count calls for.
    pub open spec fn well_formed(self) -> bool {
        &&& self.trust_score <= MAX_SCORE
        &&& (self.total_weight == 0 ==> self.rating_count == 0)
        &&& self.confidence == confidence_level(self.rating_count as nat)
    }

    /// Why this agent cannot take a rating of `score` backed by `stake`, or
    /// `None` when it can.
    pub open spec fn rating_rejection(self, score: u8, stake: u64) -> Option<AvellumError> {
        let folding = fold_rejection(self.total_weight as int, score as int, stake as int);
        if folding is Some {
            folding
        } else if self.rating_count == u32::MAX {
            Some(AvellumError::ArithmeticOverflow)
        } else {
            None
        }
    }

    /// This agent after a rating of `score` backed by `stake`. Meaningful
    /// where `rating_rejection` is `None`; there no field leaves its range.
    pub open spec fn rated(self, score: u8, stake: u64) -> Agent {
        Agent {
            address: self.address,
            trust_score: averaged_score(
                self.trust_score as int,
                self.total_weight as int,
                score as int,
                stake as int,
            ) as u64,
            total_weight: (self.total_weight + stake) as u64,
            rating_count: (self.rating_count + 1) as u32,
            confidence: confidence_level((self.rating_count + 1) as nat) as u8,
        }
    }

    /// Creates the record of a newly registered agent.
    pub fn new(address: Pubkey) -> (agent: Agent)
        ensures
            agent == Agent::fresh(address),
            agent.well_formed(),
    {
        Agent { address, trust_score: 0, total_weight: 0, rating_count: 0, confidence: 0 }
    }

    /// Tells where this agent stands in its life.
    pub fn stage(&self) -> (stage: AgentStage)
        ensures
            stage == AgentStage::of(self.rating_count as nat),
    {
        AgentStage::from_rating_count(self.rating_count)
    }

    /// Tells whether this record obeys the rules of an agent record.
    pub fn is_well_formed(&self) -> (ok: bool)
        ensures
            ok == self.well_formed(),
    {
        self.trust_score <= MAX_SCORE as u64 && (self.total_weight != 0 || self.rating_count == 0)
            && self.confidence == confidence_for(self.rating_count)
    }

    /// Computes this agent's record after a rating of `score` backed by
    /// `stake`, leaving `self` as it is.
    ///
    /// The rating is rejected when the score is above 100, when no stake
    /// backs it, or when the weight or the rating count would overflow.
    pub fn rated_by(&self, score: u8, stake: u64) -> (outcome: Result<Agent, AvellumError>)
        ensures
            match outcome {
                Ok(agent) => {
                    &&& self.rating_rejection(score, stake) is None
                    &&& agent == self.rated(score, stake)
                    &&& agent.trust_score == averaged_score(
                        self.trust_score as int,
                        self.total_weight as int,
                        score as int,
                        stake as int,
                    )
                    &&& agent.total_weight == self.total_weight + stake
                    &&& agent.rating_count == self.rating_count + 1
                    &&& agent.confidence == confidence_level(agent.rating_count as nat)
                },
                Err(reason) => self.rating_rejection(score, stake) == Some(reason),
            },
    {
        let (trust_score, total_weight) = match fold_rating(
            self.trust_score,
            self.total_weight,
            score,
            stake,
        ) {
            Ok(folded) => folded,
            Err(reason) => { return Err(reason); },
        };
        let rating_count: u32 = match self.rating_count.checked_add(1) {
            Some(count) => count,
            None => { return Err(AvellumError::ArithmeticOverflow); },
        };
        Ok(
            Agent {
                address: self.address,
                trust_score,
                total_weight,
                rating_count,
                confidence: confidence_for(rating_count),
            },
        )
    }

    /// An accepted rating leaves every field within its range: the record
    /// after it holds the exact average, the exact sum of the weights, one
    /// more rating and the confidence that the new count calls for.
    pub proof fn lemma_rated_is_exact(self, score: u8, stake: u64)
        requires
            self.rating_rejection(score, stake) is None,
        ensures
            self.rated(score, stake).address == self.address,
            self.rated(score, stake).trust_score == averaged_score(
                self.trust_score as int,
                self.total_weight as int,
                score as int,
                stake as int,
            ),
            self.rated(score, stake).total_weight == self.total_weight + stake,
            self.rated(score, stake).rating_count == self.rating_count + 1,
            self.rated(score, stake).confidence == confidence_level(
                (self.rating_count + 1) as nat,
            ),
    {
        let larger: int = if self.trust_score >= score {
            self.trust_score as int
        } else {
            score as int
        };
        lemma_average_within_bounds(
            self.trust_score as int,
            self.total_weight as int,
            score as int,
            stake as int,
            0,
            larger,
        );
    }

    /// An accepted rating keeps a well-formed agent well formed, moves its
    /// score no further than the range spanned by the old score and the new
    /// one, never lowers its weight, its rating count or its confidence, and
    /// never takes it back to an earlier stage.
    pub proof fn lemma_rated_preserves_well_formed(self, score: u8, stake: u64)
        requires
            self.well_formed(),
            self.rating_rejection(score, stake) is None,
        ensures
            self.rated(score, stake).well_formed(),
            self.rated(score, stake).address == self.address,
            self.rated(score, stake).total_weight == self.total_weight + stake,
            self.rated(score, stake).total_weight > self.total_weight,
            self.rated(score, stake).rating_count == self.rating_count + 1,
            self.rated(score, stake).confidence >= self.confidence,
            AgentStage::of(self.rated(score, stake).rating_count as nat).rank() >= AgentStage::of(
                self.rating_count as nat,
            ).rank(),
            AgentStage::of(self.rated(score, stake).rating_count as nat) != AgentStage::Unrated,
            self.total_weight > 0 && self.trust_score <= score ==> self.trust_score <= self.rated(
                score,
                stake,
            ).trust_score <= score,
            self.total_weight > 0 && score <= self.trust_score ==> score <= self.rated(
                score,
                stake,
            ).trust_score <= self.trust_score,
    {
        lemma_average_within_bounds(
            self.trust_score as int,
            self.total_weight as int,
            score as int,
            stake as int,
            0,
            100,
        );
        if self.total_weight > 0 {
            let lo: int = if self.trust_score <= score { self.trust_score as int } else { score as int };
            let hi: int = if self.trust_score <= score { score as int } else { self.trust_score as int };
            lemma_average_within_bounds(
                self.trust_score as int,
                self.total_weight as int,
                score as int,
                stake as int,
                lo,
                hi,
            );
        }
    }

    /// The first rating decides the score alone: an agent with no weight
    /// behind it takes on exactly the score and the stake of the rating.
    pub proof fn lemma_first_rating(self, score: u8, stake: u64)
        requires
            self.total_weight == 0,
            stake > 0,
        ensures
            self.rated(score, stake).trust_score == score,
            self.rated(score, stake).total_weight == stake,
    {
        lemma_first_rating_sets_score(self.trust_score as int, score as int, stake as int);
    }
}

impl Verifier {
    /// What holds of every stake record that the protocol has produced: the
    /// stake is positive.
    pub open spec fn well_formed(self) -> bool {
        self.staked_amount > 0
    }

    /// Tells whether this record obeys the rule of a stake record.
    pub fn is_well_formed(&self) -> (ok: bool)
        ensures
            ok == self.well_formed(),
    {
        self.staked_amount > 0
    }
}

impl Rating {
    /// What holds of every receipt that the protocol has produced: the score
    /// is at most 100 and a positive stake backed it.
    pub open spec fn well_formed(self) -> bool {
        self.score <= MAX_SCORE && self.weight > 0
    }

    /// Tells whether this receipt obeys the rules of a rating receipt.
    pub fn is_well_formed(&self) -> (ok: bool)
        ensures
            ok == self.well_formed(),
    {
        self.score <= MAX_SCORE && self.weight > 0
    }
}

} // verus!
