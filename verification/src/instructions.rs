//! The five operations of the protocol.
//!
//! Each operation works on a context: the records that the platform hands to
//! one transaction. A record that the operation is to create arrives as an
//! empty slot (`None`) and leaves filled; a slot that is already filled means
//! that the record exists, and the operation is turned down. An operation
//! either applies every change or, on an error, leaves its context exactly as
//! it found it.
//!
//! Moving collateral, authenticating the caller and storing the records are
//! the platform's part and happen around these functions.

use crate::aggregation::averaged_score;
use crate::confidence::confidence_level;
use crate::error::AvellumError;
use crate::platform::unix_timestamp;
use crate::records::{Agent, ProtocolState, Rating, Verifier};
use anchor_lang::prelude::Pubkey;
use vstd::prelude::*;

verus! {

/// What `initialize` works on.
#[derive(Clone, Copy, Debug, PartialEq, Eq)]
pub struct Initialize {
    /// The slot of the protocol counters.
    pub protocol_state: Option<ProtocolState>,
    /// The administrator that sets the protocol up.
    pub authority: Pubkey,
}

/// What `register_agent` works on.
#[derive(Clone, Copy, Debug, PartialEq, Eq)]
pub struct RegisterAgent {
    /// The slot of the agent record that belongs to the address.
    pub agent: Option<Agent>,
    /// The protocol counters.
    pub protocol_state: ProtocolState,
}

/// What `stake_init` works on.
#[derive(Clone, Copy, Debug, PartialEq, Eq)]
pub struct StakeInit {
    /// The slot of the stake record that belongs to the staker.
    pub verifier: Option<Verifier>,
    /// The identity that stakes.
    pub authority: Pubkey,
}

/// What `stake_add` works on.
#[derive(Clone, Copy, Debug, PartialEq, Eq)]
pub struct StakeAdd {
    /// The staker's stake record.
    pub verifier: Verifier,
}

/// What `rate_agent` works on.
#[derive(Clone, Copy, Debug, PartialEq, Eq)]
pub struct RateAgent {
    /// The slot of the receipt for this rater and this agent.
    pub rating: Option<Rating>,
    /// The record of the agent that is rated.
    pub agent: Agent,
    /// The rater's stake record.
    pub verifier: Verifier,
    /// The protocol counters.
    pub protocol_state: ProtocolState,
    /// The identity that rates.
    pub authority: Pubkey,
}

impl Initialize {
    /// Why the protocol cannot be set up, or `None` when it can.
    pub open spec fn rejection(self) -> Option<AvellumError> {
        if self.protocol_state is Some {
            Some(AvellumError::AlreadyInitialized)
        } else {
            None
        }
    }

    /// The context after the protocol has been set up.
    pub open spec fn initialized(self) -> Initialize {
        Initialize {
            protocol_state: Some(ProtocolState::fresh(self.authority)),
            authority: self.authority,
        }
    }
}

impl RegisterAgent {
    /// Why the agent cannot be registered, or `None` when it can.
    pub open spec fn rejection(self) -> Option<AvellumError> {
        if self.agent is Some {
            Some(AvellumError::DuplicateRegistration)
        } else if self.protocol_state.total_agents == u32::MAX {
            Some(AvellumError::ArithmeticOverflow)
        } else {
            None
        }
    }

    /// The context after the agent at `address` has been registered.
    pub open spec fn registered(self, address: Pubkey) -> RegisterAgent {
        RegisterAgent {
            agent: Some(Agent::fresh(address)),
            protocol_state: ProtocolState {
                authority: self.protocol_state.authority,
                total_agents: (self.protocol_state.total_agents + 1) as u32,
                total_ratings: self.protocol_state.total_ratings,
            },
        }
    }
}

impl StakeInit {
    /// Why the first deposit of `amount` cannot be taken, or `None` when it can.
    pub open spec fn rejection(self, amount: u64) -> Option<AvellumError> {
        if self.verifier is Some {
            Some(AvellumError::DuplicateStakeAccount)
        } else if amount == 0 {
            Some(AvellumError::InvalidStakeAmount)
        } else {
            None
        }
    }

    /// The context after the first deposit of `amount`.
    pub open spec fn staked(self, amount: u64) -> StakeInit {
        StakeInit {
            verifier: Some(Verifier { owner: self.authority, staked_amount: amount }),
            authority: self.authority,
        }
    }
}

impl StakeAdd {
    /// Why a further deposit of `amount` cannot be taken, or `None` when it can.
    pub open spec fn rejection(self, amount: u64) -> Option<AvellumError> {
        if amount == 0 {
            Some(AvellumError::InvalidStakeAmount)
        } else if self.verifier.staked_amount + amount > u64::MAX {
            Some(AvellumError::ArithmeticOverflow)
        } else {
            None
        }
    }

    /// The context after a further deposit of `amount`.
    pub open spec fn staked(self, amount: u64) -> StakeAdd {
        StakeAdd {
            verifier: Verifier {
                owner: self.verifier.owner,
                staked_amount: (self.verifier.staked_amount + amount) as u64,
            },
        }
    }
}

impl RateAgent {
    /// Why a rating of `score` cannot be taken, or `None` when it can.
    pub open spec fn rejection(self, score: u8) -> Option<AvellumError> {
        let rating = self.agent.rating_rejection(score, self.verifier.staked_amount);
        if self.rating is Some {
            Some(AvellumError::DuplicateRating)
        } else if rating is Some {
            rating
        } else if self.protocol_state.total_ratings == u64::MAX {
            Some(AvellumError::ArithmeticOverflow)
        } else {
            None
        }
    }

    /// The context after a rating of `score` given at `timestamp`.
    pub open spec fn rated(self, score: u8, timestamp: i64) -> RateAgent {
        RateAgent {
            rating: Some(
                Rating {
                    rater: self.authority,
                    agent: self.agent.address,
                    score,
                    weight: self.verifier.staked_amount,
                    timestamp,
                },
            ),
            agent: self.agent.rated(score, self.verifier.staked_amount),
            verifier: self.verifier,
            protocol_state: ProtocolState {
                authority: self.protocol_state.authority,
                total_agents: self.protocol_state.total_agents,
                total_ratings: (self.protocol_state.total_ratings + 1) as u64,
            },
            authority: self.authority,
        }
    }

    /// What an accepted rating does, field by field: the agent's score
    /// becomes the new weighted average, its weight grows by the rater's
    /// stake, its rating count and the protocol's rating counter grow by one,
    /// its confidence is derived anew, the receipt is filled in, and nothing
    /// else changes. A first rating sets the score and the weight outright,
    /// and a well-formed agent stays well formed and keeps or raises its
    /// confidence.
    pub proof fn lemma_rated(self, score: u8, timestamp: i64)
        requires
            self.rejection(score) is None,
        ensures
            self.rated(score, timestamp).agent.address == self.agent.address,
            self.rated(score, timestamp).agent.trust_score == averaged_score(
                self.agent.trust_score as int,
                self.agent.total_weight as int,
                score as int,
                self.verifier.staked_amount as int,
            ),
            self.rated(score, timestamp).agent.total_weight - self.agent.total_weight
                == self.verifier.staked_amount,
            self.rated(score, timestamp).agent.rating_count == self.agent.rating_count + 1,
            self.rated(score, timestamp).agent.confidence == confidence_level(
                (self.agent.rating_count + 1) as nat,
            ),
            self.rated(score, timestamp).protocol_state.total_ratings
                == self.protocol_state.total_ratings + 1,
            self.rated(score, timestamp).rating == Some(
                Rating {
                    rater: self.authority,
                    agent: self.agent.address,
                    score,
                    weight: self.verifier.staked_amount,
                    timestamp,
                },
            ),
            self.agent.total_weight == 0 ==> self.rated(score, timestamp).agent.trust_score
                == score && self.rated(score, timestamp).agent.total_weight
                == self.verifier.staked_amount,
            self.agent.well_formed() ==> self.rated(score, timestamp).agent.well_formed()
                && self.rated(score, timestamp).agent.confidence >= self.agent.confidence,
    {
        let stake = self.verifier.staked_amount;
        self.agent.lemma_rated_is_exact(score, stake);
        if self.agent.total_weight == 0 {
            self.agent.lemma_first_rating(score, stake);
        }
        if self.agent.well_formed() {
            self.agent.lemma_rated_preserves_well_formed(score, stake);
        }
    }

    /// Decides whether a rating of `score` can be taken and, if so, what the
    /// agent's record becomes. Changes nothing.
    pub fn assess(&self, score: u8) -> (outcome: Result<Agent, AvellumError>)
        ensures
            match outcome {
                Ok(agent) => {
                    &&& self.rejection(score) is None
                    &&& agent == self.agent.rated(score, self.verifier.staked_amount)
                    &&& agent.trust_score == averaged_score(
                        self.agent.trust_score as int,
                        self.agent.total_weight as int,
                        score as int,
                        self.verifier.staked_amount as int,
                    )
                    &&& agent.total_weight - self.agent.total_weight == self.verifier.staked_amount
                    &&& agent.rating_count == self.agent.rating_count + 1
                    &&& agent.confidence == confidence_level(agent.rating_count as nat)
                },
                Err(reason) => self.rejection(score) == Some(reason),
            },
    {
        if self.rating.is_some() {
            return Err(AvellumError::DuplicateRating);
        }
        let agent = match self.agent.rated_by(score, self.verifier.staked_amount) {
            Ok(agent) => agent,
            Err(reason) => { return Err(reason); },
        };
        if self.protocol_state.total_ratings == u64::MAX {
            return Err(AvellumError::ArithmeticOverflow);
        }
        Ok(agent)
    }

    /// Writes an accepted rating down: the receipt, the agent's new record
    /// and the rating counter, all at once.
    fn commit(&mut self, score: u8, agent: Agent, timestamp: i64)
        requires
            old(self).rejection(score) is None,
            agent == old(self).agent.rated(score, old(self).verifier.staked_amount),
        ensures
            *final(self) == old(self).rated(score, timestamp),
    {
        let weight: u64 = self.verifier.staked_amount;
        self.rating = Some(
            Rating { rater: self.authority, agent: agent.address, score, weight, timestamp },
        );
        self.agent = agent;
        self.protocol_state.total_ratings = self.protocol_state.total_ratings + 1;
    }
}

/// Sets the protocol up: creates the counters, both at zero, under the
/// administrator named in the context.
///
/// Turned down with `AlreadyInitialized` when the counters exist.
pub fn initialize(ctx: &mut Initialize) -> (result: Result<(), AvellumError>)
    ensures
        match result {
            Ok(()) => old(ctx).rejection() is None && *final(ctx) == old(ctx).initialized(),
            Err(reason) => old(ctx).rejection() == Some(reason) && *final(ctx) == *old(ctx),
        },
{
    if ctx.protocol_state.is_some() {
        return Err(AvellumError::AlreadyInitialized);
    }
    ctx.protocol_state = Some(ProtocolState::new(ctx.authority));
    Ok(())
}

/// Registers the agent at `address`: creates its record with every aggregate
/// at zero and counts it.
///
/// Turned down with `DuplicateRegistration` when the address has a record,
/// and with `ArithmeticOverflow` when the agent counter is at its limit.
pub fn register_agent(ctx: &mut RegisterAgent, address: Pubkey) -> (result: Result<
    (),
    AvellumError,
>)
    ensures
        match result {
            Ok(()) => old(ctx).rejection() is None && *final(ctx) == old(ctx).registered(address),
            Err(reason) => old(ctx).rejection() == Some(reason) && *final(ctx) == *old(ctx),
        },
        result is Ok ==> final(ctx).agent == Some(Agent::fresh(address)) && final(ctx).protocol_state.total_agents == old(ctx).protocol_state.total_agents + 1,
{
    if ctx.agent.is_some() {
        return Err(AvellumError::DuplicateRegistration);
    }
    let total_agents: u32 = match ctx.protocol_state.total_agents.checked_add(1) {
        Some(total) => total,
        None => { return Err(AvellumError::ArithmeticOverflow); },
    };
    ctx.agent = Some(Agent::new(address));
    ctx.protocol_state.total_agents = total_agents;
    Ok(())
}

/// Takes a staker's first deposit: creates the stake record with `amount`
/// staked. The caller moves `amount` of collateral in the same transaction.
///
/// Turned down with `DuplicateStakeAccount` when the staker has a record,
/// and with `InvalidStakeAmount` when `amount` is zero.
pub fn stake_init(ctx: &mut StakeInit, amount: u64) -> (result: Result<(), AvellumError>)
    ensures
        match result {
            Ok(()) => old(ctx).rejection(amount) is None && *final(ctx) == old(ctx).staked(amount),
            Err(reason) => old(ctx).rejection(amount) == Some(reason) && *final(ctx) == *old(ctx),
        },
        result is Ok ==> final(ctx).verifier == Some(
            Verifier { owner: old(ctx).authority, staked_amount: amount },
        ) && amount > 0,
{
    if ctx.verifier.is_some() {
        return Err(AvellumError::DuplicateStakeAccount);
    }
    if amount == 0 {
        return Err(AvellumError::InvalidStakeAmount);
    }
    ctx.verifier = Some(Verifier { owner: ctx.authority, staked_amount: amount });
    Ok(())
}

/// Takes a further deposit: adds `amount` to the stake. The caller moves
/// `amount` of collateral in the same transaction.
///
/// Turned down with `InvalidStakeAmount` when `amount` is zero, and with
/// `ArithmeticOverflow` when the stake would leave 64 bits.
pub fn stake_add(ctx: &mut StakeAdd, amount: u64) -> (result: Result<(), AvellumError>)
    ensures
        match result {
            Ok(()) => old(ctx).rejection(amount) is None && *final(ctx) == old(ctx).staked(amount),
            Err(reason) => old(ctx).rejection(amount) == Some(reason) && *final(ctx) == *old(ctx),
        },
        result is Ok ==> final(ctx).verifier.staked_amount == old(ctx).verifier.staked_amount
            + amount && final(ctx).verifier.well_formed(),
{
    if amount == 0 {
        return Err(AvellumError::InvalidStakeAmount);
    }
    let staked_amount: u64 = match ctx.verifier.staked_amount.checked_add(amount) {
        Some(sum) => sum,
        None => { return Err(AvellumError::ArithmeticOverflow); },
    };
    ctx.verifier.staked_amount = staked_amount;
    Ok(())
}

/// Rates the agent with `score` at a given time: folds the score, weighed by
/// the rater's stake, into the agent's average, counts the rating, derives
/// the confidence tier anew and writes the receipt.
///
/// Turned down, in this order, with `DuplicateRating` when the receipt
/// exists, `InvalidScore` when `score` is above 100, `NoStake` when the
/// rater's stake is zero, and `ArithmeticOverflow` when the agent's weight,
/// the agent's rating count or the protocol's rating counter would leave its
/// range.
pub fn rate_agent_at(ctx: &mut RateAgent, score: u8, timestamp: i64) -> (result: Result<
    (),
    AvellumError,
>)
    ensures
        match result {
            Ok(()) => old(ctx).rejection(score) is None && *final(ctx) == old(ctx).rated(
                score,
                timestamp,
            ),
            Err(reason) => old(ctx).rejection(score) == Some(reason) && *final(ctx) == *old(ctx),
        },
        result is Ok ==> {
            &&& final(ctx).agent.trust_score == averaged_score(
                old(ctx).agent.trust_score as int,
                old(ctx).agent.total_weight as int,
                score as int,
                old(ctx).verifier.staked_amount as int,
            )
            &&& final(ctx).agent.total_weight - old(ctx).agent.total_weight == old(ctx).verifier.staked_amount
            &&& final(ctx).agent.rating_count == old(ctx).agent.rating_count + 1
            &&& final(ctx).agent.confidence == confidence_level(
                final(ctx).agent.rating_count as nat,
            )
            &&& final(ctx).protocol_state.total_ratings == old(ctx).protocol_state.total_ratings
                + 1
        },
        result is Ok && old(ctx).agent.total_weight == 0 ==> final(ctx).agent.trust_score == score
            && final(ctx).agent.total_weight == old(ctx).verifier.staked_amount,
        result is Ok && old(ctx).agent.well_formed() ==> final(ctx).agent.well_formed() && final(ctx).agent.confidence >= old(ctx).agent.confidence,
{
    let agent = match ctx.assess(score) {
        Ok(agent) => agent,
        Err(reason) => { return Err(reason); },
    };
    proof {
        ctx.lemma_rated(score, timestamp);
    }
    ctx.commit(score, agent, timestamp);
    Ok(())
}

/// Rates the agent with `score` now: as `rate_agent_at`, at the time that
/// the cluster clock tells.
///
/// A rating that `rate_agent_at` would turn down is turned down for the same
/// reason, whatever the clock says. A rating that it would take is taken at
/// the clock's time, or turned down with `ClockUnavailable` when the clock
/// cannot be read.
pub fn rate_agent(ctx: &mut RateAgent, score: u8) -> (result: Result<(), AvellumError>)
    ensures
        match result {
            Ok(()) => {
                &&& old(ctx).rejection(score) is None
                &&& final(ctx).rating matches Some(receipt)
                &&& *final(ctx) == old(ctx).rated(score, receipt.timestamp)
            },
            Err(reason) => {
                &&& *final(ctx) == *old(ctx)
                &&& match old(ctx).rejection(score) {
                    Some(known) => reason == known,
                    None => reason == AvellumError::ClockUnavailable,
                }
            },
        },
        result is Ok ==> {
            &&& final(ctx).agent.trust_score == averaged_score(
                old(ctx).agent.trust_score as int,
                old(ctx).agent.total_weight as int,
                score as int,
                old(ctx).verifier.staked_amount as int,
            )
            &&& final(ctx).agent.total_weight - old(ctx).agent.total_weight == old(ctx).verifier.staked_amount
            &&& final(ctx).agent.rating_count == old(ctx).agent.rating_count + 1
            &&& final(ctx).agent.confidence == confidence_level(
                final(ctx).agent.rating_count as nat,
            )
            &&& final(ctx).protocol_state.total_ratings == old(ctx).protocol_state.total_ratings
                + 1
        },
        result is Ok && old(ctx).agent.total_weight == 0 ==> final(ctx).agent.trust_score == score
            && final(ctx).agent.total_weight == old(ctx).verifier.staked_amount,
        result is Ok && old(ctx).agent.well_formed() ==> final(ctx).agent.well_formed() && final(ctx).agent.confidence >= old(ctx).agent.confidence,
{
    let agent = match ctx.assess(score) {
        Ok(agent) => agent,
        Err(reason) => { return Err(reason); },
    };
    match unix_timestamp() {
        Ok(timestamp) => {
            proof {
                ctx.lemma_rated(score, timestamp);
            }
            ctx.commit(score, agent, timestamp);
            Ok(())
        },
        Err(_) => Err(AvellumError::ClockUnavailable),
    }
}

} // verus!
