//! The confidence tier of an agent: a coarse measure of how much a score can
//! be relied on, decided by nothing but the number of ratings behind it.
//!
//! With every rating an agent moves forward through four stages: unrated,
//! then low, medium and high confidence. No stage is final and none is ever
//! left backwards, because ratings are only ever added.

use vstd::prelude::*;

verus! {

/// The smallest number of ratings that lifts an agent out of the lowest tier.
pub const MEDIUM_FLOOR: u32 = 5;

/// The largest number of ratings that still leaves an agent in the medium tier.
pub const MEDIUM_CEILING: u32 = 20;

/// How far an agent's score can be relied on.
#[derive(Clone, Copy, Debug, PartialEq, Eq, Structural)]
pub enum ConfidenceTier {
    /// Fewer than five ratings.
    Low,
    /// Five to twenty ratings.
    Medium,
    /// More than twenty ratings.
    High,
}

impl ConfidenceTier {
    /// The tier that belongs to a number of ratings.
    pub open spec fn of(rating_count: nat) -> ConfidenceTier {
        if rating_count > MEDIUM_CEILING {
            ConfidenceTier::High
        } else if rating_count >= MEDIUM_FLOOR {
            ConfidenceTier::Medium
        } else {
            ConfidenceTier::Low
        }
    }

    /// The integer under which the tier is stored: 0, 1 or 2.
    pub open spec fn level(self) -> nat {
        match self {
            ConfidenceTier::Low => 0,
            ConfidenceTier::Medium => 1,
            ConfidenceTier::High => 2,
        }
    }

    /// Decides the tier for a number of ratings.
    pub fn from_rating_count(rating_count: u32) -> (tier: ConfidenceTier)
        ensures
            tier == ConfidenceTier::of(rating_count as nat),
    {
        if rating_count > MEDIUM_CEILING {
            ConfidenceTier::High
        } else if rating_count >= MEDIUM_FLOOR {
            ConfidenceTier::Medium
        } else {
            ConfidenceTier::Low
        }
    }

    /// The integer under which the tier is stored.
    pub fn as_u8(self) -> (stored: u8)
        ensures
            stored == self.level(),
    {
        match self {
            ConfidenceTier::Low => 0,
            ConfidenceTier::Medium => 1,
            ConfidenceTier::High => 2,
        }
    }

    /// Reads a stored integer back as a tier; only 0, 1 and 2 name one.
    pub fn from_u8(stored: u8) -> (tier: Option<ConfidenceTier>)
        ensures
            match tier {
                Some(tier) => tier.level() == stored,
                None => stored > 2,
            },
    {
        if stored == 0 {
            Some(ConfidenceTier::Low)
        } else if stored == 1 {
            Some(ConfidenceTier::Medium)
        } else if stored == 2 {
            Some(ConfidenceTier::High)
        } else {
            None
        }
    }
}

/// Where an agent stands in its life, told by the number of its ratings.
#[derive(Clone, Copy, Debug, PartialEq, Eq, Structural)]
pub enum AgentStage {
    /// No rating yet.
    Unrated,
    /// One to four ratings.
    LowConfidence,
    /// Five to twenty ratings.
    MediumConfidence,
    /// More than twenty ratings.
    HighConfidence,
}

impl AgentStage {
    /// The stage that belongs to a number of ratings.
    pub open spec fn of(rating_count: nat) -> AgentStage {
        if rating_count == 0 {
            AgentStage::Unrated
        } else {
            match ConfidenceTier::of(rating_count) {
                ConfidenceTier::Low => AgentStage::LowConfidence,
                ConfidenceTier::Medium => AgentStage::MediumConfidence,
                ConfidenceTier::High => AgentStage::HighConfidence,
            }
        }
    }

    /// The place of the stage in the order in which the stages are passed.
    pub open spec fn rank(self) -> nat {
        match self {
            AgentStage::Unrated => 0,
            AgentStage::LowConfidence => 1,
            AgentStage::MediumConfidence => 2,
            AgentStage::HighConfidence => 3,
        }
    }

    /// The confidence tier that an agent at this stage has.
    pub open spec fn tier(self) -> ConfidenceTier {
        match self {
            AgentStage::Unrated => ConfidenceTier::Low,
            AgentStage::LowConfidence => ConfidenceTier::Low,
            AgentStage::MediumConfidence => ConfidenceTier::Medium,
            AgentStage::HighConfidence => ConfidenceTier::High,
        }
    }

    /// Decides the stage for a number of ratings.
    pub fn from_rating_count(rating_count: u32) -> (stage: AgentStage)
        ensures
            stage == AgentStage::of(rating_count as nat),
    {
        if rating_count == 0 {
            AgentStage::Unrated
        } else {
            match ConfidenceTier::from_rating_count(rating_count) {
                ConfidenceTier::Low => AgentStage::LowConfidence,
                ConfidenceTier::Medium => AgentStage::MediumConfidence,
                ConfidenceTier::High => AgentStage::HighConfidence,
            }
        }
    }
}

/// The stored confidence value that belongs to a number of ratings.
pub open spec fn confidence_level(rating_count: nat) -> nat {
    ConfidenceTier::of(rating_count).level()
}

/// Computes the stored confidence value for a number of ratings.
pub fn confidence_for(rating_count: u32) -> (stored: u8)
    ensures
        stored == confidence_level(rating_count as nat),
{
    ConfidenceTier::from_rating_count(rating_count).as_u8()
}

/// Confidence only ever grows with the number of ratings, and each tier
/// covers exactly its range of counts.
pub proof fn lemma_confidence_is_monotonic(fewer: nat, more: nat)
    requires
        fewer <= more,
    ensures
        confidence_level(fewer) <= confidence_level(more),
        confidence_level(more) <= 2,
        confidence_level(more) == 0 <==> more < 5,
        confidence_level(more) == 1 <==> 5 <= more <= 20,
        confidence_level(more) == 2 <==> more > 20,
{
}

/// The stages are passed strictly forward: more ratings never mean an
/// earlier stage, one more rating always leaves the unrated stage behind,
/// and the stage always agrees with the confidence tier.
pub proof fn lemma_stage_moves_forward(fewer: nat, more: nat)
    requires
        fewer <= more,
    ensures
        AgentStage::of(fewer).rank() <= AgentStage::of(more).rank(),
        fewer < more ==> AgentStage::of(more) != AgentStage::Unrated,
        AgentStage::of(more).tier() == ConfidenceTier::of(more),
        AgentStage::of(more) == AgentStage::Unrated <==> more == 0,
        AgentStage::of(more) == AgentStage::LowConfidence <==> 1 <= more < 5,
        AgentStage::of(more) == AgentStage::MediumConfidence <==> 5 <= more <= 20,
        AgentStage::of(more) == AgentStage::HighConfidence <==> more > 20,
{
}

} // verus!
