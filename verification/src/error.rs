//! The reasons for which the protocol turns an operation down.

use vstd::prelude::*;

verus! {

/// Why an operation was rejected. A rejected operation changes nothing.
#[derive(Clone, Copy, Debug, PartialEq, Eq, Structural)]
pub enum AvellumError {
    /// A score above 100 was submitted.
    InvalidScore,
    /// A deposit of zero was attempted.
    InvalidStakeAmount,
    /// The rater holds no positive stake.
    NoStake,
    /// The protocol counters already exist.
    AlreadyInitialized,
    /// The address already has an agent record.
    DuplicateRegistration,
    /// The owner already has a stake record.
    DuplicateStakeAccount,
    /// The rater has already rated this agent.
    DuplicateRating,
    /// A counter, a stake or a weight would leave its integer range.
    ArithmeticOverflow,
    /// The platform could not tell the time for a rating receipt.
    ClockUnavailable,
}

impl AvellumError {
    /// The sentence that explains the error to a user.
    pub open spec fn text(self) -> Seq<char> {
        match self {
            AvellumError::InvalidScore => "Score must be between 0 and 100"@,
            AvellumError::InvalidStakeAmount => "Stake amount must be greater than 0"@,
            AvellumError::NoStake => "Verifier must stake before rating"@,
            AvellumError::AlreadyInitialized => "Protocol is already initialized"@,
            AvellumError::DuplicateRegistration => "Agent is already registered"@,
            AvellumError::DuplicateStakeAccount => "Verifier has already staked"@,
            AvellumError::DuplicateRating => "Verifier has already rated this agent"@,
            AvellumError::ArithmeticOverflow => "Arithmetic overflow"@,
            AvellumError::ClockUnavailable => "Clock is unavailable"@,
        }
    }

    /// Spells the error out for a user.
    pub fn message(&self) -> (message: String)
        ensures
            message@ == self.text(),
    {
        match self {
            AvellumError::InvalidScore => "Score must be between 0 and 100".to_owned(),
            AvellumError::InvalidStakeAmount => "Stake amount must be greater than 0".to_owned(),
            AvellumError::NoStake => "Verifier must stake before rating".to_owned(),
            AvellumError::AlreadyInitialized => "Protocol is already initialized".to_owned(),
            AvellumError::DuplicateRegistration => "Agent is already registered".to_owned(),
            AvellumError::DuplicateStakeAccount => "Verifier has already staked".to_owned(),
            AvellumError::DuplicateRating => "Verifier has already rated this agent".to_owned(),
            AvellumError::ArithmeticOverflow => "Arithmetic overflow".to_owned(),
            AvellumError::ClockUnavailable => "Clock is unavailable".to_owned(),
        }
    }
}

} // verus!
