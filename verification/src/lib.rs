//! Stake-weighted trust aggregation for rated agents.
//!
//! Verifiers stake collateral and rate agents; the size of a verifier's
//! stake is the weight of its ratings. For every agent the protocol keeps a
//! running weighted average of the scores received, the weight behind it, the
//! number of ratings and a confidence tier derived from that number.

pub mod aggregation;
pub mod confidence;
pub mod error;
pub mod history;
pub mod instructions;
pub mod platform;
pub mod records;

pub use confidence::{AgentStage, ConfidenceTier};
pub use error::AvellumError;
pub use instructions::{
    initialize, rate_agent, rate_agent_at, register_agent, stake_add, stake_init, Initialize,
    RateAgent, RegisterAgent, StakeAdd, StakeInit,
};
pub use records::{Agent, ProtocolState, Rating, Verifier};
