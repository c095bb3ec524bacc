//! State transitions of a fixed-supply token program: configuration,
//! a bounded registry of uniquely titled surveys, a treasury funded by
//! transfers, and proportional rewards paid out of that treasury.
//!
//! Every operation takes the records it works on, checks its inputs,
//! and either changes those records and returns its notification, or
//! fails and leaves them as they were.

pub mod laws;
pub mod program;
pub mod registry;
pub mod reward;
pub mod types;

pub use program::{
    distribute_rewards, fund_treasury, initialize, open_survey, DistributeRewards, FundTreasury,
    Initialize, OpenSurvey,
};
pub use registry::SurveyRegistry;
pub use types::{
    Config, CustomError, Mint, ProgramError, RewardsDistributed, Survey, SurveyCreated,
    TokenAccount, TreasuryFunded,
};
