//! Records kept by the program, its errors and its notifications.

use anchor_lang::prelude::Pubkey;
use vstd::prelude::*;

verus! {

/// Account addresses and signer identities are carried through as the
/// ledger's own public keys; no operation looks inside one.
#[verifier::external_type_specification]
#[verifier::external_body]
pub struct ExPubkey(Pubkey);

/// Relies on `Pubkey`'s derived `Clone` (it is also `Copy`): a clone is
/// the same key.
pub assume_specification[ <Pubkey as Clone>::clone ](k: &Pubkey) -> (r: Pubkey)
    ensures
        r == *k,
;

/// Global economic parameters, written once by `initialize`.
///
/// `min_holding_period` and `halving_period` are stored but read by no
/// operation.
#[derive(Clone, Copy, Debug, PartialEq, Eq)]
pub struct Config {
    pub bonus_percent: u8,
    pub min_holding_period: i64,
    pub halving_period: i64,
    pub max_surveys: u16,
    pub survey_trend_mint: Pubkey,
}

impl Config {
    /// Serialized payload size: rate, two periods, cap and mint address.
    pub const MAX_SIZE: usize = 1 + 8 + 8 + 2 + 32;
}

/// One entry of the survey registry; never changed once stored.
#[derive(Clone, Debug, PartialEq, Eq)]
pub struct Survey {
    pub title: String,
    pub creator: Pubkey,
    pub creation_timestamp: i64,
}

/// The token type administered by the program.
#[derive(Clone, Copy, Debug, PartialEq, Eq)]
pub struct Mint {
    pub mint_authority: Pubkey,
    pub supply: u64,
    pub decimals: u8,
}

/// Number of decimals of the token created by `initialize`.
pub const MINT_DECIMALS: u8 = 9;

/// A balance of the program's token held by `owner`.
#[derive(Clone, Copy, Debug, PartialEq, Eq)]
pub struct TokenAccount {
    pub mint: Pubkey,
    pub owner: Pubkey,
    pub amount: u64,
}

/// Errors that the program itself detects.
#[derive(Clone, Copy, Debug, PartialEq, Eq, Structural)]
pub enum CustomError {
    SurveyLimitReached,
    DuplicateSurvey,
}

impl CustomError {
    /// The human-readable message of the error.
    pub fn message(&self) -> (r: &'static str)
        ensures
            r@ == match self {
                CustomError::SurveyLimitReached => "Survey limit reached."@,
                CustomError::DuplicateSurvey => "Survey with same title already exists."@,
            },
    {
        match self {
            CustomError::SurveyLimitReached => "Survey limit reached.",
            CustomError::DuplicateSurvey => "Survey with same title already exists.",
        }
    }
}

/// Every way an operation can fail; a failed operation changes nothing.
#[derive(Clone, Copy, Debug, PartialEq, Eq, Structural)]
pub enum ProgramError {
    /// A rule of the program was broken.
    Custom(CustomError),
    /// A record that `initialize` creates exists already.
    AccountAlreadyInUse,
    /// The source of a transfer holds less than the amount.
    InsufficientFunds,
    /// A balance or the supply would exceed `u64::MAX`.
    Overflow,
    /// The registry would no longer fit in its storage budget.
    AccountDidNotSerialize,
}

/// Emitted by `fund_treasury`.
#[derive(Clone, Copy, Debug, PartialEq, Eq)]
pub struct TreasuryFunded {
    pub amount: u64,
    pub new_treasury_balance: u64,
}

/// Emitted by `open_survey`.
#[derive(Clone, Debug, PartialEq, Eq)]
pub struct SurveyCreated {
    pub creator: Pubkey,
    pub title: String,
}

/// Emitted by `distribute_rewards` when a bonus is paid.
#[derive(Clone, Copy, Debug, PartialEq, Eq)]
pub struct RewardsDistributed {
    pub holder: Pubkey,
    pub amount: u64,
}

} // verus!
