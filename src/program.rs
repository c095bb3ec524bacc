//! The four operations. Each takes the records it works on; on success
//! it updates them and returns its notification, on failure it returns
//! the error and leaves every record as it was.

use crate::registry::{fits_with, has_title, SurveyRegistry};
use crate::reward::{bonus_of, compute_bonus};
use crate::types::{
    Config, CustomError, Mint, ProgramError, RewardsDistributed, Survey, SurveyCreated,
    TokenAccount, TreasuryFunded, MINT_DECIMALS,
};
use anchor_lang::prelude::Pubkey;
use vstd::prelude::*;

verus! {

/// Records handed to `initialize`. A record that does not exist yet is
/// `None`; `initialize` creates all four.
#[derive(Clone, Debug, PartialEq, Eq)]
pub struct Initialize {
    /// Address of the token type to create.
    pub mint_address: Pubkey,
    pub survey_trend_mint: Option<Mint>,
    pub survey_trend_treasury: Option<TokenAccount>,
    /// Holds the authority to mint and over the treasury.
    pub mint_authority: Pubkey,
    pub config: Option<Config>,
    pub survey_registry: Option<SurveyRegistry>,
    pub payer: Pubkey,
}

/// Records handed to `fund_treasury`.
#[derive(Clone, Copy, Debug, PartialEq, Eq)]
pub struct FundTreasury {
    pub survey_trend_treasury: TokenAccount,
    pub funder_account: TokenAccount,
    pub funder_authority: Pubkey,
}

/// Records handed to `open_survey`.
#[derive(Clone, Debug, PartialEq, Eq)]
pub struct OpenSurvey {
    pub config: Config,
    pub survey_registry: SurveyRegistry,
    pub creator: Pubkey,
}

/// Records handed to `distribute_rewards`.
#[derive(Clone, Copy, Debug, PartialEq, Eq)]
pub struct DistributeRewards {
    pub config: Config,
    pub survey_trend_treasury: TokenAccount,
    pub treasury_authority: Pubkey,
    pub holder_account: TokenAccount,
}

/// `a` with `n` more units.
pub open spec fn credited(a: TokenAccount, n: u64) -> TokenAccount {
    TokenAccount { mint: a.mint, owner: a.owner, amount: (a.amount + n) as u64 }
}

/// `a` with `n` fewer units.
pub open spec fn debited(a: TokenAccount, n: u64) -> TokenAccount {
    TokenAccount { mint: a.mint, owner: a.owner, amount: (a.amount - n) as u64 }
}

/// Why moving `amount` units from `from` to `to` fails, if it does.
pub open spec fn transfer_error(from: TokenAccount, to: TokenAccount, amount: u64) -> Option<
    ProgramError,
> {
    if from.amount < amount {
        Some(ProgramError::InsufficientFunds)
    } else if to.amount + amount > u64::MAX {
        Some(ProgramError::Overflow)
    } else {
        None
    }
}

/// Moves `amount` units from `from` to `to`.
pub fn transfer(from: &mut TokenAccount, to: &mut TokenAccount, amount: u64) -> (r: Result<
    (),
    ProgramError,
>)
    ensures
        match transfer_error(*old(from), *old(to), amount) {
            Some(e) => r == Err::<(), ProgramError>(e) && *final(from) == *old(from) && *final(to)
                == *old(to),
            None => r is Ok && *final(from) == debited(*old(from), amount) && *final(to)
                == credited(*old(to), amount),
        },
{
    if from.amount < amount {
        return Err(ProgramError::InsufficientFunds);
    }
    if to.amount > u64::MAX - amount {
        return Err(ProgramError::Overflow);
    }
    from.amount = from.amount - amount;
    to.amount = to.amount + amount;
    Ok(())
}

/// Some record that `initialize` creates exists already.
pub open spec fn already_initialized(ctx: Initialize) -> bool {
    ctx.survey_trend_mint is Some || ctx.survey_trend_treasury is Some || ctx.config is Some
        || ctx.survey_registry is Some
}

/// Creates the token type with `total_supply` units minted into a new
/// treasury owned by the mint authority, the configuration, and an
/// empty registry. The numeric parameters are stored as given.
pub fn initialize(
    ctx: &mut Initialize,
    total_supply: u64,
    bonus_percent: u8,
    min_holding_period: i64,
    halving_period: i64,
    max_surveys: u16,
) -> (r: Result<(), ProgramError>)
    ensures
        already_initialized(*old(ctx)) ==> r == Err::<(), ProgramError>(
            ProgramError::AccountAlreadyInUse,
        ) && *final(ctx) == *old(ctx),
        !already_initialized(*old(ctx)) ==> {
            &&& r is Ok
            &&& final(ctx).mint_address == old(ctx).mint_address
            &&& final(ctx).mint_authority == old(ctx).mint_authority
            &&& final(ctx).payer == old(ctx).payer
            &&& final(ctx).survey_trend_mint == Some(
                (Mint {
                    mint_authority: old(ctx).mint_authority,
                    supply: total_supply,
                    decimals: MINT_DECIMALS,
                }),
            )
            &&& final(ctx).survey_trend_treasury == Some(
                (TokenAccount {
                    mint: old(ctx).mint_address,
                    owner: old(ctx).mint_authority,
                    amount: total_supply,
                }),
            )
            &&& final(ctx).config == Some(
                (Config {
                    bonus_percent,
                    min_holding_period,
                    halving_period,
                    max_surveys,
                    survey_trend_mint: old(ctx).mint_address,
                }),
            )
            &&& final(ctx).survey_registry matches Some(reg) && reg.surveys@ == Seq::<
                Survey,
            >::empty()
        },
{
    if ctx.survey_trend_mint.is_some() || ctx.survey_trend_treasury.is_some()
        || ctx.config.is_some() || ctx.survey_registry.is_some() {
        return Err(ProgramError::AccountAlreadyInUse);
    }
    let mint_address = ctx.mint_address.clone();
    let authority = ctx.mint_authority.clone();
    ctx.survey_trend_mint = Some(
        Mint { mint_authority: authority, supply: total_supply, decimals: MINT_DECIMALS },
    );
    ctx.survey_trend_treasury = Some(
        TokenAccount { mint: mint_address, owner: authority, amount: total_supply },
    );
    ctx.config = Some(
        Config {
            bonus_percent,
            min_holding_period,
            halving_period,
            max_surveys,
            survey_trend_mint: mint_address,
        },
    );
    ctx.survey_registry = Some(SurveyRegistry::new());
    Ok(())
}

/// Moves `amount` units from the funder's account into the treasury and
/// reports the treasury's balance after the move.
pub fn fund_treasury(ctx: &mut FundTreasury, amount: u64) -> (r: Result<
    TreasuryFunded,
    ProgramError,
>)
    ensures
        final(ctx).funder_authority == old(ctx).funder_authority,
        match transfer_error(old(ctx).funder_account, old(ctx).survey_trend_treasury, amount) {
            Some(e) => r == Err::<TreasuryFunded, ProgramError>(e) && *final(ctx) == *old(ctx),
            None => {
                &&& r == Ok::<TreasuryFunded, ProgramError>(
                    (TreasuryFunded {
                        amount,
                        new_treasury_balance: (old(ctx).survey_trend_treasury.amount
                            + amount) as u64,
                    }),
                )
                &&& final(ctx).survey_trend_treasury == credited(
                    old(ctx).survey_trend_treasury,
                    amount,
                )
                &&& final(ctx).funder_account == debited(old(ctx).funder_account, amount)
            },
        },
{
    transfer(&mut ctx.funder_account, &mut ctx.survey_trend_treasury, amount)?;
    Ok(TreasuryFunded { amount, new_treasury_balance: ctx.survey_trend_treasury.amount })
}

/// Why adding a survey titled `title` to `surveys` under a cap of
/// `max_surveys` fails, if it does. The cap is checked first, then the
/// title, then the storage budget.
pub open spec fn open_survey_error(surveys: Seq<Survey>, max_surveys: u16, title: Seq<char>) -> Option<
    ProgramError,
> {
    if surveys.len() >= max_surveys {
        Some(ProgramError::Custom(CustomError::SurveyLimitReached))
    } else if has_title(surveys, title) {
        Some(ProgramError::Custom(CustomError::DuplicateSurvey))
    } else if !fits_with(surveys, title) {
        Some(ProgramError::AccountDidNotSerialize)
    } else {
        None
    }
}

/// Appends a survey titled `title`, created by the signer at
/// `unix_timestamp`, unless the registry is full, the title is taken, or
/// the registry would outgrow its storage.
pub fn open_survey(ctx: &mut OpenSurvey, title: String, unix_timestamp: i64) -> (r: Result<
    SurveyCreated,
    ProgramError,
>)
    ensures
        match open_survey_error(
            old(ctx).survey_registry.surveys@,
            old(ctx).config.max_surveys,
            title@,
        ) {
            Some(e) => r == Err::<SurveyCreated, ProgramError>(e) && *final(ctx) == *old(ctx),
            None => {
                &&& r matches Ok(ev) && ev.creator == old(ctx).creator && ev.title@ == title@
                &&& final(ctx).config == old(ctx).config
                &&& final(ctx).creator == old(ctx).creator
                &&& final(ctx).survey_registry.surveys@ == old(ctx).survey_registry.surveys@.push(
                    (Survey {
                        title,
                        creator: old(ctx).creator,
                        creation_timestamp: unix_timestamp,
                    }),
                )
            },
        },
{
    if ctx.survey_registry.len() >= ctx.config.max_surveys as usize {
        return Err(ProgramError::Custom(CustomError::SurveyLimitReached));
    }
    if ctx.survey_registry.contains_title(&title) {
        return Err(ProgramError::Custom(CustomError::DuplicateSurvey));
    }
    if !ctx.survey_registry.fits_with(&title) {
        return Err(ProgramError::AccountDidNotSerialize);
    }
    let creator = ctx.creator.clone();
    let event = SurveyCreated { creator, title: title.clone() };
    ctx.survey_registry.surveys.push(
        Survey { title, creator, creation_timestamp: unix_timestamp },
    );
    Ok(event)
}

/// Pays the holder `bonus_of(balance, bonus_percent)` out of the
/// treasury. A zero bonus pays nothing and reports nothing. Nothing
/// records earlier payouts, so every call pays again.
pub fn distribute_rewards(ctx: &mut DistributeRewards) -> (r: Result<
    Option<RewardsDistributed>,
    ProgramError,
>)
    ensures
        final(ctx).config == old(ctx).config,
        final(ctx).treasury_authority == old(ctx).treasury_authority,
        ({
            let bonus = bonus_of(old(ctx).holder_account.amount, old(ctx).config.bonus_percent);
            if bonus == 0 {
                r == Ok::<Option<RewardsDistributed>, ProgramError>(None) && *final(ctx)
                    == *old(ctx)
            } else {
                match transfer_error(old(ctx).survey_trend_treasury, old(ctx).holder_account, bonus) {
                    Some(e) => r == Err::<Option<RewardsDistributed>, ProgramError>(e)
                        && *final(ctx) == *old(ctx),
                    None => {
                        &&& r == Ok::<Option<RewardsDistributed>, ProgramError>(
                            Some((RewardsDistributed {
                                holder: old(ctx).holder_account.owner,
                                amount: bonus,
                            })),
                        )
                        &&& final(ctx).survey_trend_treasury == debited(
                            old(ctx).survey_trend_treasury,
                            bonus,
                        )
                        &&& final(ctx).holder_account == credited(
                            old(ctx).holder_account,
                            bonus,
                        )
                    },
                }
            }
        }),
{
    let bonus = compute_bonus(ctx.holder_account.amount, ctx.config.bonus_percent);
    if bonus > 0 {
        transfer(&mut ctx.survey_trend_treasury, &mut ctx.holder_account, bonus)?;
        let holder = ctx.holder_account.owner.clone();
        Ok(Some(RewardsDistributed { holder, amount: bonus }))
    } else {
        Ok(None)
    }
}

} // verus!
