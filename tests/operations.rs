use anchor_lang::prelude::Pubkey;
use surveytrend_token::program::transfer;
use surveytrend_token::reward::compute_bonus;
use surveytrend_token::types::MINT_DECIMALS;
use surveytrend_token::{
    distribute_rewards, fund_treasury, initialize, open_survey, Config, CustomError,
    DistributeRewards, FundTreasury, Initialize, Mint, OpenSurvey, ProgramError,
    RewardsDistributed, SurveyCreated, SurveyRegistry, TokenAccount, TreasuryFunded,
};

fn key(b: u8) -> Pubkey {
    Pubkey::new_from_array([b; 32])
}

fn account(owner: u8, amount: u64) -> TokenAccount {
    TokenAccount { mint: key(9), owner: key(owner), amount }
}

fn fresh_init() -> Initialize {
    Initialize {
        mint_address: key(9),
        survey_trend_mint: None,
        survey_trend_treasury: None,
        mint_authority: key(1),
        config: None,
        survey_registry: None,
        payer: key(2),
    }
}

fn config(bonus_percent: u8, max_surveys: u16) -> Config {
    Config {
        bonus_percent,
        min_holding_period: 0,
        halving_period: 0,
        max_surveys,
        survey_trend_mint: key(9),
    }
}

fn survey_ctx(max_surveys: u16) -> OpenSurvey {
    OpenSurvey {
        config: config(5, max_surveys),
        survey_registry: SurveyRegistry::new(),
        creator: key(3),
    }
}

fn rewards_ctx(treasury: u64, holder: u64, bonus_percent: u8) -> DistributeRewards {
    DistributeRewards {
        config: config(bonus_percent, 10),
        survey_trend_treasury: account(1, treasury),
        treasury_authority: key(1),
        holder_account: account(4, holder),
    }
}

#[test]
fn initialize_mints_total_supply_into_treasury() {
    let mut ctx = fresh_init();
    assert_eq!(initialize(&mut ctx, 1_000_000, 5, 100, 200, 3), Ok(()));
    assert_eq!(ctx.survey_trend_treasury, Some(account(1, 1_000_000)));
    assert_eq!(
        ctx.survey_trend_mint,
        Some(Mint { mint_authority: key(1), supply: 1_000_000, decimals: MINT_DECIMALS })
    );
    assert_eq!(ctx.survey_registry.as_ref().map(|r| r.surveys.len()), Some(0));
    let mut expected = config(5, 3);
    expected.min_holding_period = 100;
    expected.halving_period = 200;
    assert_eq!(ctx.config, Some(expected));
}

#[test]
fn initialize_accepts_unvalidated_parameters() {
    let mut ctx = fresh_init();
    assert_eq!(initialize(&mut ctx, 0, 255, i64::MIN, -1, 0), Ok(()));
    let c = ctx.config.unwrap();
    assert_eq!(c.bonus_percent, 255);
    assert_eq!(c.min_holding_period, i64::MIN);
    assert_eq!(c.max_surveys, 0);
}

#[test]
fn initialize_twice_fails_and_changes_nothing() {
    let mut ctx = fresh_init();
    assert_eq!(initialize(&mut ctx, 1_000_000, 5, 0, 0, 3), Ok(()));
    let before = ctx.clone();
    assert_eq!(initialize(&mut ctx, 7, 1, 0, 0, 1), Err(ProgramError::AccountAlreadyInUse));
    assert_eq!(ctx, before);
}

#[test]
fn initialize_fails_when_one_record_exists() {
    let mut ctx = fresh_init();
    ctx.survey_registry = Some(SurveyRegistry::new());
    let before = ctx.clone();
    assert_eq!(initialize(&mut ctx, 10, 1, 0, 0, 1), Err(ProgramError::AccountAlreadyInUse));
    assert_eq!(ctx, before);
}

#[test]
fn fund_treasury_reports_balance_after_transfer() {
    let mut ctx = FundTreasury {
        survey_trend_treasury: account(1, 1_000_000),
        funder_account: account(5, 800),
        funder_authority: key(5),
    };
    assert_eq!(
        fund_treasury(&mut ctx, 500),
        Ok(TreasuryFunded { amount: 500, new_treasury_balance: 1_000_500 })
    );
    assert_eq!(ctx.survey_trend_treasury.amount, 1_000_500);
    assert_eq!(ctx.funder_account.amount, 300);
}

#[test]
fn fund_treasury_insufficient_funds() {
    let mut ctx = FundTreasury {
        survey_trend_treasury: account(1, 10),
        funder_account: account(5, 499),
        funder_authority: key(5),
    };
    let before = ctx;
    assert_eq!(fund_treasury(&mut ctx, 500), Err(ProgramError::InsufficientFunds));
    assert_eq!(ctx, before);
}

#[test]
fn fund_treasury_overflow() {
    let mut ctx = FundTreasury {
        survey_trend_treasury: account(1, u64::MAX - 1),
        funder_account: account(5, 2),
        funder_authority: key(5),
    };
    let before = ctx;
    assert_eq!(fund_treasury(&mut ctx, 2), Err(ProgramError::Overflow));
    assert_eq!(ctx, before);
}

#[test]
fn transfer_moves_units() {
    let mut a = account(1, 30);
    let mut b = account(2, 5);
    assert_eq!(transfer(&mut a, &mut b, 30), Ok(()));
    assert_eq!((a.amount, b.amount), (0, 35));
}

#[test]
fn open_survey_appends_and_reports() {
    let mut ctx = survey_ctx(3);
    let ev = open_survey(&mut ctx, "A".to_string(), 1_700_000_000).unwrap();
    assert_eq!(ev, SurveyCreated { creator: key(3), title: "A".to_string() });
    assert_eq!(ctx.survey_registry.surveys.len(), 1);
    let s = &ctx.survey_registry.surveys[0];
    assert_eq!(s.title, "A");
    assert_eq!(s.creator, key(3));
    assert_eq!(s.creation_timestamp, 1_700_000_000);
}

#[test]
fn open_survey_duplicate_title_rejected() {
    let mut ctx = survey_ctx(5);
    assert!(open_survey(&mut ctx, "A".to_string(), 1).is_ok());
    assert_eq!(
        open_survey(&mut ctx, "A".to_string(), 2),
        Err(ProgramError::Custom(CustomError::DuplicateSurvey))
    );
    assert_eq!(ctx.survey_registry.surveys.len(), 1);
}

#[test]
fn open_survey_titles_are_case_sensitive() {
    let mut ctx = survey_ctx(5);
    assert!(open_survey(&mut ctx, "A".to_string(), 1).is_ok());
    assert!(open_survey(&mut ctx, "a".to_string(), 1).is_ok());
    assert_eq!(ctx.survey_registry.surveys.len(), 2);
}

#[test]
fn open_survey_limit_reached_after_max() {
    let mut ctx = survey_ctx(3);
    for t in ["one", "two", "three"] {
        assert!(open_survey(&mut ctx, t.to_string(), 0).is_ok());
    }
    assert_eq!(
        open_survey(&mut ctx, "four".to_string(), 0),
        Err(ProgramError::Custom(CustomError::SurveyLimitReached))
    );
    assert_eq!(ctx.survey_registry.surveys.len(), 3);
}

#[test]
fn open_survey_limit_checked_before_duplicate() {
    let mut ctx = survey_ctx(1);
    assert!(open_survey(&mut ctx, "A".to_string(), 0).is_ok());
    assert_eq!(
        open_survey(&mut ctx, "A".to_string(), 0),
        Err(ProgramError::Custom(CustomError::SurveyLimitReached))
    );
}

#[test]
fn open_survey_zero_cap_rejects_first() {
    let mut ctx = survey_ctx(0);
    assert_eq!(
        open_survey(&mut ctx, "A".to_string(), 0),
        Err(ProgramError::Custom(CustomError::SurveyLimitReached))
    );
}

#[test]
fn open_survey_storage_budget() {
    // 4 bytes of list length, then 4 + title + 32 + 8 per survey.
    let mut ctx = survey_ctx(10);
    let too_long = "x".repeat(7953);
    assert_eq!(
        open_survey(&mut ctx, too_long, 0),
        Err(ProgramError::AccountDidNotSerialize)
    );
    assert!(open_survey(&mut ctx, "x".repeat(7952), 0).is_ok());
    assert_eq!(
        open_survey(&mut ctx, String::new(), 0),
        Err(ProgramError::AccountDidNotSerialize)
    );
}

#[test]
fn open_survey_budget_counts_utf8_bytes() {
    let mut ctx = survey_ctx(10);
    // 3976 two-byte characters: 7952 bytes, exactly the room left.
    assert!(open_survey(&mut ctx, "é".repeat(3976), 0).is_ok());
    let mut ctx2 = survey_ctx(10);
    assert_eq!(
        open_survey(&mut ctx2, "é".repeat(3977), 0),
        Err(ProgramError::AccountDidNotSerialize)
    );
}

#[test]
fn distribute_rewards_pays_five_percent() {
    let mut ctx = rewards_ctx(1_000_000, 1000, 5);
    assert_eq!(
        distribute_rewards(&mut ctx),
        Ok(Some(RewardsDistributed { holder: key(4), amount: 50 }))
    );
    assert_eq!(ctx.survey_trend_treasury.amount, 999_950);
    assert_eq!(ctx.holder_account.amount, 1050);
}

#[test]
fn distribute_rewards_zero_balance_pays_nothing() {
    let mut ctx = rewards_ctx(1_000_000, 0, 5);
    let before = ctx;
    assert_eq!(distribute_rewards(&mut ctx), Ok(None));
    assert_eq!(ctx, before);
}

#[test]
fn distribute_rewards_zero_rate_pays_nothing() {
    let mut ctx = rewards_ctx(1_000_000, 1000, 0);
    let before = ctx;
    assert_eq!(distribute_rewards(&mut ctx), Ok(None));
    assert_eq!(ctx, before);
}

#[test]
fn distribute_rewards_small_bonus_floors_to_zero() {
    let mut ctx = rewards_ctx(1_000_000, 19, 5);
    assert_eq!(distribute_rewards(&mut ctx), Ok(None));
    assert_eq!(ctx.survey_trend_treasury.amount, 1_000_000);
}

#[test]
fn distribute_rewards_twice_with_same_balance_pays_twice() {
    let mut first = rewards_ctx(1_000_000, 1000, 5);
    assert_eq!(distribute_rewards(&mut first).unwrap().map(|e| e.amount), Some(50));
    let mut second = rewards_ctx(first.survey_trend_treasury.amount, 1000, 5);
    assert_eq!(distribute_rewards(&mut second).unwrap().map(|e| e.amount), Some(50));
    assert_eq!(second.survey_trend_treasury.amount, 999_900);
}

#[test]
fn distribute_rewards_in_succession_pays_again() {
    let mut ctx = rewards_ctx(1_000_000, 1000, 5);
    assert_eq!(distribute_rewards(&mut ctx).unwrap().map(|e| e.amount), Some(50));
    assert_eq!(distribute_rewards(&mut ctx).unwrap().map(|e| e.amount), Some(52));
    assert_eq!(ctx.survey_trend_treasury.amount, 999_898);
    assert_eq!(ctx.holder_account.amount, 1102);
}

#[test]
fn distribute_rewards_overflow_gives_no_bonus() {
    let mut ctx = rewards_ctx(1_000_000, u64::MAX / 2, 5);
    let before = ctx;
    assert_eq!(distribute_rewards(&mut ctx), Ok(None));
    assert_eq!(ctx, before);
}

#[test]
fn distribute_rewards_treasury_short() {
    let mut ctx = rewards_ctx(49, 1000, 5);
    let before = ctx;
    assert_eq!(distribute_rewards(&mut ctx), Err(ProgramError::InsufficientFunds));
    assert_eq!(ctx, before);
}

#[test]
fn distribute_rewards_holder_overflow() {
    let mut ctx = rewards_ctx(u64::MAX, u64::MAX - 1, 1);
    // The bonus is computed, but the holder's balance cannot take it.
    assert_eq!(distribute_rewards(&mut ctx), Err(ProgramError::Overflow));
}

#[test]
fn compute_bonus_values() {
    assert_eq!(compute_bonus(1000, 5), 50);
    assert_eq!(compute_bonus(199, 1), 1);
    assert_eq!(compute_bonus(1000, 100), 1000);
    assert_eq!(compute_bonus(1000, 255), 2550);
    assert_eq!(compute_bonus(u64::MAX, 2), 0);
    assert_eq!(compute_bonus(u64::MAX, 1), u64::MAX / 100);
}

#[test]
fn custom_error_messages() {
    assert_eq!(CustomError::SurveyLimitReached.message(), "Survey limit reached.");
    assert_eq!(
        CustomError::DuplicateSurvey.message(),
        "Survey with same title already exists."
    );
}
