//! Properties that relate several calls of the operations, stated over
//! the spec functions their contracts use.

use crate::program::open_survey_error;
use crate::registry::{fits_with, has_title, registry_bytes, titles_distinct, SurveyRegistry};
use crate::reward::bonus_of;
use crate::types::{CustomError, ProgramError, Survey};
use vstd::prelude::*;

verus! {

/// Opening a survey whose title was just added fails with
/// `DuplicateSurvey`, as long as the first addition left room under the
/// cap (otherwise the cap is reported first).
pub proof fn lemma_reopen_same_title_rejected(surveys: Seq<Survey>, max_surveys: u16, added: Survey)
    requires
        open_survey_error(surveys, max_surveys, added.title@) is None,
        surveys.len() + 1 < max_surveys,
    ensures
        open_survey_error(surveys.push(added), max_surveys, added.title@) == Some(
            ProgramError::Custom(CustomError::DuplicateSurvey),
        ),
{
    let s2 = surveys.push(added);
    assert(s2[surveys.len() as int].title@ == added.title@);
    assert(has_title(s2, added.title@));
}

/// A registry holding `max_surveys` surveys or more refuses every further
/// survey with `SurveyLimitReached`, whatever its title.
pub proof fn lemma_full_registry_rejected(surveys: Seq<Survey>, max_surveys: u16, title: Seq<char>)
    requires
        surveys.len() >= max_surveys,
    ensures
        open_survey_error(surveys, max_surveys, title) == Some(
            ProgramError::Custom(CustomError::SurveyLimitReached),
        ),
{
}

/// A successful `open_survey` keeps the registry's invariants: at most
/// `max_surveys` entries, pairwise distinct titles, and a serialized size
/// within the storage budget.
pub proof fn lemma_open_survey_keeps_invariants(
    surveys: Seq<Survey>,
    max_surveys: u16,
    added: Survey,
)
    requires
        surveys.len() <= max_surveys,
        titles_distinct(surveys),
        open_survey_error(surveys, max_surveys, added.title@) is None,
    ensures
        surveys.push(added).len() <= max_surveys,
        titles_distinct(surveys.push(added)),
        registry_bytes(surveys.push(added)) <= SurveyRegistry::MAX_SIZE,
{
    let s2 = surveys.push(added);
    assert(s2.drop_last() =~= surveys);
    assert(fits_with(surveys, added.title@));
    assert forall|i: int, j: int|
        0 <= i < s2.len() && 0 <= j < s2.len() && i != j implies (#[trigger] s2[i]).title@
        != (#[trigger] s2[j]).title@ by {
        if i == surveys.len() {
            assert(s2[j] == surveys[j]);
            if s2[j].title@ == added.title@ {
                assert(has_title(surveys, added.title@));
            }
        } else if j == surveys.len() {
            assert(s2[i] == surveys[i]);
            if s2[i].title@ == added.title@ {
                assert(has_title(surveys, added.title@));
            }
        } else {
            assert(s2[i] == surveys[i] && s2[j] == surveys[j]);
        }
    }
}

/// A holder with no tokens, or a rate of zero, earns no bonus.
pub proof fn lemma_no_balance_or_rate_no_bonus(holder_balance: u64, bonus_percent: u8)
    requires
        holder_balance == 0 || bonus_percent == 0,
    ensures
        bonus_of(holder_balance, bonus_percent) == 0,
{
    assert(holder_balance as int * bonus_percent as int == 0) by (nonlinear_arith)
        requires
            holder_balance == 0 || bonus_percent == 0,
    ;
}

/// Payouts are not deduplicated: once a holder has been paid a bonus,
/// calling again on the holder's new balance pays a bonus again, at least
/// as large as the first, provided the new balance times the rate still
/// fits in 64 bits (past that the bonus falls back to zero).
pub proof fn lemma_repeat_payout(holder_balance: u64, bonus_percent: u8)
    requires
        bonus_of(holder_balance, bonus_percent) > 0,
        (holder_balance + bonus_of(holder_balance, bonus_percent)) * bonus_percent <= u64::MAX,
    ensures
        ({
            let first = bonus_of(holder_balance, bonus_percent);
            let second = bonus_of((holder_balance + first) as u64, bonus_percent);
            second >= first && second > 0
        }),
{
    let h = holder_balance as int;
    let p = bonus_percent as int;
    let first = bonus_of(holder_balance, bonus_percent);
    let h2 = h + first;
    assert(h * p <= h2 * p) by (nonlinear_arith)
        requires
            h <= h2,
            0 <= p,
    ;
    assert(h * p <= u64::MAX);
    assert(p >= 1) by {
        if p == 0 {
            assert(h * p == 0) by (nonlinear_arith)
                requires
                    p == 0,
            ;
        }
    }
    assert(h2 <= h2 * p) by (nonlinear_arith)
        requires
            p >= 1,
            h2 >= 0,
    ;
    assert(first == (h * p) / 100);
    assert(bonus_of(h2 as u64, bonus_percent) == (h2 * p) / 100);
    assert((h * p) / 100 <= (h2 * p) / 100) by (nonlinear_arith)
        requires
            0 <= h * p <= h2 * p,
    ;
}

} // verus!
