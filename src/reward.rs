//! The reward formula.

use vstd::prelude::*;

verus! {

/// `floor(holder_balance * bonus_percent / 100)`, or 0 where the product
/// does not fit in 64 bits (the overflow falls back to no bonus).
pub open spec fn bonus_of(holder_balance: u64, bonus_percent: u8) -> u64 {
    let product = holder_balance as int * bonus_percent as int;
    if product <= u64::MAX as int {
        (product / 100) as u64
    } else {
        0
    }
}

/// Bonus owed to a holder of `holder_balance` units at `bonus_percent`.
pub fn compute_bonus(holder_balance: u64, bonus_percent: u8) -> (r: u64)
    ensures
        r == bonus_of(holder_balance, bonus_percent),
{
    holder_balance.checked_mul(bonus_percent as u64).unwrap_or(0).checked_div(100).unwrap_or(0)
}

} // verus!
