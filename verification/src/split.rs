//! The arithmetic of deposits and early withdrawals.

use vstd::prelude::*;

use crate::config::{ConfigView, JarConfig};
use crate::error::JarError;

verus! {

/// `pct` percent of `amount`, without the fraction.
pub open spec fn portion_of(amount: int, pct: int) -> int {
    amount * pct / 100
}

/// Whether an integer fits an amount.
pub open spec fn fits(value: int) -> bool {
    i128::MIN <= value <= i128::MAX
}

/// Computes `pct` percent of `amount`, without the fraction. The product of
/// the two must fit an amount.
pub fn portion(amount: i128, pct: u32) -> (result: Result<i128, JarError>)
    requires
        amount > 0,
    ensures
        fits(amount * pct) ==> result == Ok::<i128, JarError>(
            portion_of(amount as int, pct as int) as i128,
        ),
        fits(amount * pct) ==> 0 <= portion_of(amount as int, pct as int) <= i128::MAX / 100,
        !fits(amount * pct) ==> result == Err::<i128, JarError>(JarError::ArithmeticOverflow),
{
    assert(amount * pct >= 0) by (nonlinear_arith)
        requires
            amount > 0,
            pct >= 0,
    ;
    match amount.checked_mul(pct as i128) {
        Some(product) => Ok(product / 100),
        None => Err(JarError::ArithmeticOverflow),
    }
}

/// What each jar gets of a deposit.
#[derive(Debug, Clone, Copy, PartialEq, Eq, Structural)]
pub struct Split {
    pub needs: i128,
    pub wants: i128,
    pub savings: i128,
}

/// Whether a deposit of `amount` can be split without overflow.
pub open spec fn splittable(config: ConfigView, amount: int) -> bool {
    fits(amount * config.needs_pct) && fits(amount * config.wants_pct)
}

/// The part of a deposit that goes to "needs".
pub open spec fn needs_part(config: ConfigView, amount: int) -> int {
    portion_of(amount, config.needs_pct as int)
}

/// The part of a deposit that goes to "wants".
pub open spec fn wants_part(config: ConfigView, amount: int) -> int {
    portion_of(amount, config.wants_pct as int)
}

/// The part of a deposit that goes to "savings": what the other two leave.
pub open spec fn savings_part(config: ConfigView, amount: int) -> int {
    amount - needs_part(config, amount) - wants_part(config, amount)
}

/// Splits a deposit over the three jars; the remainder goes to savings.
pub fn split(config: &JarConfig, amount: i128) -> (result: Result<Split, JarError>)
    requires
        amount > 0,
    ensures
        splittable(config@, amount as int) ==> match result {
            Ok(parts) => {
                &&& parts.needs == needs_part(config@, amount as int)
                &&& parts.wants == wants_part(config@, amount as int)
                &&& parts.savings == savings_part(config@, amount as int)
            },
            Err(_) => false,
        },
        !splittable(config@, amount as int) ==> result == Err::<Split, JarError>(
            JarError::ArithmeticOverflow,
        ),
{
    let needs = match portion(amount, config.needs_pct) {
        Ok(needs) => needs,
        Err(error) => return Err(error),
    };
    let wants = match portion(amount, config.wants_pct) {
        Ok(wants) => wants,
        Err(error) => return Err(error),
    };
    Ok(Split { needs, wants, savings: amount - needs - wants })
}

/// What a withdrawal of `amount` from savings pays out before the lock period
/// has passed: the amount without the penalty.
pub open spec fn early_payout_of(config: ConfigView, amount: int) -> int {
    amount - portion_of(amount, config.early_withdrawal_penalty_pct as int)
}

/// Computes what an emergency withdrawal pays out.
pub fn early_payout(config: &JarConfig, amount: i128) -> (result: Result<i128, JarError>)
    requires
        amount > 0,
    ensures
        fits(amount * config.early_withdrawal_penalty_pct) ==> match result {
            Ok(payout) => payout == early_payout_of(config@, amount as int),
            Err(_) => false,
        },
        !fits(amount * config.early_withdrawal_penalty_pct) ==> result == Err::<i128, JarError>(
            JarError::ArithmeticOverflow,
        ),
{
    match portion(amount, config.early_withdrawal_penalty_pct) {
        Ok(penalty) => Ok(amount - penalty),
        Err(error) => Err(error),
    }
}

} // verus!
