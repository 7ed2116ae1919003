//! What each call of the contract leads to: the surroundings that it leaves
//! behind, or the reason for which it is refused.

use vstd::prelude::*;

use crate::config::ConfigView;
use crate::env::EnvView;
use crate::error::JarError;
use crate::names::{JAR_NEEDS, JAR_SAVINGS, JAR_WANTS};
use crate::split::{
    early_payout_of, fits, needs_part, savings_part, splittable, wants_part,
};

verus! {

/// Where a call leads: to new surroundings, or to an error.
pub type Outcome = Result<EnvView, JarError>;

/// A call that started from `before`, ended in `after` and returned `result`
/// did what `outcome` says. A refused call leaves everything as it was.
pub open spec fn carried_out(
    outcome: Outcome,
    before: EnvView,
    after: EnvView,
    result: Result<(), JarError>,
) -> bool {
    match outcome {
        Ok(expected) => result is Ok && after == expected,
        Err(error) => result == Err::<(), JarError>(error) && after == before,
    }
}

/// The first initialization names the admin; any other is refused.
pub open spec fn initialize_outcome(env: EnvView, admin: Seq<char>) -> Outcome {
    if env.admin() is Some {
        Err(JarError::AlreadyInitialized)
    } else {
        Ok(env.with_admin(admin))
    }
}

/// A valid configuration is kept for the user, and the three jars are emptied.
pub open spec fn setup_outcome(env: EnvView, user: Seq<char>, config: ConfigView) -> Outcome {
    let total = config.needs_pct + config.wants_pct + config.savings_pct;
    if !env.authorizes(user) {
        Err(JarError::NotAuthorized)
    } else if total > u32::MAX {
        Err(JarError::ArithmeticOverflow)
    } else if total != 100 {
        Err(JarError::InvalidPercentages)
    } else if config.early_withdrawal_penalty_pct > 50 {
        Err(JarError::PenaltyTooHigh)
    } else {
        Ok(
            env.with_config(user, config).with_balance(user, JAR_NEEDS@, 0).with_balance(
                user,
                JAR_WANTS@,
                0,
            ).with_balance(user, JAR_SAVINGS@, 0),
        )
    }
}

/// The balances of the three jars after a deposit.
pub open spec fn deposited(
    env: EnvView,
    user: Seq<char>,
    config: ConfigView,
    amount: int,
) -> (int, int, int) {
    (
        env.balance_of(user, JAR_NEEDS@) + needs_part(config, amount),
        env.balance_of(user, JAR_WANTS@) + wants_part(config, amount),
        env.balance_of(user, JAR_SAVINGS@) + savings_part(config, amount),
    )
}

/// A deposit is moved from the user to the contract and split over the jars,
/// and the savings are locked anew.
pub open spec fn deposit_outcome(env: EnvView, user: Seq<char>, amount: i128) -> Outcome {
    if !env.authorizes(user) {
        Err(JarError::NotAuthorized)
    } else if amount <= 0 {
        Err(JarError::AmountNotPositive)
    } else {
        match env.config_of(user) {
            None => Err(JarError::JarsNotConfigured),
            Some(config) => {
                let total = amount as int;
                let (needs, wants, savings) = deposited(env, user, config, total);
                if splittable(config, total) && fits(needs) && fits(wants) && fits(savings) {
                    Ok(
                        env.with_transfer(config.token, user, env.contract, total).with_balance(
                            user,
                            JAR_NEEDS@,
                            needs,
                        ).with_balance(user, JAR_WANTS@, wants).with_balance(
                            user,
                            JAR_SAVINGS@,
                            savings,
                        ).with_lock_time(user, env.timestamp),
                    )
                } else {
                    Err(JarError::ArithmeticOverflow)
                }
            },
        }
    }
}

/// A withdrawal takes the amount out of "needs" or "wants" and moves it from
/// the contract to the user.
pub open spec fn withdraw_outcome(
    env: EnvView,
    user: Seq<char>,
    jar: Seq<char>,
    amount: i128,
) -> Outcome {
    if !env.authorizes(user) {
        Err(JarError::NotAuthorized)
    } else if amount <= 0 {
        Err(JarError::AmountNotPositive)
    } else if jar == JAR_SAVINGS@ {
        Err(JarError::UseWithdrawSavings)
    } else if jar != JAR_NEEDS@ && jar != JAR_WANTS@ {
        Err(JarError::InvalidJarName)
    } else {
        match env.config_of(user) {
            None => Err(JarError::JarsNotConfigured),
            Some(config) => {
                let balance = env.balance_of(user, jar);
                if balance < amount {
                    Err(JarError::InsufficientBalance)
                } else {
                    Ok(
                        env.with_balance(user, jar, balance - amount).with_transfer(
                            config.token,
                            env.contract,
                            user,
                            amount as int,
                        ),
                    )
                }
            },
        }
    }
}

/// What a withdrawal of `amount` from savings pays out: all of it once the
/// lock period has passed, and before that, in an emergency, all but the
/// penalty.
pub open spec fn payout_outcome(
    config: ConfigView,
    unlock_time: int,
    now: int,
    amount: int,
    emergency: bool,
) -> Result<int, JarError> {
    if unlock_time > u64::MAX {
        Err(JarError::ArithmeticOverflow)
    } else if now >= unlock_time {
        Ok(amount)
    } else if !emergency {
        Err(JarError::SavingsLocked)
    } else if !fits(amount * config.early_withdrawal_penalty_pct) {
        Err(JarError::ArithmeticOverflow)
    } else {
        Ok(early_payout_of(config, amount))
    }
}

/// A withdrawal from savings takes the whole amount out of the jar and moves
/// the payout from the contract to the user.
pub open spec fn withdraw_savings_outcome(
    env: EnvView,
    user: Seq<char>,
    amount: i128,
    emergency: bool,
) -> Outcome {
    if !env.authorizes(user) {
        Err(JarError::NotAuthorized)
    } else if amount <= 0 {
        Err(JarError::AmountNotPositive)
    } else {
        match env.config_of(user) {
            None => Err(JarError::JarsNotConfigured),
            Some(config) => {
                let balance = env.balance_of(user, JAR_SAVINGS@);
                let unlock_time = env.unlock_time_of(user, config);
                if balance < amount {
                    Err(JarError::InsufficientSavings)
                } else {
                    match payout_outcome(
                        config,
                        unlock_time,
                        env.timestamp as int,
                        amount as int,
                        emergency,
                    ) {
                        Err(error) => Err(error),
                        Ok(payout) => Ok(
                            env.with_balance(user, JAR_SAVINGS@, balance - amount).with_transfer(
                                config.token,
                                env.contract,
                                user,
                                payout,
                            ),
                        ),
                    }
                }
            },
        }
    }
}

/// How many seconds the savings of `user` stay locked.
pub open spec fn lock_remaining_outcome(env: EnvView, user: Seq<char>) -> Result<
    int,
    JarError,
> {
    match env.config_of(user) {
        None => Err(JarError::JarsNotConfigured),
        Some(config) => {
            let unlock_time = env.unlock_time_of(user, config);
            if unlock_time > u64::MAX {
                Err(JarError::ArithmeticOverflow)
            } else if env.timestamp >= unlock_time {
                Ok(0)
            } else {
                Ok(unlock_time - env.timestamp)
            }
        },
    }
}

} // verus!
