//! The calls of the budget jar contract.

use vstd::prelude::*;

use crate::config::{ConfigView, JarConfig};
use crate::env::Env;
use crate::error::JarError;
use crate::key::DataKey;
use crate::names::{Address, Symbol, JAR_NEEDS, JAR_SAVINGS, JAR_WANTS};
use crate::outcome::{
    carried_out, deposit_outcome, initialize_outcome, lock_remaining_outcome, payout_outcome,
    setup_outcome, withdraw_outcome, withdraw_savings_outcome,
};
use crate::split::{early_payout, split};

verus! {

/// The budget jar contract.
#[derive(Debug, Clone, Copy, PartialEq, Eq, Structural)]
pub struct BudgetJarContract;

/// The configuration of `user`.
fn config_of<'a>(env: &'a Env, user: &Address) -> (config: Option<&'a JarConfig>)
    ensures
        match config {
            Some(config) => env@.config_of(user@) == Some(config@),
            None => env@.config_of(user@) is None,
        },
{
    env.configs.get(&DataKey::JarConfig(user.clone()))
}

/// The balance of one jar of `user`.
fn balance_of(env: &Env, user: &Address, jar: &str) -> (balance: i128)
    ensures
        balance == env@.balance_of(user@, jar@),
{
    match env.balances.get(&DataKey::balance(user, jar)) {
        Some(balance) => *balance,
        None => 0,
    }
}

/// When the savings of `user` are free.
fn unlock_time_of(env: &Env, user: &Address, config: &JarConfig) -> (time: Result<u64, JarError>)
    ensures
        match time {
            Ok(time) => time == env@.unlock_time_of(user@, config@),
            Err(error) => error == JarError::ArithmeticOverflow && env@.unlock_time_of(
                user@,
                config@,
            ) > u64::MAX,
        },
{
    let lock_time: u64 = match env.lock_times.get(&DataKey::SavingsLockTime(user.clone())) {
        Some(time) => *time,
        None => 0,
    };
    match lock_time.checked_add(config.savings_lock_seconds) {
        Some(time) => Ok(time),
        None => Err(JarError::ArithmeticOverflow),
    }
}

/// What a withdrawal from savings pays out, given when they are free.
pub fn payout(
    config: &JarConfig,
    unlock_time: u64,
    now: u64,
    amount: i128,
    emergency: bool,
) -> (result: Result<i128, JarError>)
    requires
        amount > 0,
    ensures
        match payout_outcome(config@, unlock_time as int, now as int, amount as int, emergency) {
            Ok(payout) => result matches Ok(paid) && paid == payout,
            Err(error) => result == Err::<i128, JarError>(error),
        },
{
    if now >= unlock_time {
        Ok(amount)
    } else if emergency {
        early_payout(config, amount)
    } else {
        Err(JarError::SavingsLocked)
    }
}

impl BudgetJarContract {
    /// Names the admin. Called once, after the contract is deployed.
    pub fn initialize(env: &mut Env, admin: Address) -> (result: Result<(), JarError>)
        ensures
            carried_out(
                initialize_outcome(old(env)@, admin@),
                old(env)@,
                final(env)@,
                result,
            ),
    {
        let ghost before = env@;
        let key = DataKey::Admin;
        if env.instance.get(&key).is_some() {
            return Err(JarError::AlreadyInitialized);
        }
        env.instance.set(key, admin);
        assert(env@ =~= before.with_admin(admin@));
        Ok(())
    }

    /// Sets up the jars of `user`, who must authorize the call, and empties
    /// them. Deposits come after this.
    pub fn setup_jars(
        env: &mut Env,
        user: Address,
        token: Address,
        needs_pct: u32,
        wants_pct: u32,
        savings_pct: u32,
        savings_lock_seconds: u64,
        early_withdrawal_penalty_pct: u32,
    ) -> (result: Result<(), JarError>)
        ensures
            carried_out(
                setup_outcome(
                    old(env)@,
                    user@,
                    (ConfigView {
                        needs_pct,
                        wants_pct,
                        savings_pct,
                        token: token@,
                        savings_lock_seconds,
                        early_withdrawal_penalty_pct,
                    }),
                ),
                old(env)@,
                final(env)@,
                result,
            ),
    {
        if !env.has_auth(&user) {
            return Err(JarError::NotAuthorized);
        }
        let total: u32 = match needs_pct.checked_add(wants_pct) {
            None => return Err(JarError::ArithmeticOverflow),
            Some(sum) => match sum.checked_add(savings_pct) {
                None => return Err(JarError::ArithmeticOverflow),
                Some(total) => total,
            },
        };
        if total != 100 {
            return Err(JarError::InvalidPercentages);
        }
        if early_withdrawal_penalty_pct > 50 {
            return Err(JarError::PenaltyTooHigh);
        }
        let ghost before = env@;
        let config = JarConfig {
            needs_pct,
            wants_pct,
            savings_pct,
            token,
            savings_lock_seconds,
            early_withdrawal_penalty_pct,
        };
        env.configs.set(DataKey::JarConfig(user.clone()), config);
        env.balances.set(DataKey::balance(&user, JAR_NEEDS), 0);
        env.balances.set(DataKey::balance(&user, JAR_WANTS), 0);
        env.balances.set(DataKey::balance(&user, JAR_SAVINGS), 0);
        assert(env@ =~= setup_outcome(before, user@, config@)->Ok_0);
        Ok(())
    }

    /// Moves `amount` from `user`, who must authorize the call, to the
    /// contract, splits it over the user's jars and locks the savings anew.
    pub fn deposit(env: &mut Env, user: Address, amount: i128) -> (result: Result<(), JarError>)
        ensures
            carried_out(
                deposit_outcome(old(env)@, user@, amount),
                old(env)@,
                final(env)@,
                result,
            ),
    {
        if !env.has_auth(&user) {
            return Err(JarError::NotAuthorized);
        }
        if amount <= 0 {
            return Err(JarError::AmountNotPositive);
        }
        let config = match config_of(env, &user) {
            Some(config) => config,
            None => return Err(JarError::JarsNotConfigured),
        };
        let parts = match split(config, amount) {
            Ok(parts) => parts,
            Err(error) => return Err(error),
        };
        let needs = balance_of(env, &user, JAR_NEEDS).checked_add(parts.needs);
        let wants = balance_of(env, &user, JAR_WANTS).checked_add(parts.wants);
        let savings = balance_of(env, &user, JAR_SAVINGS).checked_add(parts.savings);
        match (needs, wants, savings) {
            (Some(needs), Some(wants), Some(savings)) => {
                let ghost before = env@;
                let token = config.token.clone();
                let contract = env.contract.clone();
                let now: u64 = env.timestamp;
                env.transfer(token, user.clone(), contract, amount);
                env.balances.set(DataKey::balance(&user, JAR_NEEDS), needs);
                env.balances.set(DataKey::balance(&user, JAR_WANTS), wants);
                env.balances.set(DataKey::balance(&user, JAR_SAVINGS), savings);
                env.lock_times.set(DataKey::SavingsLockTime(user.clone()), now);
                assert(env@ =~= deposit_outcome(before, user@, amount)->Ok_0);
                Ok(())
            },
            _ => Err(JarError::ArithmeticOverflow),
        }
    }

    /// Moves `amount` out of the "needs" or the "wants" jar of `user`, who
    /// must authorize the call, back to the user.
    pub fn withdraw(env: &mut Env, user: Address, jar: Symbol, amount: i128) -> (result: Result<
        (),
        JarError,
    >)
        ensures
            carried_out(
                withdraw_outcome(old(env)@, user@, jar@, amount),
                old(env)@,
                final(env)@,
                result,
            ),
    {
        if !env.has_auth(&user) {
            return Err(JarError::NotAuthorized);
        }
        if amount <= 0 {
            return Err(JarError::AmountNotPositive);
        }
        if jar == Symbol::new(JAR_SAVINGS) {
            return Err(JarError::UseWithdrawSavings);
        }
        if jar != Symbol::new(JAR_NEEDS) && jar != Symbol::new(JAR_WANTS) {
            return Err(JarError::InvalidJarName);
        }
        let config = match config_of(env, &user) {
            Some(config) => config,
            None => return Err(JarError::JarsNotConfigured),
        };
        let balance: i128 = balance_of(env, &user, jar.text.as_str());
        if balance < amount {
            return Err(JarError::InsufficientBalance);
        }
        let ghost before = env@;
        let token = config.token.clone();
        let contract = env.contract.clone();
        env.balances.set(DataKey::JarBalance(user.clone(), jar), balance - amount);
        env.transfer(token, contract, user, amount);
        assert(env@ =~= withdraw_outcome(before, user@, jar@, amount)->Ok_0);
        Ok(())
    }

    /// Takes `amount` out of the savings of `user`, who must authorize the
    /// call. Before the lock period has passed this needs an emergency, and
    /// the penalty stays with the contract.
    pub fn withdraw_savings(
        env: &mut Env,
        user: Address,
        amount: i128,
        emergency: bool,
    ) -> (result: Result<(), JarError>)
        ensures
            carried_out(
                withdraw_savings_outcome(old(env)@, user@, amount, emergency),
                old(env)@,
                final(env)@,
                result,
            ),
    {
        if !env.has_auth(&user) {
            return Err(JarError::NotAuthorized);
        }
        if amount <= 0 {
            return Err(JarError::AmountNotPositive);
        }
        let config = match config_of(env, &user) {
            Some(config) => config,
            None => return Err(JarError::JarsNotConfigured),
        };
        let balance: i128 = balance_of(env, &user, JAR_SAVINGS);
        if balance < amount {
            return Err(JarError::InsufficientSavings);
        }
        let unlock_time: u64 = match unlock_time_of(env, &user, config) {
            Ok(time) => time,
            Err(error) => return Err(error),
        };
        let paid: i128 = match payout(config, unlock_time, env.timestamp, amount, emergency) {
            Ok(paid) => paid,
            Err(error) => return Err(error),
        };
        let ghost before = env@;
        let token = config.token.clone();
        let contract = env.contract.clone();
        env.balances.set(DataKey::balance(&user, JAR_SAVINGS), balance - amount);
        env.transfer(token, contract, user, paid);
        assert(env@ =~= withdraw_savings_outcome(before, user@, amount, emergency)->Ok_0);
        Ok(())
    }

    /// The balance of one jar of `user`.
    pub fn get_jar_balance(env: &Env, user: Address, jar: Symbol) -> (balance: i128)
        ensures
            balance == env@.balance_of(user@, jar@),
    {
        balance_of(env, &user, jar.text.as_str())
    }

    /// The balances of "needs", "wants" and "savings" of `user`.
    pub fn get_all_balances(env: &Env, user: Address) -> (balances: (i128, i128, i128))
        ensures
            balances.0 == env@.balance_of(user@, JAR_NEEDS@),
            balances.1 == env@.balance_of(user@, JAR_WANTS@),
            balances.2 == env@.balance_of(user@, JAR_SAVINGS@),
    {
        let needs: i128 = balance_of(env, &user, JAR_NEEDS);
        let wants: i128 = balance_of(env, &user, JAR_WANTS);
        let savings: i128 = balance_of(env, &user, JAR_SAVINGS);
        (needs, wants, savings)
    }

    /// The jar configuration of `user`.
    pub fn get_config(env: &Env, user: Address) -> (result: Result<JarConfig, JarError>)
        ensures
            match env@.config_of(user@) {
                Some(config) => result matches Ok(found) && found@ == config,
                None => result == Err::<JarConfig, JarError>(JarError::JarsNotConfigured),
            },
    {
        match config_of(env, &user) {
            Some(config) => Ok(config.clone()),
            None => Err(JarError::JarsNotConfigured),
        }
    }

    /// How many seconds the savings of `user` stay locked; 0 once they are free.
    pub fn get_savings_lock_remaining(env: &Env, user: Address) -> (result: Result<u64, JarError>)
        ensures
            match lock_remaining_outcome(env@, user@) {
                Ok(seconds) => result matches Ok(remaining) && remaining == seconds,
                Err(error) => result == Err::<u64, JarError>(error),
            },
    {
        let config = match config_of(env, &user) {
            Some(config) => config,
            None => return Err(JarError::JarsNotConfigured),
        };
        let unlock_time: u64 = match unlock_time_of(env, &user, config) {
            Ok(time) => time,
            Err(error) => return Err(error),
        };
        if env.timestamp >= unlock_time {
            Ok(0)
        } else {
            Ok(unlock_time - env.timestamp)
        }
    }
}

} // verus!
