//! What holds of the contract as a whole.

use vstd::prelude::*;

use crate::config::ConfigView;
use crate::env::EnvView;
use crate::error::JarError;
use crate::history::Call;
use crate::key::KeyView;
use crate::names::{jar_names_differ, JAR_NEEDS, JAR_SAVINGS, JAR_WANTS};
use crate::outcome::{
    deposit_outcome, deposited, initialize_outcome, lock_remaining_outcome, setup_outcome,
    withdraw_outcome, withdraw_savings_outcome,
};
use crate::split::{
    early_payout_of, fits, needs_part, portion_of, savings_part, splittable, wants_part,
};

verus! {

/// The contract is initialized once: the first initialization names the
/// admin, and every later one is refused.
pub proof fn law_initialized_once(env: EnvView, admin: Seq<char>, other: Seq<char>)
    ensures
        env.admin() is None ==> initialize_outcome(env, admin) is Ok,
        initialize_outcome(env, admin) matches Ok(after) ==> after.admin() == Some(admin)
            && initialize_outcome(after, other) == Err::<EnvView, JarError>(
            JarError::AlreadyInitialized,
        ),
{
}

/// No call changes an admin who has been named.
pub proof fn law_admin_is_kept(env: EnvView, call: Call)
    requires
        env.admin() is Some,
    ensures
        call.outcome(env) matches Ok(after) ==> after.admin() == env.admin(),
{
}

/// A call for a user who has not authorized it is refused.
pub proof fn law_user_must_authorize(env: EnvView, call: Call)
    ensures
        call.user() matches Some(user) ==> !env.authorizes(user) ==> call.outcome(env) == Err::<
            EnvView,
            JarError,
        >(JarError::NotAuthorized),
{
}

/// A user without jars can neither deposit nor withdraw, and is told so where
/// nothing else is wrong with the call.
pub proof fn law_setup_comes_first(
    env: EnvView,
    user: Seq<char>,
    jar: Seq<char>,
    amount: i128,
    emergency: bool,
)
    requires
        env.config_of(user) is None,
    ensures
        deposit_outcome(env, user, amount) is Err,
        withdraw_outcome(env, user, jar, amount) is Err,
        withdraw_savings_outcome(env, user, amount, emergency) is Err,
        lock_remaining_outcome(env, user) == Err::<int, JarError>(JarError::JarsNotConfigured),
        env.authorizes(user) && amount > 0 ==> {
            &&& deposit_outcome(env, user, amount) == Err::<EnvView, JarError>(
                JarError::JarsNotConfigured,
            )
            &&& withdraw_savings_outcome(env, user, amount, emergency) == Err::<EnvView, JarError>(
                JarError::JarsNotConfigured,
            )
            &&& jar == JAR_NEEDS@ || jar == JAR_WANTS@ ==> withdraw_outcome(
                env,
                user,
                jar,
                amount,
            ) == Err::<EnvView, JarError>(JarError::JarsNotConfigured)
        },
{
    jar_names_differ();
}

/// After a setup the configuration is the one that was given, the three jars
/// are empty, and nothing has been transferred.
pub proof fn law_setup_is_read_back(env: EnvView, user: Seq<char>, config: ConfigView)
    ensures
        setup_outcome(env, user, config) matches Ok(after) ==> {
            &&& config.valid()
            &&& after.config_of(user) == Some(config)
            &&& after.balance_of(user, JAR_NEEDS@) == 0
            &&& after.balance_of(user, JAR_WANTS@) == 0
            &&& after.balance_of(user, JAR_SAVINGS@) == 0
            &&& after.lock_time_of(user) == env.lock_time_of(user)
            &&& after.transfers == env.transfers
        },
        config.valid() && env.authorizes(user) ==> setup_outcome(env, user, config) is Ok,
{
    jar_names_differ();
}

/// A call for one user leaves the entries of everybody else, and the admin,
/// as they were.
pub proof fn law_others_are_untouched(env: EnvView, call: Call, user: Seq<char>, key: KeyView)
    requires
        call.user() == Some(user),
        !key.belongs_to(user),
    ensures
        call.outcome(env) matches Ok(after) ==> {
            &&& after.instance == env.instance
            &&& after.configs.get(key) == env.configs.get(key)
            &&& after.balances.get(key) == env.balances.get(key)
            &&& after.lock_times.get(key) == env.lock_times.get(key)
        },
{
}

/// A call leaves the contract's address, the time and the authorizations as
/// they were, keeps the transfers that were ordered before it, and orders at
/// most one.
pub proof fn law_call_orders_at_most_one_transfer(env: EnvView, call: Call)
    ensures
        call.outcome(env) matches Ok(after) ==> {
            &&& after.contract == env.contract
            &&& after.timestamp == env.timestamp
            &&& after.authorized == env.authorized
            &&& after.transfers == env.transfers || after.transfers == env.transfers.push(
                after.transfers.last(),
            )
        },
{
}

/// There are three jars: no call changes a balance under any other name.
pub proof fn law_there_are_three_jars(
    env: EnvView,
    call: Call,
    user: Seq<char>,
    jar: Seq<char>,
)
    requires
        jar != JAR_NEEDS@,
        jar != JAR_WANTS@,
        jar != JAR_SAVINGS@,
    ensures
        call.outcome(env) matches Ok(after) ==> after.balance_of(user, jar) == env.balance_of(
            user,
            jar,
        ),
{
}

/// The parts of a deposit sum to the deposit. Under a valid configuration none
/// is negative, "needs" and "wants" get their percentages rounded down, and
/// "savings" gets its percentage rounded down and at most two units more.
pub proof fn law_split_keeps_the_whole(config: ConfigView, amount: int)
    requires
        amount > 0,
    ensures
        needs_part(config, amount) + wants_part(config, amount) + savings_part(config, amount)
            == amount,
        100 * needs_part(config, amount) <= amount * config.needs_pct < 100 * needs_part(
            config,
            amount,
        ) + 100,
        100 * wants_part(config, amount) <= amount * config.wants_pct < 100 * wants_part(
            config,
            amount,
        ) + 100,
        config.valid() ==> {
            &&& 0 <= needs_part(config, amount) <= amount
            &&& 0 <= wants_part(config, amount) <= amount
            &&& 0 <= savings_part(config, amount) <= amount
            &&& portion_of(amount, config.savings_pct as int) <= savings_part(config, amount)
            &&& savings_part(config, amount) <= portion_of(amount, config.savings_pct as int) + 2
        },
{
    let needs = config.needs_pct as int;
    let wants = config.wants_pct as int;
    let savings = config.savings_pct as int;
    lemma_product_at_least_zero(amount, needs);
    lemma_product_at_least_zero(amount, wants);
    lemma_product_at_least_zero(amount, savings);
    if config.valid() {
        assert(amount * needs + amount * wants + amount * savings == 100 * amount) by {
            assert(amount * needs + amount * wants + amount * savings == amount * (needs + wants
                + savings)) by (nonlinear_arith);
            assert(needs + wants + savings == 100);
        }
    }
}

/// A product of two numbers that are not negative is not negative.
proof fn lemma_product_at_least_zero(a: int, b: int)
    by (nonlinear_arith)
    requires
        a >= 0,
        b >= 0,
    ensures
        a * b >= 0,
{
}

/// A deposit of whole hundreds is split exactly by the percentages.
pub proof fn law_hundreds_split_exactly(config: ConfigView, hundreds: int)
    requires
        config.valid(),
        hundreds > 0,
    ensures
        needs_part(config, 100 * hundreds) == hundreds * config.needs_pct,
        wants_part(config, 100 * hundreds) == hundreds * config.wants_pct,
        savings_part(config, 100 * hundreds) == hundreds * config.savings_pct,
{
    let needs = config.needs_pct as int;
    let wants = config.wants_pct as int;
    let savings = config.savings_pct as int;
    assert((100 * hundreds) * needs == 100 * (hundreds * needs)) by (nonlinear_arith);
    assert((100 * hundreds) * wants == 100 * (hundreds * wants)) by (nonlinear_arith);
    assert(hundreds * needs + hundreds * wants + hundreds * savings == hundreds * (needs + wants
        + savings)) by (nonlinear_arith);
    assert(needs + wants + savings == 100);
}

/// A deposit raises the three jars together by the amount, orders exactly one
/// transfer, of that amount from the user to the contract, and keeps the
/// configuration.
pub proof fn law_deposit_adds_up(env: EnvView, user: Seq<char>, amount: i128)
    ensures
        deposit_outcome(env, user, amount) matches Ok(after) ==> {
            &&& after.total_of(user) == env.total_of(user) + amount
            &&& after.config_of(user) == env.config_of(user)
            &&& after.lock_time_of(user) == env.timestamp
            &&& after.transfers.len() == env.transfers.len() + 1
            &&& after.transfers.drop_last() == env.transfers
            &&& after.transfers.last().token == env.config_of(user)->Some_0.token
            &&& after.transfers.last().from == user
            &&& after.transfers.last().to == env.contract
            &&& after.transfers.last().amount == amount
        },
{
    jar_names_differ();
    if let Ok(after) = deposit_outcome(env, user, amount) {
        assert(after.transfers.drop_last() =~= env.transfers);
    }
}

/// A deposit of a positive amount by a user who has jars and has authorized it
/// succeeds exactly where the numbers fit: the two products from which the
/// parts are computed, and the three new balances. They do where the user's
/// entries are sound and neither a hundred times the amount nor the new total
/// is too large for an amount.
pub proof fn law_deposit_succeeds(env: EnvView, user: Seq<char>, amount: i128)
    requires
        env.authorizes(user),
        env.config_of(user) is Some,
        amount > 0,
    ensures
        deposit_outcome(env, user, amount) is Ok <==> {
            let config = env.config_of(user)->Some_0;
            let (needs, wants, savings) = deposited(env, user, config, amount as int);
            &&& splittable(config, amount as int)
            &&& fits(needs)
            &&& fits(wants)
            &&& fits(savings)
        },
        env.sound_for(user) && fits(amount * 100) && fits(env.total_of(user) + amount)
            ==> deposit_outcome(env, user, amount) is Ok,
{
    let config = env.config_of(user)->Some_0;
    let needs = config.needs_pct as int;
    let wants = config.wants_pct as int;
    if env.sound_for(user) {
        law_split_keeps_the_whole(config, amount as int);
        lemma_product_at_least_zero(amount as int, needs);
        lemma_product_at_least_zero(amount as int, wants);
        assert(amount * needs <= amount * 100 && amount * wants <= amount * 100)
            by (nonlinear_arith)
            requires
                amount > 0,
                needs <= 100,
                wants <= 100,
        ;
    }
}

/// "Needs" and "wants" have no lock: a withdrawal from them that the user has
/// authorized succeeds at any time, up to what the jar holds.
pub proof fn law_needs_and_wants_are_free(
    env: EnvView,
    user: Seq<char>,
    jar: Seq<char>,
    amount: i128,
)
    requires
        env.authorizes(user),
        env.config_of(user) is Some,
        jar == JAR_NEEDS@ || jar == JAR_WANTS@,
        amount > 0,
    ensures
        withdraw_outcome(env, user, jar, amount) is Ok <==> amount <= env.balance_of(user, jar),
{
    jar_names_differ();
}

/// A withdrawal lowers the one jar by exactly the amount, leaves every other
/// balance and the lock as they were, and orders exactly one transfer, of that
/// amount from the contract to the user.
pub proof fn law_withdrawal_takes_the_amount(
    env: EnvView,
    user: Seq<char>,
    jar: Seq<char>,
    amount: i128,
    other: Seq<char>,
)
    requires
        other != jar,
    ensures
        withdraw_outcome(env, user, jar, amount) matches Ok(after) ==> {
            &&& jar == JAR_NEEDS@ || jar == JAR_WANTS@
            &&& after.balance_of(user, jar) == env.balance_of(user, jar) - amount
            &&& 0 <= after.balance_of(user, jar)
            &&& after.balance_of(user, other) == env.balance_of(user, other)
            &&& after.config_of(user) == env.config_of(user)
            &&& after.lock_time_of(user) == env.lock_time_of(user)
            &&& after.transfers.len() == env.transfers.len() + 1
            &&& after.transfers.drop_last() == env.transfers
            &&& after.transfers.last().token == env.config_of(user)->Some_0.token
            &&& after.transfers.last().from == env.contract
            &&& after.transfers.last().to == user
            &&& after.transfers.last().amount == amount
        },
{
    if let Ok(after) = withdraw_outcome(env, user, jar, amount) {
        assert(after.transfers.drop_last() =~= env.transfers);
    }
}

/// A withdrawal from savings lowers the jar by the whole amount, whatever is
/// paid out, and orders exactly one transfer from the contract to the user.
/// Once the lock period has passed the user gets the whole amount; before
/// that, the amount without the penalty.
pub proof fn law_savings_withdrawal_takes_the_amount(
    env: EnvView,
    user: Seq<char>,
    amount: i128,
    emergency: bool,
    other: Seq<char>,
)
    requires
        other != JAR_SAVINGS@,
    ensures
        withdraw_savings_outcome(env, user, amount, emergency) matches Ok(after) ==> {
            let config = env.config_of(user)->Some_0;
            &&& after.balance_of(user, JAR_SAVINGS@) == env.balance_of(user, JAR_SAVINGS@) - amount
            &&& 0 <= after.balance_of(user, JAR_SAVINGS@)
            &&& after.balance_of(user, other) == env.balance_of(user, other)
            &&& after.config_of(user) == env.config_of(user)
            &&& after.lock_time_of(user) == env.lock_time_of(user)
            &&& after.transfers.len() == env.transfers.len() + 1
            &&& after.transfers.drop_last() == env.transfers
            &&& after.transfers.last().token == config.token
            &&& after.transfers.last().from == env.contract
            &&& after.transfers.last().to == user
            &&& after.transfers.last().amount == if env.timestamp >= env.unlock_time_of(
                user,
                config,
            ) {
                amount as int
            } else {
                early_payout_of(config, amount as int)
            }
        },
{
    if let Ok(after) = withdraw_savings_outcome(env, user, amount, emergency) {
        assert(after.transfers.drop_last() =~= env.transfers);
        let config = env.config_of(user)->Some_0;
        lemma_product_at_least_zero(amount as int, config.early_withdrawal_penalty_pct as int);
    }
}

/// An early payout is never more than the amount, and under a valid
/// configuration it is at least half of it.
pub proof fn law_penalty_is_bounded(config: ConfigView, amount: int)
    requires
        amount > 0,
    ensures
        early_payout_of(config, amount) <= amount,
        config.valid() ==> 2 * early_payout_of(config, amount) >= amount,
{
    let penalty = config.early_withdrawal_penalty_pct as int;
    lemma_product_at_least_zero(amount, penalty);
    if config.valid() {
        assert(amount * penalty <= amount * 50) by (nonlinear_arith)
            requires
                amount > 0,
                penalty <= 50,
        ;
    }
}

/// The lock decides: where nothing else is wrong with the call, a withdrawal
/// from savings that is no emergency succeeds exactly when no locked time
/// remains, and is refused as locked while some remains.
pub proof fn law_lock_decides(env: EnvView, user: Seq<char>, amount: i128)
    requires
        env.authorizes(user),
        env.config_of(user) is Some,
        0 < amount <= env.balance_of(user, JAR_SAVINGS@),
    ensures
        withdraw_savings_outcome(env, user, amount, false) is Ok <==> lock_remaining_outcome(
            env,
            user,
        ) == Ok::<int, JarError>(0),
        withdraw_savings_outcome(env, user, amount, false) == Err::<EnvView, JarError>(
            JarError::SavingsLocked,
        ) <==> (lock_remaining_outcome(env, user) matches Ok(remaining) && remaining > 0),
{
}

/// An emergency opens the lock: where nothing else is wrong with the call, a
/// withdrawal from savings in an emergency succeeds whether or not the lock
/// period has passed. It fails only where a number does not fit: the time at
/// which the lock ends, or, while the lock runs, the product from which the
/// penalty is computed.
pub proof fn law_emergency_opens_the_lock(env: EnvView, user: Seq<char>, amount: i128)
    requires
        env.authorizes(user),
        env.config_of(user) is Some,
        0 < amount <= env.balance_of(user, JAR_SAVINGS@),
    ensures
        withdraw_savings_outcome(env, user, amount, true) is Ok <==> (lock_remaining_outcome(
            env,
            user,
        ) matches Ok(remaining) && (remaining == 0 || fits(
            amount * env.config_of(user)->Some_0.early_withdrawal_penalty_pct,
        ))),
        withdraw_savings_outcome(env, user, amount, true) is Err
            ==> withdraw_savings_outcome(env, user, amount, true) == Err::<EnvView, JarError>(
            JarError::ArithmeticOverflow,
        ),
{
}

/// A deposit locks the savings for the whole lock period, counted from the
/// deposit: at any time before its end the rest of it remains, and from then
/// on nothing.
pub proof fn law_deposit_locks_savings(env: EnvView, user: Seq<char>, amount: i128, now: u64)
    requires
        deposit_outcome(env, user, amount) is Ok,
        env.timestamp + env.config_of(user)->Some_0.savings_lock_seconds <= u64::MAX,
    ensures
        ({
            let after = deposit_outcome(env, user, amount)->Ok_0;
            let later = EnvView { timestamp: now, ..after };
            let end = env.timestamp + env.config_of(user)->Some_0.savings_lock_seconds;
            lock_remaining_outcome(later, user) == Ok::<int, JarError>(
                if now < end {
                    end - now
                } else {
                    0
                },
            )
        }),
{
}

/// A withdrawal undoes a deposit: what a deposit put into "needs" or "wants",
/// where it put anything there, can be taken out again at once, and then the
/// jar holds what it held before.
pub proof fn law_withdrawal_undoes_deposit(
    env: EnvView,
    user: Seq<char>,
    amount: i128,
    jar: Seq<char>,
)
    requires
        jar == JAR_NEEDS@ || jar == JAR_WANTS@,
        env.balance_of(user, jar) >= 0,
        deposit_outcome(env, user, amount) is Ok,
        deposit_outcome(env, user, amount)->Ok_0.balance_of(user, jar) > env.balance_of(user, jar),
    ensures
        ({
            let after = deposit_outcome(env, user, amount)->Ok_0;
            let part = after.balance_of(user, jar) - env.balance_of(user, jar);
            withdraw_outcome(after, user, jar, part as i128) matches Ok(back) && back.balance_of(
                user,
                jar,
            ) == env.balance_of(user, jar)
        }),
{
    jar_names_differ();
}

/// Savings come back whole: what a deposit put into "savings", where it put
/// anything there, is paid out in full once the lock period has passed, and
/// then the jar holds what it held before.
pub proof fn law_savings_come_back(env: EnvView, user: Seq<char>, amount: i128, now: u64)
    requires
        env.balance_of(user, JAR_SAVINGS@) >= 0,
        deposit_outcome(env, user, amount) is Ok,
        deposit_outcome(env, user, amount)->Ok_0.balance_of(user, JAR_SAVINGS@) > env.balance_of(
            user,
            JAR_SAVINGS@,
        ),
        now >= env.timestamp + env.config_of(user)->Some_0.savings_lock_seconds,
    ensures
        ({
            let after = deposit_outcome(env, user, amount)->Ok_0;
            let later = EnvView { timestamp: now, ..after };
            let part = after.balance_of(user, JAR_SAVINGS@) - env.balance_of(user, JAR_SAVINGS@);
            withdraw_savings_outcome(later, user, part as i128, false) matches Ok(back)
                && back.balance_of(user, JAR_SAVINGS@) == env.balance_of(user, JAR_SAVINGS@)
                && back.transfers.last().amount == part
        }),
{
    jar_names_differ();
}

} // verus!
