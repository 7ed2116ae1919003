//! What each call does, entry by entry, and exactly when it is refused.
//!
//! The statements here speak of the arguments, of the entries before and after
//! a call, and of its transfers.

use vstd::prelude::*;

use crate::config::{ConfigView, JarConfig};
use crate::env::{Env, EnvView, Transfer, TransferView};
use crate::error::JarError;
use crate::key::{user_keys, DataKey, KeyView};
use crate::names::{jar_names_differ, Address, Symbol, JAR_NEEDS, JAR_SAVINGS, JAR_WANTS};
use crate::outcome::{
    carried_out, deposit_outcome, initialize_outcome, lock_remaining_outcome, payout_outcome,
    setup_outcome, withdraw_outcome, withdraw_savings_outcome, Outcome,
};
use crate::split::{
    early_payout_of, fits, needs_part, portion_of, savings_part, splittable, wants_part,
};

verus! {

/// The jars are called "needs", "wants" and "savings".
pub proof fn law_jar_names()
    ensures
        JAR_NEEDS@ == "needs"@,
        JAR_WANTS@ == "wants"@,
        JAR_SAVINGS@ == "savings"@,
{
}

/// An address and a symbol are their texts.
pub proof fn law_names_are_their_texts(address: Address, symbol: Symbol)
    ensures
        address@ == address.text@,
        symbol@ == symbol.text@,
{
}

/// Two keys are the same exactly where they are of the same kind and name the
/// same user and the same jar.
pub proof fn law_keys_tell_entries_apart(
    user: Address,
    jar: Symbol,
    other: Address,
    other_jar: Symbol,
)
    ensures
        DataKey::JarConfig(user)@ == DataKey::JarConfig(other)@ <==> user.text@ == other.text@,
        DataKey::SavingsLockTime(user)@ == DataKey::SavingsLockTime(other)@ <==> user.text@
            == other.text@,
        DataKey::JarBalance(user, jar)@ == DataKey::JarBalance(other, other_jar)@ <==> user.text@
            == other.text@ && jar.text@ == other_jar.text@,
        DataKey::Admin@ != DataKey::JarConfig(user)@,
        DataKey::Admin@ != DataKey::SavingsLockTime(user)@,
        DataKey::Admin@ != DataKey::JarBalance(user, jar)@,
        DataKey::JarConfig(user)@ != DataKey::SavingsLockTime(other)@,
        DataKey::JarConfig(user)@ != DataKey::JarBalance(other, jar)@,
        DataKey::SavingsLockTime(user)@ != DataKey::JarBalance(other, jar)@,
        DataKey::Admin@ == KeyView::Admin,
        DataKey::JarConfig(user)@ == KeyView::JarConfig(user.text@),
        DataKey::JarBalance(user, jar)@ == KeyView::JarBalance(user.text@, jar.text@),
        DataKey::SavingsLockTime(user)@ == KeyView::SavingsLockTime(user.text@),
{
}

/// The model of a configuration has the configuration's own numbers and token.
pub proof fn law_config_is_seen_as_it_is(config: JarConfig)
    ensures
        config@.needs_pct == config.needs_pct,
        config@.wants_pct == config.wants_pct,
        config@.savings_pct == config.savings_pct,
        config@.token == config.token.text@,
        config@.savings_lock_seconds == config.savings_lock_seconds,
        config@.early_withdrawal_penalty_pct == config.early_withdrawal_penalty_pct,
{
}

/// The model of the surroundings has their own time, addresses, entries and
/// transfers.
pub proof fn law_surroundings_are_seen_as_they_are(env: Env, transfer: Transfer)
    ensures
        env@.contract == env.contract.text@,
        env@.timestamp == env.timestamp,
        env@.authorized.len() == env.authorized@.len(),
        forall|i: int|
            0 <= i < env.authorized@.len() ==> #[trigger] env@.authorized[i]
                == env.authorized@[i].text@,
        env@.instance == env.instance@,
        env@.configs == env.configs@,
        env@.balances == env.balances@,
        env@.lock_times == env.lock_times@,
        env@.transfers.len() == env.transfers@.len(),
        forall|i: int|
            0 <= i < env.transfers@.len() ==> #[trigger] env@.transfers[i] == env.transfers@[i]@,
        transfer@.token == transfer.token.text@,
        transfer@.from == transfer.from.text@,
        transfer@.to == transfer.to.text@,
        transfer@.amount == transfer.amount,
{
}

/// A new contract has no authorization, no entry and no transfer.
pub proof fn law_fresh_surroundings_are_empty(
    contract: Seq<char>,
    timestamp: u64,
    address: Seq<char>,
    key: KeyView,
)
    ensures
        EnvView::fresh(contract, timestamp).contract == contract,
        EnvView::fresh(contract, timestamp).timestamp == timestamp,
        !EnvView::fresh(contract, timestamp).authorized.contains(address),
        !EnvView::fresh(contract, timestamp).instance.contains_key(key),
        !EnvView::fresh(contract, timestamp).configs.contains_key(key),
        !EnvView::fresh(contract, timestamp).balances.contains_key(key),
        !EnvView::fresh(contract, timestamp).lock_times.contains_key(key),
        EnvView::fresh(contract, timestamp).transfers.len() == 0,
{
}

/// What is read of the surroundings is what the entries say: a balance is the
/// entry under the user's key for that jar, or zero where there is none; the
/// same goes for the time of the last deposit; a configuration or an admin is
/// there exactly where its entry is.
pub proof fn law_reads_are_the_entries(env: EnvView, user: Seq<char>, jar: Seq<char>)
    ensures
        env.authorizes(user) <==> exists|i: int|
            0 <= i < env.authorized.len() && #[trigger] env.authorized[i] == user,
        env.admin() is Some <==> env.instance.contains_key(KeyView::Admin),
        env.instance.contains_key(KeyView::Admin) ==> env.admin() == Some(
            env.instance[KeyView::Admin],
        ),
        env.config_of(user) is Some <==> env.configs.contains_key(KeyView::JarConfig(user)),
        env.configs.contains_key(KeyView::JarConfig(user)) ==> env.config_of(user) == Some(
            env.configs[KeyView::JarConfig(user)],
        ),
        env.balances.contains_key(KeyView::JarBalance(user, jar)) ==> env.balance_of(user, jar)
            == env.balances[KeyView::JarBalance(user, jar)],
        !env.balances.contains_key(KeyView::JarBalance(user, jar)) ==> env.balance_of(user, jar)
            == 0,
        env.lock_times.contains_key(KeyView::SavingsLockTime(user)) ==> env.lock_time_of(user)
            == env.lock_times[KeyView::SavingsLockTime(user)],
        !env.lock_times.contains_key(KeyView::SavingsLockTime(user)) ==> env.lock_time_of(user)
            == 0,
        env.total_of(user) == env.balance_of(user, "needs"@) + env.balance_of(user, "wants"@)
            + env.balance_of(user, "savings"@),
{
}

/// Five entries are kept for a user: the configuration, the balances of the
/// three jars, and the time of the last deposit.
pub proof fn law_five_entries_are_kept(user: Seq<char>, key: KeyView)
    ensures
        user_keys(user).len() == 5,
        user_keys(user)[0] == KeyView::JarConfig(user),
        user_keys(user)[1] == KeyView::JarBalance(user, "needs"@),
        user_keys(user)[2] == KeyView::JarBalance(user, "wants"@),
        user_keys(user)[3] == KeyView::JarBalance(user, "savings"@),
        user_keys(user)[4] == KeyView::SavingsLockTime(user),
        user_keys(user).contains(key) <==> {
            ||| key == KeyView::JarConfig(user)
            ||| key == KeyView::JarBalance(user, "needs"@)
            ||| key == KeyView::JarBalance(user, "wants"@)
            ||| key == KeyView::JarBalance(user, "savings"@)
            ||| key == KeyView::SavingsLockTime(user)
        },
{
    let keys = user_keys(user);
    assert(keys[0] == KeyView::JarConfig(user));
    assert(keys[1] == KeyView::JarBalance(user, "needs"@));
    assert(keys[2] == KeyView::JarBalance(user, "wants"@));
    assert(keys[3] == KeyView::JarBalance(user, "savings"@));
    assert(keys[4] == KeyView::SavingsLockTime(user));
}

/// A call that returns `Ok` has reached its outcome, and one that returns an
/// error was refused for that reason and has changed nothing.
pub proof fn law_results_tell_the_outcome(
    outcome: Outcome,
    before: EnvView,
    after: EnvView,
    result: Result<(), JarError>,
)
    requires
        carried_out(outcome, before, after, result),
    ensures
        result is Ok ==> outcome == Ok::<EnvView, JarError>(after),
        result matches Err(error) ==> outcome == Err::<EnvView, JarError>(error) && after
            == before,
{
}

/// An amount is any integer from -2^127 to 2^127 - 1.
pub proof fn law_amounts_have_a_range(value: int)
    ensures
        fits(value) <==> -0x8000_0000_0000_0000_0000_0000_0000_0000int <= value
            <= 0x7fff_ffff_ffff_ffff_ffff_ffff_ffff_ffffint,
{
}

/// A portion is the share rounded down, "needs" and "wants" get theirs and
/// "savings" the rest, an early payout is the amount without the penalty
/// rounded down, and a deposit can be split exactly where both products fit.
pub proof fn law_portions_follow_percentages(config: ConfigView, amount: int, pct: int)
    ensures
        100 * portion_of(amount, pct) <= amount * pct < 100 * portion_of(amount, pct) + 100,
        100 * needs_part(config, amount) <= amount * config.needs_pct < 100 * needs_part(
            config,
            amount,
        ) + 100,
        100 * wants_part(config, amount) <= amount * config.wants_pct < 100 * wants_part(
            config,
            amount,
        ) + 100,
        needs_part(config, amount) + wants_part(config, amount) + savings_part(config, amount)
            == amount,
        100 * (amount - early_payout_of(config, amount)) <= amount
            * config.early_withdrawal_penalty_pct < 100 * (amount - early_payout_of(config, amount))
            + 100,
        splittable(config, amount) <==> {
            &&& i128::MIN <= amount * config.needs_pct <= i128::MAX
            &&& i128::MIN <= amount * config.wants_pct <= i128::MAX
        },
{
}

/// An initialization succeeds exactly where there is no admin. It then makes
/// the given address the admin and changes nothing else.
pub proof fn law_initialize_names_the_admin(env: EnvView, admin: Seq<char>)
    ensures
        initialize_outcome(env, admin) is Ok <==> !env.instance.contains_key(KeyView::Admin),
        initialize_outcome(env, admin) is Err ==> initialize_outcome(env, admin) == Err::<
            EnvView,
            JarError,
        >(JarError::AlreadyInitialized),
        initialize_outcome(env, admin) matches Ok(after) ==> {
            &&& after.instance.contains_key(KeyView::Admin)
            &&& after.instance[KeyView::Admin] == admin
            &&& forall|key: KeyView|
                key != KeyView::Admin ==> #[trigger] after.instance.get(key)
                    == env.instance.get(key)
            &&& after == (EnvView { instance: after.instance, ..env })
        },
{
}

/// A setup succeeds exactly where the user has authorized it, the three
/// percentages sum to 100, and the penalty is at most 50. Each reason for a
/// refusal comes on its own inputs.
pub proof fn law_setup_refusals(env: EnvView, user: Seq<char>, config: ConfigView)
    ensures
        setup_outcome(env, user, config) is Ok <==> {
            &&& env.authorized.contains(user)
            &&& config.needs_pct + config.wants_pct + config.savings_pct == 100
            &&& config.early_withdrawal_penalty_pct <= 50
        },
        setup_outcome(env, user, config) == Err::<EnvView, JarError>(JarError::NotAuthorized)
            <==> !env.authorized.contains(user),
        setup_outcome(env, user, config) == Err::<EnvView, JarError>(JarError::ArithmeticOverflow)
            <==> {
            &&& env.authorized.contains(user)
            &&& config.needs_pct + config.wants_pct + config.savings_pct > u32::MAX
        },
        setup_outcome(env, user, config) == Err::<EnvView, JarError>(JarError::InvalidPercentages)
            <==> {
            &&& env.authorized.contains(user)
            &&& config.needs_pct + config.wants_pct + config.savings_pct <= u32::MAX
            &&& config.needs_pct + config.wants_pct + config.savings_pct != 100
        },
        setup_outcome(env, user, config) == Err::<EnvView, JarError>(JarError::PenaltyTooHigh)
            <==> {
            &&& env.authorized.contains(user)
            &&& config.needs_pct + config.wants_pct + config.savings_pct == 100
            &&& config.early_withdrawal_penalty_pct > 50
        },
        config.valid() <==> {
            &&& config.needs_pct + config.wants_pct + config.savings_pct == 100
            &&& config.early_withdrawal_penalty_pct <= 50
        },
{
}

/// A setup keeps the given configuration for the user, puts zero into each of
/// the three jars, and changes nothing else.
pub proof fn law_setup_effects(env: EnvView, user: Seq<char>, config: ConfigView)
    ensures
        setup_outcome(env, user, config) matches Ok(after) ==> {
            &&& after.configs.contains_key(KeyView::JarConfig(user))
            &&& after.configs[KeyView::JarConfig(user)] == config
            &&& forall|key: KeyView|
                key != KeyView::JarConfig(user) ==> #[trigger] after.configs.get(key)
                    == env.configs.get(key)
            &&& after.balances.contains_key(KeyView::JarBalance(user, "needs"@))
            &&& after.balances[KeyView::JarBalance(user, "needs"@)] == 0
            &&& after.balances.contains_key(KeyView::JarBalance(user, "wants"@))
            &&& after.balances[KeyView::JarBalance(user, "wants"@)] == 0
            &&& after.balances.contains_key(KeyView::JarBalance(user, "savings"@))
            &&& after.balances[KeyView::JarBalance(user, "savings"@)] == 0
            &&& forall|key: KeyView|
                {
                    &&& key != KeyView::JarBalance(user, "needs"@)
                    &&& key != KeyView::JarBalance(user, "wants"@)
                    &&& key != KeyView::JarBalance(user, "savings"@)
                } ==> #[trigger] after.balances.get(key) == env.balances.get(key)
            &&& after == (EnvView { configs: after.configs, balances: after.balances, ..env })
        },
{
    jar_names_differ();
}

/// A deposit succeeds exactly where the user has authorized it, the amount is
/// positive, the user has jars, and every number that is computed fits. Each
/// reason for a refusal comes on its own inputs.
pub proof fn law_deposit_refusals(env: EnvView, user: Seq<char>, amount: i128)
    ensures
        ({
            let outcome = deposit_outcome(env, user, amount);
            let config = env.configs[KeyView::JarConfig(user)];
            let to_needs = amount * config.needs_pct / 100;
            let to_wants = amount * config.wants_pct / 100;
            let to_savings = amount - to_needs - to_wants;
            let asked = env.authorized.contains(user) && amount > 0;
            let known = asked && env.configs.contains_key(KeyView::JarConfig(user));
            let all_fit = {
                &&& i128::MIN <= amount * config.needs_pct <= i128::MAX
                &&& i128::MIN <= amount * config.wants_pct <= i128::MAX
                &&& i128::MIN <= env.balance_of(user, "needs"@) + to_needs <= i128::MAX
                &&& i128::MIN <= env.balance_of(user, "wants"@) + to_wants <= i128::MAX
                &&& i128::MIN <= env.balance_of(user, "savings"@) + to_savings <= i128::MAX
            };
            &&& outcome is Ok <==> known && all_fit
            &&& outcome == Err::<EnvView, JarError>(JarError::NotAuthorized)
                <==> !env.authorized.contains(user)
            &&& outcome == Err::<EnvView, JarError>(JarError::AmountNotPositive)
                <==> env.authorized.contains(user) && amount <= 0
            &&& outcome == Err::<EnvView, JarError>(JarError::JarsNotConfigured) <==> asked && !known
            &&& outcome == Err::<EnvView, JarError>(JarError::ArithmeticOverflow) <==> known
                && !all_fit
        }),
{
}

/// A deposit that succeeds raises each jar by its own share: "needs" and
/// "wants" by their percentages of the amount rounded down, and "savings" by
/// the rest. It orders a transfer of the amount from the user to the contract
/// in the user's token, sets the time of the last deposit to the time of the
/// call, and changes nothing else.
pub proof fn law_deposit_effects(env: EnvView, user: Seq<char>, amount: i128)
    ensures
        deposit_outcome(env, user, amount) matches Ok(after) ==> {
            let config = env.configs[KeyView::JarConfig(user)];
            let to_needs = after.balances[KeyView::JarBalance(user, "needs"@)] - env.balance_of(
                user,
                "needs"@,
            );
            let to_wants = after.balances[KeyView::JarBalance(user, "wants"@)] - env.balance_of(
                user,
                "wants"@,
            );
            let to_savings = after.balances[KeyView::JarBalance(user, "savings"@)]
                - env.balance_of(user, "savings"@);
            &&& env.configs.contains_key(KeyView::JarConfig(user))
            &&& after.balances.contains_key(KeyView::JarBalance(user, "needs"@))
            &&& after.balances.contains_key(KeyView::JarBalance(user, "wants"@))
            &&& after.balances.contains_key(KeyView::JarBalance(user, "savings"@))
            &&& 100 * to_needs <= amount * config.needs_pct < 100 * to_needs + 100
            &&& 100 * to_wants <= amount * config.wants_pct < 100 * to_wants + 100
            &&& to_needs + to_wants + to_savings == amount
            &&& after.balance_of(user, "needs"@) == env.balance_of(user, "needs"@) + amount
                * config.needs_pct / 100
            &&& after.balance_of(user, "wants"@) == env.balance_of(user, "wants"@) + amount
                * config.wants_pct / 100
            &&& after.balance_of(user, "savings"@) == env.balance_of(user, "savings"@) + amount
                - amount * config.needs_pct / 100 - amount * config.wants_pct / 100
            &&& forall|key: KeyView|
                {
                    &&& key != KeyView::JarBalance(user, "needs"@)
                    &&& key != KeyView::JarBalance(user, "wants"@)
                    &&& key != KeyView::JarBalance(user, "savings"@)
                } ==> #[trigger] after.balances.get(key) == env.balances.get(key)
            &&& after.lock_times.contains_key(KeyView::SavingsLockTime(user))
            &&& after.lock_times[KeyView::SavingsLockTime(user)] == env.timestamp
            &&& forall|key: KeyView|
                key != KeyView::SavingsLockTime(user) ==> #[trigger] after.lock_times.get(key)
                    == env.lock_times.get(key)
            &&& after.transfers == env.transfers.push(
                TransferView { token: config.token, from: user, to: env.contract, amount },
            )
            &&& after == (EnvView {
                balances: after.balances,
                lock_times: after.lock_times,
                transfers: after.transfers,
                ..env
            })
        },
{
    jar_names_differ();
}

/// A withdrawal succeeds exactly where the user has authorized it, the jar is
/// "needs" or "wants", the user has jars, and the amount is positive and at
/// most what the jar holds. Each reason for a refusal comes on its own inputs.
pub proof fn law_withdraw_refusals(
    env: EnvView,
    user: Seq<char>,
    jar: Seq<char>,
    amount: i128,
)
    ensures
        withdraw_outcome(env, user, jar, amount) is Ok <==> {
            &&& env.authorized.contains(user)
            &&& jar == "needs"@ || jar == "wants"@
            &&& env.configs.contains_key(KeyView::JarConfig(user))
            &&& 0 < amount <= env.balance_of(user, jar)
        },
        withdraw_outcome(env, user, jar, amount) == Err::<EnvView, JarError>(
            JarError::NotAuthorized,
        ) <==> !env.authorized.contains(user),
        withdraw_outcome(env, user, jar, amount) == Err::<EnvView, JarError>(
            JarError::AmountNotPositive,
        ) <==> env.authorized.contains(user) && amount <= 0,
        withdraw_outcome(env, user, jar, amount) == Err::<EnvView, JarError>(
            JarError::UseWithdrawSavings,
        ) <==> env.authorized.contains(user) && amount > 0 && jar == "savings"@,
        withdraw_outcome(env, user, jar, amount) == Err::<EnvView, JarError>(
            JarError::InvalidJarName,
        ) <==> {
            &&& env.authorized.contains(user)
            &&& amount > 0
            &&& jar != "needs"@
            &&& jar != "wants"@
            &&& jar != "savings"@
        },
        withdraw_outcome(env, user, jar, amount) == Err::<EnvView, JarError>(
            JarError::JarsNotConfigured,
        ) <==> {
            &&& env.authorized.contains(user)
            &&& amount > 0
            &&& jar == "needs"@ || jar == "wants"@
            &&& !env.configs.contains_key(KeyView::JarConfig(user))
        },
        withdraw_outcome(env, user, jar, amount) == Err::<EnvView, JarError>(
            JarError::InsufficientBalance,
        ) <==> {
            &&& env.authorized.contains(user)
            &&& amount > 0
            &&& jar == "needs"@ || jar == "wants"@
            &&& env.configs.contains_key(KeyView::JarConfig(user))
            &&& env.balance_of(user, jar) < amount
        },
{
    jar_names_differ();
}

/// A withdrawal that succeeds lowers its jar by the amount, so that the jar
/// holds less than before and not less than nothing. It orders a transfer of
/// the amount from the contract to the user in the user's token, and changes
/// nothing else.
pub proof fn law_withdraw_effects(
    env: EnvView,
    user: Seq<char>,
    jar: Seq<char>,
    amount: i128,
)
    ensures
        withdraw_outcome(env, user, jar, amount) matches Ok(after) ==> {
            &&& after.balances.contains_key(KeyView::JarBalance(user, jar))
            &&& after.balances[KeyView::JarBalance(user, jar)] + amount == env.balance_of(user, jar)
            &&& 0 <= after.balances[KeyView::JarBalance(user, jar)] < env.balance_of(user, jar)
            &&& forall|key: KeyView|
                key != KeyView::JarBalance(user, jar) ==> #[trigger] after.balances.get(key)
                    == env.balances.get(key)
            &&& after.transfers == env.transfers.push(
                TransferView {
                    token: env.configs[KeyView::JarConfig(user)].token,
                    from: env.contract,
                    to: user,
                    amount,
                },
            )
            &&& after == (EnvView { balances: after.balances, transfers: after.transfers, ..env })
        },
{
}

/// A withdrawal from savings succeeds exactly where the user has authorized
/// it, the user has jars, the amount is positive and at most what the jar
/// holds, the end of the lock fits a time, and the savings are free or it is an
/// emergency whose penalty can be computed. Each reason for a refusal comes on
/// its own inputs.
pub proof fn law_withdraw_savings_refusals(
    env: EnvView,
    user: Seq<char>,
    amount: i128,
    emergency: bool,
)
    ensures
        ({
            let outcome = withdraw_savings_outcome(env, user, amount, emergency);
            let config = env.configs[KeyView::JarConfig(user)];
            let end = env.lock_time_of(user) + config.savings_lock_seconds;
            let product = amount * config.early_withdrawal_penalty_pct;
            let asked = env.authorized.contains(user) && amount > 0;
            let known = asked && env.configs.contains_key(KeyView::JarConfig(user));
            let covered = known && amount <= env.balance_of(user, "savings"@);
            &&& outcome is Ok <==> {
                &&& covered
                &&& end <= u64::MAX
                &&& env.timestamp >= end || (emergency && product <= i128::MAX)
            }
            &&& outcome == Err::<EnvView, JarError>(JarError::NotAuthorized)
                <==> !env.authorized.contains(user)
            &&& outcome == Err::<EnvView, JarError>(JarError::AmountNotPositive)
                <==> env.authorized.contains(user) && amount <= 0
            &&& outcome == Err::<EnvView, JarError>(JarError::JarsNotConfigured) <==> asked && !known
            &&& outcome == Err::<EnvView, JarError>(JarError::InsufficientSavings) <==> known
                && !covered
            &&& outcome == Err::<EnvView, JarError>(JarError::SavingsLocked) <==> {
                &&& covered
                &&& env.timestamp < end <= u64::MAX
                &&& !emergency
            }
            &&& outcome == Err::<EnvView, JarError>(JarError::ArithmeticOverflow) <==> {
                &&& covered
                &&& end > u64::MAX || (env.timestamp < end && emergency && product > i128::MAX)
            }
        }),
{
    if amount > 0 {
        let pct = env.configs[KeyView::JarConfig(user)].early_withdrawal_penalty_pct as int;
        assert(amount * pct >= 0) by (nonlinear_arith)
            requires
                amount > 0,
                pct >= 0,
        ;
    }
}

/// A withdrawal from savings that succeeds lowers the jar by the amount. It
/// orders a transfer from the contract to the user in the user's token, and
/// changes nothing else. What the transfer leaves out is the penalty: nothing
/// once the lock period has passed, and before that the configured percentage
/// of the amount rounded down.
pub proof fn law_withdraw_savings_effects(
    env: EnvView,
    user: Seq<char>,
    amount: i128,
    emergency: bool,
)
    ensures
        withdraw_savings_outcome(env, user, amount, emergency) matches Ok(after) ==> {
            let config = env.configs[KeyView::JarConfig(user)];
            let penalty = amount - after.transfers.last().amount;
            let key = KeyView::JarBalance(user, "savings"@);
            &&& after.balances.contains_key(key)
            &&& after.balances[key] + amount == env.balance_of(user, "savings"@)
            &&& 0 <= after.balances[key] < env.balance_of(user, "savings"@)
            &&& forall|other: KeyView|
                other != key ==> #[trigger] after.balances.get(other) == env.balances.get(other)
            &&& after.transfers == env.transfers.push(
                TransferView {
                    token: config.token,
                    from: env.contract,
                    to: user,
                    amount: after.transfers.last().amount,
                },
            )
            &&& env.timestamp >= env.lock_time_of(user) + config.savings_lock_seconds ==> penalty
                == 0
            &&& env.timestamp < env.lock_time_of(user) + config.savings_lock_seconds ==> 100
                * penalty <= amount * config.early_withdrawal_penalty_pct < 100 * penalty + 100
            &&& after == (EnvView { balances: after.balances, transfers: after.transfers, ..env })
        },
{
    if amount > 0 {
        let pct = env.configs[KeyView::JarConfig(user)].early_withdrawal_penalty_pct as int;
        assert(amount * pct >= 0) by (nonlinear_arith)
            requires
                amount > 0,
                pct >= 0,
        ;
    }
}

/// A payout is the whole amount once the lock has ended, and before that, in
/// an emergency, the amount without the configured percentage of it rounded
/// down.
pub proof fn law_payout_follows_lock_and_penalty(
    config: ConfigView,
    unlock_time: u64,
    now: u64,
    amount: i128,
    emergency: bool,
)
    requires
        amount > 0,
    ensures
        ({
            let outcome = payout_outcome(
                config,
                unlock_time as int,
                now as int,
                amount as int,
                emergency,
            );
            let product = amount * config.early_withdrawal_penalty_pct;
            &&& now >= unlock_time ==> outcome == Ok::<int, JarError>(amount as int)
            &&& now < unlock_time && !emergency ==> outcome == Err::<int, JarError>(
                JarError::SavingsLocked,
            )
            &&& now < unlock_time && emergency && product > i128::MAX ==> outcome == Err::<
                int,
                JarError,
            >(JarError::ArithmeticOverflow)
            &&& now < unlock_time && emergency && product <= i128::MAX ==> {
                &&& outcome matches Ok(paid)
                &&& 100 * (amount - paid) <= product < 100 * (amount - paid) + 100
            }
        }),
{
    let pct = config.early_withdrawal_penalty_pct as int;
    assert(amount * pct >= 0) by (nonlinear_arith)
        requires
            amount > 0,
            pct >= 0,
    ;
}

/// No deposit and no withdrawal of an amount that is not positive succeeds.
pub proof fn law_amounts_must_be_positive(
    env: EnvView,
    user: Seq<char>,
    jar: Seq<char>,
    amount: i128,
    emergency: bool,
)
    requires
        amount <= 0,
    ensures
        deposit_outcome(env, user, amount) is Err,
        withdraw_outcome(env, user, jar, amount) is Err,
        withdraw_savings_outcome(env, user, amount, emergency) is Err,
{
}

/// The locked time that remains is what is left, at the time of the question,
/// of the lock period after the last deposit; nothing once it has passed. Who
/// asks does not matter. Without a configuration, or where the end of the lock
/// does not fit a time, there is no answer.
pub proof fn law_lock_remaining_is_what_is_left(env: EnvView, user: Seq<char>)
    ensures
        lock_remaining_outcome(env, user) == Err::<int, JarError>(JarError::JarsNotConfigured)
            <==> !env.configs.contains_key(KeyView::JarConfig(user)),
        env.configs.contains_key(KeyView::JarConfig(user)) ==> {
            let end = env.lock_time_of(user)
                + env.configs[KeyView::JarConfig(user)].savings_lock_seconds;
            &&& end > u64::MAX ==> lock_remaining_outcome(env, user) == Err::<int, JarError>(
                JarError::ArithmeticOverflow,
            )
            &&& end <= u64::MAX && end > env.timestamp ==> lock_remaining_outcome(env, user)
                == Ok::<int, JarError>(end - env.timestamp)
            &&& end <= u64::MAX && end <= env.timestamp ==> lock_remaining_outcome(env, user)
                == Ok::<int, JarError>(0)
        },
{
}

/// Time runs down the lock second by second, for whoever asks: of two
/// questions between which no entry changes, the later one is answered with
/// the earlier answer less the seconds between them, or with nothing.
pub proof fn law_lock_runs_down(
    env: EnvView,
    user: Seq<char>,
    later: u64,
    authorized: Seq<Seq<char>>,
)
    requires
        later >= env.timestamp,
    ensures
        ({
            let then = EnvView { timestamp: later, authorized, ..env };
            match lock_remaining_outcome(env, user) {
                Ok(remaining) => lock_remaining_outcome(then, user) == Ok::<int, JarError>(
                    if remaining > later - env.timestamp {
                        remaining - (later - env.timestamp)
                    } else {
                        0
                    },
                ),
                Err(error) => lock_remaining_outcome(then, user) == Err::<int, JarError>(error),
            }
        }),
{
}

} // verus!
