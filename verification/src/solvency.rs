//! The contract can pay what its jars say.

use vstd::prelude::*;

use crate::env::{EnvView, TransferView};
use crate::error::JarError;
use crate::history::{after_all, gain, total_gain, Call, Event};
use crate::laws::{law_penalty_is_bounded, law_split_keeps_the_whole};
use crate::names::jar_names_differ;
use crate::outcome::withdraw_savings_outcome;

verus! {

/// Every call keeps every configuration valid and every jar at or above zero.
pub proof fn law_soundness_is_kept(env: EnvView, call: Call)
    requires
        env.sound(),
    ensures
        call.outcome(env) matches Ok(after) ==> after.sound(),
{
    jar_names_differ();
    if let Ok(after) = call.outcome(env) {
        assert forall|user: Seq<char>| #[trigger] after.sound_for(user) by {
            assert(env.sound_for(user));
            if let Call::Deposit { user: depositor, amount } = call {
                law_split_keeps_the_whole(env.config_of(depositor)->Some_0, amount as int);
            }
        }
    }
}

/// One more transfer adds its gain.
proof fn lemma_gain_of_one_more(
    transfers: Seq<TransferView>,
    transfer: TransferView,
    token: Seq<char>,
    account: Seq<char>,
)
    ensures
        total_gain(transfers.push(transfer), token, account) == total_gain(
            transfers,
            token,
            account,
        ) + gain(transfer, token, account),
{
    assert(transfers.push(transfer).drop_last() =~= transfers);
}

/// What is owed to a list of users without `user` is the same in two
/// surroundings that differ for `user` alone.
proof fn lemma_owed_to_others(
    before: EnvView,
    after: EnvView,
    user: Seq<char>,
    users: Seq<Seq<char>>,
    token: Seq<char>,
)
    requires
        !users.contains(user),
        forall|other: Seq<char>|
            other != user ==> #[trigger] after.owed_to(other, token) == before.owed_to(
                other,
                token,
            ),
    ensures
        after.owed(users, token) == before.owed(users, token),
    decreases users.len(),
{
    if users.len() > 0 {
        assert(users[users.len() - 1] == users.last());
        assert forall|i: int| 0 <= i < users.drop_last().len() implies users.drop_last()[i]
            != user by {
            assert(users.drop_last()[i] == users[i]);
        }
        lemma_owed_to_others(before, after, user, users.drop_last(), token);
    }
}

/// What is owed to a list of users with `user` changes as what is owed to
/// `user` does.
proof fn lemma_owed_changes_with_user(
    before: EnvView,
    after: EnvView,
    user: Seq<char>,
    users: Seq<Seq<char>>,
    token: Seq<char>,
)
    requires
        users.no_duplicates(),
        users.contains(user),
        forall|other: Seq<char>|
            other != user ==> #[trigger] after.owed_to(other, token) == before.owed_to(
                other,
                token,
            ),
    ensures
        after.owed(users, token) - before.owed(users, token) == after.owed_to(user, token)
            - before.owed_to(user, token),
    decreases users.len(),
{
    let rest = users.drop_last();
    let place = choose|i: int| 0 <= i < users.len() && users[i] == user;
    assert forall|i: int| 0 <= i < rest.len() implies rest[i] == users[i] by {}
    if users.last() == user {
        assert(!rest.contains(user));
        lemma_owed_to_others(before, after, user, rest, token);
    } else {
        assert(rest[place] == user);
        assert(rest.no_duplicates());
        lemma_owed_changes_with_user(before, after, user, rest, token);
    }
}

/// A call changes what is owed to its user alone, and by no more than it
/// changes what the contract holds.
proof fn lemma_call_is_covered(
    env: EnvView,
    call: Call,
    user: Seq<char>,
    token: Seq<char>,
    after: EnvView,
)
    requires
        env.sound_for(user),
        call.user() == Some(user),
        user != env.contract,
        call.outcome(env) == Ok::<EnvView, JarError>(after),
    ensures
        after.contract == env.contract,
        after.held(token) - env.held(token) >= after.owed_to(user, token) - env.owed_to(
            user,
            token,
        ),
        forall|other: Seq<char>|
            other != user ==> #[trigger] after.owed_to(other, token) == env.owed_to(other, token),
{
    jar_names_differ();
    if after.transfers != env.transfers {
        let transfer = after.transfers.last();
        assert(after.transfers == env.transfers.push(transfer));
        lemma_gain_of_one_more(env.transfers, transfer, token, env.contract);
        if let Call::WithdrawSavings { user: owner, amount, emergency } = call {
            law_penalty_is_bounded(env.config_of(owner)->Some_0, amount as int);
        }
    }
}

/// The surplus never falls: whatever list of different users with the user of
/// the call one takes, a call for a user whose entries are sound does not lower
/// what the contract holds of a token beyond what it owes them in it.
pub proof fn law_surplus_never_falls(
    env: EnvView,
    call: Call,
    user: Seq<char>,
    users: Seq<Seq<char>>,
    token: Seq<char>,
)
    requires
        env.sound_for(user),
        call.user() == Some(user),
        user != env.contract,
        users.no_duplicates(),
        users.contains(user),
    ensures
        call.outcome(env) matches Ok(after) ==> after.held(token) - after.owed(users, token)
            >= env.held(token) - env.owed(users, token),
{
    if let Ok(after) = call.outcome(env) {
        lemma_call_is_covered(env, call, user, token, after);
        lemma_owed_changes_with_user(env, after, user, users, token);
    }
}

/// The penalty stays with the contract: a withdrawal from savings raises what
/// the contract holds beyond what it owes the user by what it did not pay out.
pub proof fn law_penalty_stays_with_the_contract(
    env: EnvView,
    user: Seq<char>,
    amount: i128,
    emergency: bool,
)
    requires
        user != env.contract,
    ensures
        withdraw_savings_outcome(env, user, amount, emergency) matches Ok(after) ==> {
            let token = env.config_of(user)->Some_0.token;
            let paid = after.transfers.last().amount;
            (after.held(token) - after.owed_to(user, token)) - (env.held(token) - env.owed_to(
                user,
                token,
            )) == amount - paid
        },
{
    jar_names_differ();
    if let Ok(after) = withdraw_savings_outcome(env, user, amount, emergency) {
        let token = env.config_of(user)->Some_0.token;
        let transfer = after.transfers.last();
        lemma_gain_of_one_more(env.transfers, transfer, token, env.contract);
    }
}

/// The penalty is surplus: whatever list of different users with the
/// withdrawing user one takes, a withdrawal from savings raises what the
/// contract holds of the token beyond what it owes them in it by exactly what
/// it did not pay out.
pub proof fn law_penalty_is_surplus(
    env: EnvView,
    user: Seq<char>,
    amount: i128,
    emergency: bool,
    users: Seq<Seq<char>>,
)
    requires
        user != env.contract,
        users.no_duplicates(),
        users.contains(user),
    ensures
        withdraw_savings_outcome(env, user, amount, emergency) matches Ok(after) ==> {
            let token = env.config_of(user)->Some_0.token;
            let paid = after.transfers.last().amount;
            (after.held(token) - after.owed(users, token)) - (env.held(token) - env.owed(
                users,
                token,
            )) == amount - paid
        },
{
    law_penalty_stays_with_the_contract(env, user, amount, emergency);
    if let Ok(after) = withdraw_savings_outcome(env, user, amount, emergency) {
        let token = env.config_of(user)->Some_0.token;
        lemma_owed_changes_with_user(env, after, user, users, token);
    }
}

/// Every call for a user other than the contract itself leaves the contract
/// able to pay what it owes.
pub proof fn law_backing_is_kept(env: EnvView, call: Call)
    requires
        env.sound(),
        env.backed(),
        call.user() != Some(env.contract),
    ensures
        call.outcome(env) matches Ok(after) ==> after.backed(),
{
    if let Ok(after) = call.outcome(env) {
        law_soundness_is_kept(env, call);
        assert forall|users: Seq<Seq<char>>, token: Seq<char>|
            users.no_duplicates() implies #[trigger] after.owed(users, token) <= after.held(
            token,
        ) by {
            assert(env.owed(users, token) <= env.held(token));
            match call.user() {
                None => {
                    lemma_owed_unchanged(env, after, users, token);
                },
                Some(user) => {
                    assert(env.sound_for(user));
                    lemma_call_is_covered(env, call, user, token, after);
                    if users.contains(user) {
                        lemma_owed_changes_with_user(env, after, user, users, token);
                    } else {
                        let all = users.push(user);
                        assert(all.drop_last() =~= users);
                        assert(all[users.len() as int] == user);
                        assert(all.no_duplicates());
                        assert(env.owed(all, token) <= env.held(token));
                        lemma_owed_changes_with_user(env, after, user, all, token);
                        assert(after.sound_for(user));
                    }
                },
            }
        }
    }
}

/// What is owed depends on the configurations and the balances alone.
proof fn lemma_owed_unchanged(
    before: EnvView,
    after: EnvView,
    users: Seq<Seq<char>>,
    token: Seq<char>,
)
    requires
        after.configs == before.configs,
        after.balances == before.balances,
    ensures
        after.owed(users, token) == before.owed(users, token),
    decreases users.len(),
{
    if users.len() > 0 {
        lemma_owed_unchanged(before, after, users.drop_last(), token);
    }
}

/// After any run of calls, made for anybody, at any times and authorized by
/// anybody, every configuration is valid and no jar is below zero.
pub proof fn law_every_run_is_sound(contract: Seq<char>, start: u64, events: Seq<Event>)
    ensures
        after_all(EnvView::fresh(contract, start), events).contract == contract,
        after_all(EnvView::fresh(contract, start), events).sound(),
    decreases events.len(),
{
    if events.len() > 0 {
        let earlier = after_all(EnvView::fresh(contract, start), events.drop_last());
        law_every_run_is_sound(contract, start, events.drop_last());
        lemma_surroundings_are_sound(earlier, events.last());
        law_soundness_is_kept(events.last().surroundings(earlier), events.last().call);
    }
}

/// Neither the time nor the authorizations bear on soundness.
proof fn lemma_surroundings_are_sound(env: EnvView, event: Event)
    requires
        env.sound(),
    ensures
        event.surroundings(env).sound(),
{
    assert forall|user: Seq<char>| #[trigger] event.surroundings(env).sound_for(user) by {
        assert(env.sound_for(user));
    }
}

/// The contract can always pay: after any run of calls in which the contract
/// itself is no user, made at any times and authorized by anybody, whatever
/// users one takes, the contract holds at least what it owes them.
pub proof fn law_contract_can_always_pay(contract: Seq<char>, start: u64, events: Seq<Event>)
    requires
        forall|i: int|
            0 <= i < events.len() ==> (#[trigger] events[i]).call.user() != Some(contract),
    ensures
        after_all(EnvView::fresh(contract, start), events).contract == contract,
        after_all(EnvView::fresh(contract, start), events).backed(),
    decreases events.len(),
{
    let fresh = EnvView::fresh(contract, start);
    if events.len() == 0 {
        assert forall|users: Seq<Seq<char>>, token: Seq<char>|
            users.no_duplicates() implies #[trigger] fresh.owed(users, token) <= fresh.held(
            token,
        ) by {
            lemma_nothing_owed_at_first(contract, start, users, token);
        }
    } else {
        let earlier = after_all(fresh, events.drop_last());
        let event = events.last();
        let env = event.surroundings(earlier);
        assert forall|i: int| 0 <= i < events.drop_last().len() implies (
        #[trigger] events.drop_last()[i]).call.user() != Some(contract) by {
            assert(events.drop_last()[i] == events[i]);
        }
        law_contract_can_always_pay(contract, start, events.drop_last());
        law_every_run_is_sound(contract, start, events.drop_last());
        lemma_surroundings_are_sound(earlier, event);
        assert(events[events.len() - 1] == event);
        assert(env.backed()) by {
            assert forall|users: Seq<Seq<char>>, token: Seq<char>|
                users.no_duplicates() implies #[trigger] env.owed(users, token) <= env.held(
                token,
            ) by {
                assert(earlier.owed(users, token) <= earlier.held(token));
                lemma_owed_unchanged(earlier, env, users, token);
            }
        }
        law_backing_is_kept(env, event.call);
    }
}

/// A contract without entries owes nothing.
proof fn lemma_nothing_owed_at_first(
    contract: Seq<char>,
    start: u64,
    users: Seq<Seq<char>>,
    token: Seq<char>,
)
    ensures
        EnvView::fresh(contract, start).owed(users, token) == 0,
    decreases users.len(),
{
    if users.len() > 0 {
        lemma_nothing_owed_at_first(contract, start, users.drop_last(), token);
    }
}

} // verus!
