//! A call for a user needs the entries of that user and no others.

use vstd::prelude::*;

use crate::env::EnvView;
use crate::error::JarError;
use crate::history::Call;
use crate::key::{user_keys, KeyView};
use crate::names::{JAR_NEEDS, JAR_SAVINGS, JAR_WANTS};
use crate::outcome::lock_remaining_outcome;

verus! {

/// The part of a table that belongs to one user.
pub open spec fn share<V>(table: Map<KeyView, V>, user: Seq<char>) -> Map<KeyView, V> {
    table.restrict(user_keys(user).to_set())
}

impl EnvView {
    /// The same surroundings with no persistent entry at hand but those that
    /// are kept for `user`.
    pub open spec fn share_of(self, user: Seq<char>) -> EnvView {
        EnvView {
            configs: share(self.configs, user),
            balances: share(self.balances, user),
            lock_times: share(self.lock_times, user),
            ..self
        }
    }

    /// The same surroundings with the persistent entries of `other` written
    /// over those at hand, and with its transfers.
    pub open spec fn overlaid_with(self, other: EnvView) -> EnvView {
        EnvView {
            configs: self.configs.union_prefer_right(other.configs),
            balances: self.balances.union_prefer_right(other.balances),
            lock_times: self.lock_times.union_prefer_right(other.lock_times),
            transfers: other.transfers,
            ..self
        }
    }
}

/// Which keys are kept for a user.
proof fn lemma_user_keys(user: Seq<char>)
    ensures
        user_keys(user).to_set().contains(KeyView::JarConfig(user)),
        user_keys(user).to_set().contains(KeyView::JarBalance(user, JAR_NEEDS@)),
        user_keys(user).to_set().contains(KeyView::JarBalance(user, JAR_WANTS@)),
        user_keys(user).to_set().contains(KeyView::JarBalance(user, JAR_SAVINGS@)),
        user_keys(user).to_set().contains(KeyView::SavingsLockTime(user)),
{
    let keys = user_keys(user);
    assert(keys[0] == KeyView::JarConfig(user));
    assert(keys[1] == KeyView::JarBalance(user, JAR_NEEDS@));
    assert(keys[2] == KeyView::JarBalance(user, JAR_WANTS@));
    assert(keys[3] == KeyView::JarBalance(user, JAR_SAVINGS@));
    assert(keys[4] == KeyView::SavingsLockTime(user));
}

/// The entries of a user are all that a call for that user needs. With only
/// them at hand the call is refused for the same reason or succeeds all the
/// same; and where it succeeds, writing what it leaves over the ledger gives
/// what the call gives on the whole ledger.
pub proof fn law_own_entries_suffice(env: EnvView, call: Call, user: Seq<char>)
    requires
        call.user() == Some(user),
    ensures
        match call.outcome(env.share_of(user)) {
            Ok(after) => {
                &&& call.outcome(env) == Ok::<EnvView, JarError>(
                    env.overlaid_with(after),
                )
                &&& after == env.overlaid_with(after).share_of(user)
            },
            Err(error) => call.outcome(env) == Err::<EnvView, JarError>(error),
        },
{
    lemma_user_keys(user);
    let part = env.share_of(user);
    assert(part.config_of(user) == env.config_of(user));
    assert(part.balance_of(user, JAR_NEEDS@) == env.balance_of(user, JAR_NEEDS@));
    assert(part.balance_of(user, JAR_WANTS@) == env.balance_of(user, JAR_WANTS@));
    assert(part.balance_of(user, JAR_SAVINGS@) == env.balance_of(user, JAR_SAVINGS@));
    assert(part.lock_time_of(user) == env.lock_time_of(user));
    if let Ok(after) = call.outcome(part) {
        assert(call.outcome(env) is Ok);
        let whole = call.outcome(env)->Ok_0;
        assert(whole =~= env.overlaid_with(after));
        assert(after =~= whole.share_of(user));
    }
}

/// What a user asks of the jars can be answered from the user's own entries.
pub proof fn law_own_entries_answer(env: EnvView, user: Seq<char>)
    ensures
        env.share_of(user).config_of(user) == env.config_of(user),
        env.share_of(user).balance_of(user, JAR_NEEDS@) == env.balance_of(user, JAR_NEEDS@),
        env.share_of(user).balance_of(user, JAR_WANTS@) == env.balance_of(user, JAR_WANTS@),
        env.share_of(user).balance_of(user, JAR_SAVINGS@) == env.balance_of(user, JAR_SAVINGS@),
        lock_remaining_outcome(env.share_of(user), user) == lock_remaining_outcome(env, user),
{
    lemma_user_keys(user);
}

} // verus!
