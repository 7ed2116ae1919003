//! Calls as values, and what a run of calls leads to.

use vstd::prelude::*;

use crate::config::ConfigView;
use crate::env::{EnvView, TransferView};
use crate::names::{JAR_NEEDS, JAR_SAVINGS, JAR_WANTS};
use crate::outcome::{
    deposit_outcome, initialize_outcome, setup_outcome, withdraw_outcome,
    withdraw_savings_outcome, Outcome,
};

verus! {

/// A call that may change the ledger.
pub enum Call {
    Initialize { admin: Seq<char> },
    SetupJars { user: Seq<char>, config: ConfigView },
    Deposit { user: Seq<char>, amount: i128 },
    Withdraw { user: Seq<char>, jar: Seq<char>, amount: i128 },
    WithdrawSavings { user: Seq<char>, amount: i128, emergency: bool },
}

impl Call {
    /// The user for whom the call is made; an initialization is made for nobody.
    pub open spec fn user(self) -> Option<Seq<char>> {
        match self {
            Call::Initialize { .. } => None,
            Call::SetupJars { user, .. } => Some(user),
            Call::Deposit { user, .. } => Some(user),
            Call::Withdraw { user, .. } => Some(user),
            Call::WithdrawSavings { user, .. } => Some(user),
        }
    }

    /// Where the call leads.
    pub open spec fn outcome(self, env: EnvView) -> Outcome {
        match self {
            Call::Initialize { admin } => initialize_outcome(env, admin),
            Call::SetupJars { user, config } => setup_outcome(env, user, config),
            Call::Deposit { user, amount } => deposit_outcome(env, user, amount),
            Call::Withdraw { user, jar, amount } => withdraw_outcome(
                env,
                user,
                jar,
                amount,
            ),
            Call::WithdrawSavings { user, amount, emergency } => withdraw_savings_outcome(
                env,
                user,
                amount,
                emergency,
            ),
        }
    }
}

/// A call with the time at which it is made and those who authorized it.
pub struct Event {
    pub timestamp: u64,
    pub authorized: Seq<Seq<char>>,
    pub call: Call,
}

impl Event {
    /// The surroundings in which the call is made.
    pub open spec fn surroundings(self, env: EnvView) -> EnvView {
        EnvView { timestamp: self.timestamp, authorized: self.authorized, ..env }
    }

    /// The surroundings after the call; a refused call changes no entry and
    /// orders no transfer.
    pub open spec fn applied(self, env: EnvView) -> EnvView {
        match self.call.outcome(self.surroundings(env)) {
            Ok(after) => after,
            Err(_) => self.surroundings(env),
        }
    }
}

/// The surroundings after all the events, in order.
pub open spec fn after_all(env: EnvView, events: Seq<Event>) -> EnvView
    decreases events.len(),
{
    if events.len() == 0 {
        env
    } else {
        events.last().applied(after_all(env, events.drop_last()))
    }
}

/// What a transfer adds to what `account` holds of `token`.
pub open spec fn gain(transfer: TransferView, token: Seq<char>, account: Seq<char>) -> int {
    if transfer.token != token || transfer.from == transfer.to {
        0
    } else if transfer.to == account {
        transfer.amount as int
    } else if transfer.from == account {
        -transfer.amount
    } else {
        0
    }
}

/// What the transfers, together, add to what `account` holds of `token`.
pub open spec fn total_gain(
    transfers: Seq<TransferView>,
    token: Seq<char>,
    account: Seq<char>,
) -> int
    decreases transfers.len(),
{
    if transfers.len() == 0 {
        0
    } else {
        total_gain(transfers.drop_last(), token, account) + gain(
            transfers.last(),
            token,
            account,
        )
    }
}

impl EnvView {
    /// What the contract has received of `token`, less what it has paid out.
    pub open spec fn held(self, token: Seq<char>) -> int {
        total_gain(self.transfers, token, self.contract)
    }

    /// What the jars of `user` say that the contract owes the user, in `token`.
    pub open spec fn owed_to(self, user: Seq<char>, token: Seq<char>) -> int {
        match self.config_of(user) {
            Some(config) => if config.token == token {
                self.total_of(user)
            } else {
                0
            },
            None => 0,
        }
    }

    /// What the contract owes the listed users together, in `token`.
    pub open spec fn owed(self, users: Seq<Seq<char>>, token: Seq<char>) -> int
        decreases users.len(),
    {
        if users.len() == 0 {
            0
        } else {
            self.owed(users.drop_last(), token) + self.owed_to(users.last(), token)
        }
    }

    /// The configuration of `user`, if there is one, is valid, and no jar of
    /// the user is below zero.
    pub open spec fn sound_for(self, user: Seq<char>) -> bool {
        &&& self.config_of(user) matches Some(config) ==> config.valid()
        &&& 0 <= self.balance_of(user, JAR_NEEDS@)
        &&& 0 <= self.balance_of(user, JAR_WANTS@)
        &&& 0 <= self.balance_of(user, JAR_SAVINGS@)
    }

    /// Every configuration is valid, and no jar is below zero.
    pub open spec fn sound(self) -> bool {
        forall|user: Seq<char>| #[trigger] self.sound_for(user)
    }

    /// Whatever users are listed, the contract holds what it owes them.
    pub open spec fn backed(self) -> bool {
        forall|users: Seq<Seq<char>>, token: Seq<char>|
            users.no_duplicates() ==> #[trigger] self.owed(users, token) <= self.held(token)
    }
}

} // verus!
