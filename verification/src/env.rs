//! What a call sees of the ledger, and what it asks of it.

use vstd::prelude::*;

use crate::config::{ConfigView, JarConfig};
use crate::key::KeyView;
use crate::names::{Address, JAR_NEEDS, JAR_SAVINGS, JAR_WANTS};
use crate::table::Table;

verus! {

/// An order to a token contract: move `amount` between two addresses.
#[derive(Debug)]
pub struct Transfer {
    pub token: Address,
    pub from: Address,
    pub to: Address,
    pub amount: i128,
}

/// A transfer with its addresses taken as character sequences.
pub struct TransferView {
    pub token: Seq<char>,
    pub from: Seq<char>,
    pub to: Seq<char>,
    pub amount: i128,
}

impl View for Transfer {
    type V = TransferView;

    open spec fn view(&self) -> TransferView {
        TransferView {
            token: self.token@,
            from: self.from@,
            to: self.to@,
            amount: self.amount,
        }
    }
}

/// The surroundings of a call: who authorized it, when it runs, the ledger
/// entries at hand, and the transfers it has ordered.
///
/// An entry that is not at hand counts as absent.
#[derive(Debug)]
pub struct Env {
    /// The address of the contract itself.
    pub contract: Address,
    /// The time of the ledger, in seconds.
    pub timestamp: u64,
    /// The addresses that authorized the call.
    pub authorized: Vec<Address>,
    /// Entries that live as long as the contract: the admin.
    pub instance: Table<Address>,
    /// Jar configurations.
    pub configs: Table<JarConfig>,
    /// Jar balances.
    pub balances: Table<i128>,
    /// Times of the last deposits.
    pub lock_times: Table<u64>,
    /// The transfers ordered so far, oldest first.
    pub transfers: Vec<Transfer>,
}

/// The mathematical model of an `Env`.
#[verifier::ext_equal]
pub struct EnvView {
    pub contract: Seq<char>,
    pub timestamp: u64,
    pub authorized: Seq<Seq<char>>,
    pub instance: Map<KeyView, Seq<char>>,
    pub configs: Map<KeyView, ConfigView>,
    pub balances: Map<KeyView, i128>,
    pub lock_times: Map<KeyView, u64>,
    pub transfers: Seq<TransferView>,
}

impl View for Env {
    type V = EnvView;

    open spec fn view(&self) -> EnvView {
        EnvView {
            contract: self.contract@,
            timestamp: self.timestamp,
            authorized: self.authorized@.map_values(|address: Address| address@),
            instance: self.instance@,
            configs: self.configs@,
            balances: self.balances@,
            lock_times: self.lock_times@,
            transfers: self.transfers@.map_values(|transfer: Transfer| transfer@),
        }
    }
}

impl EnvView {
    /// The surroundings of the first call, with no entry on the ledger.
    pub open spec fn fresh(contract: Seq<char>, timestamp: u64) -> EnvView {
        EnvView {
            contract,
            timestamp,
            authorized: Seq::empty(),
            instance: Map::empty(),
            configs: Map::empty(),
            balances: Map::empty(),
            lock_times: Map::empty(),
            transfers: Seq::empty(),
        }
    }

    /// Whether `address` authorized the call.
    pub open spec fn authorizes(self, address: Seq<char>) -> bool {
        self.authorized.contains(address)
    }

    /// The admin, once there is one.
    pub open spec fn admin(self) -> Option<Seq<char>> {
        self.instance.get(KeyView::Admin)
    }

    /// The configuration of `user`, if the user has set one up.
    pub open spec fn config_of(self, user: Seq<char>) -> Option<ConfigView> {
        self.configs.get(KeyView::JarConfig(user))
    }

    /// The balance of a jar; a jar without an entry is empty.
    pub open spec fn balance_of(self, user: Seq<char>, jar: Seq<char>) -> i128 {
        match self.balances.get(KeyView::JarBalance(user, jar)) {
            Some(balance) => balance,
            None => 0,
        }
    }

    /// The balances of the three jars together.
    pub open spec fn total_of(self, user: Seq<char>) -> int {
        self.balance_of(user, JAR_NEEDS@) + self.balance_of(user, JAR_WANTS@) + self.balance_of(
            user,
            JAR_SAVINGS@,
        )
    }

    /// When `user` last made a deposit; the beginning of time if never.
    pub open spec fn lock_time_of(self, user: Seq<char>) -> u64 {
        match self.lock_times.get(KeyView::SavingsLockTime(user)) {
            Some(time) => time,
            None => 0,
        }
    }

    /// When the savings of `user` are free, under the given configuration.
    pub open spec fn unlock_time_of(self, user: Seq<char>, config: ConfigView) -> int {
        self.lock_time_of(user) + config.savings_lock_seconds
    }

    /// The same, with `admin` as the admin.
    pub open spec fn with_admin(self, admin: Seq<char>) -> EnvView {
        EnvView { instance: self.instance.insert(KeyView::Admin, admin), ..self }
    }

    /// The same, with a configuration for `user`.
    pub open spec fn with_config(self, user: Seq<char>, config: ConfigView) -> EnvView {
        EnvView { configs: self.configs.insert(KeyView::JarConfig(user), config), ..self }
    }

    /// The same, with a balance for one jar of `user`.
    pub open spec fn with_balance(
        self,
        user: Seq<char>,
        jar: Seq<char>,
        balance: int,
    ) -> EnvView {
        EnvView {
            balances: self.balances.insert(KeyView::JarBalance(user, jar), balance as i128),
            ..self
        }
    }

    /// The same, with a time of the last deposit for `user`.
    pub open spec fn with_lock_time(self, user: Seq<char>, time: u64) -> EnvView {
        EnvView {
            lock_times: self.lock_times.insert(KeyView::SavingsLockTime(user), time),
            ..self
        }
    }

    /// The same, with one more transfer ordered.
    pub open spec fn with_transfer(
        self,
        token: Seq<char>,
        from: Seq<char>,
        to: Seq<char>,
        amount: int,
    ) -> EnvView {
        EnvView {
            transfers: self.transfers.push(
                TransferView { token, from, to, amount: amount as i128 },
            ),
            ..self
        }
    }
}

impl Env {
    /// The surroundings of a call of `contract` at the given time: nobody has
    /// authorized it, no entry is at hand, and no transfer is ordered.
    pub fn new(contract: Address, timestamp: u64) -> (env: Env)
        ensures
            env@ == EnvView::fresh(contract@, timestamp),
    {
        let env = Env {
            contract,
            timestamp,
            authorized: Vec::new(),
            instance: Table::new(),
            configs: Table::new(),
            balances: Table::new(),
            lock_times: Table::new(),
            transfers: Vec::new(),
        };
        assert(env@ =~= EnvView::fresh(contract@, timestamp));
        env
    }

    /// Records that `address` authorized the call.
    pub fn authorize(&mut self, address: Address)
        ensures
            final(self)@ == (EnvView {
                authorized: old(self)@.authorized.push(address@),
                ..old(self)@
            }),
    {
        let ghost before = self@;
        self.authorized.push(address);
        assert(self@ =~= (EnvView { authorized: before.authorized.push(address@), ..before }));
    }

    /// Whether `address` authorized the call.
    pub fn has_auth(&self, address: &Address) -> (authorized: bool)
        ensures
            authorized == self@.authorizes(address@),
    {
        let ghost known = self@.authorized;
        let mut index: usize = 0;
        while index < self.authorized.len()
            invariant
                index <= self.authorized@.len(),
                known == self@.authorized,
                forall|i: int| 0 <= i < index ==> known[i] != address@,
            decreases self.authorized@.len() - index,
        {
            assert(known[index as int] == self.authorized@[index as int]@);
            if self.authorized[index] == *address {
                return true;
            }
            index = index + 1;
        }
        false
    }

    /// Orders a transfer.
    pub fn transfer(&mut self, token: Address, from: Address, to: Address, amount: i128)
        ensures
            final(self)@ == old(self)@.with_transfer(token@, from@, to@, amount as int),
    {
        let ghost before = self@;
        self.transfers.push(Transfer { token, from, to, amount });
        assert(self@ =~= before.with_transfer(token@, from@, to@, amount as int));
    }
}

} // verus!
