//! The keys under which the ledger keeps the contract's entries.

use vstd::prelude::*;

use crate::names::{Address, Symbol, JAR_NEEDS, JAR_SAVINGS, JAR_WANTS};

verus! {

/// The key of a ledger entry.
#[derive(Debug)]
pub enum DataKey {
    /// The admin who initialized the contract.
    Admin,
    /// The jar configuration of a user.
    JarConfig(Address),
    /// The balance of one jar of a user.
    JarBalance(Address, Symbol),
    /// When the user last made a deposit.
    SavingsLockTime(Address),
}

/// A key with its texts taken as character sequences.
pub enum KeyView {
    Admin,
    JarConfig(Seq<char>),
    JarBalance(Seq<char>, Seq<char>),
    SavingsLockTime(Seq<char>),
}

impl KeyView {
    /// Whether the key belongs to `user`.
    pub open spec fn belongs_to(self, user: Seq<char>) -> bool {
        match self {
            KeyView::Admin => false,
            KeyView::JarConfig(owner) => owner == user,
            KeyView::JarBalance(owner, _) => owner == user,
            KeyView::SavingsLockTime(owner) => owner == user,
        }
    }
}

impl View for DataKey {
    type V = KeyView;

    open spec fn view(&self) -> KeyView {
        match self {
            DataKey::Admin => KeyView::Admin,
            DataKey::JarConfig(user) => KeyView::JarConfig(user@),
            DataKey::JarBalance(user, jar) => KeyView::JarBalance(user@, jar@),
            DataKey::SavingsLockTime(user) => KeyView::SavingsLockTime(user@),
        }
    }
}

/// The keys of the entries that are kept for one user, in a fixed order.
pub open spec fn user_keys(user: Seq<char>) -> Seq<KeyView> {
    seq![
        KeyView::JarConfig(user),
        KeyView::JarBalance(user, JAR_NEEDS@),
        KeyView::JarBalance(user, JAR_WANTS@),
        KeyView::JarBalance(user, JAR_SAVINGS@),
        KeyView::SavingsLockTime(user),
    ]
}

impl DataKey {
    /// The key of the balance of the jar with the given name.
    pub fn balance(user: &Address, jar: &str) -> (key: DataKey)
        ensures
            key@ == KeyView::JarBalance(user@, jar@),
    {
        DataKey::JarBalance(user.clone(), Symbol::new(jar))
    }

    /// The keys of all entries that the contract keeps for `user`: what has to
    /// be at hand before a call for that user.
    pub fn all_of(user: &Address) -> (keys: Vec<DataKey>)
        ensures
            keys@.map_values(|key: DataKey| key@) == user_keys(user@),
    {
        let keys = vec![
            DataKey::JarConfig(user.clone()),
            DataKey::balance(user, JAR_NEEDS),
            DataKey::balance(user, JAR_WANTS),
            DataKey::balance(user, JAR_SAVINGS),
            DataKey::SavingsLockTime(user.clone()),
        ];
        assert(keys@.map_values(|key: DataKey| key@) =~= user_keys(user@));
        keys
    }
}

impl PartialEq for DataKey {
    fn eq(&self, other: &DataKey) -> (same: bool) {
        match (self, other) {
            (DataKey::Admin, DataKey::Admin) => true,
            (DataKey::JarConfig(a), DataKey::JarConfig(b)) => *a == *b,
            (DataKey::JarBalance(a, i), DataKey::JarBalance(b, j)) => *a == *b && *i == *j,
            (DataKey::SavingsLockTime(a), DataKey::SavingsLockTime(b)) => *a == *b,
            _ => false,
        }
    }
}

impl vstd::std_specs::cmp::PartialEqSpecImpl for DataKey {
    open spec fn obeys_eq_spec() -> bool {
        true
    }

    open spec fn eq_spec(&self, other: &DataKey) -> bool {
        self@ == other@
    }
}

impl Eq for DataKey {

}

} // verus!
