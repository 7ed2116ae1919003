//! How a user's deposits are split, and how their savings are locked.

use vstd::prelude::*;

use crate::names::Address;

verus! {

/// The jar configuration of one user.
#[derive(Debug)]
pub struct JarConfig {
    /// Percentage for the "needs" jar.
    pub needs_pct: u32,
    /// Percentage for the "wants" jar.
    pub wants_pct: u32,
    /// Percentage for the "savings" jar.
    pub savings_pct: u32,
    /// The token contract that holds the money.
    pub token: Address,
    /// How long savings stay locked after a deposit, in seconds; 30 days are
    /// 2592000.
    pub savings_lock_seconds: u64,
    /// Percentage that is kept back when savings are withdrawn early.
    pub early_withdrawal_penalty_pct: u32,
}

/// A configuration with the token's address taken as a character sequence.
pub struct ConfigView {
    pub needs_pct: u32,
    pub wants_pct: u32,
    pub savings_pct: u32,
    pub token: Seq<char>,
    pub savings_lock_seconds: u64,
    pub early_withdrawal_penalty_pct: u32,
}

impl ConfigView {
    /// The percentages divide the whole, and the penalty is at most a half.
    pub open spec fn valid(self) -> bool {
        &&& self.needs_pct + self.wants_pct + self.savings_pct == 100
        &&& self.early_withdrawal_penalty_pct <= 50
    }
}

impl View for JarConfig {
    type V = ConfigView;

    open spec fn view(&self) -> ConfigView {
        ConfigView {
            needs_pct: self.needs_pct,
            wants_pct: self.wants_pct,
            savings_pct: self.savings_pct,
            token: self.token@,
            savings_lock_seconds: self.savings_lock_seconds,
            early_withdrawal_penalty_pct: self.early_withdrawal_penalty_pct,
        }
    }
}

impl Clone for JarConfig {
    fn clone(&self) -> (copy: JarConfig)
        ensures
            copy@ == self@,
    {
        JarConfig {
            needs_pct: self.needs_pct,
            wants_pct: self.wants_pct,
            savings_pct: self.savings_pct,
            token: self.token.clone(),
            savings_lock_seconds: self.savings_lock_seconds,
            early_withdrawal_penalty_pct: self.early_withdrawal_penalty_pct,
        }
    }
}

} // verus!
