//! Why a call is refused.

use vstd::prelude::*;

verus! {

/// The reasons for which a call is refused. A refused call changes nothing.
#[derive(Debug, Clone, Copy, PartialEq, Eq, Structural)]
pub enum JarError {
    /// The contract has an admin already.
    AlreadyInitialized,
    /// The user has not authorized the call.
    NotAuthorized,
    /// The three percentages do not sum to 100.
    InvalidPercentages,
    /// The penalty for early withdrawal is above 50%.
    PenaltyTooHigh,
    /// The amount is zero or negative.
    AmountNotPositive,
    /// The user has set up no jars.
    JarsNotConfigured,
    /// Savings have a withdrawal of their own.
    UseWithdrawSavings,
    /// No jar has this name.
    InvalidJarName,
    /// The jar holds less than the amount.
    InsufficientBalance,
    /// The savings jar holds less than the amount.
    InsufficientSavings,
    /// The lock period has not passed, and the withdrawal is no emergency.
    SavingsLocked,
    /// A number that the call computes does not fit its type.
    ArithmeticOverflow,
}

/// The text of each error.
pub open spec fn message_of(error: JarError) -> Seq<char> {
    match error {
        JarError::AlreadyInitialized => "already initialized"@,
        JarError::NotAuthorized => "not authorized"@,
        JarError::InvalidPercentages => "percentages must sum to 100"@,
        JarError::PenaltyTooHigh => "penalty cannot exceed 50%"@,
        JarError::AmountNotPositive => "amount must be positive"@,
        JarError::JarsNotConfigured => "jars not configured"@,
        JarError::UseWithdrawSavings => "use withdraw_savings for savings jar"@,
        JarError::InvalidJarName => "invalid jar name"@,
        JarError::InsufficientBalance => "insufficient balance"@,
        JarError::InsufficientSavings => "insufficient savings balance"@,
        JarError::SavingsLocked => "savings locked until lock period expires"@,
        JarError::ArithmeticOverflow => "arithmetic overflow"@,
    }
}

impl JarError {
    /// What to tell the caller.
    pub fn message(&self) -> (text: &'static str)
        ensures
            text@ == message_of(*self),
    {
        match self {
            JarError::AlreadyInitialized => "already initialized",
            JarError::NotAuthorized => "not authorized",
            JarError::InvalidPercentages => "percentages must sum to 100",
            JarError::PenaltyTooHigh => "penalty cannot exceed 50%",
            JarError::AmountNotPositive => "amount must be positive",
            JarError::JarsNotConfigured => "jars not configured",
            JarError::UseWithdrawSavings => "use withdraw_savings for savings jar",
            JarError::InvalidJarName => "invalid jar name",
            JarError::InsufficientBalance => "insufficient balance",
            JarError::InsufficientSavings => "insufficient savings balance",
            JarError::SavingsLocked => "savings locked until lock period expires",
            JarError::ArithmeticOverflow => "arithmetic overflow",
        }
    }
}

} // verus!
