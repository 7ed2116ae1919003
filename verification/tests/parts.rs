use budget_jar::config::JarConfig;
use budget_jar::contract::payout;
use budget_jar::error::JarError;
use budget_jar::key::DataKey;
use budget_jar::names::{Address, Symbol, JAR_NEEDS, JAR_SAVINGS, JAR_WANTS};
use budget_jar::split::{early_payout, portion, split, Split};
use budget_jar::table::Table;

fn config(needs_pct: u32, wants_pct: u32, savings_pct: u32, penalty: u32) -> JarConfig {
    JarConfig {
        needs_pct,
        wants_pct,
        savings_pct,
        token: Address::new("TOKEN"),
        savings_lock_seconds: 60,
        early_withdrawal_penalty_pct: penalty,
    }
}

#[test]
fn portions_are_rounded_down() {
    assert_eq!(portion(199, 50), Ok(99));
    assert_eq!(portion(1, 99), Ok(0));
    assert_eq!(portion(1, 100), Ok(1));
    assert_eq!(portion(7, 0), Ok(0));
    assert_eq!(portion(i128::MAX, 1), Ok(i128::MAX / 100));
    assert_eq!(portion(i128::MAX, 2), Err(JarError::ArithmeticOverflow));
}

#[test]
fn split_keeps_the_whole() {
    let parts = split(&config(33, 33, 34, 0), 199).unwrap();
    assert_eq!(parts, Split { needs: 65, wants: 65, savings: 69 });
    let hundreds = split(&config(33, 33, 34, 0), 700).unwrap();
    assert_eq!(hundreds, Split { needs: 231, wants: 231, savings: 238 });
    assert_eq!(
        split(&config(0, 100, 0, 0), i128::MAX),
        Err(JarError::ArithmeticOverflow)
    );
}

#[test]
fn penalty_is_at_most_a_half() {
    assert_eq!(early_payout(&config(50, 30, 20, 50), 101), Ok(51));
    assert_eq!(early_payout(&config(50, 30, 20, 10), 100), Ok(90));
    assert_eq!(early_payout(&config(50, 30, 20, 0), 100), Ok(100));
    assert_eq!(
        early_payout(&config(50, 30, 20, 50), i128::MAX),
        Err(JarError::ArithmeticOverflow)
    );
}

#[test]
fn payout_depends_on_lock_and_emergency() {
    let config = config(50, 30, 20, 25);
    assert_eq!(payout(&config, 60, 60, 100, false), Ok(100));
    assert_eq!(payout(&config, 60, 61, 100, true), Ok(100));
    assert_eq!(payout(&config, 60, 59, 100, true), Ok(75));
    assert_eq!(payout(&config, 60, 59, 100, false), Err(JarError::SavingsLocked));
}

#[test]
fn keys_of_a_user() {
    let user = Address::new("USER");
    let keys = DataKey::all_of(&user);
    assert_eq!(
        keys,
        vec![
            DataKey::JarConfig(user.clone()),
            DataKey::JarBalance(user.clone(), Symbol::new(JAR_NEEDS)),
            DataKey::JarBalance(user.clone(), Symbol::new(JAR_WANTS)),
            DataKey::JarBalance(user.clone(), Symbol::new(JAR_SAVINGS)),
            DataKey::SavingsLockTime(user.clone()),
        ]
    );
    assert_ne!(DataKey::JarConfig(user.clone()), DataKey::SavingsLockTime(user));
}

#[test]
fn table_keeps_one_entry_for_each_key() {
    let user = Address::new("USER");
    let other = Address::new("OTHER");
    let mut table: Table<u64> = Table::new();
    assert_eq!(table.get(&DataKey::Admin), None);
    table.set(DataKey::SavingsLockTime(user.clone()), 1);
    table.set(DataKey::SavingsLockTime(other.clone()), 2);
    table.set(DataKey::SavingsLockTime(user.clone()), 3);
    assert_eq!(table.get(&DataKey::SavingsLockTime(user.clone())), Some(&3));
    assert_eq!(table.get(&DataKey::SavingsLockTime(other)), Some(&2));
    assert_eq!(table.get(&DataKey::JarConfig(user)), None);
}

#[test]
fn errors_say_what_is_wrong() {
    assert_eq!(JarError::AlreadyInitialized.message(), "already initialized");
    assert_eq!(JarError::NotAuthorized.message(), "not authorized");
    assert_eq!(JarError::InvalidPercentages.message(), "percentages must sum to 100");
    assert_eq!(JarError::PenaltyTooHigh.message(), "penalty cannot exceed 50%");
    assert_eq!(JarError::AmountNotPositive.message(), "amount must be positive");
    assert_eq!(JarError::JarsNotConfigured.message(), "jars not configured");
    assert_eq!(JarError::UseWithdrawSavings.message(), "use withdraw_savings for savings jar");
    assert_eq!(JarError::InvalidJarName.message(), "invalid jar name");
    assert_eq!(JarError::InsufficientBalance.message(), "insufficient balance");
    assert_eq!(JarError::InsufficientSavings.message(), "insufficient savings balance");
    assert_eq!(JarError::SavingsLocked.message(), "savings locked until lock period expires");
    assert_eq!(JarError::ArithmeticOverflow.message(), "arithmetic overflow");
}
