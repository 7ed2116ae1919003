use std::collections::HashMap;

use budget_jar::contract::BudgetJarContract;
use budget_jar::env::Env;
use budget_jar::error::JarError;
use budget_jar::key::DataKey;
use budget_jar::names::{Address, Symbol};

/// What the accounts hold of the tokens; settles the transfers that calls order.
struct Bank {
    holdings: HashMap<(String, String), i128>,
    settled: usize,
}

impl Bank {
    fn balance(&self, token: &Address, account: &Address) -> i128 {
        let key = (token.text.clone(), account.text.clone());
        *self.holdings.get(&key).unwrap_or(&0)
    }

    fn mint(&mut self, token: &Address, account: &Address, amount: i128) {
        let key = (token.text.clone(), account.text.clone());
        *self.holdings.entry(key).or_insert(0) += amount;
    }

    fn settle(&mut self, env: &Env) {
        for transfer in env.transfers.iter().skip(self.settled) {
            assert!(transfer.amount >= 0);
            assert!(self.balance(&transfer.token, &transfer.from) >= transfer.amount);
            self.mint(&transfer.token, &transfer.from, -transfer.amount);
            self.mint(&transfer.token, &transfer.to, transfer.amount);
        }
        self.settled = env.transfers.len();
    }
}

fn setup_test() -> (Env, Bank, Address, Address) {
    let mut env = Env::new(Address::new("CONTRACT"), 0);
    let admin = Address::new("ADMIN");
    let user = Address::new("USER");
    let token = Address::new("TOKEN");
    let mut bank = Bank { holdings: HashMap::new(), settled: 0 };

    // 100,000 USDC (7 decimals)
    bank.mint(&token, &user, 100_000_0000000);
    env.authorize(user.clone());

    BudgetJarContract::initialize(&mut env, admin).unwrap();
    (env, bank, user, token)
}

fn setup_jars(env: &mut Env, user: &Address, token: &Address, lock: u64) {
    BudgetJarContract::setup_jars(env, user.clone(), token.clone(), 50, 30, 20, lock, 10).unwrap();
}

fn balance(env: &Env, user: &Address, jar: &str) -> i128 {
    BudgetJarContract::get_jar_balance(env, user.clone(), Symbol::new(jar))
}

#[test]
fn contract_is_initialized_once() {
    let mut env = Env::new(Address::new("CONTRACT"), 7);
    assert_eq!(BudgetJarContract::initialize(&mut env, Address::new("A")), Ok(()));
    assert_eq!(
        BudgetJarContract::initialize(&mut env, Address::new("B")),
        Err(JarError::AlreadyInitialized)
    );
    let admin = env.instance.get(&DataKey::Admin).unwrap();
    assert_eq!(*admin, Address::new("A"));
}

#[test]
fn calls_without_authorization_are_refused() {
    let (mut env, _bank, _user, token) = setup_test();
    let other = Address::new("OTHER");
    assert_eq!(
        BudgetJarContract::setup_jars(&mut env, other.clone(), token, 50, 30, 20, 1, 1),
        Err(JarError::NotAuthorized)
    );
    assert_eq!(
        BudgetJarContract::deposit(&mut env, other.clone(), 0),
        Err(JarError::NotAuthorized)
    );
    assert_eq!(
        BudgetJarContract::withdraw(&mut env, other.clone(), Symbol::new("x"), 0),
        Err(JarError::NotAuthorized)
    );
    assert_eq!(
        BudgetJarContract::withdraw_savings(&mut env, other, 0, true),
        Err(JarError::NotAuthorized)
    );
    assert_eq!(env.transfers.len(), 0);
}

#[test]
fn setup_checks_its_percentages() {
    let (mut env, _bank, user, token) = setup_test();
    let mut setup = |needs: u32, wants: u32, savings: u32, penalty: u32| {
        BudgetJarContract::setup_jars(
            &mut env,
            user.clone(),
            token.clone(),
            needs,
            wants,
            savings,
            5,
            penalty,
        )
    };
    assert_eq!(setup(50, 30, 21, 10), Err(JarError::InvalidPercentages));
    assert_eq!(setup(0, 0, 0, 60), Err(JarError::InvalidPercentages));
    assert_eq!(setup(u32::MAX, 1, 0, 10), Err(JarError::ArithmeticOverflow));
    assert_eq!(setup(u32::MAX - 1, 1, 1, 10), Err(JarError::ArithmeticOverflow));
    assert_eq!(setup(50, 30, 20, 51), Err(JarError::PenaltyTooHigh));
    assert_eq!(setup(50, 30, 20, 50), Ok(()));
    assert_eq!(setup(0, 0, 100, 0), Ok(()));
}

#[test]
fn setup_is_read_back_and_empties_the_jars() {
    let (mut env, _bank, user, token) = setup_test();
    assert_eq!(
        BudgetJarContract::get_config(&env, user.clone()).err(),
        Some(JarError::JarsNotConfigured)
    );
    setup_jars(&mut env, &user, &token, 9);
    BudgetJarContract::deposit(&mut env, user.clone(), 77).unwrap();
    let other_token = Address::new("TOKEN2");
    BudgetJarContract::setup_jars(&mut env, user.clone(), other_token.clone(), 1, 2, 97, 3, 4)
        .unwrap();
    let config = BudgetJarContract::get_config(&env, user.clone()).unwrap();
    assert_eq!(config.needs_pct, 1);
    assert_eq!(config.wants_pct, 2);
    assert_eq!(config.savings_pct, 97);
    assert_eq!(config.token, other_token);
    assert_eq!(config.savings_lock_seconds, 3);
    assert_eq!(config.early_withdrawal_penalty_pct, 4);
    assert_eq!(BudgetJarContract::get_all_balances(&env, user), (0, 0, 0));
}

#[test]
fn remainder_goes_to_savings() {
    let (mut env, _bank, user, token) = setup_test();
    BudgetJarContract::setup_jars(&mut env, user.clone(), token.clone(), 33, 33, 34, 0, 0).unwrap();
    BudgetJarContract::deposit(&mut env, user.clone(), 101).unwrap();
    assert_eq!(BudgetJarContract::get_all_balances(&env, user.clone()), (33, 33, 35));
    BudgetJarContract::deposit(&mut env, user.clone(), 1).unwrap();
    assert_eq!(BudgetJarContract::get_all_balances(&env, user.clone()), (33, 33, 36));
    let transfer = &env.transfers[1];
    assert_eq!(transfer.token, token);
    assert_eq!(transfer.from, user);
    assert_eq!(transfer.to, Address::new("CONTRACT"));
    assert_eq!(transfer.amount, 1);
}

#[test]
fn deposits_are_refused_with_their_reason() {
    let (mut env, _bank, user, token) = setup_test();
    let deposit = |env: &mut Env, amount: i128| {
        BudgetJarContract::deposit(env, user.clone(), amount)
    };
    assert_eq!(deposit(&mut env, 0), Err(JarError::AmountNotPositive));
    assert_eq!(deposit(&mut env, -5), Err(JarError::AmountNotPositive));
    assert_eq!(deposit(&mut env, 5), Err(JarError::JarsNotConfigured));
    setup_jars(&mut env, &user, &token, 9);
    assert_eq!(deposit(&mut env, i128::MAX), Err(JarError::ArithmeticOverflow));
    // The largest amount of which 50% can be computed
    let largest = i128::MAX / 50;
    assert_eq!(deposit(&mut env, largest + 1), Err(JarError::ArithmeticOverflow));
    assert_eq!(deposit(&mut env, largest), Ok(()));
    assert_eq!(env.transfers.len(), 1);
}

#[test]
fn full_jar_refuses_a_deposit() {
    let (mut env, _bank, user, token) = setup_test();
    setup_jars(&mut env, &user, &token, 9);
    env.balances.set(DataKey::balance(&user, "wants"), i128::MAX - 29);
    assert_eq!(
        BudgetJarContract::deposit(&mut env, user.clone(), 100),
        Err(JarError::ArithmeticOverflow)
    );
    assert_eq!(BudgetJarContract::get_all_balances(&env, user.clone()), (0, i128::MAX - 29, 0));
    assert_eq!(BudgetJarContract::deposit(&mut env, user.clone(), 98), Ok(()));
    assert_eq!(BudgetJarContract::get_all_balances(&env, user), (49, i128::MAX, 20));
}

#[test]
fn withdrawals_are_refused_with_their_reason() {
    let (mut env, _bank, user, token) = setup_test();
    let withdraw = |env: &mut Env, jar: &str, amount: i128| {
        BudgetJarContract::withdraw(env, user.clone(), Symbol::new(jar), amount)
    };
    assert_eq!(withdraw(&mut env, "savings", 0), Err(JarError::AmountNotPositive));
    assert_eq!(withdraw(&mut env, "savings", 1), Err(JarError::UseWithdrawSavings));
    assert_eq!(withdraw(&mut env, "Needs", 1), Err(JarError::InvalidJarName));
    assert_eq!(withdraw(&mut env, "", 1), Err(JarError::InvalidJarName));
    assert_eq!(withdraw(&mut env, "wants", 1), Err(JarError::JarsNotConfigured));
    setup_jars(&mut env, &user, &token, 9);
    BudgetJarContract::deposit(&mut env, user.clone(), 100).unwrap();
    assert_eq!(withdraw(&mut env, "wants", 31), Err(JarError::InsufficientBalance));
    assert_eq!(withdraw(&mut env, "wants", 30), Ok(()));
    assert_eq!(BudgetJarContract::get_all_balances(&env, user.clone()), (50, 0, 20));
    assert_eq!(balance(&env, &user, "no_such_jar"), 0);
}

#[test]
fn savings_withdrawals_are_refused_with_their_reason() {
    let (mut env, _bank, user, token) = setup_test();
    let withdraw = |env: &mut Env, amount: i128, emergency: bool| {
        BudgetJarContract::withdraw_savings(env, user.clone(), amount, emergency)
    };
    assert_eq!(withdraw(&mut env, 0, true), Err(JarError::AmountNotPositive));
    assert_eq!(withdraw(&mut env, 1, true), Err(JarError::JarsNotConfigured));
    env.timestamp = 1000;
    setup_jars(&mut env, &user, &token, 50);
    BudgetJarContract::deposit(&mut env, user.clone(), 100).unwrap();
    assert_eq!(withdraw(&mut env, 21, true), Err(JarError::InsufficientSavings));
    env.timestamp = 1049;
    assert_eq!(withdraw(&mut env, 20, false), Err(JarError::SavingsLocked));
    // 10% of 5 is rounded down to nothing
    assert_eq!(withdraw(&mut env, 5, true), Ok(()));
    assert_eq!(env.transfers[1].amount, 5);
    assert_eq!(env.transfers[1].from, Address::new("CONTRACT"));
    assert_eq!(env.transfers[1].to, user);
    env.timestamp = 1050;
    assert_eq!(withdraw(&mut env, 15, false), Ok(()));
    assert_eq!(env.transfers[2].amount, 15);
    assert_eq!(balance(&env, &user, "savings"), 0);
}

#[test]
fn endless_lock_overflows() {
    let (mut env, _bank, user, token) = setup_test();
    env.timestamp = 1;
    setup_jars(&mut env, &user, &token, u64::MAX);
    BudgetJarContract::deposit(&mut env, user.clone(), 100).unwrap();
    assert_eq!(
        BudgetJarContract::withdraw_savings(&mut env, user.clone(), 1, true),
        Err(JarError::ArithmeticOverflow)
    );
    assert_eq!(
        BudgetJarContract::get_savings_lock_remaining(&env, user),
        Err(JarError::ArithmeticOverflow)
    );
}

#[test]
fn huge_penalty_overflows() {
    let (mut env, _bank, user, token) = setup_test();
    setup_jars(&mut env, &user, &token, 50);
    env.balances.set(DataKey::balance(&user, "savings"), i128::MAX);
    assert_eq!(
        BudgetJarContract::withdraw_savings(&mut env, user.clone(), i128::MAX, true),
        Err(JarError::ArithmeticOverflow)
    );
    assert_eq!(balance(&env, &user, "savings"), i128::MAX);

    // Once the lock period has passed no penalty is computed.
    env.timestamp = 50;
    assert_eq!(
        BudgetJarContract::withdraw_savings(&mut env, user.clone(), i128::MAX, true),
        Ok(())
    );
    assert_eq!(env.transfers[0].amount, i128::MAX);
}

#[test]
fn lock_runs_down_after_each_deposit() {
    let (mut env, _bank, user, token) = setup_test();
    assert_eq!(
        BudgetJarContract::get_savings_lock_remaining(&env, user.clone()),
        Err(JarError::JarsNotConfigured)
    );
    env.timestamp = 20;
    setup_jars(&mut env, &user, &token, 30);
    // Without a deposit the lock counts from the beginning of time.
    assert_eq!(BudgetJarContract::get_savings_lock_remaining(&env, user.clone()), Ok(10));
    env.timestamp = 100;
    assert_eq!(BudgetJarContract::get_savings_lock_remaining(&env, user.clone()), Ok(0));
    BudgetJarContract::deposit(&mut env, user.clone(), 10).unwrap();
    assert_eq!(BudgetJarContract::get_savings_lock_remaining(&env, user.clone()), Ok(30));
    env.timestamp = 129;
    assert_eq!(BudgetJarContract::get_savings_lock_remaining(&env, user.clone()), Ok(1));
    BudgetJarContract::deposit(&mut env, user.clone(), 10).unwrap();
    assert_eq!(BudgetJarContract::get_savings_lock_remaining(&env, user.clone()), Ok(30));
    env.timestamp = 159;
    assert_eq!(BudgetJarContract::get_savings_lock_remaining(&env, user), Ok(0));
}

#[test]
fn users_do_not_touch_each_other() {
    let (mut env, _bank, user, token) = setup_test();
    let other = Address::new("OTHER");
    env.authorize(other.clone());
    setup_jars(&mut env, &user, &token, 9);
    BudgetJarContract::deposit(&mut env, user.clone(), 100).unwrap();
    env.timestamp = 5;
    BudgetJarContract::setup_jars(&mut env, other.clone(), token.clone(), 10, 10, 80, 1, 0).unwrap();
    BudgetJarContract::deposit(&mut env, other.clone(), 1000).unwrap();
    BudgetJarContract::withdraw(&mut env, other.clone(), Symbol::new("needs"), 40).unwrap();
    assert_eq!(BudgetJarContract::get_all_balances(&env, user.clone()), (50, 30, 20));
    assert_eq!(BudgetJarContract::get_all_balances(&env, other), (60, 100, 800));
    assert_eq!(BudgetJarContract::get_savings_lock_remaining(&env, user), Ok(4));
}

#[test]
fn withdrawal_undoes_a_deposit() {
    let (mut env, mut bank, user, token) = setup_test();
    setup_jars(&mut env, &user, &token, 0);
    BudgetJarContract::deposit(&mut env, user.clone(), 999).unwrap();
    BudgetJarContract::withdraw(&mut env, user.clone(), Symbol::new("needs"), 499).unwrap();
    BudgetJarContract::withdraw(&mut env, user.clone(), Symbol::new("wants"), 299).unwrap();
    BudgetJarContract::withdraw_savings(&mut env, user.clone(), 201, false).unwrap();
    bank.settle(&env);
    assert_eq!(BudgetJarContract::get_all_balances(&env, user.clone()), (0, 0, 0));
    assert_eq!(bank.balance(&token, &user), 100_000_0000000);
    assert_eq!(bank.balance(&token, &Address::new("CONTRACT")), 0);
}

#[test]
fn contract_can_pay_what_it_owes() {
    let (mut env, mut bank, user, token) = setup_test();
    let contract = Address::new("CONTRACT");
    setup_jars(&mut env, &user, &token, 100);
    BudgetJarContract::deposit(&mut env, user.clone(), 1000).unwrap();
    BudgetJarContract::withdraw_savings(&mut env, user.clone(), 100, true).unwrap();
    bank.settle(&env);
    let (needs, wants, savings) = BudgetJarContract::get_all_balances(&env, user.clone());
    assert_eq!(needs + wants + savings, 900);
    // The penalty stays with the contract.
    assert_eq!(bank.balance(&token, &contract), 910);
}

#[test]
fn penalty_is_surplus_over_all_users() {
    let (mut env, mut bank, user, token) = setup_test();
    let contract = Address::new("CONTRACT");
    let other = Address::new("OTHER");
    env.authorize(other.clone());
    bank.mint(&token, &other, 500);
    setup_jars(&mut env, &user, &token, 100);
    setup_jars(&mut env, &other, &token, 100);
    BudgetJarContract::deposit(&mut env, user.clone(), 1000).unwrap();
    BudgetJarContract::deposit(&mut env, other.clone(), 500).unwrap();
    bank.settle(&env);
    let surplus = |env: &Env, bank: &Bank| {
        let mut owed: i128 = 0;
        for account in [&user, &other] {
            let (needs, wants, savings) = BudgetJarContract::get_all_balances(env, account.clone());
            owed = owed + needs + wants + savings;
        }
        bank.balance(&token, &contract) - owed
    };
    assert_eq!(surplus(&env, &bank), 0);
    BudgetJarContract::withdraw_savings(&mut env, user.clone(), 150, true).unwrap();
    bank.settle(&env);
    assert_eq!(surplus(&env, &bank), 15);
}

#[test]
fn contract_as_user_keeps_jars_sound() {
    let (mut env, _bank, _user, token) = setup_test();
    let contract = Address::new("CONTRACT");
    env.authorize(contract.clone());
    setup_jars(&mut env, &contract, &token, 100);
    BudgetJarContract::deposit(&mut env, contract.clone(), 101).unwrap();
    BudgetJarContract::withdraw_savings(&mut env, contract.clone(), 21, true).unwrap();
    assert_eq!(
        BudgetJarContract::withdraw(&mut env, contract.clone(), Symbol::new("needs"), 51),
        Err(JarError::InsufficientBalance)
    );
    assert_eq!(BudgetJarContract::get_all_balances(&env, contract), (50, 30, 0));
}

#[test]
fn own_entries_suffice() {
    let (mut env, _bank, user, token) = setup_test();
    let other = Address::new("OTHER");
    env.authorize(other.clone());
    setup_jars(&mut env, &other, &token, 9);
    BudgetJarContract::deposit(&mut env, other.clone(), 500).unwrap();
    setup_jars(&mut env, &user, &token, 9);
    BudgetJarContract::deposit(&mut env, user.clone(), 100).unwrap();

    let mut own = Env::new(Address::new("CONTRACT"), 0);
    own.authorize(user.clone());
    for key in DataKey::all_of(&user) {
        if let Some(config) = env.configs.get(&key) {
            own.configs.set(key, config.clone());
        } else if let Some(balance) = env.balances.get(&key) {
            own.balances.set(key, *balance);
        } else if let Some(time) = env.lock_times.get(&key) {
            own.lock_times.set(key, *time);
        }
    }

    env.timestamp = 3;
    own.timestamp = 3;
    BudgetJarContract::deposit(&mut env, user.clone(), 7).unwrap();
    BudgetJarContract::deposit(&mut own, user.clone(), 7).unwrap();
    assert_eq!(
        BudgetJarContract::get_all_balances(&own, user.clone()),
        BudgetJarContract::get_all_balances(&env, user.clone())
    );
    assert_eq!(BudgetJarContract::get_all_balances(&own, user.clone()), (53, 32, 22));
    assert_eq!(BudgetJarContract::get_savings_lock_remaining(&own, user), Ok(9));
    assert_eq!(own.transfers.len(), 1);
    assert_eq!(own.transfers[0].amount, 7);
    assert_eq!(BudgetJarContract::get_all_balances(&env, other), (250, 150, 100));
}
