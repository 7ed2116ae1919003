//! The contract on a test ledger: entries, transfers, authorizations and the
//! time are those of the host.

use budget_jar::config;
use budget_jar::contract::BudgetJarContract;
use budget_jar::env::Env as Surroundings;
use budget_jar::error::JarError;
use budget_jar::key::DataKey;
use budget_jar::names;
use soroban_sdk::testutils::{
    Address as _, ContractFunctionSet, EnvTestConfig, Ledger,
};
use soroban_sdk::{token, Address, Env, IntoVal, Symbol, SymbolStr, TryFromVal, Val};

/// Stands for the contract on the ledger; the tests make its calls themselves.
struct Deployed;

impl ContractFunctionSet for Deployed {
    fn call(&self, _func: &str, _env: Env, _args: &[Val]) -> Option<Val> {
        None
    }
}

/// A configuration as the ledger keeps it.
type StoredConfig = (u32, u32, u32, Address, u64, u32);

fn text(address: &Address) -> names::Address {
    let strkey = address.to_string();
    let mut bytes = vec![0; strkey.len() as usize];
    strkey.copy_into_slice(&mut bytes);
    names::Address::new(std::str::from_utf8(&bytes).unwrap())
}

fn symbol_text(env: &Env, symbol: &Symbol) -> names::Symbol {
    let text = SymbolStr::try_from_val(env, &symbol.to_symbol_val()).unwrap();
    names::Symbol::new(text.as_ref())
}

fn address(env: &Env, address: &names::Address) -> Address {
    Address::from_str(env, &address.text)
}

fn place(env: &Env, key: &DataKey) -> Val {
    match key {
        DataKey::Admin => Symbol::new(env, "Admin").into_val(env),
        DataKey::JarConfig(user) => {
            (Symbol::new(env, "JarConfig"), address(env, user)).into_val(env)
        }
        DataKey::JarBalance(user, jar) => {
            let jar = Symbol::new(env, &jar.text);
            (Symbol::new(env, "JarBalance"), address(env, user), jar).into_val(env)
        }
        DataKey::SavingsLockTime(user) => {
            (Symbol::new(env, "SavingsLockTime"), address(env, user)).into_val(env)
        }
    }
}

fn load(env: &Env, surroundings: &mut Surroundings, key: DataKey) {
    let place = place(env, &key);
    let stored = env.storage().persistent();
    match &key {
        DataKey::Admin => {
            if let Some(admin) = env.storage().instance().get::<Val, Address>(&place) {
                surroundings.instance.set(key, text(&admin));
            }
        }
        DataKey::JarConfig(_) => {
            if let Some(found) = stored.get::<Val, StoredConfig>(&place) {
                let (needs_pct, wants_pct, savings_pct, token, lock, penalty) = found;
                let config = config::JarConfig {
                    needs_pct,
                    wants_pct,
                    savings_pct,
                    token: text(&token),
                    savings_lock_seconds: lock,
                    early_withdrawal_penalty_pct: penalty,
                };
                surroundings.configs.set(key, config);
            }
        }
        DataKey::JarBalance(_, _) => {
            if let Some(balance) = stored.get::<Val, i128>(&place) {
                surroundings.balances.set(key, balance);
            }
        }
        DataKey::SavingsLockTime(_) => {
            if let Some(time) = stored.get::<Val, u64>(&place) {
                surroundings.lock_times.set(key, time);
            }
        }
    }
}

fn store(env: &Env, surroundings: &Surroundings, key: &DataKey) {
    let place = place(env, key);
    let stored = env.storage().persistent();
    if let Some(admin) = surroundings.instance.get(key) {
        env.storage().instance().set(&place, &address(env, admin));
    }
    if let Some(config) = surroundings.configs.get(key) {
        let config: StoredConfig = (
            config.needs_pct,
            config.wants_pct,
            config.savings_pct,
            address(env, &config.token),
            config.savings_lock_seconds,
            config.early_withdrawal_penalty_pct,
        );
        stored.set(&place, &config);
    }
    if let Some(balance) = surroundings.balances.get(key) {
        stored.set(&place, balance);
    }
    if let Some(time) = surroundings.lock_times.get(key) {
        stored.set(&place, time);
    }
}

/// The contract as its users see it.
struct Client {
    env: Env,
    id: Address,
}

impl Client {
    fn surroundings(&self, keys: Vec<DataKey>) -> Surroundings {
        let contract = text(&self.env.current_contract_address());
        let mut surroundings = Surroundings::new(contract, self.env.ledger().timestamp());
        for key in keys {
            load(&self.env, &mut surroundings, key);
        }
        surroundings
    }

    fn perform(
        &self,
        user: &Address,
        call: impl FnOnce(&mut Surroundings, names::Address) -> Result<(), JarError>,
    ) -> Result<(), JarError> {
        let env = &self.env;
        env.as_contract(&self.id, || {
            user.require_auth();
            let user = text(user);
            let mut surroundings = self.surroundings(DataKey::all_of(&user));
            surroundings.authorize(user.clone());
            call(&mut surroundings, user.clone())?;
            for key in DataKey::all_of(&user) {
                store(env, &surroundings, &key);
            }
            for transfer in surroundings.transfers.iter() {
                let client = token::Client::new(env, &address(env, &transfer.token));
                let from = address(env, &transfer.from);
                let to = address(env, &transfer.to);
                client.transfer(&from, &to, &transfer.amount);
            }
            Ok(())
        })
    }

    fn initialize(&self, admin: &Address) -> Result<(), JarError> {
        self.env.as_contract(&self.id, || {
            let mut surroundings = self.surroundings(vec![DataKey::Admin]);
            BudgetJarContract::initialize(&mut surroundings, text(admin))?;
            store(&self.env, &surroundings, &DataKey::Admin);
            Ok(())
        })
    }

    fn setup_jars(&self, user: &Address, token: &Address, pcts: [u32; 3], lock: u64, penalty: u32) {
        let token = text(token);
        self.perform(user, |surroundings, user| {
            let [needs, wants, savings] = pcts;
            BudgetJarContract::setup_jars(
                surroundings,
                user,
                token,
                needs,
                wants,
                savings,
                lock,
                penalty,
            )
        })
        .unwrap();
    }

    fn deposit(&self, user: &Address, amount: i128) {
        self.perform(user, |surroundings, user| {
            BudgetJarContract::deposit(surroundings, user, amount)
        })
        .unwrap();
    }

    fn withdraw(&self, user: &Address, jar: &str, amount: i128) -> Result<(), JarError> {
        let jar = symbol_text(&self.env, &Symbol::new(&self.env, jar));
        self.perform(user, |surroundings, user| {
            BudgetJarContract::withdraw(surroundings, user, jar, amount)
        })
    }

    fn withdraw_savings(&self, user: &Address, amount: i128, emergency: bool) {
        self.perform(user, |surroundings, user| {
            BudgetJarContract::withdraw_savings(surroundings, user, amount, emergency)
        })
        .unwrap();
    }

    fn get_jar_balance(&self, user: &Address, jar: &str) -> i128 {
        self.env.as_contract(&self.id, || {
            let user = text(user);
            let surroundings = self.surroundings(vec![DataKey::balance(&user, jar)]);
            BudgetJarContract::get_jar_balance(&surroundings, user, names::Symbol::new(jar))
        })
    }

    fn get_all_balances(&self, user: &Address) -> (i128, i128, i128) {
        self.env.as_contract(&self.id, || {
            let user = text(user);
            let surroundings = self.surroundings(DataKey::all_of(&user));
            BudgetJarContract::get_all_balances(&surroundings, user)
        })
    }
}

fn setup_test() -> (Env, Client, Address, Address) {
    let env = Env::new_with_config(EnvTestConfig { capture_snapshot_at_drop: false });
    env.mock_all_auths();

    let id = env.register(Deployed, ());
    let client = Client { env: env.clone(), id };

    let admin = Address::generate(&env);
    let user = Address::generate(&env);

    // A mock USDC token
    let token_admin = Address::generate(&env);
    let token = env.register_stellar_asset_contract_v2(token_admin).address();

    // 100,000 USDC (7 decimals)
    token::StellarAssetClient::new(&env, &token).mint(&user, &100_000_0000000);

    client.initialize(&admin).unwrap();
    (env, client, user, token)
}

#[test]
fn test_deposit_splits_correctly() {
    let (_env, client, user, token) = setup_test();

    // 50% needs, 30% wants, 20% savings, 30-day lock, 10% penalty
    client.setup_jars(&user, &token, [50, 30, 20], 2592000, 10);

    let deposit_amount: i128 = 1000_0000000;
    client.deposit(&user, deposit_amount);

    let (needs, wants, savings) = client.get_all_balances(&user);
    assert_eq!(needs, 500_0000000, "needs jar should have 50%");
    assert_eq!(wants, 300_0000000, "wants jar should have 30%");
    assert_eq!(savings, 200_0000000, "savings jar should have 20%");
}

#[test]
#[should_panic(expected = "jars not configured")]
fn test_unauthorized_withdrawal_fails() {
    let (env, client, user, token) = setup_test();

    client.setup_jars(&user, &token, [50, 30, 20], 2592000, 10);
    client.deposit(&user, 1000_0000000);

    // The attacker has no jar configuration.
    let attacker = Address::generate(&env);
    if let Err(error) = client.withdraw(&attacker, "needs", 100_0000000) {
        panic!("{}", error.message());
    }
}

#[test]
fn test_withdrawal_updates_state() {
    let (_env, client, user, token) = setup_test();

    client.setup_jars(&user, &token, [50, 30, 20], 2592000, 10);
    client.deposit(&user, 1000_0000000);

    let initial_needs = client.get_jar_balance(&user, "needs");
    assert_eq!(initial_needs, 500_0000000);

    client.withdraw(&user, "needs", 200_0000000).unwrap();

    let final_needs = client.get_jar_balance(&user, "needs");
    assert_eq!(final_needs, 300_0000000, "needs should be reduced by withdrawal");

    // Other jars unchanged
    let wants = client.get_jar_balance(&user, "wants");
    let savings = client.get_jar_balance(&user, "savings");
    assert_eq!(wants, 300_0000000);
    assert_eq!(savings, 200_0000000);
}

#[test]
fn test_early_savings_withdrawal_penalty() {
    let (env, client, user, token) = setup_test();

    // 10% penalty for early withdrawal
    client.setup_jars(&user, &token, [50, 30, 20], 2592000, 10);
    client.deposit(&user, 1000_0000000);

    let initial_savings = client.get_jar_balance(&user, "savings");
    assert_eq!(initial_savings, 200_0000000);

    let token_client = token::Client::new(&env, &token);
    let balance_before = token_client.balance(&user);

    // 100 USDC, of which 90 are paid out
    client.withdraw_savings(&user, 100_0000000, true);

    let final_savings = client.get_jar_balance(&user, "savings");
    assert_eq!(final_savings, 100_0000000);

    let balance_after = token_client.balance(&user);
    assert_eq!(balance_after - balance_before, 90_0000000);
}

#[test]
fn test_savings_withdrawal_after_lock() {
    let (env, client, user, token) = setup_test();

    // 10 second lock
    client.setup_jars(&user, &token, [50, 30, 20], 10, 10);
    client.deposit(&user, 1000_0000000);

    // 15 seconds later
    let mut info = env.ledger().get();
    info.timestamp = env.ledger().timestamp() + 15;
    info.base_reserve = 10;
    info.min_temp_entry_ttl = 10;
    info.min_persistent_entry_ttl = 10;
    info.max_entry_ttl = 3110400;
    env.ledger().set(info);

    let token_client = token::Client::new(&env, &token);
    let balance_before = token_client.balance(&user);

    // The full savings, without an emergency
    client.withdraw_savings(&user, 200_0000000, false);

    let balance_after = token_client.balance(&user);
    assert_eq!(balance_after - balance_before, 200_0000000);

    let final_savings = client.get_jar_balance(&user, "savings");
    assert_eq!(final_savings, 0);
}

#[test]
fn admin_is_named_once_on_the_ledger() {
    let (env, client, _user, _token) = setup_test();
    let other = Address::generate(&env);
    assert_eq!(client.initialize(&other), Err(JarError::AlreadyInitialized));
}

#[test]
fn texts_stand_for_addresses_and_symbols() {
    let (env, _client, user, token) = setup_test();
    assert_eq!(address(&env, &text(&user)), user);
    assert_eq!(address(&env, &text(&token)), token);
    assert_ne!(text(&user), text(&token));
    for name in ["needs", "savings", "a_name_of_thirty_two_characters_"] {
        assert_eq!(symbol_text(&env, &Symbol::new(&env, name)), names::Symbol::new(name));
    }
}
