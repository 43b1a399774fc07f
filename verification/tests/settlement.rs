//! Tests of the swap settlement protocol, driven against a deterministic
//! in-memory double of the two external ledger services.
//!
//! The double performs the remote calls the orchestrator describes, in
//! whatever order a test chooses, and the test feeds the outcomes back
//! into the continuation steps — the same executor role a host plays.

use defi_swap::{DeFi, LedgerCall, RemoteFailure, SwapError, TokenConfig, TokenMetadata};

/// An in-memory double of one external token-ledger service.
struct Ledger {
    /// The address this ledger service itself lives at.
    address: String,
    symbol: String,
    name: String,
    decimals: u8,
    /// Accounts registered with the service; transfers to anyone else are
    /// rejected remotely.
    registered: Vec<String>,
    balances: Vec<(String, u128)>,
}

impl Ledger {
    fn new(address: &str, symbol: &str, name: &str) -> Ledger {
        Ledger {
            address: address.to_string(),
            symbol: symbol.to_string(),
            name: name.to_string(),
            decimals: 8,
            registered: Vec::new(),
            balances: Vec::new(),
        }
    }

    fn register(&mut self, account: &str) {
        if !self.registered.iter().any(|a| a == account) {
            self.registered.push(account.to_string());
        }
    }

    fn metadata(&self) -> TokenMetadata {
        TokenMetadata {
            name: self.name.clone(),
            symbol: self.symbol.clone(),
            decimals: self.decimals,
        }
    }

    fn balance_of(&self, account: &str) -> u128 {
        self.balances
            .iter()
            .find(|(a, _)| a == account)
            .map(|(_, b)| *b)
            .unwrap_or(0)
    }

    fn credit(&mut self, account: &str, amount: u128) {
        self.register(account);
        if let Some(entry) = self.balances.iter_mut().find(|(a, _)| a == account) {
            entry.1 += amount;
        } else {
            self.balances.push((account.to_string(), amount));
        }
    }

    fn transfer(&mut self, from: &str, to: &str, amount: u128) -> Result<(), RemoteFailure> {
        if !self.registered.iter().any(|a| a == to) {
            return Err(RemoteFailure);
        }
        if self.balance_of(from) < amount {
            return Err(RemoteFailure);
        }
        if let Some(entry) = self.balances.iter_mut().find(|(a, _)| a == from) {
            entry.1 -= amount;
        }
        if let Some(entry) = self.balances.iter_mut().find(|(a, _)| a == to) {
            entry.1 += amount;
        } else {
            self.balances.push((to.to_string(), amount));
        }
        Ok(())
    }
}

/// The two ledger services of one test run.
struct World {
    ledger_a: Ledger,
    ledger_b: Ledger,
}

impl World {
    fn ledger_mut(&mut self, address: &str) -> &mut Ledger {
        if self.ledger_a.address == address {
            &mut self.ledger_a
        } else if self.ledger_b.address == address {
            &mut self.ledger_b
        } else {
            panic!("no ledger service at {}", address)
        }
    }

    /// Perform one described remote call on behalf of `caller`: a
    /// balance query returns the balance, a transfer returns nothing.
    fn perform(
        &mut self,
        caller: &str,
        call: &LedgerCall,
    ) -> Result<Option<u128>, RemoteFailure> {
        match call {
            LedgerCall::BalanceOf { ledger, account } => {
                let l = self.ledger_mut(ledger);
                Ok(Some(l.balance_of(account)))
            }
            LedgerCall::Transfer { ledger, receiver, amount } => {
                let l = self.ledger_mut(ledger);
                l.transfer(caller, receiver, *amount)?;
                Ok(None)
            }
            LedgerCall::Metadata { ledger } => {
                let _ = self.ledger_mut(ledger);
                Ok(None)
            }
        }
    }
}

const OWNER: &str = "pool.test";
const CUSTODY_A: &str = "token_a.pool.test";
const CUSTODY_B: &str = "token_b.pool.test";
const LEDGER_A: &str = "ft-a.test";
const LEDGER_B: &str = "ft-b.test";

/// A pool with both tokens registered, and a funded world around it:
/// the owner holds `owner_a` / `owner_b` on the two ledgers, and `alice`
/// holds 1000 on each.
fn funded_world(owner_a: u128, owner_b: u128) -> (DeFi, World) {
    let mut pool = DeFi::new(
        OWNER.to_string(),
        TokenConfig { address: LEDGER_A.to_string(), ticker: "0.1".to_string() },
        TokenConfig { address: LEDGER_B.to_string(), ticker: "0.01".to_string() },
        CUSTODY_A.to_string(),
        CUSTODY_B.to_string(),
    );
    let mut world = World {
        ledger_a: Ledger::new(LEDGER_A, "TokenA", "fungible token A"),
        ledger_b: Ledger::new(LEDGER_B, "TokenB", "fungible token B"),
    };
    // The metadata fetch and its continuation, for each token.
    let fetch_a = pool.set_token_info(LEDGER_A.to_string());
    assert!(matches!(&fetch_a, LedgerCall::Metadata { ledger } if ledger == LEDGER_A));
    pool.set_token_info_callback(LEDGER_A.to_string(), Ok(world.ledger_a.metadata()));
    let fetch_b = pool.set_token_info(LEDGER_B.to_string());
    assert!(matches!(&fetch_b, LedgerCall::Metadata { ledger } if ledger == LEDGER_B));
    pool.set_token_info_callback(LEDGER_B.to_string(), Ok(world.ledger_b.metadata()));
    // Storage registration and funding.
    for account in [OWNER, CUSTODY_A, CUSTODY_B, "alice.test"] {
        world.ledger_a.register(account);
        world.ledger_b.register(account);
    }
    world.ledger_a.credit(OWNER, owner_a);
    world.ledger_b.credit(OWNER, owner_b);
    world.ledger_a.credit("alice.test", 1000);
    world.ledger_b.credit("alice.test", 1000);
    (pool, world)
}

#[test]
fn registration_stores_reported_metadata() {
    let (pool, _world) = funded_world(1000, 2000);
    let info = pool.get_token_info("TokenA".to_string()).unwrap();
    assert_eq!(info.contract_address, LEDGER_A);
    assert_eq!(info.name, "fungible token A");
    assert_eq!(info.symbol, "TokenA");
    assert_eq!(info.decimals, 8);
    assert!(pool.get_token_info("TokenC".to_string()).is_none());
}

#[test]
fn registration_failure_leaves_registry_unchanged() {
    let mut pool = DeFi::new(
        OWNER.to_string(),
        TokenConfig { address: LEDGER_A.to_string(), ticker: "0.1".to_string() },
        TokenConfig { address: LEDGER_B.to_string(), ticker: "0.01".to_string() },
        CUSTODY_A.to_string(),
        CUSTODY_B.to_string(),
    );
    pool.set_token_info_callback(LEDGER_A.to_string(), Err(RemoteFailure));
    assert!(pool.get_token_info("TokenA".to_string()).is_none());
}

#[test]
fn registration_last_write_wins() {
    let (mut pool, _world) = funded_world(1000, 2000);
    pool.set_token_info_callback(
        "ft-a2.test".to_string(),
        Ok(TokenMetadata {
            name: "replacement token A".to_string(),
            symbol: "TokenA".to_string(),
            decimals: 6,
        }),
    );
    let info = pool.get_token_info("TokenA".to_string()).unwrap();
    assert_eq!(info.contract_address, "ft-a2.test");
    assert_eq!(info.decimals, 6);
    // The other key is untouched.
    let info_b = pool.get_token_info("TokenB".to_string()).unwrap();
    assert_eq!(info_b.contract_address, LEDGER_B);
}

#[test]
fn swap_unknown_symbol_rejected_without_side_effects() {
    // Scenario: swap("TokenC", 50) returns false, mutates nothing and
    // describes zero remote calls.
    let (mut pool, _world) = funded_world(1000, 2000);
    let (accepted, dispatch) = pool.swap_token("TokenC".to_string(), 50);
    assert!(!accepted);
    assert!(dispatch.is_none());
    assert!(!pool.is_pending());
    // The lock was not touched: a well-formed swap is still accepted.
    let (accepted2, dispatch2) = pool.swap_token("TokenA".to_string(), 100);
    assert!(accepted2);
    assert!(dispatch2.is_some());
}

#[test]
fn swap_while_in_flight_rejected_without_remote_calls() {
    // Scenario: a second request before the first resolves returns
    // false and describes zero remote calls; the first then resolves
    // normally.
    let (mut pool, mut world) = funded_world(1000, 2000);
    let (accepted, dispatch) = pool.swap_token("TokenA".to_string(), 100);
    assert!(accepted);
    assert!(pool.is_pending());
    let dispatch = dispatch.unwrap();

    let (accepted2, dispatch2) = pool.swap_token("TokenB".to_string(), 10);
    assert!(!accepted2);
    assert!(dispatch2.is_none());
    assert!(pool.is_pending());

    // The first swap's calls settle, in dispatch order.
    let b_in = world.perform("alice.test", &dispatch.balance_in_query).unwrap().unwrap();
    let b_out = world.perform("alice.test", &dispatch.balance_out_query).unwrap().unwrap();
    let deposit = world.perform("alice.test", &dispatch.deposit_transfer).map(|_| ());
    assert_eq!(b_in, 1000);
    assert_eq!(b_out, 2000);
    assert!(deposit.is_ok());

    let target = pool.calculate_target_token(100, Ok(b_in), Ok(b_out));
    assert_eq!(target, Ok(181));
    let outcome = pool.swap_token_withdraw(
        LEDGER_B.to_string(),
        "alice.test".to_string(),
        target,
        deposit,
    );
    assert!(outcome);
    assert!(!pool.is_pending());

    // With the lock released, the next request is accepted again.
    let (accepted3, _) = pool.swap_token("TokenB".to_string(), 10);
    assert!(accepted3);
}

#[test]
fn swap_dispatch_describes_the_three_remote_calls() {
    let (mut pool, _world) = funded_world(1000, 2000);
    let (accepted, dispatch) = pool.swap_token("TokenA".to_string(), 100);
    assert!(accepted);
    let d = dispatch.unwrap();
    assert_eq!(
        d.balance_in_query,
        LedgerCall::BalanceOf { ledger: LEDGER_A.to_string(), account: OWNER.to_string() }
    );
    assert_eq!(
        d.balance_out_query,
        LedgerCall::BalanceOf { ledger: LEDGER_B.to_string(), account: OWNER.to_string() }
    );
    assert_eq!(
        d.deposit_transfer,
        LedgerCall::Transfer {
            ledger: LEDGER_A.to_string(),
            receiver: CUSTODY_A.to_string(),
            amount: 100,
        }
    );
}

#[test]
fn swap_of_counter_symbol_swaps_the_roles() {
    let (mut pool, _world) = funded_world(1000, 2000);
    let (accepted, dispatch) = pool.swap_token("TokenB".to_string(), 7);
    assert!(accepted);
    let d = dispatch.unwrap();
    assert_eq!(
        d.balance_in_query,
        LedgerCall::BalanceOf { ledger: LEDGER_B.to_string(), account: OWNER.to_string() }
    );
    assert_eq!(
        d.balance_out_query,
        LedgerCall::BalanceOf { ledger: LEDGER_A.to_string(), account: OWNER.to_string() }
    );
    assert_eq!(
        d.deposit_transfer,
        LedgerCall::Transfer {
            ledger: LEDGER_B.to_string(),
            receiver: CUSTODY_B.to_string(),
            amount: 7,
        }
    );
}

#[test]
fn swap_deposit_equal_to_pool_balance_finalizes_false() {
    // Scenario: d == bIn exactly. The pricing fails with the invariant
    // violation, the swap finalizes false, and the lock is released.
    let (mut pool, mut world) = funded_world(100, 2000);
    let (accepted, dispatch) = pool.swap_token("TokenA".to_string(), 100);
    assert!(accepted);
    let dispatch = dispatch.unwrap();

    // The deposit settles first this time; the balance reads race it and
    // here happen to see the pre-deposit balances.
    let b_in = world.perform("alice.test", &dispatch.balance_in_query).unwrap().unwrap();
    let deposit = world.perform("alice.test", &dispatch.deposit_transfer).map(|_| ());
    let b_out = world.perform("alice.test", &dispatch.balance_out_query).unwrap().unwrap();
    assert_eq!(b_in, 100);
    assert!(deposit.is_ok());

    let target = pool.calculate_target_token(100, Ok(b_in), Ok(b_out));
    assert_eq!(target, Err(SwapError::InvariantViolation));
    let outcome = pool.swap_token_withdraw(
        LEDGER_B.to_string(),
        "alice.test".to_string(),
        target,
        deposit,
    );
    assert!(!outcome);
    assert!(!pool.is_pending());
}

#[test]
fn failed_pricing_with_successful_deposit_retains_the_deposit() {
    // Scenario: the pricing fails while the deposit transfer succeeds.
    // The swap finalizes false, the lock is released, and the deposited
    // funds stay in the pool's custody: no refund is issued.
    let (mut pool, mut world) = funded_world(100, 2000);
    let (accepted, dispatch) = pool.swap_token("TokenA".to_string(), 100);
    assert!(accepted);
    let dispatch = dispatch.unwrap();

    let alice_before = world.ledger_a.balance_of("alice.test");
    let custody_before = world.ledger_a.balance_of(CUSTODY_A);

    let deposit = world.perform("alice.test", &dispatch.deposit_transfer).map(|_| ());
    assert!(deposit.is_ok());
    let b_in = world.perform("alice.test", &dispatch.balance_in_query).unwrap().unwrap();
    let b_out = world.perform("alice.test", &dispatch.balance_out_query).unwrap().unwrap();

    let target = pool.calculate_target_token(100, Ok(b_in), Ok(b_out));
    assert!(target.is_err());
    let outcome = pool.swap_token_withdraw(
        LEDGER_B.to_string(),
        "alice.test".to_string(),
        target,
        deposit,
    );
    assert!(!outcome);
    assert!(!pool.is_pending());

    // The deposit stays where it landed: debited from the caller,
    // retained in custody, no compensating transfer.
    assert_eq!(world.ledger_a.balance_of("alice.test"), alice_before - 100);
    assert_eq!(world.ledger_a.balance_of(CUSTODY_A), custody_before + 100);
}

#[test]
fn failed_balance_query_finalizes_false() {
    // A remote balance-query failure reaches the pricing join as a
    // failure and fails the whole swap closed.
    let (mut pool, mut world) = funded_world(1000, 2000);
    let (accepted, dispatch) = pool.swap_token("TokenA".to_string(), 100);
    assert!(accepted);
    let dispatch = dispatch.unwrap();

    let deposit = world.perform("alice.test", &dispatch.deposit_transfer).map(|_| ());
    let target = pool.calculate_target_token(100, Err(RemoteFailure), Ok(2000));
    assert_eq!(target, Err(SwapError::RemoteCall));
    let outcome = pool.swap_token_withdraw(
        LEDGER_B.to_string(),
        "alice.test".to_string(),
        target,
        deposit,
    );
    assert!(!outcome);
    assert!(!pool.is_pending());
}

#[test]
fn failed_deposit_with_successful_pricing_finalizes_false() {
    let (mut pool, mut world) = funded_world(1000, 2000);
    // bob never registered with ledger A: his deposit is rejected
    // remotely, while the balance queries and the pricing succeed.
    world.ledger_a.balances.push(("bob.test".to_string(), 500));
    let (accepted, dispatch) = pool.swap_token("TokenA".to_string(), 100);
    assert!(accepted);
    let dispatch = dispatch.unwrap();

    let b_in = world.perform("bob.test", &dispatch.balance_in_query).unwrap().unwrap();
    let b_out = world.perform("bob.test", &dispatch.balance_out_query).unwrap().unwrap();
    let deposit = world
        .perform("unregistered.test", &dispatch.deposit_transfer)
        .map(|_| ());
    assert!(deposit.is_err());

    let target = pool.calculate_target_token(100, Ok(b_in), Ok(b_out));
    assert_eq!(target, Ok(181));
    let outcome = pool.swap_token_withdraw(
        LEDGER_B.to_string(),
        "alice.test".to_string(),
        target,
        deposit,
    );
    assert!(!outcome);
    assert!(!pool.is_pending());
}

#[test]
fn both_failures_finalize_false() {
    let (mut pool, _world) = funded_world(1000, 2000);
    let (accepted, _) = pool.swap_token("TokenA".to_string(), 100);
    assert!(accepted);
    let target = pool.calculate_target_token(100, Err(RemoteFailure), Err(RemoteFailure));
    let outcome = pool.swap_token_withdraw(
        LEDGER_B.to_string(),
        "alice.test".to_string(),
        target,
        Err(RemoteFailure),
    );
    assert!(!outcome);
    assert!(!pool.is_pending());
}

#[test]
fn lock_is_held_exactly_between_acceptance_and_finalization() {
    let (mut pool, _world) = funded_world(1000, 2000);
    assert!(!pool.is_pending());
    let (accepted, _) = pool.swap_token("TokenA".to_string(), 10);
    assert!(accepted);
    assert!(pool.is_pending());
    let outcome = pool.swap_token_withdraw(
        LEDGER_B.to_string(),
        "alice.test".to_string(),
        Ok(5),
        Ok(()),
    );
    assert!(outcome);
    assert!(!pool.is_pending());
}
