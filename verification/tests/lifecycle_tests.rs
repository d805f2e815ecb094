//! End-to-end runs of the lifecycle engine against the host's test
//! environment. Storage and authorization only work inside a contract frame,
//! so every operation runs under `as_contract`, with all authorizations
//! mocked; ownership mismatches are the engine's own check and still fail.

use soroban_sdk::testutils::Address as _;
use soroban_sdk::testutils::EnvTestConfig;
use soroban_sdk::{Address, Env};

use ticketing::lifecycle::TicketingContract;
use ticketing::store::Ledger;
use ticketing::Error;

fn setup() -> (Env, Address) {
    // Keep the environment from writing a test snapshot file to disk when it
    // is dropped.
    let env = Env::new_with_config(EnvTestConfig { capture_snapshot_at_drop: false });
    env.mock_all_auths();
    let admin = Address::generate(&env);
    let frame = env.register_stellar_asset_contract_v2(admin).address();
    (env, frame)
}

#[test]
fn issue_first_ticket_scenario() {
    let (env, frame) = setup();
    let alice = Address::generate(&env);
    let mut l = Ledger::attach(env.clone());
    let id = env.as_contract(&frame, || {
        TicketingContract::buy_ticket(&mut l, alice.clone(), 1000)
    });
    assert_eq!(id, 0);
    let t = env
        .as_contract(&frame, || TicketingContract::get_ticket(&l, 0))
        .unwrap();
    assert_eq!(t.owner, alice);
    assert_eq!(t.price, 1000);
    assert!(!t.used);
    assert!(!t.refunded);
    let stats = env.as_contract(&frame, || TicketingContract::get_stats(&l));
    assert_eq!(stats, (1, 0, 0));
}

#[test]
fn issue_ids_are_dense_and_sales_counted() {
    let (env, frame) = setup();
    let alice = Address::generate(&env);
    let bob = Address::generate(&env);
    let mut l = Ledger::attach(env.clone());
    let a = env.as_contract(&frame, || {
        TicketingContract::buy_ticket(&mut l, alice.clone(), 10)
    });
    let b = env.as_contract(&frame, || {
        TicketingContract::buy_ticket(&mut l, bob.clone(), 20)
    });
    let c = env.as_contract(&frame, || {
        TicketingContract::buy_ticket(&mut l, alice.clone(), 30)
    });
    assert_eq!((a, b, c), (0, 1, 2));
    let stats = env.as_contract(&frame, || TicketingContract::get_stats(&l));
    assert_eq!(stats.0, 3);
}

#[test]
fn peek_next_id_advances() {
    let (env, frame) = setup();
    let alice = Address::generate(&env);
    let mut l = Ledger::attach(env.clone());
    assert_eq!(
        env.as_contract(&frame, || TicketingContract::peek_next_id(&l)),
        0
    );
    env.as_contract(&frame, || {
        TicketingContract::buy_ticket(&mut l, alice.clone(), 5)
    });
    assert_eq!(
        env.as_contract(&frame, || TicketingContract::peek_next_id(&l)),
        1
    );
}

#[test]
fn redeem_then_stats_scenario() {
    let (env, frame) = setup();
    let alice = Address::generate(&env);
    let mut l = Ledger::attach(env.clone());
    env.as_contract(&frame, || {
        TicketingContract::buy_ticket(&mut l, alice.clone(), 1000)
    });
    let first = env.as_contract(&frame, || {
        TicketingContract::redeem_ticket(&mut l, alice.clone(), 0)
    });
    assert_eq!(first, Ok(()));
    let t = env
        .as_contract(&frame, || TicketingContract::get_ticket(&l, 0))
        .unwrap();
    assert!(t.used);
    let stats = env.as_contract(&frame, || TicketingContract::get_stats(&l));
    assert_eq!(stats, (1, 0, 1));
    let second = env.as_contract(&frame, || {
        TicketingContract::redeem_ticket(&mut l, alice.clone(), 0)
    });
    assert_eq!(second, Err(Error::AlreadyUsed));
}

#[test]
fn redeem_by_stranger_rejected() {
    let (env, frame) = setup();
    let alice = Address::generate(&env);
    let bob = Address::generate(&env);
    let mut l = Ledger::attach(env.clone());
    env.as_contract(&frame, || {
        TicketingContract::buy_ticket(&mut l, alice.clone(), 1000)
    });
    let r = env.as_contract(&frame, || {
        TicketingContract::redeem_ticket(&mut l, bob.clone(), 0)
    });
    assert_eq!(r, Err(Error::AuthorizationMismatch));
    let t = env
        .as_contract(&frame, || TicketingContract::get_ticket(&l, 0))
        .unwrap();
    assert!(!t.used);
    let stats = env.as_contract(&frame, || TicketingContract::get_stats(&l));
    assert_eq!(stats, (1, 0, 0));
}

#[test]
fn redeem_used_ticket_rejected_counter_unchanged() {
    let (env, frame) = setup();
    let alice = Address::generate(&env);
    let mut l = Ledger::attach(env.clone());
    env.as_contract(&frame, || {
        TicketingContract::buy_ticket(&mut l, alice.clone(), 1)
    });
    assert_eq!(
        env.as_contract(&frame, || TicketingContract::redeem_ticket(
            &mut l,
            alice.clone(),
            0
        )),
        Ok(())
    );
    assert_eq!(
        env.as_contract(&frame, || TicketingContract::redeem_ticket(
            &mut l,
            alice.clone(),
            0
        )),
        Err(Error::AlreadyUsed)
    );
    let stats = env.as_contract(&frame, || TicketingContract::get_stats(&l));
    assert_eq!(stats.2, 1);
}

#[test]
fn refund_nonexistent_not_found() {
    let (env, frame) = setup();
    let alice = Address::generate(&env);
    let mut l = Ledger::attach(env.clone());
    let r = env.as_contract(&frame, || {
        TicketingContract::request_refund(&mut l, alice.clone(), 7)
    });
    assert_eq!(r, Err(Error::NotFound));
    let stats = env.as_contract(&frame, || TicketingContract::get_stats(&l));
    assert_eq!(stats.1, 0);
}

#[test]
fn refund_by_stranger_rejected() {
    let (env, frame) = setup();
    let alice = Address::generate(&env);
    let bob = Address::generate(&env);
    let mut l = Ledger::attach(env.clone());
    env.as_contract(&frame, || {
        TicketingContract::buy_ticket(&mut l, alice.clone(), 1000)
    });
    let r = env.as_contract(&frame, || {
        TicketingContract::request_refund(&mut l, bob.clone(), 0)
    });
    assert_eq!(r, Err(Error::AuthorizationMismatch));
    let t = env
        .as_contract(&frame, || TicketingContract::get_ticket(&l, 0))
        .unwrap();
    assert!(!t.refunded);
    let stats = env.as_contract(&frame, || TicketingContract::get_stats(&l));
    assert_eq!(stats.1, 0);
}

#[test]
fn refund_twice_counts_twice() {
    let (env, frame) = setup();
    let alice = Address::generate(&env);
    let mut l = Ledger::attach(env.clone());
    env.as_contract(&frame, || {
        TicketingContract::buy_ticket(&mut l, alice.clone(), 50)
    });
    assert_eq!(
        env.as_contract(&frame, || TicketingContract::request_refund(
            &mut l,
            alice.clone(),
            0
        )),
        Ok(())
    );
    assert_eq!(
        env.as_contract(&frame, || TicketingContract::request_refund(
            &mut l,
            alice.clone(),
            0
        )),
        Ok(())
    );
    let t = env
        .as_contract(&frame, || TicketingContract::get_ticket(&l, 0))
        .unwrap();
    assert!(t.refunded);
    let stats = env.as_contract(&frame, || TicketingContract::get_stats(&l));
    assert_eq!(stats.1, 2);
}

#[test]
fn get_ticket_missing_not_found() {
    let (env, frame) = setup();
    let l = Ledger::attach(env.clone());
    let r = env.as_contract(&frame, || TicketingContract::get_ticket(&l, 0));
    assert_eq!(r.unwrap_err(), Error::NotFound);
}

#[test]
fn refund_then_redeem_both_flags_set() {
    let (env, frame) = setup();
    let alice = Address::generate(&env);
    let mut l = Ledger::attach(env.clone());
    env.as_contract(&frame, || {
        TicketingContract::buy_ticket(&mut l, alice.clone(), 9)
    });
    assert_eq!(
        env.as_contract(&frame, || TicketingContract::request_refund(
            &mut l,
            alice.clone(),
            0
        )),
        Ok(())
    );
    assert_eq!(
        env.as_contract(&frame, || TicketingContract::redeem_ticket(
            &mut l,
            alice.clone(),
            0
        )),
        Ok(())
    );
    let t = env
        .as_contract(&frame, || TicketingContract::get_ticket(&l, 0))
        .unwrap();
    assert!(t.used);
    assert!(t.refunded);
    let stats = env.as_contract(&frame, || TicketingContract::get_stats(&l));
    assert_eq!(stats, (1, 1, 1));
}

#[test]
fn price_recorded_exactly() {
    let (env, frame) = setup();
    let alice = Address::generate(&env);
    let mut l = Ledger::attach(env.clone());
    let big: i128 = -170141183460469231731687303715884105728 + 1;
    env.as_contract(&frame, || {
        TicketingContract::buy_ticket(&mut l, alice.clone(), big)
    });
    let t = env
        .as_contract(&frame, || TicketingContract::get_ticket(&l, 0))
        .unwrap();
    assert_eq!(t.price, big);
}
