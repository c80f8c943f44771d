use myfans::errors::Error;
use myfans::token::TokenLedger;
use myfans::treasury::{Treasury, TreasuryEvent};

const TREASURY_ID: u64 = 100;
const ADMIN: u64 = 1;
const USER: u64 = 2;
const TOKEN_ADDRESS: u64 = 3;

fn setup() -> (Treasury, TokenLedger) {
    let mut ledger = TokenLedger::new();
    ledger.mint(USER, 1000).unwrap();
    (Treasury::new(TREASURY_ID), ledger)
}

#[test]
fn test_test_deposit_and_withdraw() {
    let (mut treasury, mut ledger) = setup();

    treasury.initialize(ADMIN, ADMIN, TOKEN_ADDRESS).unwrap();
    treasury.deposit(&mut ledger, USER, USER, 500).unwrap();

    assert_eq!(ledger.balance_of(TREASURY_ID), 500);
    assert_eq!(ledger.balance_of(USER), 500);

    treasury.withdraw(&mut ledger, ADMIN, USER, 200).unwrap();
    assert_eq!(ledger.balance_of(TREASURY_ID), 300);
    assert_eq!(ledger.balance_of(USER), 700);
}

#[test]
fn test_test_withdraw_insufficient_balance() {
    let (mut treasury, mut ledger) = setup();

    treasury.initialize(ADMIN, ADMIN, TOKEN_ADDRESS).unwrap();
    treasury.deposit(&mut ledger, USER, USER, 100).unwrap();

    let r = treasury.withdraw(&mut ledger, ADMIN, USER, 500);
    assert_eq!(r, Err(Error::InsufficientBalance));
    assert_eq!(ledger.balance_of(TREASURY_ID), 100);
}

#[test]
fn test_test_unauthorized_withdraw_reverts() {
    let (mut treasury, mut ledger) = setup();
    let unauthorized = 9;

    treasury.initialize(ADMIN, ADMIN, TOKEN_ADDRESS).unwrap();
    treasury.deposit(&mut ledger, USER, USER, 500).unwrap();

    assert_eq!(ledger.balance_of(TREASURY_ID), 500);

    // The withdrawal was approved by someone other than the admin.
    let result = treasury.withdraw(&mut ledger, unauthorized, unauthorized, 100);
    assert!(result.is_err());
    assert_eq!(ledger.balance_of(TREASURY_ID), 500);
}

#[test]
fn test_pause_blocks_deposit() {
    let (mut treasury, mut ledger) = setup();

    treasury.initialize(ADMIN, ADMIN, TOKEN_ADDRESS).unwrap();
    treasury.set_paused(ADMIN, true).unwrap();

    let r = treasury.deposit(&mut ledger, USER, USER, 100);
    assert_eq!(r, Err(Error::Paused));
    assert_eq!(ledger.balance_of(USER), 1000);
}

#[test]
fn test_pause_blocks_withdraw() {
    let (mut treasury, mut ledger) = setup();

    treasury.initialize(ADMIN, ADMIN, TOKEN_ADDRESS).unwrap();
    treasury.deposit(&mut ledger, USER, USER, 500).unwrap();
    assert_eq!(ledger.balance_of(TREASURY_ID), 500);

    treasury.set_paused(ADMIN, true).unwrap();
    let r = treasury.withdraw(&mut ledger, ADMIN, USER, 100);
    assert_eq!(r, Err(Error::Paused));
    assert_eq!(ledger.balance_of(TREASURY_ID), 500);
}

#[test]
fn test_unpause_allows_deposit_and_withdraw() {
    let (mut treasury, mut ledger) = setup();

    treasury.initialize(ADMIN, ADMIN, TOKEN_ADDRESS).unwrap();
    treasury.set_paused(ADMIN, true).unwrap();
    treasury.set_paused(ADMIN, false).unwrap();
    treasury.deposit(&mut ledger, USER, USER, 300).unwrap();
    assert_eq!(ledger.balance_of(TREASURY_ID), 300);
    treasury.withdraw(&mut ledger, ADMIN, USER, 100).unwrap();
    assert_eq!(ledger.balance_of(TREASURY_ID), 200);
}

#[test]
fn test_min_balance_blocks_withdraw() {
    let (mut treasury, mut ledger) = setup();

    treasury.initialize(ADMIN, ADMIN, TOKEN_ADDRESS).unwrap();
    treasury.deposit(&mut ledger, USER, USER, 500).unwrap();
    treasury.set_min_balance(ADMIN, 300).unwrap();

    // 500 - 200 leaves exactly the minimum of 300: allowed.
    treasury.withdraw(&mut ledger, ADMIN, USER, 200).unwrap();
    assert_eq!(ledger.balance_of(TREASURY_ID), 300);

    // One more would leave 299 < 300: refused.
    let r = treasury.withdraw(&mut ledger, ADMIN, USER, 1);
    assert_eq!(r, Err(Error::BelowMinimumBalance));
    assert_eq!(ledger.balance_of(TREASURY_ID), 300);
}

#[test]
fn test_min_balance_allows_withdraw_above_threshold() {
    let (mut treasury, mut ledger) = setup();

    treasury.initialize(ADMIN, ADMIN, TOKEN_ADDRESS).unwrap();
    treasury.deposit(&mut ledger, USER, USER, 500).unwrap();
    treasury.set_min_balance(ADMIN, 200).unwrap();

    treasury.withdraw(&mut ledger, ADMIN, USER, 300).unwrap();
    assert_eq!(ledger.balance_of(TREASURY_ID), 200);
    assert_eq!(ledger.balance_of(USER), 800); // 500 after deposit + 300 from withdraw
}

#[test]
fn test_set_min_balance_negative_reverts() {
    let (mut treasury, _ledger) = setup();

    treasury.initialize(ADMIN, ADMIN, TOKEN_ADDRESS).unwrap();
    assert_eq!(treasury.set_min_balance(ADMIN, -1), Err(Error::InvalidAmount));
}

#[test]
fn test_deposit_emits_event() {
    let (mut treasury, mut ledger) = setup();

    treasury.initialize(ADMIN, ADMIN, TOKEN_ADDRESS).unwrap();
    treasury.deposit(&mut ledger, USER, USER, 500).unwrap();

    assert_eq!(
        treasury.events().as_slice(),
        &[TreasuryEvent::Deposit { from: USER, amount: 500, token: TOKEN_ADDRESS }],
    );
}
