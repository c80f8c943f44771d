use myfans::creator_earnings::{CreatorEarnings, EarningsError, EarningsEvent};
use myfans::token::TokenLedger;

const CONTRACT: u64 = 100;
const ADMIN: u64 = 1;
const CREATOR: u64 = 2;
const DEPOSITOR: u64 = 3;
const TOKEN: u64 = 4;

fn setup() -> (CreatorEarnings, TokenLedger) {
    let mut ledger = TokenLedger::new();
    ledger.mint(DEPOSITOR, 1_000).unwrap();

    let mut contract = CreatorEarnings::new(CONTRACT);
    contract.initialize(ADMIN, ADMIN, TOKEN).unwrap();
    contract.add_authorized(ADMIN, DEPOSITOR).unwrap();
    (contract, ledger)
}

#[test]
fn deposit_increases_balance() {
    let (mut contract, mut ledger) = setup();

    contract.deposit(&mut ledger, DEPOSITOR, DEPOSITOR, CREATOR, 500).unwrap();

    assert_eq!(contract.balance(CREATOR), 500);

    // Contract custody verification: the tokens sit on the contract account.
    assert_eq!(ledger.balance_of(CONTRACT), 500);
}

#[test]
fn withdraw_reduces_balance_and_transfers_tokens() {
    let (mut contract, mut ledger) = setup();

    contract.deposit(&mut ledger, DEPOSITOR, DEPOSITOR, CREATOR, 500).unwrap();

    contract.withdraw(&mut ledger, CREATOR, CREATOR, 200).unwrap();

    assert_eq!(contract.balance(CREATOR), 300);

    // The creator received the withdrawn tokens.
    assert_eq!(ledger.balance_of(CREATOR), 200);
}

#[test]
fn withdraw_insufficient_balance_reverts() {
    let (mut contract, mut ledger) = setup();

    let r = contract.withdraw(&mut ledger, CREATOR, CREATOR, 100);
    assert_eq!(r, Err(EarningsError::InsufficientBalance));
}

#[test]
fn unauthorized_deposit_reverts() {
    let (mut contract, mut ledger) = setup();

    let unauthorized = 9;
    ledger.mint(unauthorized, 500).unwrap();

    // Never added via add_authorized.
    let r = contract.deposit(&mut ledger, unauthorized, unauthorized, CREATOR, 100);
    assert_eq!(r, Err(EarningsError::NotAuthorized));
    assert_eq!(contract.balance(CREATOR), 0);
}

#[test]
fn test_unauthorized_withdraw_reverts() {
    // Only the creator may withdraw; a non-creator cannot, and the recorded
    // claim is unchanged.
    let (mut contract, mut ledger) = setup();
    ledger.mint(ADMIN, 500).unwrap();
    contract.deposit(&mut ledger, ADMIN, ADMIN, CREATOR, 500).unwrap();

    assert_eq!(contract.balance(CREATOR), 500);
    assert_eq!(ledger.balance_of(CONTRACT), 500);

    let non_creator = 9;
    let result = contract.withdraw(&mut ledger, non_creator, non_creator, 100);
    assert!(result.is_err());

    assert_eq!(contract.balance(CREATOR), 500);
    assert_eq!(ledger.balance_of(CONTRACT), 500);
}

#[test]
fn withdraw_emits_event() {
    let (mut contract, mut ledger) = setup();

    contract.deposit(&mut ledger, DEPOSITOR, DEPOSITOR, CREATOR, 500).unwrap();
    contract.withdraw(&mut ledger, CREATOR, CREATOR, 200).unwrap();

    assert_eq!(
        contract.events().as_slice(),
        &[EarningsEvent::Withdraw { creator: CREATOR, amount: 200, token: TOKEN }],
    );
}

#[test]
fn earnings_initialize_twice_reverts() {
    let (mut contract, _ledger) = setup();

    assert_eq!(
        contract.initialize(ADMIN, ADMIN, TOKEN),
        Err(EarningsError::AlreadyInitialized),
    );
}

#[test]
fn earnings_deposit_before_initialize_reverts() {
    let mut ledger = TokenLedger::new();
    ledger.mint(DEPOSITOR, 1_000).unwrap();
    let mut contract = CreatorEarnings::new(CONTRACT);

    let r = contract.deposit(&mut ledger, DEPOSITOR, DEPOSITOR, CREATOR, 100);
    assert_eq!(r, Err(EarningsError::NotInitialized));
}

#[test]
fn earnings_deposit_rejects_non_positive_amount() {
    let (mut contract, mut ledger) = setup();

    assert_eq!(
        contract.deposit(&mut ledger, DEPOSITOR, DEPOSITOR, CREATOR, 0),
        Err(EarningsError::InvalidAmount),
    );
    assert_eq!(
        contract.withdraw(&mut ledger, CREATOR, CREATOR, -5),
        Err(EarningsError::InvalidAmount),
    );
}

#[test]
fn earnings_deposit_overflow_is_rejected() {
    let (mut contract, mut ledger) = setup();
    ledger.mint(ADMIN, i128::MAX - 1_000).unwrap();

    contract.deposit(&mut ledger, ADMIN, ADMIN, CREATOR, i128::MAX - 1_000).unwrap();
    assert_eq!(contract.balance(CREATOR), i128::MAX - 1_000);

    ledger.mint(ADMIN, 2_000).unwrap();
    let r = contract.deposit(&mut ledger, ADMIN, ADMIN, CREATOR, 2_000);
    assert_eq!(r, Err(EarningsError::Overflow));
    assert_eq!(contract.balance(CREATOR), i128::MAX - 1_000);
}
