use myfans::content_access::{AccessEvent, ContentAccess};
use myfans::errors::Error;
use myfans::token::TokenLedger;

const ADMIN: u64 = 1;
const TOKEN_ADDRESS: u64 = 2;
const BUYER: u64 = 3;
const CREATOR: u64 = 4;

fn setup() -> (ContentAccess, TokenLedger) {
    let mut ledger = TokenLedger::new();
    ledger.mint(BUYER, 1_000_000).unwrap();
    (ContentAccess::new(), ledger)
}

#[test]
fn lib_test_initialize() {
    let (mut contract, _ledger) = setup();

    assert_eq!(contract.initialize(ADMIN, TOKEN_ADDRESS), Ok(()));

    let buyer = 10;
    let creator = 11;
    assert!(!contract.has_access(buyer, creator, 1));
}

#[test]
fn test_unlock_content_works() {
    let (mut contract, mut ledger) = setup();
    contract.initialize(ADMIN, TOKEN_ADDRESS).unwrap();

    assert!(!contract.has_access(BUYER, CREATOR, 1));

    contract.unlock_content(&mut ledger, BUYER, BUYER, CREATOR, 1, 100).unwrap();

    assert!(contract.has_access(BUYER, CREATOR, 1));

    assert_eq!(
        contract.events().as_slice(),
        &[AccessEvent::ContentUnlocked { buyer: BUYER, creator: CREATOR, content_id: 1, price: 100 }],
    );
}

#[test]
fn test_unlock_content_requires_buyer_auth() {
    let (mut contract, mut ledger) = setup();
    contract.initialize(ADMIN, TOKEN_ADDRESS).unwrap();

    // The call was not approved by the buyer: refused, nothing unlocked.
    let intruder = 99;
    let r = contract.unlock_content(&mut ledger, intruder, BUYER, CREATOR, 1, 100);
    assert_eq!(r, Err(Error::Unauthorized));
    assert!(!contract.has_access(BUYER, CREATOR, 1));
}

#[test]
fn test_duplicate_unlock_is_idempotent() {
    let (mut contract, mut ledger) = setup();
    contract.initialize(ADMIN, TOKEN_ADDRESS).unwrap();

    contract.unlock_content(&mut ledger, BUYER, BUYER, CREATOR, 1, 100).unwrap();
    assert!(contract.has_access(BUYER, CREATOR, 1));
    let creator_balance_after_first = ledger.balance_of(CREATOR);

    contract.unlock_content(&mut ledger, BUYER, BUYER, CREATOR, 1, 100).unwrap();
    assert!(contract.has_access(BUYER, CREATOR, 1));

    // The payment happened exactly once and no duplicate event was emitted.
    assert_eq!(ledger.balance_of(CREATOR), creator_balance_after_first);
    assert_eq!(creator_balance_after_first, 100);
    assert_eq!(contract.events().len(), 1);
}

#[test]
fn test_has_access_returns_false_for_non_existent() {
    let (mut contract, _ledger) = setup();
    contract.initialize(ADMIN, TOKEN_ADDRESS).unwrap();

    assert!(!contract.has_access(BUYER, CREATOR, 999));
}

#[test]
fn test_access_is_buyer_specific() {
    let (mut contract, mut ledger) = setup();
    let buyer2 = 5;
    contract.initialize(ADMIN, TOKEN_ADDRESS).unwrap();

    contract.unlock_content(&mut ledger, BUYER, BUYER, CREATOR, 1, 100).unwrap();

    assert!(contract.has_access(BUYER, CREATOR, 1));
    assert!(!contract.has_access(buyer2, CREATOR, 1));
}

#[test]
fn test_access_is_creator_specific() {
    let (mut contract, mut ledger) = setup();
    let creator2 = 6;
    contract.initialize(ADMIN, TOKEN_ADDRESS).unwrap();

    contract.unlock_content(&mut ledger, BUYER, BUYER, CREATOR, 1, 100).unwrap();

    assert!(contract.has_access(BUYER, CREATOR, 1));
    assert!(!contract.has_access(BUYER, creator2, 1));
}

#[test]
fn test_access_is_content_id_specific() {
    let (mut contract, mut ledger) = setup();
    contract.initialize(ADMIN, TOKEN_ADDRESS).unwrap();

    contract.unlock_content(&mut ledger, BUYER, BUYER, CREATOR, 1, 100).unwrap();

    assert!(contract.has_access(BUYER, CREATOR, 1));
    assert!(!contract.has_access(BUYER, CREATOR, 2));
}

#[test]
fn test_multiple_unlocks_different_content() {
    let (mut contract, mut ledger) = setup();
    contract.initialize(ADMIN, TOKEN_ADDRESS).unwrap();

    contract.unlock_content(&mut ledger, BUYER, BUYER, CREATOR, 1, 100).unwrap();
    contract.unlock_content(&mut ledger, BUYER, BUYER, CREATOR, 2, 150).unwrap();
    contract.unlock_content(&mut ledger, BUYER, BUYER, CREATOR, 3, 200).unwrap();

    assert!(contract.has_access(BUYER, CREATOR, 1));
    assert!(contract.has_access(BUYER, CREATOR, 2));
    assert!(contract.has_access(BUYER, CREATOR, 3));
}

#[test]
fn test_multiple_buyers_same_content() {
    let (mut contract, mut ledger) = setup();
    let buyer2 = 5;
    let buyer3 = 6;
    ledger.mint(buyer2, 1_000).unwrap();
    contract.initialize(ADMIN, TOKEN_ADDRESS).unwrap();

    contract.unlock_content(&mut ledger, BUYER, BUYER, CREATOR, 1, 100).unwrap();
    contract.unlock_content(&mut ledger, buyer2, buyer2, CREATOR, 1, 100).unwrap();

    assert!(contract.has_access(BUYER, CREATOR, 1));
    assert!(contract.has_access(buyer2, CREATOR, 1));
    assert!(!contract.has_access(buyer3, CREATOR, 1));
}

#[test]
fn test_initialize_fails_if_already_initialized() {
    let (mut contract, _ledger) = setup();

    contract.initialize(ADMIN, TOKEN_ADDRESS).unwrap();
    assert_eq!(contract.initialize(ADMIN, TOKEN_ADDRESS), Err(Error::AlreadyInitialized));
}

#[test]
fn unlock_before_initialize_is_refused() {
    let (mut contract, mut ledger) = setup();

    let r = contract.unlock_content(&mut ledger, BUYER, BUYER, CREATOR, 1, 100);
    assert_eq!(r, Err(Error::NotInitialized));
    assert!(!contract.has_access(BUYER, CREATOR, 1));
    assert_eq!(ledger.balance_of(BUYER), 1_000_000);
}

#[test]
fn unlock_fails_when_buyer_cannot_pay() {
    let (mut contract, mut ledger) = setup();
    contract.initialize(ADMIN, TOKEN_ADDRESS).unwrap();

    let r = contract.unlock_content(&mut ledger, BUYER, BUYER, CREATOR, 1, 2_000_000);
    assert_eq!(r, Err(Error::InsufficientBalance));
    assert!(!contract.has_access(BUYER, CREATOR, 1));
    assert_eq!(ledger.balance_of(BUYER), 1_000_000);
    assert_eq!(ledger.balance_of(CREATOR), 0);
}
