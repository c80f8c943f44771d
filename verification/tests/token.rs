use myfans::errors::Error;
use myfans::token::TokenLedger;

#[test]
fn token_mint_and_balances() {
    let mut ledger = TokenLedger::new();
    let account = 1;

    assert_eq!(ledger.balance_of(account), 0);
    ledger.mint(account, 1000).unwrap();
    assert_eq!(ledger.balance_of(account), 1000);

    assert_eq!(ledger.mint(account, -1), Err(Error::InvalidAmount));
    assert_eq!(ledger.mint(account, i128::MAX), Err(Error::Overflow));
    assert_eq!(ledger.balance_of(account), 1000);
}

#[test]
fn token_transfer_moves_exactly_the_amount() {
    let mut ledger = TokenLedger::new();
    let from = 1;
    let to = 2;
    let other = 3;
    ledger.mint(from, 1000).unwrap();

    ledger.transfer(from, to, 600).unwrap();

    assert_eq!(ledger.balance_of(from), 400);
    assert_eq!(ledger.balance_of(to), 600);
    assert_eq!(ledger.balance_of(other), 0);
}

#[test]
fn token_transfer_insufficient_balance() {
    let mut ledger = TokenLedger::new();
    let from = 1;
    let to = 2;
    ledger.mint(from, 100).unwrap();

    assert_eq!(ledger.transfer(from, to, 101), Err(Error::InsufficientBalance));
    assert_eq!(ledger.balance_of(from), 100);
    assert_eq!(ledger.balance_of(to), 0);
}

#[test]
fn token_transfer_rejects_negative_amount() {
    let mut ledger = TokenLedger::new();
    let from = 1;
    let to = 2;
    ledger.mint(from, 100).unwrap();

    assert_eq!(ledger.transfer(from, to, -1), Err(Error::InvalidAmount));
    assert_eq!(ledger.balance_of(from), 100);
}

#[test]
fn token_transfer_rejects_credit_overflow() {
    let mut ledger = TokenLedger::new();
    let from = 1;
    let to = 2;
    ledger.mint(from, 100).unwrap();
    ledger.mint(to, i128::MAX - 10).unwrap();

    assert_eq!(ledger.transfer(from, to, 11), Err(Error::Overflow));
    assert_eq!(ledger.balance_of(from), 100);
    assert_eq!(ledger.balance_of(to), i128::MAX - 10);

    ledger.transfer(from, to, 10).unwrap();
    assert_eq!(ledger.balance_of(to), i128::MAX);
}

#[test]
fn token_self_transfer_is_a_no_op() {
    let mut ledger = TokenLedger::new();
    let account = 1;
    ledger.mint(account, 100).unwrap();

    ledger.transfer(account, account, 40).unwrap();
    assert_eq!(ledger.balance_of(account), 100);

    assert_eq!(ledger.transfer(account, account, 101), Err(Error::InsufficientBalance));
}

#[test]
fn token_transfer_pair_is_all_or_nothing() {
    let mut ledger = TokenLedger::new();
    let from = 1;
    let to1 = 2;
    let to2 = 3;
    ledger.mint(from, 100).unwrap();

    // Both legs fit: both happen.
    ledger.transfer_pair(from, to1, 60, to2, 40).unwrap();
    assert_eq!(ledger.balance_of(from), 0);
    assert_eq!(ledger.balance_of(to1), 60);
    assert_eq!(ledger.balance_of(to2), 40);

    // The second leg cannot be paid: neither happens.
    ledger.mint(from, 50).unwrap();
    let r = ledger.transfer_pair(from, to1, 30, to2, 30);
    assert_eq!(r, Err(Error::InsufficientBalance));
    assert_eq!(ledger.balance_of(from), 50);
    assert_eq!(ledger.balance_of(to1), 60);
    assert_eq!(ledger.balance_of(to2), 40);
}
