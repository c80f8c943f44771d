use myfans::creator_deposits::{CreatorDeposits, DepositEvent};
use myfans::errors::Error;
use myfans::fees::MAX_FEE_BASE;
use myfans::token::TokenLedger;

const CONTRACT: u64 = 100;
const ADMIN: u64 = 1;
const TREASURY: u64 = 2;
const CREATOR: u64 = 3;
const TOKEN: u64 = 4;

fn setup() -> (CreatorDeposits, TokenLedger) {
    let mut ledger = TokenLedger::new();
    ledger.mint(CREATOR, 1_000_000).unwrap();
    (CreatorDeposits::new(CONTRACT), ledger)
}

#[test]
fn test_fee_deducted_correctly() {
    let (mut contract, mut ledger) = setup();

    contract.init(ADMIN, 500, TREASURY).unwrap(); // 5% fee
    contract.deposit(&mut ledger, CREATOR, CREATOR, TOKEN, 1000).unwrap();

    assert_eq!(contract.get_balance(CREATOR), 950); // 1000 - 50 fee

    assert_eq!(
        contract.events().as_slice(),
        &[DepositEvent::EarningsDeposited { creator: CREATOR, token: TOKEN, net: 950 }],
    );
}

#[test]
fn test_treasury_receives_fee() {
    let (mut contract, mut ledger) = setup();

    contract.init(ADMIN, 500, TREASURY).unwrap();
    contract.deposit(&mut ledger, CREATOR, CREATOR, TOKEN, 1000).unwrap();

    // The fee of 50 moved from the creator to the treasury.
    assert_eq!(ledger.balance_of(TREASURY), 50);
    assert_eq!(ledger.balance_of(CREATOR), 1_000_000 - 50);
}

#[test]
fn test_creator_receives_net() {
    let (mut contract, mut ledger) = setup();

    contract.init(ADMIN, 1000, TREASURY).unwrap(); // 10% fee
    contract.deposit(&mut ledger, CREATOR, CREATOR, TOKEN, 5000).unwrap();

    assert_eq!(contract.get_balance(CREATOR), 4500); // 5000 - 500 fee
}

#[test]
fn test_invalid_bps_init_reverts() {
    let (mut contract, _ledger) = setup();

    assert_eq!(contract.init(ADMIN, 10000, TREASURY), Err(Error::InvalidFee));
}

#[test]
fn test_invalid_bps_set_platform_fee_reverts() {
    let (mut contract, _ledger) = setup();

    contract.init(ADMIN, 500, TREASURY).unwrap();
    assert_eq!(contract.set_platform_fee(ADMIN, 10001), Err(Error::InvalidFee));
    assert_eq!(contract.get_platform_fee(), 500);
}

#[test]
fn test_set_platform_fee_admin_only() {
    let (mut contract, _ledger) = setup();

    contract.init(ADMIN, 500, TREASURY).unwrap();
    contract.set_platform_fee(ADMIN, 1000).unwrap();

    assert_eq!(contract.get_platform_fee(), 1000);

    let non_admin = 9;
    assert_eq!(contract.set_platform_fee(non_admin, 100), Err(Error::Unauthorized));
    assert_eq!(contract.get_platform_fee(), 1000);
}

#[test]
fn test_zero_fee() {
    let (mut contract, mut ledger) = setup();

    contract.init(ADMIN, 0, TREASURY).unwrap();
    contract.deposit(&mut ledger, CREATOR, CREATOR, TOKEN, 1000).unwrap();

    assert_eq!(contract.get_balance(CREATOR), 1000);
    assert_eq!(ledger.balance_of(TREASURY), 0);
}

#[test]
fn test_multiple_deposits_accumulate() {
    let (mut contract, mut ledger) = setup();

    contract.init(ADMIN, 500, TREASURY).unwrap();
    contract.deposit(&mut ledger, CREATOR, CREATOR, TOKEN, 1000).unwrap();
    contract.deposit(&mut ledger, CREATOR, CREATOR, TOKEN, 2000).unwrap();

    assert_eq!(contract.get_balance(CREATOR), 2850); // 950 + 1900
}

#[test]
fn test_withdraw_works() {
    let (mut contract, mut ledger) = setup();
    // The contract's own token account pays withdrawals out.
    ledger.mint(CONTRACT, 10_000).unwrap();

    contract.init(ADMIN, 0, TREASURY).unwrap();
    contract.deposit(&mut ledger, CREATOR, CREATOR, TOKEN, 1000).unwrap();

    assert_eq!(contract.get_balance(CREATOR), 1000);
    assert_eq!(
        contract.events().as_slice(),
        &[DepositEvent::EarningsDeposited { creator: CREATOR, token: TOKEN, net: 1000 }],
    );

    contract.withdraw(&mut ledger, CREATOR, CREATOR, TOKEN, 500).unwrap();

    assert_eq!(contract.get_balance(CREATOR), 500);

    assert_eq!(
        contract.events().last(),
        Some(&DepositEvent::EarningsWithdrawn { creator: CREATOR, token: TOKEN, amount: 500 }),
    );
}

#[test]
fn lib_test_withdraw_insufficient_balance() {
    let (mut contract, mut ledger) = setup();
    ledger.mint(CONTRACT, 10_000).unwrap();

    contract.init(ADMIN, 0, TREASURY).unwrap();
    contract.deposit(&mut ledger, CREATOR, CREATOR, TOKEN, 1000).unwrap();

    let r = contract.withdraw(&mut ledger, CREATOR, CREATOR, TOKEN, 1001);
    assert_eq!(r, Err(Error::InsufficientBalance));
    // The failed withdrawal left both books untouched.
    assert_eq!(contract.get_balance(CREATOR), 1000);
    assert_eq!(ledger.balance_of(CONTRACT), 10_000);
}

#[test]
fn deposit_requires_initialization() {
    let (mut contract, mut ledger) = setup();

    let r = contract.deposit(&mut ledger, CREATOR, CREATOR, TOKEN, 1000);
    assert_eq!(r, Err(Error::NotInitialized));
}

#[test]
fn deposit_rejects_negative_amount() {
    let (mut contract, mut ledger) = setup();
    contract.init(ADMIN, 500, TREASURY).unwrap();

    assert_eq!(
        contract.deposit(&mut ledger, CREATOR, CREATOR, TOKEN, -1),
        Err(Error::InvalidAmount),
    );
    assert_eq!(contract.get_balance(CREATOR), 0);
}

#[test]
fn deposit_rejects_amount_past_fee_range() {
    let (mut contract, mut ledger) = setup();
    contract.init(ADMIN, 500, TREASURY).unwrap();

    assert_eq!(
        contract.deposit(&mut ledger, CREATOR, CREATOR, TOKEN, MAX_FEE_BASE + 1),
        Err(Error::Overflow),
    );
    assert_eq!(contract.get_balance(CREATOR), 0);
}

#[test]
fn deposit_round_trip_formula() {
    // get_balance after one deposit reads amount - floor(amount * bps / 10000).
    let (mut contract, mut ledger) = setup();
    contract.init(ADMIN, 137, TREASURY).unwrap();

    contract.deposit(&mut ledger, CREATOR, CREATOR, TOKEN, 9_999).unwrap();
    // floor(9999 * 137 / 10000) = floor(136.98...) = 136
    assert_eq!(contract.get_balance(CREATOR), 9_999 - 136);
    assert_eq!(ledger.balance_of(TREASURY), 136);
}
