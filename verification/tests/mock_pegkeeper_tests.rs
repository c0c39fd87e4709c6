//! Tests of the mock Pegkeeper: registry, gating, and the direct-repayment
//! receive entry point.

use peg_treasury::errors::MockPegkeeperError;
use peg_treasury::ledger::{LedgerInfo, TokenLedger};
use peg_treasury::mock_pegkeeper::{DataKey, MockPegkeeperContract};
use peg_treasury::pegkeeper::FlashLoanOutcome;
use peg_treasury::requests::Position;

const MOCK: u64 = 500;
const TREASURY: u64 = 100;
const BLEND: u64 = 300;
const SOROSWAP: u64 = 400;
const ADMIN: u64 = 1;
const TOKEN: u64 = 10;
const COLLATERAL: u64 = 20;

fn initialized_mock() -> MockPegkeeperContract {
    let mut m = MockPegkeeperContract::new(MOCK);
    assert_eq!(m.initialize(ADMIN, 3_600), Ok(()));
    m
}

fn outcome(seized: i128, liabilities: Vec<i128>, swap_out: i128) -> FlashLoanOutcome {
    FlashLoanOutcome {
        seized_collateral: seized,
        position: Position { collateral: vec![seized], liabilities },
        swap_out,
    }
}

/// The pool holds collateral, the AMM holds the token, and the mock has
/// already received the loan disbursement.
fn funded_ledger(loan: i128) -> TokenLedger {
    let mut ledger = TokenLedger::new();
    ledger.mint(COLLATERAL, BLEND, 10_000);
    ledger.mint(TOKEN, SOROSWAP, 10_000);
    ledger.mint(TOKEN, MOCK, loan);
    ledger
}

#[test]
fn mock_initialize_only_once() {
    let mut m = MockPegkeeperContract::new(MOCK);
    assert_eq!(m.initialize(ADMIN, 3_600), Ok(()));
    assert_eq!(
        m.initialize(2, 60),
        Err(MockPegkeeperError::AlreadyInitializedError)
    );
    assert_eq!(m.get_maximum_duration(), 3_600);
    assert_eq!(m.get_balance(), 0);
    assert!(m.has(DataKey::ADMIN));
    assert!(!m.has(DataKey::ROUTER));
}

#[test]
fn set_admin_requires_admin() {
    // an unauthorized caller cannot replace the admin; the admin stays
    let mut m = initialized_mock();
    assert_eq!(m.set_admin(77, 78), Err(MockPegkeeperError::NotAuthorized));
    assert_eq!(m.get_admin(), Some(ADMIN));
    assert_eq!(m.set_admin(ADMIN, 2), Ok(()));
    assert_eq!(m.get_admin(), Some(2));
}

#[test]
fn add_treasury_and_resolve_flash_loan() {
    let mut m = initialized_mock();
    assert_eq!(
        m.add_treasury(77, TOKEN, TREASURY),
        Err(MockPegkeeperError::NotAuthorized)
    );
    assert_eq!(m.get_treasury(TOKEN), None);
    assert_eq!(m.add_treasury(ADMIN, TOKEN, TREASURY), Ok(()));
    assert_eq!(m.get_treasury(TOKEN), Some(TREASURY));
    let call = m.flash_loan(TOKEN, 500);
    assert_eq!(call.treasury, TREASURY);
    assert_eq!(call.token, TOKEN);
    assert_eq!(call.amount, 500);
}

#[test]
fn maximum_duration_and_deadline() {
    let mut m = initialized_mock();
    assert_eq!(
        m.set_maximum_duration(77, 60),
        Err(MockPegkeeperError::NotAuthorized)
    );
    assert_eq!(m.set_maximum_duration(ADMIN, 60), Ok(()));
    assert_eq!(m.get_maximum_duration(), 60);
    let info = LedgerInfo { sequence: 5, timestamp: 1_000 };
    assert_eq!(m.swap_deadline(info), 1_060);
}

#[test]
fn mock_receive_requires_treasury_auth() {
    let mut ledger = funded_ledger(500);
    let m = initialized_mock();
    let out = outcome(600, vec![], 1_100);
    let r = m.flashloan_receive(
        &mut ledger, 77, TOKEN, TREASURY, BLEND, SOROSWAP, COLLATERAL, 500, 5, 20, &out,
    );
    assert_eq!(r, Err(MockPegkeeperError::NotAuthorized));
    assert_eq!(ledger.balance(TOKEN, MOCK), 500);
}

#[test]
fn mock_receive_loan_never_arrived() {
    // without the disbursement the balance never grew: InsufficientBalance
    let mut ledger = TokenLedger::new();
    ledger.mint(COLLATERAL, BLEND, 10_000);
    ledger.mint(TOKEN, SOROSWAP, 10_000);
    let m = initialized_mock();
    let out = outcome(600, vec![], 1_100);
    let r = m.flashloan_receive(
        &mut ledger, TREASURY, TOKEN, TREASURY, BLEND, SOROSWAP, COLLATERAL, 500, 5, 20, &out,
    );
    assert_eq!(r, Err(MockPegkeeperError::InsufficientBalance));
    assert_eq!(ledger.balance(TOKEN, BLEND), 0);
}

#[test]
fn mock_receive_liabilities_left() {
    let mut ledger = funded_ledger(500);
    let m = initialized_mock();
    let out = outcome(600, vec![25], 1_100);
    let r = m.flashloan_receive(
        &mut ledger, TREASURY, TOKEN, TREASURY, BLEND, SOROSWAP, COLLATERAL, 500, 5, 20, &out,
    );
    assert_eq!(r, Err(MockPegkeeperError::RepayLiabilitiesFail));
    assert_eq!(ledger.balance(TOKEN, MOCK), 500);
}

#[test]
fn mock_receive_cannot_cover_fee() {
    // the swap output cannot cover principal plus fee: NotProfitable
    let mut ledger = funded_ledger(500);
    let m = initialized_mock();
    let out = outcome(600, vec![], 504);
    let r = m.flashloan_receive(
        &mut ledger, TREASURY, TOKEN, TREASURY, BLEND, SOROSWAP, COLLATERAL, 500, 5, 20, &out,
    );
    assert_eq!(r, Err(MockPegkeeperError::NotProfitable));
    assert_eq!(ledger.balance(TOKEN, MOCK), 500);
    assert_eq!(ledger.balance(TOKEN, SOROSWAP), 10_000);
}

#[test]
fn mock_receive_success() {
    let mut ledger = funded_ledger(500);
    let m = initialized_mock();
    let out = outcome(600, vec![], 1_100);
    let r = m.flashloan_receive(
        &mut ledger, TREASURY, TOKEN, TREASURY, BLEND, SOROSWAP, COLLATERAL, 500, 5, 20, &out,
    );
    assert_eq!(r, Ok(()));
    // the loan went into the pool, the collateral lot to the AMM
    assert_eq!(ledger.balance(TOKEN, BLEND), 500);
    assert_eq!(ledger.balance(COLLATERAL, BLEND), 9_400);
    assert_eq!(ledger.balance(COLLATERAL, SOROSWAP), 600);
    // the treasury got the principal plus the fee by direct transfer
    assert_eq!(ledger.balance(TOKEN, TREASURY), 505);
    // the mock kept the rest of the swap output as its own gain
    assert_eq!(ledger.balance(TOKEN, MOCK), 595);
    assert_eq!(ledger.balance(TOKEN, SOROSWAP), 8_900);
}

#[test]
fn mock_router_storage() {
    let mut m = initialized_mock();
    assert_eq!(m.get_router(), None);
    m.set_router(SOROSWAP);
    assert_eq!(m.get_router(), Some(SOROSWAP));
    assert!(m.has(DataKey::ROUTER));
}
