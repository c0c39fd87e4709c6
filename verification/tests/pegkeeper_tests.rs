//! Tests of the Pegkeeper's `fl_receive` and the composed flash-loan chain.

use peg_treasury::errors::{PegkeeperError, TreasuryError};
use peg_treasury::ledger::{LedgerInfo, TokenLedger};
use peg_treasury::pegkeeper::{FlashLoanOperation, FlashLoanOutcome, PegkeeperContract};
use peg_treasury::requests::Position;
use peg_treasury::treasury::TreasuryContract;

const TREASURY: u64 = 100;
const PEGKEEPER: u64 = 200;
const POOL: u64 = 300;
const AMM: u64 = 400;
const FEE_TAKER: u64 = 9;
const ADMIN: u64 = 1;
const TOKEN: u64 = 10;
const COLLATERAL: u64 = 20;

fn operation(amount: i128) -> FlashLoanOperation {
    FlashLoanOperation {
        token: TOKEN,
        amount,
        blend_pool: POOL,
        auction: 7,
        collateral_token: COLLATERAL,
        lot_amount: 600,
        liq_percent: 20,
        amm: AMM,
        fee_taker: FEE_TAKER,
    }
}

fn outcome(seized: i128, liabilities: Vec<i128>, swap_out: i128) -> FlashLoanOutcome {
    FlashLoanOutcome {
        seized_collateral: seized,
        position: Position { collateral: vec![seized], liabilities },
        swap_out,
    }
}

/// A ledger where the pool holds collateral, the AMM holds the token, and
/// the Pegkeeper already holds the loan.
fn funded_ledger(loan: i128) -> TokenLedger {
    let mut ledger = TokenLedger::new();
    ledger.mint(COLLATERAL, POOL, 10_000);
    ledger.mint(TOKEN, AMM, 10_000);
    ledger.mint(TOKEN, PEGKEEPER, loan);
    ledger
}

fn initialized_pegkeeper() -> PegkeeperContract {
    let mut pk = PegkeeperContract::new(PEGKEEPER);
    assert_eq!(pk.initialize(TREASURY, AMM), Ok(()));
    pk
}

#[test]
fn pegkeeper_initialize_only_once() {
    let mut pk = PegkeeperContract::new(PEGKEEPER);
    assert_eq!(pk.initialize(TREASURY, AMM), Ok(()));
    assert_eq!(
        pk.initialize(2, 3),
        Err(PegkeeperError::AlreadyInitializedError)
    );
    assert_eq!(pk.get_admin(), Some(TREASURY));
    assert_eq!(pk.get_router(), Some(AMM));
}

#[test]
fn fl_receive_requires_treasury() {
    let mut ledger = funded_ledger(500);
    let pk = initialized_pegkeeper();
    let info = LedgerInfo { sequence: 5, timestamp: 1_000 };
    let out = outcome(600, vec![], 550);
    let r = pk.fl_receive(&mut ledger, info, 77, operation(500), &out);
    assert_eq!(r, Err(PegkeeperError::NotAuthorized));
    assert_eq!(ledger.balance(TOKEN, PEGKEEPER), 500);
}

#[test]
fn fl_receive_liabilities_left() {
    // the batched liquidate-and-repay left debt standing: hard failure,
    // nothing changes
    let mut ledger = funded_ledger(500);
    let pk = initialized_pegkeeper();
    let info = LedgerInfo { sequence: 5, timestamp: 1_000 };
    let out = outcome(600, vec![25], 550);
    let r = pk.fl_receive(&mut ledger, info, TREASURY, operation(500), &out);
    assert_eq!(r, Err(PegkeeperError::RepayLiabilitiesFail));
    assert_eq!(ledger.balance(TOKEN, PEGKEEPER), 500);
    assert_eq!(ledger.balance(COLLATERAL, POOL), 10_000);
}

#[test]
fn fl_receive_loss_making() {
    // the swap returns less than the loan: NotProfitable, nothing changes
    let mut ledger = funded_ledger(500);
    let pk = initialized_pegkeeper();
    let info = LedgerInfo { sequence: 5, timestamp: 1_000 };
    let out = outcome(600, vec![], 499);
    let r = pk.fl_receive(&mut ledger, info, TREASURY, operation(500), &out);
    assert_eq!(r, Err(PegkeeperError::NotProfitable));
    assert_eq!(ledger.balance(TOKEN, PEGKEEPER), 500);
    assert_eq!(ledger.balance(TOKEN, AMM), 10_000);
}

#[test]
fn fl_receive_success() {
    let mut ledger = funded_ledger(500);
    let pk = initialized_pegkeeper();
    let info = LedgerInfo { sequence: 5, timestamp: 1_000 };
    let out = outcome(600, vec![], 550);
    let r = pk.fl_receive(&mut ledger, info, TREASURY, operation(500), &out);
    assert_eq!(r, Ok(()));
    // the loan went into the pool, the collateral through to the AMM
    assert_eq!(ledger.balance(TOKEN, POOL), 500);
    assert_eq!(ledger.balance(COLLATERAL, POOL), 9_400);
    assert_eq!(ledger.balance(COLLATERAL, AMM), 600);
    assert_eq!(ledger.balance(COLLATERAL, PEGKEEPER), 0);
    // the surplus went to the fee recipient; the Pegkeeper kept the loan
    assert_eq!(ledger.balance(TOKEN, FEE_TAKER), 50);
    assert_eq!(ledger.balance(TOKEN, PEGKEEPER), 500);
    // the principal is approved back to the Treasury until sequence 6
    assert_eq!(ledger.allowance(TOKEN, PEGKEEPER, TREASURY), (500, 6));
}

#[test]
fn fl_receive_break_even() {
    // swap output exactly the loan: allowed, profit is zero
    let mut ledger = funded_ledger(500);
    let pk = initialized_pegkeeper();
    let info = LedgerInfo { sequence: 5, timestamp: 1_000 };
    let out = outcome(600, vec![], 500);
    let r = pk.fl_receive(&mut ledger, info, TREASURY, operation(500), &out);
    assert_eq!(r, Ok(()));
    assert_eq!(ledger.balance(TOKEN, FEE_TAKER), 0);
    assert_eq!(ledger.balance(TOKEN, PEGKEEPER), 500);
}

#[test]
fn flash_chain_success() {
    // the whole chain: mint, liquidate, swap, fee, pull-back, burn —
    // all observable at once, the Treasury's books exactly balanced
    let mut ledger = TokenLedger::new();
    ledger.mint(COLLATERAL, POOL, 10_000);
    ledger.mint(TOKEN, AMM, 10_000);
    let mut tr = TreasuryContract::new(TREASURY);
    assert_eq!(tr.initialize(ADMIN, PEGKEEPER), Ok(()));
    let pk = initialized_pegkeeper();
    let info = LedgerInfo { sequence: 5, timestamp: 1_000 };
    let out = outcome(600, vec![], 550);
    let r = tr.keep_peg_with_pegkeeper(&mut ledger, &pk, info, operation(500), &out);
    assert_eq!(r, Ok(()));
    assert_eq!(ledger.balance(TOKEN, TREASURY), 0);
    assert_eq!(ledger.balance(TOKEN, PEGKEEPER), 0);
    assert_eq!(ledger.balance(TOKEN, POOL), 500);
    assert_eq!(ledger.balance(TOKEN, AMM), 9_450);
    assert_eq!(ledger.balance(TOKEN, FEE_TAKER), 50);
    assert_eq!(ledger.balance(COLLATERAL, POOL), 9_400);
    assert_eq!(ledger.balance(COLLATERAL, AMM), 600);
    // the approval was consumed by the pull
    assert_eq!(ledger.allowance(TOKEN, PEGKEEPER, TREASURY), (0, 6));
}

#[test]
fn flash_chain_aborts_on_liabilities() {
    // the callback fails inside the chain: the disbursement is undone and
    // no effect of the operation survives
    let mut ledger = TokenLedger::new();
    ledger.mint(COLLATERAL, POOL, 10_000);
    ledger.mint(TOKEN, AMM, 10_000);
    let mut tr = TreasuryContract::new(TREASURY);
    assert_eq!(tr.initialize(ADMIN, PEGKEEPER), Ok(()));
    let pk = initialized_pegkeeper();
    let info = LedgerInfo { sequence: 5, timestamp: 1_000 };
    let out = outcome(600, vec![25], 550);
    let r = tr.keep_peg_with_pegkeeper(&mut ledger, &pk, info, operation(500), &out);
    assert_eq!(r, Err(TreasuryError::FlashloanFailedError));
    assert_eq!(ledger.balance(TOKEN, TREASURY), 0);
    assert_eq!(ledger.balance(TOKEN, PEGKEEPER), 0);
    assert_eq!(ledger.balance(TOKEN, POOL), 0);
    assert_eq!(ledger.balance(TOKEN, AMM), 10_000);
    assert_eq!(ledger.balance(COLLATERAL, POOL), 10_000);
}

#[test]
fn flash_chain_aborts_for_foreign_delegate() {
    // a Pegkeeper whose admin is not this Treasury refuses the callback
    let mut ledger = TokenLedger::new();
    ledger.mint(COLLATERAL, POOL, 10_000);
    ledger.mint(TOKEN, AMM, 10_000);
    let mut tr = TreasuryContract::new(TREASURY);
    assert_eq!(tr.initialize(ADMIN, PEGKEEPER), Ok(()));
    let mut pk = PegkeeperContract::new(PEGKEEPER);
    assert_eq!(pk.initialize(101, AMM), Ok(()));
    let info = LedgerInfo { sequence: 5, timestamp: 1_000 };
    let out = outcome(600, vec![], 550);
    let r = tr.keep_peg_with_pegkeeper(&mut ledger, &pk, info, operation(500), &out);
    assert_eq!(r, Err(TreasuryError::FlashloanFailedError));
    assert_eq!(ledger.balance(TOKEN, PEGKEEPER), 0);
}

#[test]
fn pegkeeper_storage_roundtrip() {
    let mut pk = PegkeeperContract::new(PEGKEEPER);
    assert!(!pk.is_init());
    assert_eq!(pk.get_admin(), None);
    pk.set_admin(TREASURY);
    assert!(pk.is_init());
    pk.set_router(AMM);
    assert_eq!(pk.get_router(), Some(AMM));
    assert_eq!(pk.get_address(), PEGKEEPER);
}
