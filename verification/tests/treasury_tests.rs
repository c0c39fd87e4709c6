//! Tests of the Treasury: supply ledger, admin gating, and `keep_peg`.

use peg_treasury::errors::TreasuryError;
use peg_treasury::ledger::{LedgerInfo, TokenLedger};
use peg_treasury::treasury::{CallbackOutcome, TreasuryContract};

const TREASURY: u64 = 100;
const PEGKEEPER: u64 = 200;
const POOL: u64 = 300;
const ADMIN: u64 = 1;
const TOKEN: u64 = 10;

fn initialized_treasury() -> TreasuryContract {
    let mut tr = TreasuryContract::new(TREASURY);
    assert_eq!(tr.initialize(ADMIN, PEGKEEPER), Ok(()));
    tr
}

#[test]
fn initialize_only_once() {
    let mut tr = TreasuryContract::new(TREASURY);
    assert_eq!(tr.initialize(ADMIN, PEGKEEPER), Ok(()));
    assert_eq!(
        tr.initialize(2, 3),
        Err(TreasuryError::AlreadyInitializedError)
    );
    assert_eq!(tr.get_admin(), Some(ADMIN));
    assert_eq!(tr.get_pegkeeper(), Some(PEGKEEPER));
}

#[test]
fn add_stablecoin_requires_admin() {
    let mut tr = initialized_treasury();
    assert_eq!(tr.add_stablecoin(2, TOKEN, POOL), Err(TreasuryError::NotAdmin));
    assert_eq!(tr.get_lending_pool(TOKEN), None);
    assert_eq!(tr.add_stablecoin(ADMIN, TOKEN, POOL), Ok(()));
    assert_eq!(tr.get_lending_pool(TOKEN), Some(POOL));
    assert_eq!(tr.get_supply(TOKEN), 0);
}

#[test]
fn set_pegkeeper_requires_admin() {
    let mut tr = initialized_treasury();
    assert_eq!(tr.set_pegkeeper(2, 201), Err(TreasuryError::NotAdmin));
    assert_eq!(tr.get_pegkeeper(), Some(PEGKEEPER));
    assert_eq!(tr.set_pegkeeper(ADMIN, 201), Ok(()));
    assert_eq!(tr.get_pegkeeper(), Some(201));
}

#[test]
fn supply_scenario() {
    // admin initializes with token T, pool P; increase_supply(T, 1000)
    // raises the counter and the pool position; decrease_supply(T, 1500)
    // fails with InsufficientSupply and leaves the counter at 1000
    let mut ledger = TokenLedger::new();
    let mut tr = initialized_treasury();
    assert_eq!(tr.add_stablecoin(ADMIN, TOKEN, POOL), Ok(()));

    assert_eq!(tr.increase_supply(&mut ledger, ADMIN, TOKEN, 1_000), Ok(()));
    assert_eq!(tr.get_supply(TOKEN), 1_000);
    assert_eq!(ledger.balance(TOKEN, POOL), 1_000);
    assert_eq!(ledger.balance(TOKEN, TREASURY), 0);

    assert_eq!(
        tr.decrease_supply(&mut ledger, ADMIN, TOKEN, 1_500),
        Err(TreasuryError::InsufficientSupply)
    );
    assert_eq!(tr.get_supply(TOKEN), 1_000);
    assert_eq!(ledger.balance(TOKEN, POOL), 1_000);
}

#[test]
fn supply_requires_admin() {
    let mut ledger = TokenLedger::new();
    let mut tr = initialized_treasury();
    assert_eq!(tr.add_stablecoin(ADMIN, TOKEN, POOL), Ok(()));
    assert_eq!(
        tr.increase_supply(&mut ledger, 2, TOKEN, 1_000),
        Err(TreasuryError::NotAdmin)
    );
    assert_eq!(tr.get_supply(TOKEN), 0);
    assert_eq!(
        tr.decrease_supply(&mut ledger, 2, TOKEN, 1),
        Err(TreasuryError::NotAdmin)
    );
}

#[test]
fn supply_round_trip() {
    // increase_supply followed by decrease_supply of the same amount
    // returns the counter and the pool to their prior values
    let mut ledger = TokenLedger::new();
    let mut tr = initialized_treasury();
    assert_eq!(tr.add_stablecoin(ADMIN, TOKEN, POOL), Ok(()));
    assert_eq!(tr.increase_supply(&mut ledger, ADMIN, TOKEN, 250), Ok(()));
    assert_eq!(tr.increase_supply(&mut ledger, ADMIN, TOKEN, 100), Ok(()));
    assert_eq!(tr.get_supply(TOKEN), 350);
    assert_eq!(tr.decrease_supply(&mut ledger, ADMIN, TOKEN, 100), Ok(()));
    assert_eq!(tr.get_supply(TOKEN), 250);
    assert_eq!(ledger.balance(TOKEN, POOL), 250);
    assert_eq!(ledger.balance(TOKEN, TREASURY), 0);
}

#[test]
fn decrease_to_zero_allowed() {
    let mut ledger = TokenLedger::new();
    let mut tr = initialized_treasury();
    assert_eq!(tr.add_stablecoin(ADMIN, TOKEN, POOL), Ok(()));
    assert_eq!(tr.increase_supply(&mut ledger, ADMIN, TOKEN, 77), Ok(()));
    assert_eq!(tr.decrease_supply(&mut ledger, ADMIN, TOKEN, 77), Ok(()));
    assert_eq!(tr.get_supply(TOKEN), 0);
    assert_eq!(ledger.balance(TOKEN, POOL), 0);
}

#[test]
fn keep_peg_short_repayment_rolls_back() {
    // keep_peg borrows 500, the delegate returns only 480: the operation
    // fails with FlashLoanNotRepaid and the post-state equals the pre-state
    let mut ledger = TokenLedger::new();
    let tr = initialized_treasury();
    let info = LedgerInfo { sequence: 5, timestamp: 1_000 };
    let r = tr.keep_peg(
        &mut ledger,
        info,
        TOKEN,
        500,
        CallbackOutcome::Completed { repaid: 480, approved: 0 },
    );
    assert_eq!(r, Err(TreasuryError::FlashLoanNotRepaid));
    assert_eq!(ledger.balance(TOKEN, TREASURY), 0);
    assert_eq!(ledger.balance(TOKEN, PEGKEEPER), 0);
}

#[test]
fn keep_peg_full_repayment_commits() {
    let mut ledger = TokenLedger::new();
    let tr = initialized_treasury();
    let info = LedgerInfo { sequence: 5, timestamp: 1_000 };
    let r = tr.keep_peg(
        &mut ledger,
        info,
        TOKEN,
        500,
        CallbackOutcome::Completed { repaid: 0, approved: 500 },
    );
    assert_eq!(r, Ok(()));
    // the mint-pull-burn bracket leaves every balance as it was
    assert_eq!(ledger.balance(TOKEN, TREASURY), 0);
    assert_eq!(ledger.balance(TOKEN, PEGKEEPER), 0);
    // the approval was consumed by the pull
    assert_eq!(ledger.allowance(TOKEN, PEGKEEPER, TREASURY), (0, 6));
}

#[test]
fn keep_peg_direct_repayment_commits() {
    // a delegate that repays the full principal by direct transfer, with
    // no approval at all, also satisfies the invariant
    let mut ledger = TokenLedger::new();
    let tr = initialized_treasury();
    let info = LedgerInfo { sequence: 5, timestamp: 1_000 };
    let r = tr.keep_peg(
        &mut ledger,
        info,
        TOKEN,
        500,
        CallbackOutcome::Completed { repaid: 500, approved: 0 },
    );
    assert_eq!(r, Ok(()));
    assert_eq!(ledger.balance(TOKEN, TREASURY), 0);
    assert_eq!(ledger.balance(TOKEN, PEGKEEPER), 0);
}

#[test]
fn keep_peg_faulted_callback() {
    let mut ledger = TokenLedger::new();
    let tr = initialized_treasury();
    let info = LedgerInfo { sequence: 5, timestamp: 1_000 };
    let r = tr.keep_peg(&mut ledger, info, TOKEN, 500, CallbackOutcome::Faulted);
    assert_eq!(r, Err(TreasuryError::FlashloanFailedError));
    assert_eq!(ledger.balance(TOKEN, TREASURY), 0);
    assert_eq!(ledger.balance(TOKEN, PEGKEEPER), 0);
}
