//! Error kinds raised by the Treasury, the Pegkeeper and the mock Pegkeeper.
//!
//! Every error aborts the enclosing operation: the verified operations either
//! return `Ok` with their full effect applied, or return the error with no
//! state change at all.

use vstd::prelude::*;

verus! {

/// Errors of the Treasury's entry points.
#[derive(Clone, Copy, Debug, PartialEq, Eq, Structural)]
pub enum TreasuryError {
    /// `initialize` was called on an already initialized Treasury.
    AlreadyInitializedError,
    /// The caller of an admin-gated entry point is not the configured admin.
    NotAdmin,
    /// `decrease_supply` asked for more than the tracked supply counter
    /// or more than the pool currently holds.
    InsufficientSupply,
    /// The flash-loan delegate returned less than the borrowed amount.
    FlashLoanNotRepaid,
    /// The flash-loan callback itself faulted.
    FlashloanFailedError,
}

/// Errors of the Pegkeeper's entry points.
#[derive(Clone, Copy, Debug, PartialEq, Eq, Structural)]
pub enum PegkeeperError {
    /// `initialize` was called on an already initialized Pegkeeper.
    AlreadyInitializedError,
    /// The caller of `fl_receive` is not the configured admin (the Treasury).
    NotAuthorized,
    /// The batched liquidate-and-repay submission left nonzero liabilities.
    RepayLiabilitiesFail,
    /// The swap returned less of the borrowed token than the loan principal,
    /// so the operation would be loss-making.
    NotProfitable,
}

/// Errors of the mock Pegkeeper's entry points.
#[derive(Clone, Copy, Debug, PartialEq, Eq, Structural)]
pub enum MockPegkeeperError {
    /// `initialize` was called on an already initialized contract.
    AlreadyInitializedError,
    /// The caller is not the principal the entry point demands.
    NotAuthorized,
    /// The loan disbursement never arrived: the balance grew by less than
    /// the borrowed amount.
    InsufficientBalance,
    /// The batched liquidate-and-repay submission left nonzero liabilities.
    RepayLiabilitiesFail,
    /// After the swap the contract cannot return the loan plus the fee.
    NotProfitable,
}

} // verus!
