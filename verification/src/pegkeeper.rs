//! The Pegkeeper: the trusted delegate that receives the flash loan and runs
//! the liquidate-swap-repay sequence.
//!
//! On `fl_receive` it submits a batched liquidate-and-repay to the lending
//! pool, verifies the position came back with no liabilities, swaps the
//! seized collateral for the borrowed token on the AMM, verifies the
//! operation is not loss-making, pays the surplus to the fee recipient, and
//! approves the Treasury to pull the principal back. What the external pool
//! and AMM chose to return is an input ([`FlashLoanOutcome`]); the operation
//! is verified for every choice they can make.

use vstd::prelude::*;
use crate::errors::PegkeeperError;
use crate::ledger::{TokenLedger, LedgerInfo, ledger_unchanged, transfer_delta};
use crate::requests::{Position, liquidation_requests};

verus! {

/// The keys of the Pegkeeper's instance storage.
#[derive(Clone, Copy, Debug, PartialEq, Eq, Structural)]
pub enum PegkeeperDataKey {
    /// The configured admin (the Treasury that may invoke `fl_receive`).
    ADMIN,
    /// The configured AMM router.
    ROUTER,
}

/// The parameter bundle of one flash-loan operation, as the Pegkeeper's
/// receive entry point is invoked with it. It lives for exactly one
/// operation: constructed at call entry and fully consumed by commit or
/// discarded by abort.
#[derive(Clone, Copy, Debug, PartialEq, Eq, Structural)]
pub struct FlashLoanOperation {
    /// The borrowed stablecoin.
    pub token: u64,
    /// The borrowed amount.
    pub amount: i128,
    /// The lending pool holding the under-collateralized position.
    pub blend_pool: u64,
    /// The auction (liquidation) reference at the pool.
    pub auction: u64,
    /// The collateral token the liquidation seizes.
    pub collateral_token: u64,
    /// The collateral lot the caller expects; the swap uses the measured
    /// balance delta instead, so this is informational.
    pub lot_amount: i128,
    /// How much of the loan fills the liquidation auction, in percent
    /// (0 to 100); the rest repays the position's remaining debt.
    pub liq_percent: u32,
    /// The AMM router for the collateral-to-token swap.
    pub amm: u64,
    /// Who receives the operation's surplus.
    pub fee_taker: u64,
}

/// What the external collaborators returned during one `fl_receive`: the
/// pool's settlement and the AMM's swap output. The Pegkeeper observes
/// these; it does not choose them.
#[derive(Clone, Debug, PartialEq, Eq)]
pub struct FlashLoanOutcome {
    /// Collateral the liquidation auction handed over.
    pub seized_collateral: i128,
    /// The caller's position as the pool reported it after the batch.
    pub position: Position,
    /// How much of the borrowed token the AMM returned for the lot.
    pub swap_out: i128,
}

/// The Pegkeeper contract's persistent state.
pub struct PegkeeperContract {
    address: u64,
    admin: Option<u64>,
    router: Option<u64>,
}

impl PegkeeperContract {
    /// This contract's own ledger address.
    pub closed spec fn addr(self) -> u64 {
        self.address
    }

    /// The configured admin, once initialized.
    pub closed spec fn admin_of(self) -> Option<u64> {
        self.admin
    }

    /// The configured router, if set.
    pub closed spec fn router_of(self) -> Option<u64> {
        self.router
    }

    /// The admin's address; meaningful only once initialized.
    pub open spec fn admin_addr(self) -> u64 {
        match self.admin_of() {
            Some(a) => a,
            None => 0,
        }
    }

    /// Whether `initialize` has run.
    pub open spec fn initialized(self) -> bool {
        self.admin_of() is Some
    }

    /// A fresh, uninitialized Pegkeeper deployed at `address`.
    pub fn new(address: u64) -> (p: PegkeeperContract)
        ensures
            !p.initialized(),
            p.addr() == address,
            p.admin_of() is None,
            p.router_of() is None,
    {
        PegkeeperContract { address, admin: None, router: None }
    }

    /// This contract's ledger address.
    pub fn get_address(&self) -> (a: u64)
        ensures
            a == self.addr(),
    {
        self.address
    }

    /// Whether the given storage slot holds a value.
    pub fn has(&self, key: PegkeeperDataKey) -> (r: bool)
        ensures
            r == match key {
                PegkeeperDataKey::ADMIN => self.admin_of() is Some,
                PegkeeperDataKey::ROUTER => self.router_of() is Some,
            },
    {
        match key {
            PegkeeperDataKey::ADMIN => self.admin.is_some(),
            PegkeeperDataKey::ROUTER => self.router.is_some(),
        }
    }

    /// Whether the contract has been initialized.
    pub fn is_init(&self) -> (r: bool)
        ensures
            r == self.initialized(),
    {
        self.admin.is_some()
    }

    /// The stored admin address.
    pub fn get_admin(&self) -> (r: Option<u64>)
        ensures
            r == self.admin_of(),
    {
        self.admin
    }

    /// Stores a new admin address.
    pub fn set_admin(&mut self, new_admin: u64)
        ensures
            final(self).admin_of() == Some(new_admin),
            final(self).router_of() == old(self).router_of(),
            final(self).addr() == old(self).addr(),
    {
        self.admin = Some(new_admin);
    }

    /// The stored router address.
    pub fn get_router(&self) -> (r: Option<u64>)
        ensures
            r == self.router_of(),
    {
        self.router
    }

    /// Stores a new router address.
    pub fn set_router(&mut self, new_router: u64)
        ensures
            final(self).router_of() == Some(new_router),
            final(self).admin_of() == old(self).admin_of(),
            final(self).addr() == old(self).addr(),
    {
        self.router = Some(new_router);
    }

    /// Sets the admin and the router; may run once. Fails with
    /// `AlreadyInitializedError` on any later call, changing nothing.
    pub fn initialize(&mut self, admin: u64, router: u64) -> (r: Result<(), PegkeeperError>)
        ensures
            r is Ok <==> !old(self).initialized(),
            r is Err ==> r == Err::<(), PegkeeperError>(PegkeeperError::AlreadyInitializedError)
                && *final(self) == *old(self),
            r is Ok ==> {
                &&& final(self).admin_of() == Some(admin)
                &&& final(self).router_of() == Some(router)
                &&& final(self).addr() == old(self).addr()
            },
    {
        if self.admin.is_some() {
            return Err(PegkeeperError::AlreadyInitializedError);
        }
        self.router = Some(router);
        self.admin = Some(admin);
        Ok(())
    }

    /// The liquidate-swap-repay executor. Only the configured admin (the
    /// Treasury) may invoke it. It submits the batched liquidate-and-repay
    /// sized by `op.liq_percent`, requires the returned position to carry no
    /// liabilities, swaps the measured seized collateral for the borrowed
    /// token, requires the swap to cover the loan, pays the surplus to
    /// `op.fee_taker`, and approves the admin to pull the principal until
    /// the next ledger sequence. A failed call changes nothing.
    pub fn fl_receive(
        &self,
        ledger: &mut TokenLedger,
        info: LedgerInfo,
        caller: u64,
        op: FlashLoanOperation,
        outcome: &FlashLoanOutcome,
    ) -> (r: Result<(), PegkeeperError>)
        requires
            old(ledger).wf(),
            self.initialized(),
            info.sequence < u32::MAX,
            fl_receive_admissible(*self, *old(ledger), op, *outcome),
        ensures
            final(ledger).wf(),
            r == Err::<(), PegkeeperError>(PegkeeperError::NotAuthorized) <==> caller
                != self.admin_addr(),
            r == Err::<(), PegkeeperError>(PegkeeperError::RepayLiabilitiesFail) <==> caller
                == self.admin_addr() && outcome.position.liabilities@.len() != 0,
            r == Err::<(), PegkeeperError>(PegkeeperError::NotProfitable) <==> caller
                == self.admin_addr() && outcome.position.liabilities@.len() == 0
                && outcome.swap_out < op.amount,
            r is Ok <==> caller == self.admin_addr() && outcome.position.liabilities@.len() == 0
                && outcome.swap_out >= op.amount,
            r is Err ==> ledger_unchanged(*old(ledger), *final(ledger)),
            r is Ok ==> fl_receive_committed(
                *self,
                *old(ledger),
                *final(ledger),
                info,
                op,
                *outcome,
            ),
    {
        let admin = match self.admin {
            Some(a) => a,
            None => vstd::pervasive::unreached(),
        };
        if caller != admin {
            return Err(PegkeeperError::NotAuthorized);
        }
        let token_before = ledger.balance(op.token, self.address);
        let collateral_before = ledger.balance(op.collateral_token, self.address);

        // the batched submission the pool must see in one settlement:
        // fill the auction, then repay the remainder
        let requests = liquidation_requests(op.token, op.amount, op.liq_percent);

        // a partially repaid liquidation is a hard failure, never retried
        if outcome.position.liabilities.len() != 0 {
            return Err(PegkeeperError::RepayLiabilitiesFail);
        }
        // the swap must cover the loan, else the operation is loss-making;
        // aborting before any effect is the all-or-nothing rollback
        if outcome.swap_out < op.amount {
            return Err(PegkeeperError::NotProfitable);
        }

        let ghost l0 = *ledger;
        // the pool settles the batch: both requests are paid for ...
        ledger.transfer(op.token, self.address, op.blend_pool, requests[0].amount);
        ledger.transfer(op.token, self.address, op.blend_pool, requests[1].amount);
        // ... and the auction hands over the seized collateral
        ledger.transfer(
            op.collateral_token,
            op.blend_pool,
            self.address,
            outcome.seized_collateral,
        );

        // swap exactly the collateral actually received, measured on the
        // ledger rather than trusted from the caller
        let collateral_after = ledger.balance(op.collateral_token, self.address);
        let lot = collateral_after - collateral_before;
        ledger.transfer(op.collateral_token, self.address, op.amm, lot);
        ledger.transfer(op.token, op.amm, self.address, outcome.swap_out);

        // the guard above decided on the inputs; measured on the ledger the
        // outcome agrees, so this check can no longer fire
        let token_after = ledger.balance(op.token, self.address);
        if token_before > token_after {
            return Err(PegkeeperError::NotProfitable);
        }
        // pay the surplus to the fee recipient
        let profit = token_after - token_before;
        ledger.transfer(op.token, self.address, op.fee_taker, profit);
        // the scoped approval for the principal, expiring next sequence
        ledger.approve(op.token, self.address, admin, op.amount, info.sequence + 1);
        Ok(())
    }
}

/// The shape conditions of one flash-loan operation, independent of any
/// ledger: amounts are non-negative and within range, the liquidation split
/// is a percentage, and the Pegkeeper is a contract of its own, distinct
/// from the pool and the AMM it calls, borrowing a token other than the
/// collateral it seizes.
pub open spec fn flash_operation_sane(
    pk: PegkeeperContract,
    op: FlashLoanOperation,
    outcome: FlashLoanOutcome,
) -> bool {
    &&& 0 <= op.amount
    &&& op.liq_percent <= 100
    &&& op.amount * op.liq_percent <= i128::MAX
    &&& 0 <= outcome.seized_collateral
    &&& 0 <= outcome.swap_out
    &&& pk.addr() != op.blend_pool
    &&& pk.addr() != op.amm
    &&& op.collateral_token != op.token
}

/// The side conditions under which one `fl_receive` is modeled: a sane
/// operation, the loan already disbursed to the Pegkeeper, the external
/// collaborators holding what they hand over, and the balances involved
/// staying representable.
pub open spec fn fl_receive_admissible(
    pk: PegkeeperContract,
    l: TokenLedger,
    op: FlashLoanOperation,
    outcome: FlashLoanOutcome,
) -> bool {
    &&& flash_operation_sane(pk, op, outcome)
    &&& op.amount <= l.balance_of(op.token, pk.addr())
    &&& outcome.seized_collateral <= l.balance_of(op.collateral_token, op.blend_pool)
    &&& outcome.swap_out <= l.balance_of(op.token, op.amm)
    &&& l.balance_of(op.token, op.blend_pool) + op.amount <= i128::MAX
    &&& l.balance_of(op.collateral_token, pk.addr()) + outcome.seized_collateral <= i128::MAX
    &&& l.balance_of(op.collateral_token, op.amm) + outcome.seized_collateral <= i128::MAX
    &&& l.balance_of(op.token, pk.addr()) + outcome.swap_out <= i128::MAX
    &&& l.balance_of(op.token, op.fee_taker) + op.amount + outcome.swap_out <= i128::MAX
}

/// The ledger after a committed `fl_receive`, relative to the ledger `l0` it
/// started from: the loan paid into the pool, the seized collateral passed
/// from the pool through the Pegkeeper to the AMM, the swap output received,
/// the surplus paid to the fee recipient, and the principal approved back to
/// the admin until the next ledger sequence. The Pegkeeper's own holding of
/// the borrowed token ends no lower than it began — exactly where it began
/// when the surplus goes to a fee recipient other than itself.
pub open spec fn fl_receive_committed(
    pk: PegkeeperContract,
    l0: TokenLedger,
    l1: TokenLedger,
    info: LedgerInfo,
    op: FlashLoanOperation,
    outcome: FlashLoanOutcome,
) -> bool {
    &&& forall|t: u64, h: u64| #[trigger]
        l1.balance_of(t, h) == l0.balance_of(t, h) + transfer_delta(
            op.token,
            pk.addr(),
            op.blend_pool,
            op.amount as int,
            t,
            h,
        ) + transfer_delta(
            op.collateral_token,
            op.blend_pool,
            pk.addr(),
            outcome.seized_collateral as int,
            t,
            h,
        ) + transfer_delta(
            op.collateral_token,
            pk.addr(),
            op.amm,
            outcome.seized_collateral as int,
            t,
            h,
        ) + transfer_delta(op.token, op.amm, pk.addr(), outcome.swap_out as int, t, h)
            + transfer_delta(
            op.token,
            pk.addr(),
            op.fee_taker,
            outcome.swap_out - op.amount,
            t,
            h,
        )
    &&& forall|t: u64, f: u64, s: u64| #[trigger]
        l1.allowance_of(t, f, s) == if t == op.token && f == pk.addr() && s == pk.admin_addr() {
            op.amount as int
        } else {
            l0.allowance_of(t, f, s)
        }
    &&& forall|t: u64, f: u64, s: u64| #[trigger]
        l1.allowance_expiry(t, f, s) == if t == op.token && f == pk.addr() && s
            == pk.admin_addr() {
            info.sequence + 1
        } else {
            l0.allowance_expiry(t, f, s)
        }
    &&& l1.balance_of(op.token, pk.addr()) >= l0.balance_of(op.token, pk.addr())
    &&& op.fee_taker != pk.addr() ==> l1.balance_of(op.token, pk.addr()) == l0.balance_of(
        op.token,
        pk.addr(),
    )
}

} // verus!
