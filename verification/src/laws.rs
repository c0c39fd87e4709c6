//! The protocol's laws: properties that relate several operations, stated
//! over the same spec relations the operations' own contracts use.

use vstd::prelude::*;
use crate::ledger::{LedgerInfo, TokenLedger};
use crate::pegkeeper::{FlashLoanOperation, FlashLoanOutcome, PegkeeperContract};
use crate::treasury::{
    TreasuryContract, CallbackOutcome, config_unchanged, flash_chain_committed,
    keep_peg_committed, pool_funds_changed, pull_goes_through, supply_adjusted,
};

verus! {

/// The supply counter of a well-formed Treasury is never negative, for any
/// token. Every operation of the Treasury returns a well-formed state, so
/// along any sequence of `increase_supply` and `decrease_supply` calls the
/// counter never goes below zero.
pub proof fn lemma_supply_never_negative(t: TreasuryContract, token: u64)
    requires
        t.wf(),
    ensures
        t.supply_of(token) >= 0,
{
}

/// Raising the supply of a token by an amount and then lowering it by the
/// same amount is a round trip: the supply counter of every token, the
/// pool's holdings, every other balance, and the configuration return to
/// exactly their prior values.
pub proof fn lemma_supply_round_trip(
    t0: TreasuryContract,
    t1: TreasuryContract,
    t2: TreasuryContract,
    l0: TokenLedger,
    l1: TokenLedger,
    l2: TokenLedger,
    token: u64,
    amount: int,
)
    requires
        supply_adjusted(t0, t1, token, amount),
        pool_funds_changed(l0, l1, token, t0.pool_of(token), amount),
        supply_adjusted(t1, t2, token, -amount),
        pool_funds_changed(l1, l2, token, t1.pool_of(token), -amount),
    ensures
        forall|t: u64| #[trigger] t2.supply_of(t) == t0.supply_of(t),
        forall|t: u64, h: u64| #[trigger] l2.balance_of(t, h) == l0.balance_of(t, h),
        config_unchanged(t0, t2),
        t2.registered(token) == t0.registered(token),
        t2.pool_of(token) == t0.pool_of(token),
{
    assert forall|t: u64| #[trigger] t2.supply_of(t) == t0.supply_of(t) by {
        if t != token {
            assert(t2.sfind(t) == t1.sfind(t));
            assert(t1.sfind(t) == t0.sfind(t));
        }
    }
    assert forall|t: u64, h: u64| #[trigger] l2.balance_of(t, h) == l0.balance_of(t, h) by {
        assert(l1.balance_of(t, h) == l0.balance_of(t, h) + (if t == token && h == t0.pool_of(
            token,
        ) {
            amount
        } else {
            0
        }));
    }
}

/// Atomicity, read effect by effect: a committed flash-loan chain between
/// distinct parties shows every effect of the sequence at once — the loan
/// settled into the pool, the collateral seized from it and delivered to
/// the AMM, the swap output paid out, the surplus with the fee recipient,
/// the delegate's approval used up, and the Treasury's and the delegate's
/// own balances exactly restored. A failed chain shows none: the
/// operations' contracts state that a failed call leaves the ledger
/// unchanged.
pub proof fn lemma_flash_chain_all_effects(
    treasury: TreasuryContract,
    pegkeeper: PegkeeperContract,
    l0: TokenLedger,
    l1: TokenLedger,
    info: LedgerInfo,
    op: FlashLoanOperation,
    outcome: FlashLoanOutcome,
)
    requires
        flash_chain_committed(treasury, pegkeeper, l0, l1, info, op, outcome),
        op.amount <= outcome.swap_out,
        op.collateral_token != op.token,
        pegkeeper.addr() != treasury.addr(),
        pegkeeper.addr() != op.blend_pool,
        pegkeeper.addr() != op.amm,
        pegkeeper.addr() != op.fee_taker,
        treasury.addr() != op.blend_pool,
        treasury.addr() != op.amm,
        treasury.addr() != op.fee_taker,
        op.blend_pool != op.amm,
        op.blend_pool != op.fee_taker,
        op.amm != op.fee_taker,
    ensures
        l1.balance_of(op.token, op.blend_pool) == l0.balance_of(op.token, op.blend_pool)
            + op.amount,
        l1.balance_of(op.collateral_token, op.blend_pool) == l0.balance_of(
            op.collateral_token,
            op.blend_pool,
        ) - outcome.seized_collateral,
        l1.balance_of(op.collateral_token, op.amm) == l0.balance_of(op.collateral_token, op.amm)
            + outcome.seized_collateral,
        l1.balance_of(op.token, op.amm) == l0.balance_of(op.token, op.amm) - outcome.swap_out,
        l1.balance_of(op.token, op.fee_taker) == l0.balance_of(op.token, op.fee_taker)
            + outcome.swap_out - op.amount,
        l1.balance_of(op.token, treasury.addr()) == l0.balance_of(op.token, treasury.addr()),
        l1.balance_of(op.token, pegkeeper.addr()) == l0.balance_of(op.token, pegkeeper.addr()),
        l1.allowance_of(op.token, pegkeeper.addr(), treasury.addr()) == 0,
{
}

/// The repayment invariant: whatever a completed callback did, a committed
/// `keep_peg` saw at least the borrowed amount come back — the Treasury's
/// balance of the borrowed token before the final burn was at least its
/// balance at entry plus the principal.
pub proof fn lemma_flash_loan_repaid(
    l0: TokenLedger,
    l1: TokenLedger,
    treasury: u64,
    pk: u64,
    token: u64,
    amount: int,
    info: LedgerInfo,
    repaid: i128,
    approved: i128,
)
    requires
        keep_peg_committed(
            l0,
            l1,
            treasury,
            pk,
            token,
            amount,
            info,
            CallbackOutcome::Completed { repaid, approved },
        ),
    ensures
        repaid + (if pull_goes_through(l0, pk, token, amount, repaid as int, approved as int) {
            amount
        } else {
            0
        }) >= amount,
{
}

} // verus!
