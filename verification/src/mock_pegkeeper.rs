//! The mock Pegkeeper: a flash-loan borrower that repays by direct transfer.
//!
//! Unlike the Pegkeeper, which leaves the Treasury an approval to pull the
//! principal, this delegate checks that the loan actually arrived, runs the
//! same liquidate-and-swap sequence, and then transfers the principal plus a
//! treasury fee straight back. It keeps a registry of which treasury serves
//! which token, and the maximum duration used to derive swap deadlines.

use vstd::prelude::*;
use crate::assoc::{
    assoc_find, distinct_keys, lemma_assoc_find_at, lemma_assoc_find_absent,
    lemma_assoc_find_update, lemma_assoc_find_push,
};
use crate::errors::MockPegkeeperError;
use crate::ledger::{
    TokenLedger, LedgerInfo, allowances_unchanged, ledger_unchanged, transfer_delta,
};
use crate::requests::liquidation_requests;
use crate::pegkeeper::FlashLoanOutcome;

verus! {

/// The keys of the mock contract's instance storage.
#[derive(Clone, Copy, Debug, PartialEq, Eq, Structural)]
pub enum DataKey {
    /// The configured admin.
    ADMIN,
    /// The configured AMM router.
    ROUTER,
}

/// One entry of the token-to-treasury registry.
#[derive(Clone, Copy, Debug, PartialEq, Eq, Structural)]
pub struct TreasuryEntry {
    /// The token a treasury serves.
    pub token: u64,
    /// That token's treasury.
    pub treasury: u64,
}

/// The resolved flash-loan request: which treasury to call, for which token
/// and amount. The caller performs the call; resolving it is the decision
/// this contract makes.
#[derive(Clone, Copy, Debug, PartialEq, Eq, Structural)]
pub struct FlashLoanCall {
    /// The treasury to borrow from.
    pub treasury: u64,
    /// The token to borrow.
    pub token: u64,
    /// The amount to borrow.
    pub amount: i128,
}

/// The mock Pegkeeper contract's persistent state.
pub struct MockPegkeeperContract {
    address: u64,
    admin: Option<u64>,
    router: Option<u64>,
    maximum_duration: u64,
    balance: i128,
    treasuries: Vec<TreasuryEntry>,
}

/// The key of a treasury-registry entry.
spec fn tkey() -> spec_fn(TreasuryEntry) -> u64 {
    |e: TreasuryEntry| e.token
}

impl MockPegkeeperContract {
    /// The stored registry entry for `token`, if any.
    pub closed spec fn tfind(self, token: u64) -> Option<TreasuryEntry> {
        assoc_find(self.treasuries@, tkey(), token)
    }

    /// This contract's own ledger address.
    pub closed spec fn addr(self) -> u64 {
        self.address
    }

    /// The configured admin, once initialized.
    pub closed spec fn admin_of(self) -> Option<u64> {
        self.admin
    }

    /// The configured router, if set.
    pub closed spec fn router_of(self) -> Option<u64> {
        self.router
    }

    /// The admin's address; meaningful only once initialized.
    pub open spec fn admin_addr(self) -> u64 {
        match self.admin_of() {
            Some(a) => a,
            None => 0,
        }
    }

    /// Whether `initialize` has run.
    pub open spec fn initialized(self) -> bool {
        self.admin_of() is Some
    }

    /// The maximum duration a swap instruction stays valid.
    pub closed spec fn max_duration(self) -> u64 {
        self.maximum_duration
    }

    /// The stored balance snapshot the received-loan check compares against.
    pub closed spec fn balance_snapshot(self) -> int {
        self.balance as int
    }

    /// The treasury registered for `token`, if any.
    pub open spec fn treasury_of(self, token: u64) -> Option<u64> {
        match self.tfind(token) {
            Some(e) => Some(e.treasury),
            None => None,
        }
    }

    /// The registry entries carry pairwise distinct tokens.
    pub closed spec fn keys_ok(self) -> bool {
        distinct_keys(self.treasuries@, tkey())
    }

    /// Well-formedness: distinct registry entries and a non-negative
    /// balance snapshot.
    pub open spec fn wf(self) -> bool {
        self.keys_ok() && self.balance_snapshot() >= 0
    }

    /// A fresh, uninitialized mock Pegkeeper deployed at `address`.
    pub fn new(address: u64) -> (m: MockPegkeeperContract)
        ensures
            m.wf(),
            !m.initialized(),
            m.addr() == address,
            forall|t: u64| #[trigger] m.tfind(t) is None,
    {
        let m = MockPegkeeperContract {
            address,
            admin: None,
            router: None,
            maximum_duration: 0,
            balance: 0,
            treasuries: Vec::new(),
        };
        proof {
            assert forall|t: u64| #[trigger] m.tfind(t) is None by {}
        }
        m
    }

    /// Whether the given storage slot holds a value.
    pub fn has(&self, key: DataKey) -> (r: bool)
        ensures
            r == match key {
                DataKey::ADMIN => self.admin_of() is Some,
                DataKey::ROUTER => self.router_of() is Some,
            },
    {
        match key {
            DataKey::ADMIN => self.admin.is_some(),
            DataKey::ROUTER => self.router.is_some(),
        }
    }

    /// Whether the contract has been initialized.
    pub fn is_init(&self) -> (r: bool)
        ensures
            r == self.initialized(),
    {
        self.admin.is_some()
    }

    /// The stored admin address.
    pub fn get_admin(&self) -> (r: Option<u64>)
        ensures
            r == self.admin_of(),
    {
        self.admin
    }

    /// The stored router address.
    pub fn get_router(&self) -> (r: Option<u64>)
        ensures
            r == self.router_of(),
    {
        self.router
    }

    /// Stores a new router address.
    pub fn set_router(&mut self, new_router: u64)
        ensures
            final(self).router_of() == Some(new_router),
            final(self).admin_of() == old(self).admin_of(),
            final(self).addr() == old(self).addr(),
            final(self).max_duration() == old(self).max_duration(),
            final(self).balance_snapshot() == old(self).balance_snapshot(),
            forall|t: u64| #[trigger] final(self).tfind(t) == old(self).tfind(t),
    {
        self.router = Some(new_router);
        proof {
            assert forall|t: u64| #[trigger] self.tfind(t) == old(self).tfind(t) by {}
        }
    }

    /// Sets the admin, the maximum swap duration, and a zero balance
    /// snapshot; may run once. Fails with `AlreadyInitializedError` on any
    /// later call, changing nothing.
    pub fn initialize(&mut self, admin: u64, maximum_duration: u64) -> (r: Result<
        (),
        MockPegkeeperError,
    >)
        requires
            old(self).wf(),
        ensures
            final(self).wf(),
            r is Ok <==> !old(self).initialized(),
            r is Err ==> r == Err::<(), MockPegkeeperError>(
                MockPegkeeperError::AlreadyInitializedError,
            ) && *final(self) == *old(self),
            r is Ok ==> {
                &&& final(self).admin_of() == Some(admin)
                &&& final(self).max_duration() == maximum_duration
                &&& final(self).balance_snapshot() == 0
                &&& final(self).addr() == old(self).addr()
                &&& final(self).router_of() == old(self).router_of()
                &&& forall|t: u64| #[trigger] final(self).tfind(t) == old(self).tfind(t)
            },
    {
        if self.admin.is_some() {
            return Err(MockPegkeeperError::AlreadyInitializedError);
        }
        self.admin = Some(admin);
        self.balance = 0;
        self.maximum_duration = maximum_duration;
        proof {
            assert forall|t: u64| #[trigger] self.tfind(t) == old(self).tfind(t) by {}
        }
        Ok(())
    }

    /// (Admin only) replaces the admin. Fails with `NotAuthorized` for any
    /// other caller, changing nothing.
    pub fn set_admin(&mut self, caller: u64, admin: u64) -> (r: Result<(), MockPegkeeperError>)
        requires
            old(self).wf(),
            old(self).initialized(),
        ensures
            final(self).wf(),
            r is Ok <==> caller == old(self).admin_addr(),
            r is Err ==> r == Err::<(), MockPegkeeperError>(MockPegkeeperError::NotAuthorized)
                && *final(self) == *old(self),
            r is Ok ==> {
                &&& final(self).admin_of() == Some(admin)
                &&& final(self).addr() == old(self).addr()
                &&& final(self).router_of() == old(self).router_of()
                &&& final(self).max_duration() == old(self).max_duration()
                &&& final(self).balance_snapshot() == old(self).balance_snapshot()
                &&& forall|t: u64| #[trigger] final(self).tfind(t) == old(self).tfind(t)
            },
    {
        let current = match self.admin {
            Some(a) => a,
            None => vstd::pervasive::unreached(),
        };
        if caller != current {
            return Err(MockPegkeeperError::NotAuthorized);
        }
        self.admin = Some(admin);
        proof {
            assert forall|t: u64| #[trigger] self.tfind(t) == old(self).tfind(t) by {}
        }
        Ok(())
    }

    /// (Admin only) registers `new_treasury` as the treasury serving
    /// `new_token_address`, replacing any earlier registration. Fails with
    /// `NotAuthorized` for any other caller, changing nothing.
    pub fn add_treasury(&mut self, caller: u64, new_token_address: u64, new_treasury: u64) -> (r:
        Result<(), MockPegkeeperError>)
        requires
            old(self).wf(),
            old(self).initialized(),
        ensures
            final(self).wf(),
            r is Ok <==> caller == old(self).admin_addr(),
            r is Err ==> r == Err::<(), MockPegkeeperError>(MockPegkeeperError::NotAuthorized)
                && *final(self) == *old(self),
            r is Ok ==> {
                &&& final(self).treasury_of(new_token_address) == Some(new_treasury)
                &&& forall|t: u64|
                    t != new_token_address ==> #[trigger] final(self).tfind(t) == old(
                        self,
                    ).tfind(t)
                &&& final(self).admin_of() == old(self).admin_of()
                &&& final(self).addr() == old(self).addr()
                &&& final(self).router_of() == old(self).router_of()
                &&& final(self).max_duration() == old(self).max_duration()
                &&& final(self).balance_snapshot() == old(self).balance_snapshot()
            },
    {
        let current = match self.admin {
            Some(a) => a,
            None => vstd::pervasive::unreached(),
        };
        if caller != current {
            return Err(MockPegkeeperError::NotAuthorized);
        }
        let ghost pre = *self;
        let e = TreasuryEntry { token: new_token_address, treasury: new_treasury };
        match self.find_treasury(new_token_address) {
            Some(i) => {
                self.treasuries.set(i, e);
                proof {
                    assert forall|t: u64| t != new_token_address implies #[trigger] self.tfind(t)
                        == pre.tfind(t) by {
                        lemma_assoc_find_update(pre.treasuries@, tkey(), i as int, e, t);
                    }
                    lemma_assoc_find_update(
                        pre.treasuries@,
                        tkey(),
                        i as int,
                        e,
                        new_token_address,
                    );
                }
            },
            None => {
                self.treasuries.push(e);
                proof {
                    assert forall|t: u64| t != new_token_address implies #[trigger] self.tfind(t)
                        == pre.tfind(t) by {
                        lemma_assoc_find_push(pre.treasuries@, tkey(), e, t);
                    }
                    lemma_assoc_find_push(pre.treasuries@, tkey(), e, new_token_address);
                }
            },
        }
        Ok(())
    }

    /// (Admin only) replaces the maximum swap duration. Fails with
    /// `NotAuthorized` for any other caller, changing nothing.
    pub fn set_maximum_duration(&mut self, caller: u64, maximum_duration: u64) -> (r: Result<
        (),
        MockPegkeeperError,
    >)
        requires
            old(self).wf(),
            old(self).initialized(),
        ensures
            final(self).wf(),
            r is Ok <==> caller == old(self).admin_addr(),
            r is Err ==> r == Err::<(), MockPegkeeperError>(MockPegkeeperError::NotAuthorized)
                && *final(self) == *old(self),
            r is Ok ==> {
                &&& final(self).max_duration() == maximum_duration
                &&& final(self).admin_of() == old(self).admin_of()
                &&& final(self).addr() == old(self).addr()
                &&& final(self).router_of() == old(self).router_of()
                &&& final(self).balance_snapshot() == old(self).balance_snapshot()
                &&& forall|t: u64| #[trigger] final(self).tfind(t) == old(self).tfind(t)
            },
    {
        let current = match self.admin {
            Some(a) => a,
            None => vstd::pervasive::unreached(),
        };
        if caller != current {
            return Err(MockPegkeeperError::NotAuthorized);
        }
        self.maximum_duration = maximum_duration;
        proof {
            assert forall|t: u64| #[trigger] self.tfind(t) == old(self).tfind(t) by {}
        }
        Ok(())
    }

    /// The index of the registry entry for `token`, if one exists.
    fn find_treasury(&self, token: u64) -> (r: Option<usize>)
        requires
            self.keys_ok(),
        ensures
            match r {
                Some(i) => {
                    &&& i < self.treasuries@.len()
                    &&& self.tfind(token) == Some(self.treasuries@[i as int])
                    &&& self.treasuries@[i as int].token == token
                },
                None => {
                    &&& self.tfind(token) is None
                    &&& forall|j: int|
                        0 <= j < self.treasuries@.len() ==> tkey()(
                            #[trigger] self.treasuries@[j],
                        ) != token
                },
            },
    {
        let mut n: usize = 0;
        while n < self.treasuries.len()
            invariant
                self.keys_ok(),
                n <= self.treasuries@.len(),
                forall|j: int| 0 <= j < n ==> tkey()(#[trigger] self.treasuries@[j]) != token,
            decreases self.treasuries@.len() - n,
        {
            let e = self.treasuries[n];
            if e.token == token {
                proof {
                    lemma_assoc_find_at(self.treasuries@, tkey(), n as int);
                }
                return Some(n);
            }
            n += 1;
        }
        proof {
            lemma_assoc_find_absent(self.treasuries@, tkey(), token);
        }
        None
    }

    /// The treasury registered for `token`, if any.
    pub fn get_treasury(&self, token_address: u64) -> (r: Option<u64>)
        requires
            self.wf(),
        ensures
            r == self.treasury_of(token_address),
    {
        match self.find_treasury(token_address) {
            Some(i) => Some(self.treasuries[i].treasury),
            None => None,
        }
    }

    /// The maximum duration a swap instruction stays valid.
    pub fn get_maximum_duration(&self) -> (d: u64)
        ensures
            d == self.max_duration(),
    {
        self.maximum_duration
    }

    /// The stored balance snapshot.
    pub fn get_balance(&self) -> (b: i128)
        ensures
            b as int == self.balance_snapshot(),
    {
        self.balance
    }

    /// The deadline a swap instruction issued now carries: the current
    /// ledger time plus the configured maximum duration.
    pub fn swap_deadline(&self, info: LedgerInfo) -> (d: u64)
        requires
            info.timestamp + self.max_duration() <= u64::MAX,
        ensures
            d == info.timestamp + self.max_duration(),
    {
        info.timestamp + self.maximum_duration
    }

    /// Resolves a flash-loan request for `token_address`: which treasury to
    /// call and with what arguments. The caller performs the call.
    pub fn flash_loan(&self, token_address: u64, amount: i128) -> (r: FlashLoanCall)
        requires
            self.wf(),
            self.treasury_of(token_address) is Some,
        ensures
            Some(r.treasury) == self.treasury_of(token_address),
            r.token == token_address,
            r.amount == amount,
    {
        let treasury = match self.get_treasury(token_address) {
            Some(t) => t,
            None => vstd::pervasive::unreached(),
        };
        FlashLoanCall { treasury, token: token_address, amount }
    }

    /// The receive entry point for a flash loan repaid by direct transfer.
    /// Only the treasury named in the call may invoke it. It checks the
    /// loan actually arrived (the balance grew by at least `amount` over
    /// the stored snapshot), submits the batched liquidate-and-repay sized
    /// by `liq_percent`, requires the returned position to carry no
    /// liabilities, swaps the position's first collateral lot on the AMM,
    /// and transfers the principal plus `treasury_fee` straight back to the
    /// treasury. A failed call changes nothing.
    pub fn flashloan_receive(
        &self,
        ledger: &mut TokenLedger,
        caller: u64,
        token_address: u64,
        treasury_address: u64,
        blend_address: u64,
        soroswap_address: u64,
        collateral_token_address: u64,
        amount: i128,
        treasury_fee: i128,
        liq_percent: u32,
        outcome: &FlashLoanOutcome,
    ) -> (r: Result<(), MockPegkeeperError>)
        requires
            old(ledger).wf(),
            self.wf(),
            mock_receive_admissible(
                *self,
                *old(ledger),
                token_address,
                treasury_address,
                blend_address,
                soroswap_address,
                collateral_token_address,
                amount,
                treasury_fee,
                liq_percent,
                *outcome,
            ),
        ensures
            final(ledger).wf(),
            r == Err::<(), MockPegkeeperError>(MockPegkeeperError::NotAuthorized) <==> caller
                != treasury_address,
            r == Err::<(), MockPegkeeperError>(MockPegkeeperError::InsufficientBalance) <==> caller
                == treasury_address && old(ledger).balance_of(token_address, self.addr())
                - self.balance_snapshot() < amount,
            r == Err::<(), MockPegkeeperError>(MockPegkeeperError::RepayLiabilitiesFail) <==> {
                &&& caller == treasury_address
                &&& old(ledger).balance_of(token_address, self.addr()) - self.balance_snapshot()
                    >= amount
                &&& outcome.position.liabilities@.len() != 0
            },
            r == Err::<(), MockPegkeeperError>(MockPegkeeperError::NotProfitable) <==> {
                &&& caller == treasury_address
                &&& old(ledger).balance_of(token_address, self.addr()) - self.balance_snapshot()
                    >= amount
                &&& outcome.position.liabilities@.len() == 0
                &&& old(ledger).balance_of(token_address, self.addr()) - amount + outcome.swap_out
                    < amount + treasury_fee
            },
            r is Ok <==> {
                &&& caller == treasury_address
                &&& old(ledger).balance_of(token_address, self.addr()) - self.balance_snapshot()
                    >= amount
                &&& outcome.position.liabilities@.len() == 0
                &&& old(ledger).balance_of(token_address, self.addr()) - amount + outcome.swap_out
                    >= amount + treasury_fee
            },
            r is Err ==> ledger_unchanged(*old(ledger), *final(ledger)),
            r is Ok ==> mock_receive_committed(
                *self,
                *old(ledger),
                *final(ledger),
                token_address,
                treasury_address,
                blend_address,
                soroswap_address,
                collateral_token_address,
                amount,
                treasury_fee,
                *outcome,
            ),
    {
        if caller != treasury_address {
            return Err(MockPegkeeperError::NotAuthorized);
        }
        // did the loan disbursement actually arrive?
        let balance_entry = ledger.balance(token_address, self.address);
        let balance_stored = self.balance;
        if balance_entry - balance_stored < amount {
            return Err(MockPegkeeperError::InsufficientBalance);
        }

        // the batched liquidate-and-repay the pool must see in one
        // settlement: fill the auction, then repay the remainder
        let requests = liquidation_requests(token_address, amount, liq_percent);

        if outcome.position.liabilities.len() != 0 {
            return Err(MockPegkeeperError::RepayLiabilitiesFail);
        }
        // after the swap the contract must be able to return the loan plus
        // the fee; aborting before any effect is the all-or-nothing rollback
        if balance_entry - amount + outcome.swap_out < amount + treasury_fee {
            return Err(MockPegkeeperError::NotProfitable);
        }

        // the pool settles the batch and the auction hands over collateral
        ledger.transfer(token_address, self.address, blend_address, requests[0].amount);
        ledger.transfer(token_address, self.address, blend_address, requests[1].amount);
        ledger.transfer(
            collateral_token_address,
            blend_address,
            self.address,
            outcome.seized_collateral,
        );

        // swap the position's first collateral lot on the AMM; the swap
        // instruction carries the deadline `swap_deadline` derives
        let amount_in = outcome.position.collateral[0];
        ledger.transfer(collateral_token_address, self.address, soroswap_address, amount_in);
        ledger.transfer(token_address, soroswap_address, self.address, outcome.swap_out);

        // repay the flash loan plus the treasury fee by direct transfer
        ledger.transfer(token_address, self.address, treasury_address, amount + treasury_fee);
        Ok(())
    }
}

/// The side conditions under which one `flashloan_receive` is modeled:
/// amounts are non-negative and within range, the split is a percentage,
/// the position reports at least one collateral lot and the contract can
/// cover it, the collaborators hold what they hand over, the balances
/// involved stay representable, and the contract is distinct from the pool
/// and the AMM it calls, borrowing a token other than the collateral.
pub open spec fn mock_receive_admissible(
    mock: MockPegkeeperContract,
    l: TokenLedger,
    token: u64,
    treasury: u64,
    blend: u64,
    soroswap: u64,
    collateral: u64,
    amount: i128,
    fee: i128,
    liq_percent: u32,
    outcome: FlashLoanOutcome,
) -> bool {
    &&& 0 <= amount
    &&& 0 <= fee
    &&& amount + fee <= i128::MAX
    &&& liq_percent <= 100
    &&& amount * liq_percent <= i128::MAX
    &&& 0 <= outcome.seized_collateral
    &&& 0 <= outcome.swap_out
    &&& outcome.position.collateral@.len() > 0
    &&& 0 <= outcome.position.collateral@[0]
    &&& outcome.position.collateral@[0] <= l.balance_of(collateral, mock.addr())
        + outcome.seized_collateral
    &&& mock.addr() != blend
    &&& mock.addr() != soroswap
    &&& collateral != token
    &&& outcome.seized_collateral <= l.balance_of(collateral, blend)
    &&& outcome.swap_out <= l.balance_of(token, soroswap)
    &&& l.balance_of(token, blend) + amount <= i128::MAX
    &&& l.balance_of(collateral, mock.addr()) + outcome.seized_collateral <= i128::MAX
    &&& l.balance_of(collateral, soroswap) + outcome.position.collateral@[0]
        + outcome.seized_collateral <= i128::MAX
    &&& l.balance_of(token, mock.addr()) + outcome.swap_out <= i128::MAX
    &&& l.balance_of(token, treasury) + 2 * amount + fee <= i128::MAX
}

/// The ledger after a committed `flashloan_receive`, relative to the ledger
/// `l0` it started from: the loan paid into the pool, the seized collateral
/// received, the first collateral lot swapped at the AMM, the swap output
/// received, and the principal plus the fee returned to the treasury by
/// direct transfer. No allowance is involved.
pub open spec fn mock_receive_committed(
    mock: MockPegkeeperContract,
    l0: TokenLedger,
    l1: TokenLedger,
    token: u64,
    treasury: u64,
    blend: u64,
    soroswap: u64,
    collateral: u64,
    amount: i128,
    fee: i128,
    outcome: FlashLoanOutcome,
) -> bool {
    &&& forall|t: u64, h: u64| #[trigger]
        l1.balance_of(t, h) == l0.balance_of(t, h) + transfer_delta(
            token,
            mock.addr(),
            blend,
            amount as int,
            t,
            h,
        ) + transfer_delta(
            collateral,
            blend,
            mock.addr(),
            outcome.seized_collateral as int,
            t,
            h,
        ) + transfer_delta(
            collateral,
            mock.addr(),
            soroswap,
            outcome.position.collateral@[0] as int,
            t,
            h,
        ) + transfer_delta(token, soroswap, mock.addr(), outcome.swap_out as int, t, h)
            + transfer_delta(token, mock.addr(), treasury, amount + fee, t, h)
    &&& allowances_unchanged(l0, l1)
}

} // verus!
