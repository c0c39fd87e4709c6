//! The Treasury: supply ledger, admin configuration, and the flash-loan
//! orchestrator `keep_peg`.
//!
//! The Treasury owns a record per managed stablecoin — the lending pool it
//! supplies and the total it has minted into that pool — and is the only
//! holder of issuer rights over its stablecoins. `increase_supply` and
//! `decrease_supply` move supply between the Treasury and the pool under the
//! admin's authority; `keep_peg` mints a flash loan to the configured
//! delegate and enforces that at least the principal comes back before
//! anything commits.

use vstd::prelude::*;
use crate::assoc::{
    assoc_find, distinct_keys, lemma_assoc_find_at, lemma_assoc_find_absent,
    lemma_assoc_find_update, lemma_assoc_find_push,
};
use crate::auth::TransferAuthorization;
use crate::errors::TreasuryError;
use crate::ledger::{
    TokenLedger, LedgerInfo, allowances_unchanged, ledger_unchanged, transfer_delta,
};
use crate::pegkeeper::{
    PegkeeperContract, FlashLoanOperation, FlashLoanOutcome, fl_receive_admissible,
    fl_receive_committed, flash_operation_sane,
};

verus! {

/// The Treasury's record of one managed stablecoin.
#[derive(Clone, Copy, Debug, PartialEq, Eq, Structural)]
pub struct StablecoinEntry {
    /// The stablecoin.
    pub token: u64,
    /// The lending pool this stablecoin's supply is deposited into.
    pub pool: u64,
    /// The total currently minted into that pool; never negative.
    pub supply: i128,
}

/// The Treasury contract's persistent state.
pub struct TreasuryContract {
    address: u64,
    admin: Option<u64>,
    pegkeeper: Option<u64>,
    stablecoins: Vec<StablecoinEntry>,
}

/// What the flash-loan delegate's receive entry point did. The delegate is a
/// separate contract; the Treasury only observes the outcome.
#[derive(Clone, Copy, Debug, PartialEq, Eq, Structural)]
pub enum CallbackOutcome {
    /// The callback faulted: the operation must abort with nothing applied.
    Faulted,
    /// The callback completed: the delegate moved `repaid` of the borrowed
    /// token straight back to the Treasury, and left an approval of
    /// `approved` for the Treasury to pull the principal.
    Completed {
        /// What the delegate transferred back directly.
        repaid: i128,
        /// What the delegate approved the Treasury to pull.
        approved: i128,
    },
}

/// The key of a stablecoin record.
spec fn skey() -> spec_fn(StablecoinEntry) -> u64 {
    |e: StablecoinEntry| e.token
}

impl TreasuryContract {
    /// The stored record for `token`, if any.
    pub closed spec fn sfind(self, token: u64) -> Option<StablecoinEntry> {
        assoc_find(self.stablecoins@, skey(), token)
    }

    /// This contract's own ledger address.
    pub closed spec fn addr(self) -> u64 {
        self.address
    }

    /// The configured admin, once initialized.
    pub closed spec fn admin_of(self) -> Option<u64> {
        self.admin
    }

    /// The configured flash-loan delegate, once initialized.
    pub closed spec fn pegkeeper_of(self) -> Option<u64> {
        self.pegkeeper
    }

    /// The admin's address; meaningful only once initialized.
    pub open spec fn admin_addr(self) -> u64 {
        match self.admin_of() {
            Some(a) => a,
            None => 0,
        }
    }

    /// The delegate's address; meaningful only once initialized.
    pub open spec fn pk_addr(self) -> u64 {
        match self.pegkeeper_of() {
            Some(p) => p,
            None => 0,
        }
    }

    /// Whether `initialize` has run.
    pub open spec fn initialized(self) -> bool {
        self.admin_of() is Some
    }

    /// Whether `token` is a registered stablecoin.
    pub open spec fn registered(self, token: u64) -> bool {
        self.sfind(token) is Some
    }

    /// The lending pool configured for `token`; meaningful only when
    /// `token` is registered.
    pub open spec fn pool_of(self, token: u64) -> u64 {
        match self.sfind(token) {
            Some(e) => e.pool,
            None => 0,
        }
    }

    /// The tracked total minted supply of `token`.
    pub open spec fn supply_of(self, token: u64) -> int {
        match self.sfind(token) {
            Some(e) => e.supply as int,
            None => 0,
        }
    }

    /// The stablecoin records carry pairwise distinct tokens.
    pub closed spec fn keys_ok(self) -> bool {
        distinct_keys(self.stablecoins@, skey())
    }

    /// Well-formedness: distinct records, no supply counter negative, and
    /// admin and delegate configured together.
    pub open spec fn wf(self) -> bool {
        &&& self.keys_ok()
        &&& forall|t: u64| #[trigger] self.supply_of(t) >= 0
        &&& (self.admin_of() is Some <==> self.pegkeeper_of() is Some)
    }

    /// A fresh, uninitialized Treasury deployed at `address`.
    pub fn new(address: u64) -> (t: TreasuryContract)
        ensures
            t.wf(),
            !t.initialized(),
            t.addr() == address,
            forall|tok: u64| #[trigger] t.sfind(tok) is None,
    {
        let t = TreasuryContract {
            address,
            admin: None,
            pegkeeper: None,
            stablecoins: Vec::new(),
        };
        proof {
            assert forall|tok: u64| #[trigger] t.sfind(tok) is None by {}
        }
        t
    }

    /// The index of the record for `token`, if one exists.
    fn find_stablecoin(&self, token: u64) -> (r: Option<usize>)
        requires
            self.keys_ok(),
        ensures
            match r {
                Some(i) => {
                    &&& i < self.stablecoins@.len()
                    &&& self.sfind(token) == Some(self.stablecoins@[i as int])
                    &&& self.stablecoins@[i as int].token == token
                },
                None => {
                    &&& self.sfind(token) is None
                    &&& forall|j: int|
                        0 <= j < self.stablecoins@.len() ==> skey()(
                            #[trigger] self.stablecoins@[j],
                        ) != token
                },
            },
    {
        let mut n: usize = 0;
        while n < self.stablecoins.len()
            invariant
                self.keys_ok(),
                n <= self.stablecoins@.len(),
                forall|j: int| 0 <= j < n ==> skey()(#[trigger] self.stablecoins@[j]) != token,
            decreases self.stablecoins@.len() - n,
        {
            let e = self.stablecoins[n];
            if e.token == token {
                proof {
                    lemma_assoc_find_at(self.stablecoins@, skey(), n as int);
                }
                return Some(n);
            }
            n += 1;
        }
        proof {
            lemma_assoc_find_absent(self.stablecoins@, skey(), token);
        }
        None
    }

    /// Writes the record for `token`, leaving every other record and the
    /// configuration as they are.
    fn set_record(&mut self, token: u64, pool: u64, supply: i128)
        requires
            old(self).keys_ok(),
        ensures
            final(self).keys_ok(),
            final(self).registered(token),
            final(self).pool_of(token) == pool,
            final(self).supply_of(token) == supply as int,
            forall|t: u64| t != token ==> #[trigger] final(self).sfind(t) == old(self).sfind(t),
            final(self).addr() == old(self).addr(),
            final(self).admin_of() == old(self).admin_of(),
            final(self).pegkeeper_of() == old(self).pegkeeper_of(),
    {
        let ghost pre = *self;
        let e = StablecoinEntry { token, pool, supply };
        match self.find_stablecoin(token) {
            Some(i) => {
                self.stablecoins.set(i, e);
                proof {
                    assert forall|t: u64| t != token implies #[trigger] self.sfind(t)
                        == pre.sfind(t) by {
                        lemma_assoc_find_update(pre.stablecoins@, skey(), i as int, e, t);
                    }
                    lemma_assoc_find_update(pre.stablecoins@, skey(), i as int, e, token);
                }
            },
            None => {
                self.stablecoins.push(e);
                proof {
                    assert forall|t: u64| t != token implies #[trigger] self.sfind(t)
                        == pre.sfind(t) by {
                        lemma_assoc_find_push(pre.stablecoins@, skey(), e, t);
                    }
                    lemma_assoc_find_push(pre.stablecoins@, skey(), e, token);
                }
            },
        }
    }

    /// Sets the admin and the flash-loan delegate; may run once.
    /// Fails with `AlreadyInitializedError` on any later call, changing
    /// nothing.
    pub fn initialize(&mut self, admin: u64, pegkeeper: u64) -> (r: Result<(), TreasuryError>)
        requires
            old(self).wf(),
        ensures
            final(self).wf(),
            r is Ok <==> !old(self).initialized(),
            r is Err ==> r == Err::<(), TreasuryError>(TreasuryError::AlreadyInitializedError) && *final(self) == *old(
                self,
            ),
            r is Ok ==> {
                &&& final(self).admin_of() == Some(admin)
                &&& final(self).pegkeeper_of() == Some(pegkeeper)
                &&& final(self).addr() == old(self).addr()
                &&& forall|t: u64| #[trigger] final(self).sfind(t) == old(self).sfind(t)
            },
    {
        if self.admin.is_some() {
            return Err(TreasuryError::AlreadyInitializedError);
        }
        self.admin = Some(admin);
        self.pegkeeper = Some(pegkeeper);
        proof {
            assert forall|t: u64| #[trigger] self.sfind(t) == old(self).sfind(t) by {}
            assert forall|t: u64| #[trigger] self.supply_of(t) >= 0 by {
                assert(old(self).supply_of(t) >= 0);
            }
        }
        Ok(())
    }

    /// This contract's ledger address.
    pub fn get_address(&self) -> (a: u64)
        ensures
            a == self.addr(),
    {
        self.address
    }

    /// The configured admin address, if initialized.
    pub fn get_admin(&self) -> (r: Option<u64>)
        ensures
            r == self.admin_of(),
    {
        self.admin
    }

    /// The configured delegate address, if initialized.
    pub fn get_pegkeeper(&self) -> (r: Option<u64>)
        ensures
            r == self.pegkeeper_of(),
    {
        self.pegkeeper
    }

    /// The lending pool registered for `token`, if any.
    pub fn get_lending_pool(&self, token: u64) -> (r: Option<u64>)
        requires
            self.wf(),
        ensures
            r is Some <==> self.registered(token),
            r is Some ==> r == Some(self.pool_of(token)),
    {
        match self.find_stablecoin(token) {
            Some(i) => Some(self.stablecoins[i].pool),
            None => None,
        }
    }

    /// The tracked minted supply of `token` (zero when unregistered).
    pub fn get_supply(&self, token: u64) -> (s: i128)
        requires
            self.wf(),
        ensures
            s as int == self.supply_of(token),
    {
        match self.find_stablecoin(token) {
            Some(i) => self.stablecoins[i].supply,
            None => 0,
        }
    }

    /// (Admin only) registers `token` as a managed stablecoin backed by
    /// `blend_pool`. Re-registering keeps the tracked supply and replaces
    /// the pool. Fails with `NotAdmin` for any other caller, changing
    /// nothing.
    pub fn add_stablecoin(&mut self, caller: u64, token: u64, blend_pool: u64) -> (r: Result<
        (),
        TreasuryError,
    >)
        requires
            old(self).wf(),
            old(self).initialized(),
        ensures
            final(self).wf(),
            r is Ok <==> caller == old(self).admin_addr(),
            r is Err ==> r == Err::<(), TreasuryError>(TreasuryError::NotAdmin) && *final(self) == *old(self),
            r is Ok ==> {
                &&& final(self).registered(token)
                &&& final(self).pool_of(token) == blend_pool
                &&& final(self).supply_of(token) == old(self).supply_of(token)
                &&& forall|t: u64| t != token ==> #[trigger] final(self).sfind(t) == old(
                    self,
                ).sfind(t)
                &&& config_unchanged(*old(self), *final(self))
            },
    {
        let admin = match self.admin {
            Some(a) => a,
            None => vstd::pervasive::unreached(),
        };
        if caller != admin {
            return Err(TreasuryError::NotAdmin);
        }
        let supply = self.get_supply(token);
        self.set_record(token, blend_pool, supply);
        proof {
            assert forall|t: u64| #[trigger] self.supply_of(t) >= 0 by {
                if t != token {
                    assert(self.sfind(t) == old(self).sfind(t));
                    assert(old(self).supply_of(t) >= 0);
                }
            }
        }
        Ok(())
    }

    /// (Admin only) replaces the flash-loan delegate. Fails with `NotAdmin`
    /// for any other caller, changing nothing.
    pub fn set_pegkeeper(&mut self, caller: u64, new_pegkeeper: u64) -> (r: Result<
        (),
        TreasuryError,
    >)
        requires
            old(self).wf(),
            old(self).initialized(),
        ensures
            final(self).wf(),
            r is Ok <==> caller == old(self).admin_addr(),
            r is Err ==> r == Err::<(), TreasuryError>(TreasuryError::NotAdmin) && *final(self) == *old(self),
            r is Ok ==> {
                &&& final(self).pegkeeper_of() == Some(new_pegkeeper)
                &&& final(self).admin_of() == old(self).admin_of()
                &&& final(self).addr() == old(self).addr()
                &&& forall|t: u64| #[trigger] final(self).sfind(t) == old(self).sfind(t)
            },
    {
        let admin = match self.admin {
            Some(a) => a,
            None => vstd::pervasive::unreached(),
        };
        if caller != admin {
            return Err(TreasuryError::NotAdmin);
        }
        self.pegkeeper = Some(new_pegkeeper);
        proof {
            assert forall|t: u64| #[trigger] self.sfind(t) == old(self).sfind(t) by {}
            assert forall|t: u64| #[trigger] self.supply_of(t) >= 0 by {
                assert(old(self).supply_of(t) >= 0);
            }
        }
        Ok(())
    }

    /// (Admin only) mints `amount` of `token` to itself, authorizes the pool
    /// to pull exactly that amount, deposits it into the registered lending
    /// pool, and raises the tracked supply by `amount`. Fails with
    /// `NotAdmin` for any other caller, changing nothing.
    pub fn increase_supply(
        &mut self,
        ledger: &mut TokenLedger,
        caller: u64,
        token: u64,
        amount: i128,
    ) -> (r: Result<(), TreasuryError>)
        requires
            old(self).wf(),
            old(ledger).wf(),
            old(self).initialized(),
            old(self).registered(token),
            0 <= amount,
            old(self).supply_of(token) + amount <= i128::MAX,
            old(ledger).balance_of(token, old(self).addr()) + amount <= i128::MAX,
            old(self).pool_of(token) == old(self).addr() || old(ledger).balance_of(
                token,
                old(self).pool_of(token),
            ) + amount <= i128::MAX,
        ensures
            final(self).wf(),
            final(ledger).wf(),
            r is Ok <==> caller == old(self).admin_addr(),
            r is Err ==> r == Err::<(), TreasuryError>(TreasuryError::NotAdmin) && *final(self) == *old(self)
                && ledger_unchanged(*old(ledger), *final(ledger)),
            r is Ok ==> supply_adjusted(*old(self), *final(self), token, amount as int)
                && pool_funds_changed(
                *old(ledger),
                *final(ledger),
                token,
                old(self).pool_of(token),
                amount as int,
            ),
    {
        let admin = match self.admin {
            Some(a) => a,
            None => vstd::pervasive::unreached(),
        };
        if caller != admin {
            return Err(TreasuryError::NotAdmin);
        }
        let pool = match self.get_lending_pool(token) {
            Some(p) => p,
            None => vstd::pervasive::unreached(),
        };
        let supply = self.get_supply(token);

        ledger.mint(token, self.address, amount);
        let grant = TransferAuthorization::grant(token, self.address, pool, amount);
        ledger.transfer_authorized(grant);
        self.set_record(token, pool, supply + amount);
        proof {
            assert forall|t: u64| #[trigger] self.supply_of(t) >= 0 by {
                if t != token {
                    assert(self.sfind(t) == old(self).sfind(t));
                    assert(old(self).supply_of(t) >= 0);
                }
            }
        }
        Ok(())
    }

    /// (Admin only) withdraws `amount` of `token` from the registered pool,
    /// burns it, and lowers the tracked supply by `amount`. Fails with
    /// `NotAdmin` for any other caller and with `InsufficientSupply` when
    /// `amount` exceeds the tracked supply or the pool's actual holdings;
    /// a failed call changes nothing.
    pub fn decrease_supply(
        &mut self,
        ledger: &mut TokenLedger,
        caller: u64,
        token: u64,
        amount: i128,
    ) -> (r: Result<(), TreasuryError>)
        requires
            old(self).wf(),
            old(ledger).wf(),
            old(self).initialized(),
            old(self).registered(token),
            0 <= amount,
            old(self).pool_of(token) == old(self).addr() || old(ledger).balance_of(
                token,
                old(self).addr(),
            ) + amount <= i128::MAX,
        ensures
            final(self).wf(),
            final(ledger).wf(),
            r is Ok <==> caller == old(self).admin_addr() && amount <= old(self).supply_of(token)
                && amount <= old(ledger).balance_of(token, old(self).pool_of(token)),
            r == Err::<(), TreasuryError>(TreasuryError::NotAdmin) <==> caller != old(self).admin_addr(),
            r == Err::<(), TreasuryError>(TreasuryError::InsufficientSupply) <==> caller == old(self).admin_addr() && !(
            amount <= old(self).supply_of(token) && amount <= old(ledger).balance_of(
                token,
                old(self).pool_of(token),
            )),
            r is Err ==> *final(self) == *old(self) && ledger_unchanged(
                *old(ledger),
                *final(ledger),
            ),
            r is Ok ==> supply_adjusted(*old(self), *final(self), token, -(amount as int))
                && pool_funds_changed(
                *old(ledger),
                *final(ledger),
                token,
                old(self).pool_of(token),
                -(amount as int),
            ),
    {
        let admin = match self.admin {
            Some(a) => a,
            None => vstd::pervasive::unreached(),
        };
        if caller != admin {
            return Err(TreasuryError::NotAdmin);
        }
        let pool = match self.get_lending_pool(token) {
            Some(p) => p,
            None => vstd::pervasive::unreached(),
        };
        let supply = self.get_supply(token);
        let pool_balance = ledger.balance(token, pool);
        if amount > supply || amount > pool_balance {
            return Err(TreasuryError::InsufficientSupply);
        }

        ledger.transfer(token, pool, self.address, amount);
        ledger.burn(token, self.address, amount);
        self.set_record(token, pool, supply - amount);
        proof {
            assert forall|t: u64| #[trigger] self.supply_of(t) >= 0 by {
                if t != token {
                    assert(self.sfind(t) == old(self).sfind(t));
                    assert(old(self).supply_of(t) >= 0);
                }
            }
        }
        Ok(())
    }
}

impl TreasuryContract {
    /// Runs one flash-loan peg-keeping operation: mints `amount` of `token`
    /// straight to the configured delegate, lets the delegate's callback act
    /// (its outcome is `callback`), pulls the principal back against the
    /// delegate's approval, checks that at least `amount` came back, and
    /// burns everything that came back, leaving its own balance and the
    /// supply counter exactly as before.
    ///
    /// The whole chain is all-or-nothing: on `FlashloanFailedError` (the
    /// callback faulted) or `FlashLoanNotRepaid` (less than the principal
    /// returned) no effect of the operation survives. On success the ledger
    /// shows every effect of the chain at once.
    pub fn keep_peg(
        &self,
        ledger: &mut TokenLedger,
        info: LedgerInfo,
        token: u64,
        amount: i128,
        callback: CallbackOutcome,
    ) -> (r: Result<(), TreasuryError>)
        requires
            self.wf(),
            old(ledger).wf(),
            self.initialized(),
            self.pk_addr() != self.addr(),
            0 <= amount,
            info.sequence < u32::MAX,
            old(ledger).balance_of(token, self.pk_addr()) + amount <= i128::MAX,
            callback matches CallbackOutcome::Completed { repaid, approved } ==> {
                &&& 0 <= repaid <= old(ledger).balance_of(token, self.pk_addr()) + amount
                &&& 0 <= approved
                &&& old(ledger).balance_of(token, self.addr()) + repaid + amount <= i128::MAX
            },
        ensures
            final(ledger).wf(),
            r == Err::<(), TreasuryError>(TreasuryError::FlashloanFailedError) <==> callback is Faulted,
            r == Err::<(), TreasuryError>(TreasuryError::FlashLoanNotRepaid) <==> (callback matches
                CallbackOutcome::Completed { repaid, approved } && repayment_of(
                *old(ledger),
                self.pk_addr(),
                token,
                amount as int,
                repaid as int,
                approved as int,
            ) < amount),
            r is Ok <==> (callback matches CallbackOutcome::Completed { repaid, approved }
                && repayment_of(
                *old(ledger),
                self.pk_addr(),
                token,
                amount as int,
                repaid as int,
                approved as int,
            ) >= amount),
            r is Err ==> ledger_unchanged(*old(ledger), *final(ledger)),
            r is Ok ==> keep_peg_committed(
                *old(ledger),
                *final(ledger),
                self.addr(),
                self.pk_addr(),
                token,
                amount as int,
                info,
                callback,
            ),
    {
        let pk = match self.pegkeeper {
            Some(p) => p,
            None => vstd::pervasive::unreached(),
        };
        let balance_before = ledger.balance(token, self.address);
        match callback {
            CallbackOutcome::Faulted => Err(TreasuryError::FlashloanFailedError),
            CallbackOutcome::Completed { repaid, approved } => {
                let pk_balance = ledger.balance(token, pk);
                // whether the principal pull will go through once the
                // delegate's approval stands
                let pull_ok = approved >= amount && pk_balance + amount - repaid >= amount;
                let returned = if pull_ok {
                    repaid + amount
                } else {
                    repaid
                };
                if returned < amount {
                    // aborting before any effect is the all-or-nothing
                    // rollback: the repayment check below could only fail,
                    // and nothing may then survive
                    return Err(TreasuryError::FlashLoanNotRepaid);
                }
                let ghost l0 = *ledger;
                // disburse the loan straight to the delegate
                ledger.mint(token, pk, amount);
                // the delegate's completed callback: direct repayment and
                // the scoped approval, expiring next ledger sequence
                ledger.transfer(token, pk, self.address, repaid);
                ledger.approve(token, pk, self.address, approved, info.sequence + 1);
                // pull the principal back against the approval; a failed
                // pull is tolerated so the invariant below decides
                let pulled = ledger.transfer_from(
                    info.sequence,
                    token,
                    self.address,
                    pk,
                    self.address,
                    amount,
                );
                proof {
                    assert(pulled == pull_ok);
                    assert(ledger.balance_of(token, self.addr()) == l0.balance_of(
                        token,
                        self.addr(),
                    ) + returned);
                }
                // the repayment invariant, on the measured balances; the
                // early abort above already ruled a shortfall out
                let balance_after = ledger.balance(token, self.address);
                if balance_after < balance_before + amount {
                    return Err(TreasuryError::FlashLoanNotRepaid);
                }
                // retire the principal and any surplus that came back
                ledger.burn(token, self.address, balance_after - balance_before);
                Ok(())
            },
        }
    }
}

impl TreasuryContract {
    /// The whole peg-restoration chain with the verified Pegkeeper as the
    /// delegate: mint the loan to the Pegkeeper, invoke its `fl_receive`
    /// (the external pool's and AMM's choices are `outcome`), pull the
    /// principal back against the approval it left, check the repayment
    /// invariant, and burn everything that came back.
    ///
    /// With this delegate a completed callback always repays in full: the
    /// operation either succeeds with the composed effect below, or fails
    /// as a callback fault with nothing applied — `FlashLoanNotRepaid`
    /// cannot occur.
    pub fn keep_peg_with_pegkeeper(
        &self,
        ledger: &mut TokenLedger,
        pegkeeper: &PegkeeperContract,
        info: LedgerInfo,
        op: FlashLoanOperation,
        outcome: &FlashLoanOutcome,
    ) -> (r: Result<(), TreasuryError>)
        requires
            self.wf(),
            old(ledger).wf(),
            self.initialized(),
            pegkeeper.initialized(),
            info.sequence < u32::MAX,
            flash_chain_admissible(*self, *pegkeeper, *old(ledger), op, *outcome),
        ensures
            final(ledger).wf(),
            r is Ok <==> self.addr() == pegkeeper.admin_addr()
                && outcome.position.liabilities@.len() == 0 && outcome.swap_out >= op.amount,
            r is Err ==> r == Err::<(), TreasuryError>(TreasuryError::FlashloanFailedError)
                && ledger_unchanged(*old(ledger), *final(ledger)),
            r is Ok ==> flash_chain_committed(
                *self,
                *pegkeeper,
                *old(ledger),
                *final(ledger),
                info,
                op,
                *outcome,
            ),
    {
        let pk = pegkeeper_address(pegkeeper);
        let balance_before = ledger.balance(op.token, self.address);
        let ghost l0 = *ledger;
        // step 1: disburse the loan straight to the delegate
        ledger.mint(op.token, pk, op.amount);
        proof {
            assert(fl_receive_admissible(*pegkeeper, *ledger, op, *outcome));
        }
        // step 2: invoke the delegate's receive entry point; the Treasury
        // acts as principal for the whole chain
        let ghost l1 = *ledger;
        match pegkeeper.fl_receive(ledger, info, self.address, op, outcome) {
            Err(_) => {
                // the callback failed: undo the disbursement, so that no
                // effect of the operation survives
                ledger.burn(op.token, pk, op.amount);
                Err(TreasuryError::FlashloanFailedError)
            },
            Ok(()) => {
                // step 3: pull the principal back against the approval
                let pulled = ledger.transfer_from(
                    info.sequence,
                    op.token,
                    self.address,
                    pk,
                    self.address,
                    op.amount,
                );
                proof {
                    assert(pulled);
                }
                // step 4: the repayment invariant; with the verified
                // delegate the pull covered the principal, so this check
                // can no longer fire
                let balance_after = ledger.balance(op.token, self.address);
                if balance_after < balance_before + op.amount {
                    return Err(TreasuryError::FlashLoanNotRepaid);
                }
                // step 5: retire the principal and any surplus received
                ledger.burn(op.token, self.address, balance_after - balance_before);
                Ok(())
            },
        }
    }
}

/// The delegate's ledger address.
fn pegkeeper_address(pegkeeper: &PegkeeperContract) -> (a: u64)
    ensures
        a == pegkeeper.addr(),
{
    pegkeeper.get_address()
}

/// The side conditions under which the composed flash-loan chain is
/// modeled: everything `fl_receive` asks, the Treasury distinct from the
/// delegate and from the collaborators it settles with, and enough
/// headroom for the principal to pass through every balance it touches.
pub open spec fn flash_chain_admissible(
    treasury: TreasuryContract,
    pegkeeper: PegkeeperContract,
    l0: TokenLedger,
    op: FlashLoanOperation,
    outcome: FlashLoanOutcome,
) -> bool {
    &&& flash_operation_sane(pegkeeper, op, outcome)
    &&& pegkeeper.addr() != treasury.addr()
    &&& treasury.addr() != op.blend_pool
    &&& treasury.addr() != op.amm
    &&& outcome.seized_collateral <= l0.balance_of(op.collateral_token, op.blend_pool)
    &&& outcome.swap_out <= l0.balance_of(op.token, op.amm)
    &&& l0.balance_of(op.token, op.blend_pool) + op.amount <= i128::MAX
    &&& l0.balance_of(op.collateral_token, pegkeeper.addr()) + outcome.seized_collateral
        <= i128::MAX
    &&& l0.balance_of(op.collateral_token, op.amm) + outcome.seized_collateral <= i128::MAX
    &&& l0.balance_of(op.token, pegkeeper.addr()) + op.amount + outcome.swap_out <= i128::MAX
    &&& l0.balance_of(op.token, op.fee_taker) + 2 * op.amount + outcome.swap_out <= i128::MAX
    &&& l0.balance_of(op.token, treasury.addr()) + op.amount + outcome.swap_out <= i128::MAX
}

/// The ledger after a committed flash-loan chain, relative to the ledger
/// `l0` it started from. Every effect of the chain — mint, batch
/// settlement, collateral seizure, swap, fee payment, pull-back and burn —
/// is observable at once: the loan sits repaid in the pool, the collateral
/// moved to the AMM, the surplus went to the fee recipient, the delegate's
/// approval is used up, and the Treasury's own balance ends exactly where
/// it began, the repayment having covered at least the principal.
pub open spec fn flash_chain_committed(
    treasury: TreasuryContract,
    pegkeeper: PegkeeperContract,
    l0: TokenLedger,
    l1: TokenLedger,
    info: LedgerInfo,
    op: FlashLoanOperation,
    outcome: FlashLoanOutcome,
) -> bool {
    let pk = pegkeeper.addr();
    let home = treasury.addr();
    let profit = outcome.swap_out - op.amount;
    let burned = op.amount + if op.fee_taker == home {
        profit
    } else {
        0
    };
    &&& burned >= op.amount
    &&& forall|t: u64, h: u64| #[trigger]
        l1.balance_of(t, h) == l0.balance_of(t, h) + (if t == op.token && h == pk {
            op.amount as int
        } else {
            0
        }) + transfer_delta(op.token, pk, op.blend_pool, op.amount as int, t, h)
            + transfer_delta(
            op.collateral_token,
            op.blend_pool,
            pk,
            outcome.seized_collateral as int,
            t,
            h,
        ) + transfer_delta(
            op.collateral_token,
            pk,
            op.amm,
            outcome.seized_collateral as int,
            t,
            h,
        ) + transfer_delta(op.token, op.amm, pk, outcome.swap_out as int, t, h)
            + transfer_delta(op.token, pk, op.fee_taker, profit, t, h) + transfer_delta(
            op.token,
            pk,
            home,
            op.amount as int,
            t,
            h,
        ) - (if t == op.token && h == home {
            burned
        } else {
            0
        })
    &&& l1.balance_of(op.token, home) == l0.balance_of(op.token, home)
    &&& forall|t: u64, f: u64, s: u64| #[trigger]
        l1.allowance_of(t, f, s) == if t == op.token && f == pk && s == home {
            0
        } else {
            l0.allowance_of(t, f, s)
        }
    &&& forall|t: u64, f: u64, s: u64| #[trigger]
        l1.allowance_expiry(t, f, s) == if t == op.token && f == pk && s == home {
            info.sequence + 1
        } else {
            l0.allowance_expiry(t, f, s)
        }
}

/// Whether the Treasury's pull of the principal goes through once the
/// delegate's approval stands: the approval covers the principal, and after
/// its direct repayment the delegate still holds at least the principal.
pub open spec fn pull_goes_through(
    l0: TokenLedger,
    pk: u64,
    token: u64,
    amount: int,
    repaid: int,
    approved: int,
) -> bool {
    approved >= amount && l0.balance_of(token, pk) + amount - repaid >= amount
}

/// Everything a completed callback returns to the Treasury within the
/// operation: the direct repayment, plus the principal pull when it goes
/// through. `l0` is the ledger as the operation began.
pub open spec fn repayment_of(
    l0: TokenLedger,
    pk: u64,
    token: u64,
    amount: int,
    repaid: int,
    approved: int,
) -> int {
    repaid + if pull_goes_through(l0, pk, token, amount, repaid, approved) {
        amount
    } else {
        0
    }
}

/// The ledger after a committed `keep_peg`, relative to the ledger `l0` it
/// started from: the delegate nets the minted principal less everything it
/// returned, the Treasury's own balance is exactly restored (the repayment
/// invariant held and the excess was burned), nobody else's balance moves,
/// and the delegate's approval to the Treasury is what remains of `approved`
/// after the pull, expiring at the next ledger sequence.
pub open spec fn keep_peg_committed(
    l0: TokenLedger,
    l1: TokenLedger,
    treasury: u64,
    pk: u64,
    token: u64,
    amount: int,
    info: LedgerInfo,
    callback: CallbackOutcome,
) -> bool {
    callback matches CallbackOutcome::Completed { repaid, approved } ==> {
        let pulled: int = if pull_goes_through(
            l0,
            pk,
            token,
            amount,
            repaid as int,
            approved as int,
        ) {
            amount
        } else {
            0
        };
        &&& forall|t: u64, h: u64| #[trigger]
            l1.balance_of(t, h) == l0.balance_of(t, h) + (if t == token && h == pk {
                amount - repaid - pulled
            } else {
                0
            })
        &&& forall|t: u64, f: u64, s: u64| #[trigger]
            l1.allowance_of(t, f, s) == if t == token && f == pk && s == treasury {
                approved - pulled
            } else {
                l0.allowance_of(t, f, s)
            }
        &&& forall|t: u64, f: u64, s: u64| #[trigger]
            l1.allowance_expiry(t, f, s) == if t == token && f == pk && s == treasury {
                info.sequence + 1
            } else {
                l0.allowance_expiry(t, f, s)
            }
        &&& l0.balance_of(token, treasury) + repaid + pulled >= l0.balance_of(token, treasury)
            + amount
    }
}

/// The configuration of `b` is as in `a`: address, admin and delegate.
pub open spec fn config_unchanged(a: TreasuryContract, b: TreasuryContract) -> bool {
    &&& b.addr() == a.addr()
    &&& b.admin_of() == a.admin_of()
    &&& b.pegkeeper_of() == a.pegkeeper_of()
}

/// Nothing of the Treasury's state differs between `a` and `b`.
pub open spec fn treasury_unchanged(a: TreasuryContract, b: TreasuryContract) -> bool {
    &&& config_unchanged(a, b)
    &&& forall|t: u64| #[trigger] b.sfind(t) == a.sfind(t)
}

/// `b` is `a` with the supply counter of `token` moved by `delta` and
/// nothing else: configuration, every other record, and `token`'s own pool
/// and registration stay.
pub open spec fn supply_adjusted(
    a: TreasuryContract,
    b: TreasuryContract,
    token: u64,
    delta: int,
) -> bool {
    &&& config_unchanged(a, b)
    &&& forall|t: u64| t != token ==> #[trigger] b.sfind(t) == a.sfind(t)
    &&& b.registered(token) == a.registered(token)
    &&& b.pool_of(token) == a.pool_of(token)
    &&& b.supply_of(token) == a.supply_of(token) + delta
}

/// The ledger of `b` is the ledger of `a` with `pool`'s holding of `token`
/// moved by `delta` and nothing else; allowances stay.
pub open spec fn pool_funds_changed(
    a: TokenLedger,
    b: TokenLedger,
    token: u64,
    pool: u64,
    delta: int,
) -> bool {
    &&& forall|t: u64, h: u64| #[trigger]
        b.balance_of(t, h) == a.balance_of(t, h) + (if t == token && h == pool {
            delta
        } else {
            0
        })
    &&& allowances_unchanged(a, b)
}

} // verus!
