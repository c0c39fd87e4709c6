//! An in-memory model of the fungible-token contracts the protocol moves
//! value through.
//!
//! Addresses and token identifiers are plain `u64` values. The ledger keeps
//! every holder's balance of every token and the standing `approve`
//! allowances, and offers the standard operations: `balance`, `mint`, `burn`,
//! `transfer`, `approve` and `transfer_from`. Balances and allowances are
//! never negative, and every operation states its exact effect pointwise, so
//! that the contract operations built on top can account for every unit.

use vstd::prelude::*;
use crate::assoc::{
    assoc_find, distinct_keys, lemma_assoc_find_at, lemma_assoc_find_absent,
    lemma_assoc_find_update, lemma_assoc_find_push,
};

verus! {

/// One holder's balance of one token.
#[derive(Clone, Copy, Debug, PartialEq, Eq, Structural)]
pub struct BalanceEntry {
    /// The token.
    pub token: u64,
    /// The holder.
    pub holder: u64,
    /// How much `holder` owns of `token`; never negative.
    pub amount: i128,
}

/// One standing allowance: `spender` may move up to `amount` of `token`
/// out of `from`'s balance, until the ledger sequence passes `live_until`.
#[derive(Clone, Copy, Debug, PartialEq, Eq, Structural)]
pub struct AllowanceEntry {
    /// The token.
    pub token: u64,
    /// The owner of the funds.
    pub from: u64,
    /// Who may pull them.
    pub spender: u64,
    /// How much may still be pulled; never negative.
    pub amount: i128,
    /// The last ledger sequence number at which the allowance is usable.
    pub live_until: u32,
}

/// The ambient ledger clock: the current sequence number and timestamp.
#[derive(Clone, Copy, Debug, PartialEq, Eq, Structural)]
pub struct LedgerInfo {
    /// The current ledger sequence number.
    pub sequence: u32,
    /// The current ledger timestamp.
    pub timestamp: u64,
}

/// The token ledger: all balances and allowances.
pub struct TokenLedger {
    balances: Vec<BalanceEntry>,
    allowances: Vec<AllowanceEntry>,
}

/// The key of a balance entry.
spec fn bkey() -> spec_fn(BalanceEntry) -> (u64, u64) {
    |e: BalanceEntry| (e.token, e.holder)
}

/// The key of an allowance entry.
spec fn akey() -> spec_fn(AllowanceEntry) -> (u64, u64, u64) {
    |e: AllowanceEntry| (e.token, e.from, e.spender)
}

impl TokenLedger {
    /// The stored balance entry for (`token`, `holder`), if any.
    pub closed spec fn bfind(self, token: u64, holder: u64) -> Option<BalanceEntry> {
        assoc_find(self.balances@, bkey(), (token, holder))
    }

    /// The stored allowance entry for (`token`, `from`, `spender`), if any.
    pub closed spec fn afind(self, token: u64, from: u64, spender: u64) -> Option<AllowanceEntry> {
        assoc_find(self.allowances@, akey(), (token, from, spender))
    }

    /// How much `holder` owns of `token`; zero where no entry exists.
    pub open spec fn balance_of(self, token: u64, holder: u64) -> int {
        match self.bfind(token, holder) {
            Some(e) => e.amount as int,
            None => 0,
        }
    }

    /// How much `spender` may still pull of `token` from `from`.
    pub open spec fn allowance_of(self, token: u64, from: u64, spender: u64) -> int {
        match self.afind(token, from, spender) {
            Some(e) => e.amount as int,
            None => 0,
        }
    }

    /// The last sequence number at which that allowance is usable.
    pub open spec fn allowance_expiry(self, token: u64, from: u64, spender: u64) -> int {
        match self.afind(token, from, spender) {
            Some(e) => e.live_until as int,
            None => 0,
        }
    }

    /// The stored entries carry pairwise distinct keys.
    pub closed spec fn keys_ok(self) -> bool {
        distinct_keys(self.balances@, bkey()) && distinct_keys(self.allowances@, akey())
    }

    /// Well-formedness: distinct keys, and no balance or allowance negative.
    pub open spec fn wf(self) -> bool {
        &&& self.keys_ok()
        &&& forall|t: u64, h: u64| #[trigger] self.balance_of(t, h) >= 0
        &&& forall|t: u64, f: u64, s: u64| #[trigger] self.allowance_of(t, f, s) >= 0
    }

    /// An empty ledger: nobody owns anything and nothing is approved.
    pub fn new() -> (l: TokenLedger)
        ensures
            l.wf(),
            forall|t: u64, h: u64| #[trigger] l.balance_of(t, h) == 0,
            forall|t: u64, f: u64, s: u64| #[trigger] l.allowance_of(t, f, s) == 0,
    {
        let l = TokenLedger { balances: Vec::new(), allowances: Vec::new() };
        proof {
            assert forall|t: u64, h: u64| #[trigger] l.balance_of(t, h) == 0 by {
                assert(l.bfind(t, h) is None);
            }
            assert forall|t: u64, f: u64, s: u64| #[trigger] l.allowance_of(t, f, s) == 0 by {
                assert(l.afind(t, f, s) is None);
            }
        }
        l
    }

    /// The index of the balance entry for (`token`, `holder`), if one exists.
    fn find_balance(&self, token: u64, holder: u64) -> (r: Option<usize>)
        requires
            self.keys_ok(),
        ensures
            match r {
                Some(i) => {
                    &&& i < self.balances@.len()
                    &&& self.bfind(token, holder) == Some(self.balances@[i as int])
                    &&& self.balances@[i as int].token == token
                    &&& self.balances@[i as int].holder == holder
                },
                None => {
                    &&& self.bfind(token, holder) is None
                    &&& forall|j: int|
                        0 <= j < self.balances@.len() ==> bkey()(#[trigger] self.balances@[j])
                            != (token, holder)
                },
            },
    {
        let mut n: usize = 0;
        while n < self.balances.len()
            invariant
                self.keys_ok(),
                n <= self.balances@.len(),
                forall|j: int|
                    0 <= j < n ==> bkey()(#[trigger] self.balances@[j]) != (token, holder),
            decreases self.balances@.len() - n,
        {
            let e = self.balances[n];
            if e.token == token && e.holder == holder {
                proof {
                    lemma_assoc_find_at(self.balances@, bkey(), n as int);
                }
                return Some(n);
            }
            n += 1;
        }
        proof {
            lemma_assoc_find_absent(self.balances@, bkey(), (token, holder));
        }
        None
    }

    /// The index of the allowance entry for (`token`, `from`, `spender`).
    fn find_allowance(&self, token: u64, from: u64, spender: u64) -> (r: Option<usize>)
        requires
            self.keys_ok(),
        ensures
            match r {
                Some(i) => {
                    &&& i < self.allowances@.len()
                    &&& self.afind(token, from, spender) == Some(self.allowances@[i as int])
                    &&& self.allowances@[i as int].token == token
                    &&& self.allowances@[i as int].from == from
                    &&& self.allowances@[i as int].spender == spender
                },
                None => {
                    &&& self.afind(token, from, spender) is None
                    &&& forall|j: int|
                        0 <= j < self.allowances@.len() ==> akey()(
                            #[trigger] self.allowances@[j],
                        ) != (token, from, spender)
                },
            },
    {
        let mut n: usize = 0;
        while n < self.allowances.len()
            invariant
                self.keys_ok(),
                n <= self.allowances@.len(),
                forall|j: int|
                    0 <= j < n ==> akey()(#[trigger] self.allowances@[j]) != (
                        token,
                        from,
                        spender,
                    ),
            decreases self.allowances@.len() - n,
        {
            let e = self.allowances[n];
            if e.token == token && e.from == from && e.spender == spender {
                proof {
                    lemma_assoc_find_at(self.allowances@, akey(), n as int);
                }
                return Some(n);
            }
            n += 1;
        }
        proof {
            lemma_assoc_find_absent(self.allowances@, akey(), (token, from, spender));
        }
        None
    }

    /// Writes the balance of (`token`, `holder`), leaving every other
    /// balance and every allowance as it was.
    fn set_balance(&mut self, token: u64, holder: u64, value: i128)
        requires
            old(self).keys_ok(),
        ensures
            final(self).keys_ok(),
            forall|t: u64, h: u64| #[trigger]
                final(self).balance_of(t, h) == if t == token && h == holder {
                    value as int
                } else {
                    old(self).balance_of(t, h)
                },
            allowances_unchanged(*old(self), *final(self)),
    {
        let ghost pre = *self;
        let e = BalanceEntry { token, holder, amount: value };
        match self.find_balance(token, holder) {
            Some(i) => {
                self.balances.set(i, e);
                proof {
                    assert forall|t: u64, h: u64| #[trigger]
                        self.balance_of(t, h) == if t == token && h == holder {
                            value as int
                        } else {
                            pre.balance_of(t, h)
                        } by {
                        lemma_assoc_find_update(pre.balances@, bkey(), i as int, e, (t, h));
                    }
                    lemma_assoc_find_update(pre.balances@, bkey(), i as int, e, (token, holder));
                }
            },
            None => {
                self.balances.push(e);
                proof {
                    assert forall|t: u64, h: u64| #[trigger]
                        self.balance_of(t, h) == if t == token && h == holder {
                            value as int
                        } else {
                            pre.balance_of(t, h)
                        } by {
                        lemma_assoc_find_push(pre.balances@, bkey(), e, (t, h));
                    }
                    lemma_assoc_find_push(pre.balances@, bkey(), e, (token, holder));
                }
            },
        }
        proof {
            assert forall|t: u64, f: u64, s: u64|
                #![trigger self.allowance_of(t, f, s)]
                #![trigger self.allowance_expiry(t, f, s)]
                self.allowance_of(t, f, s) == pre.allowance_of(t, f, s)
                    && self.allowance_expiry(t, f, s) == pre.allowance_expiry(t, f, s) by {
                assert(self.afind(t, f, s) == pre.afind(t, f, s));
            }
        }
    }

    /// Writes the allowance entry for (`token`, `from`, `spender`), leaving
    /// every other allowance and every balance as it was.
    fn set_allowance(&mut self, token: u64, from: u64, spender: u64, value: i128, live_until: u32)
        requires
            old(self).keys_ok(),
        ensures
            final(self).keys_ok(),
            forall|t: u64, f: u64, s: u64| #[trigger]
                final(self).allowance_of(t, f, s) == if t == token && f == from && s == spender {
                    value as int
                } else {
                    old(self).allowance_of(t, f, s)
                },
            forall|t: u64, f: u64, s: u64| #[trigger]
                final(self).allowance_expiry(t, f, s) == if t == token && f == from && s
                    == spender {
                    live_until as int
                } else {
                    old(self).allowance_expiry(t, f, s)
                },
            balances_unchanged(*old(self), *final(self)),
    {
        let ghost pre = *self;
        let e = AllowanceEntry { token, from, spender, amount: value, live_until };
        match self.find_allowance(token, from, spender) {
            Some(i) => {
                self.allowances.set(i, e);
                proof {
                    assert forall|t: u64, f: u64, s: u64|
                        #![trigger self.allowance_of(t, f, s)]
                        #![trigger self.allowance_expiry(t, f, s)]
                        self.afind(t, f, s) == if t == token && f == from && s == spender {
                            Some(e)
                        } else {
                            pre.afind(t, f, s)
                        } by {
                        lemma_assoc_find_update(pre.allowances@, akey(), i as int, e, (t, f, s));
                    }
                    lemma_assoc_find_update(
                        pre.allowances@,
                        akey(),
                        i as int,
                        e,
                        (token, from, spender),
                    );
                }
            },
            None => {
                self.allowances.push(e);
                proof {
                    assert forall|t: u64, f: u64, s: u64|
                        #![trigger self.allowance_of(t, f, s)]
                        #![trigger self.allowance_expiry(t, f, s)]
                        self.afind(t, f, s) == if t == token && f == from && s == spender {
                            Some(e)
                        } else {
                            pre.afind(t, f, s)
                        } by {
                        lemma_assoc_find_push(pre.allowances@, akey(), e, (t, f, s));
                    }
                    lemma_assoc_find_push(pre.allowances@, akey(), e, (token, from, spender));
                }
            },
        }
        proof {
            assert forall|t: u64, h: u64| #[trigger]
                self.balance_of(t, h) == pre.balance_of(t, h) by {
                assert(self.bfind(t, h) == pre.bfind(t, h));
            }
        }
    }

    /// How much `holder` owns of `token`.
    pub fn balance(&self, token: u64, holder: u64) -> (b: i128)
        requires
            self.wf(),
        ensures
            b as int == self.balance_of(token, holder),
    {
        match self.find_balance(token, holder) {
            Some(i) => self.balances[i].amount,
            None => 0,
        }
    }

    /// The standing allowance and its expiry sequence.
    pub fn allowance(&self, token: u64, from: u64, spender: u64) -> (r: (i128, u32))
        requires
            self.wf(),
        ensures
            r.0 as int == self.allowance_of(token, from, spender),
            r.1 as int == self.allowance_expiry(token, from, spender),
    {
        match self.find_allowance(token, from, spender) {
            Some(i) => {
                let e = self.allowances[i];
                (e.amount, e.live_until)
            },
            None => (0, 0),
        }
    }

    /// Creates `amount` fresh units of `token` for `to`. Only the Treasury
    /// holds issuer rights for its managed stablecoins; the callers in this
    /// crate exercise them on its behalf.
    pub fn mint(&mut self, token: u64, to: u64, amount: i128)
        requires
            old(self).wf(),
            0 <= amount,
            old(self).balance_of(token, to) + amount <= i128::MAX,
        ensures
            final(self).wf(),
            forall|t: u64, h: u64| #[trigger]
                final(self).balance_of(t, h) == old(self).balance_of(t, h) + (if t == token && h
                    == to {
                    amount as int
                } else {
                    0
                }),
            allowances_unchanged(*old(self), *final(self)),
    {
        let b = self.balance(token, to);
        self.set_balance(token, to, b + amount);
    }

    /// Destroys `amount` units of `token` held by `from`.
    pub fn burn(&mut self, token: u64, from: u64, amount: i128)
        requires
            old(self).wf(),
            0 <= amount <= old(self).balance_of(token, from),
        ensures
            final(self).wf(),
            forall|t: u64, h: u64| #[trigger]
                final(self).balance_of(t, h) == old(self).balance_of(t, h) - (if t == token && h
                    == from {
                    amount as int
                } else {
                    0
                }),
            allowances_unchanged(*old(self), *final(self)),
    {
        let b = self.balance(token, from);
        self.set_balance(token, from, b - amount);
    }

    /// Moves `amount` of `token` from `from` to `to`.
    pub fn transfer(&mut self, token: u64, from: u64, to: u64, amount: i128)
        requires
            old(self).wf(),
            0 <= amount <= old(self).balance_of(token, from),
            from == to || old(self).balance_of(token, to) + amount <= i128::MAX,
        ensures
            final(self).wf(),
            forall|t: u64, h: u64| #[trigger]
                final(self).balance_of(t, h) == old(self).balance_of(t, h) + transfer_delta(
                    token,
                    from,
                    to,
                    amount as int,
                    t,
                    h,
                ),
            allowances_unchanged(*old(self), *final(self)),
    {
        if from != to {
            let bf = self.balance(token, from);
            let bt = self.balance(token, to);
            self.set_balance(token, from, bf - amount);
            self.set_balance(token, to, bt + amount);
        }
    }

    /// Grants `spender` the right to pull up to `amount` of `token` from
    /// `from`, usable through ledger sequence `live_until`.
    pub fn approve(&mut self, token: u64, from: u64, spender: u64, amount: i128, live_until: u32)
        requires
            old(self).wf(),
            0 <= amount,
        ensures
            final(self).wf(),
            balances_unchanged(*old(self), *final(self)),
            forall|t: u64, f: u64, s: u64| #[trigger]
                final(self).allowance_of(t, f, s) == if t == token && f == from && s == spender {
                    amount as int
                } else {
                    old(self).allowance_of(t, f, s)
                },
            forall|t: u64, f: u64, s: u64| #[trigger]
                final(self).allowance_expiry(t, f, s) == if t == token && f == from && s
                    == spender {
                    live_until as int
                } else {
                    old(self).allowance_expiry(t, f, s)
                },
    {
        self.set_allowance(token, from, spender, amount, live_until);
    }

    /// `spender` pulls `amount` of `token` from `from` to `to` against a
    /// standing allowance. Returns whether the pull went through: it does
    /// exactly when the allowance covers the amount, has not expired at
    /// `sequence`, and `from`'s balance suffices. On failure nothing changes.
    pub fn transfer_from(
        &mut self,
        sequence: u32,
        token: u64,
        spender: u64,
        from: u64,
        to: u64,
        amount: i128,
    ) -> (ok: bool)
        requires
            old(self).wf(),
            0 <= amount,
            from == to || old(self).balance_of(token, to) + amount <= i128::MAX,
        ensures
            final(self).wf(),
            ok <==> {
                &&& old(self).allowance_of(token, from, spender) >= amount
                &&& old(self).allowance_expiry(token, from, spender) >= sequence
                &&& old(self).balance_of(token, from) >= amount
            },
            forall|t: u64, h: u64| #[trigger]
                final(self).balance_of(t, h) == old(self).balance_of(t, h) + (if ok {
                    transfer_delta(token, from, to, amount as int, t, h)
                } else {
                    0
                }),
            forall|t: u64, f: u64, s: u64| #[trigger]
                final(self).allowance_of(t, f, s) == old(self).allowance_of(t, f, s) - (if ok && t
                    == token && f == from && s == spender {
                    amount as int
                } else {
                    0
                }),
            forall|t: u64, f: u64, s: u64| #[trigger]
                final(self).allowance_expiry(t, f, s) == old(self).allowance_expiry(t, f, s),
    {
        let (al, lu) = self.allowance(token, from, spender);
        let bf = self.balance(token, from);
        if al >= amount && lu >= sequence && bf >= amount {
            self.transfer(token, from, to, amount);
            self.set_allowance(token, from, spender, al - amount, lu);
            true
        } else {
            false
        }
    }
}

/// How a transfer of `amount` of `token` from `from` to `to` changes the
/// balance of (`t`, `h`): nothing moves when `from == to`.
pub open spec fn transfer_delta(token: u64, from: u64, to: u64, amount: int, t: u64, h: u64) -> int {
    if t == token && from != to {
        if h == from {
            -amount
        } else if h == to {
            amount
        } else {
            0
        }
    } else {
        0
    }
}

/// Every balance of `b` equals the one of `a`.
pub open spec fn balances_unchanged(a: TokenLedger, b: TokenLedger) -> bool {
    forall|t: u64, h: u64| #[trigger] b.balance_of(t, h) == a.balance_of(t, h)
}

/// Every allowance of `b`, amount and expiry, equals the one of `a`.
pub open spec fn allowances_unchanged(a: TokenLedger, b: TokenLedger) -> bool {
    forall|t: u64, f: u64, s: u64|
        #![trigger b.allowance_of(t, f, s)]
        #![trigger b.allowance_expiry(t, f, s)]
        b.allowance_of(t, f, s) == a.allowance_of(t, f, s) && b.allowance_expiry(t, f, s)
            == a.allowance_expiry(t, f, s)
}

/// The whole ledger of `b` is as in `a`: balances and allowances.
pub open spec fn ledger_unchanged(a: TokenLedger, b: TokenLedger) -> bool {
    balances_unchanged(a, b) && allowances_unchanged(a, b)
}

} // verus!
