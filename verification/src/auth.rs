//! Scoped, single-use transfer authorizations.
//!
//! A sub-invocation inside one atomic operation (the lending pool pulling the
//! freshly minted supply, for instance) must be able to move the
//! orchestrator's tokens without a second full signature from the principal.
//! This is modeled as a capability object: it names exactly one transfer, it
//! cannot be copied, and redeeming it consumes it, so it grants nothing
//! beyond the single call it names and cannot outlive the operation.

use vstd::prelude::*;
use crate::ledger::{TokenLedger, transfer_delta, allowances_unchanged};

verus! {

/// A one-shot, parameter-bound permission to move `amount` of `token`
/// from `from` to `to`, once.
pub struct TransferAuthorization {
    token: u64,
    from: u64,
    to: u64,
    amount: i128,
}

impl TransferAuthorization {
    /// The token the authorization names.
    pub closed spec fn token_id(self) -> u64 {
        self.token
    }

    /// The owner whose funds may move.
    pub closed spec fn from_addr(self) -> u64 {
        self.from
    }

    /// The only permitted recipient.
    pub closed spec fn to_addr(self) -> u64 {
        self.to
    }

    /// The exact amount the authorization covers.
    pub closed spec fn amount_of(self) -> int {
        self.amount as int
    }

    /// Issues an authorization for exactly one transfer of `amount` of
    /// `token` from `from` to `to`. Issuing stands for the owner's signature
    /// over that one named call.
    pub fn grant(token: u64, from: u64, to: u64, amount: i128) -> (a: TransferAuthorization)
        requires
            0 <= amount,
        ensures
            a.token_id() == token,
            a.from_addr() == from,
            a.to_addr() == to,
            a.amount_of() == amount,
    {
        TransferAuthorization { token, from, to, amount }
    }
}

impl TokenLedger {
    /// Redeems an authorization: exactly the named transfer happens. The
    /// authorization is consumed and cannot be presented again.
    pub fn transfer_authorized(&mut self, grant: TransferAuthorization)
        requires
            old(self).wf(),
            0 <= grant.amount_of() <= old(self).balance_of(grant.token_id(), grant.from_addr()),
            grant.from_addr() == grant.to_addr() || old(self).balance_of(
                grant.token_id(),
                grant.to_addr(),
            ) + grant.amount_of() <= i128::MAX,
        ensures
            final(self).wf(),
            forall|t: u64, h: u64| #[trigger]
                final(self).balance_of(t, h) == old(self).balance_of(t, h) + transfer_delta(
                    grant.token_id(),
                    grant.from_addr(),
                    grant.to_addr(),
                    grant.amount_of(),
                    t,
                    h,
                ),
            allowances_unchanged(*old(self), *final(self)),
    {
        self.transfer(grant.token, grant.from, grant.to, grant.amount);
    }
}

} // verus!
