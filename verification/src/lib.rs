//! A verified model of a stablecoin peg-keeping protocol.
//!
//! A custodial Treasury mints its managed stablecoin on demand, lends it to a
//! delegate executor (the Pegkeeper) inside one atomic operation, and requires
//! that at least the borrowed amount comes back before the operation commits;
//! otherwise the whole operation is rolled back. The Pegkeeper uses the loan
//! to liquidate an under-collateralized lending-pool position, swaps the
//! seized collateral back into the stablecoin on an AMM, pays any surplus to a
//! fee recipient, and authorizes the Treasury to reclaim the principal.
//!
//! Addresses and token identifiers are plain `u64` values; token amounts are
//! `i128`, as token contracts on the target chain keep them. The external
//! collaborators (lending pool, AMM router, token contracts) are modeled at
//! their interfaces: token balances live in [`ledger::TokenLedger`], and the
//! outcomes the collaborators choose (seized collateral, swap output, the
//! returned position) are inputs to the verified operations.

pub mod assoc;
pub mod auth;
pub mod errors;
pub mod laws;
pub mod ledger;
pub mod mock_pegkeeper;
pub mod pegkeeper;
pub mod requests;
pub mod treasury;
