//! Tests of the token ledger and the one-shot transfer authorization.

use peg_treasury::auth::TransferAuthorization;
use peg_treasury::ledger::TokenLedger;

const TOKEN: u64 = 10;
const A: u64 = 1;
const B: u64 = 2;
const C: u64 = 3;

#[test]
fn mint_transfer_burn() {
    let mut l = TokenLedger::new();
    assert_eq!(l.balance(TOKEN, A), 0);
    l.mint(TOKEN, A, 1_000);
    assert_eq!(l.balance(TOKEN, A), 1_000);
    l.transfer(TOKEN, A, B, 400);
    assert_eq!(l.balance(TOKEN, A), 600);
    assert_eq!(l.balance(TOKEN, B), 400);
    l.burn(TOKEN, A, 600);
    assert_eq!(l.balance(TOKEN, A), 0);
    // other tokens and holders are untouched
    assert_eq!(l.balance(11, A), 0);
    assert_eq!(l.balance(TOKEN, C), 0);
}

#[test]
fn transfer_to_self_moves_nothing() {
    let mut l = TokenLedger::new();
    l.mint(TOKEN, A, 100);
    l.transfer(TOKEN, A, A, 100);
    assert_eq!(l.balance(TOKEN, A), 100);
}

#[test]
fn transfer_from_respects_allowance() {
    let mut l = TokenLedger::new();
    l.mint(TOKEN, A, 1_000);
    l.approve(TOKEN, A, B, 300, 7);
    assert_eq!(l.allowance(TOKEN, A, B), (300, 7));
    // more than approved: refused, nothing moves
    assert!(!l.transfer_from(5, TOKEN, B, A, C, 301));
    assert_eq!(l.balance(TOKEN, A), 1_000);
    // within the allowance: moves and decrements it
    assert!(l.transfer_from(5, TOKEN, B, A, C, 200));
    assert_eq!(l.balance(TOKEN, A), 800);
    assert_eq!(l.balance(TOKEN, C), 200);
    assert_eq!(l.allowance(TOKEN, A, B), (100, 7));
}

#[test]
fn transfer_from_expired_allowance() {
    let mut l = TokenLedger::new();
    l.mint(TOKEN, A, 1_000);
    l.approve(TOKEN, A, B, 300, 7);
    // the ledger sequence has passed the expiry: refused
    assert!(!l.transfer_from(8, TOKEN, B, A, C, 100));
    assert_eq!(l.balance(TOKEN, A), 1_000);
    assert_eq!(l.allowance(TOKEN, A, B), (300, 7));
}

#[test]
fn transfer_from_without_allowance() {
    let mut l = TokenLedger::new();
    l.mint(TOKEN, A, 1_000);
    assert!(!l.transfer_from(5, TOKEN, B, A, C, 1));
    assert_eq!(l.balance(TOKEN, A), 1_000);
}

#[test]
fn largest_representable_amounts() {
    let mut l = TokenLedger::new();
    l.mint(TOKEN, A, i128::MAX);
    assert_eq!(l.balance(TOKEN, A), i128::MAX);
    l.transfer(TOKEN, A, B, i128::MAX);
    assert_eq!(l.balance(TOKEN, B), i128::MAX);
    l.burn(TOKEN, B, i128::MAX);
    assert_eq!(l.balance(TOKEN, B), 0);
}

#[test]
fn authorization_moves_exactly_what_it_names() {
    let mut l = TokenLedger::new();
    l.mint(TOKEN, A, 1_000);
    let grant = TransferAuthorization::grant(TOKEN, A, B, 250);
    l.transfer_authorized(grant);
    // the named transfer happened, once; the grant is consumed by move,
    // so no second presentation is possible
    assert_eq!(l.balance(TOKEN, A), 750);
    assert_eq!(l.balance(TOKEN, B), 250);
}
