//! Tests of the position-request codes and the liquidation split.

use peg_treasury::requests::{liquidation_requests, Request, RequestType};

#[test]
fn request_codes_match_the_pool() {
    // the numeric codes are a fixed contract with the external pool
    assert_eq!(RequestType::Supply.code(), 0);
    assert_eq!(RequestType::Withdraw.code(), 1);
    assert_eq!(RequestType::Repay.code(), 5);
    assert_eq!(RequestType::FillUserLiquidationAuction.code(), 6);
}

#[test]
fn request_new_translates_kind() {
    let r = Request::new(RequestType::Withdraw, 10, 250);
    assert_eq!(r.request_type, 1);
    assert_eq!(r.address, 10);
    assert_eq!(r.amount, 250);
}

#[test]
fn liquidation_split_twenty_eighty() {
    let rs = liquidation_requests(10, 1_000, 20);
    assert_eq!(rs.len(), 2);
    assert_eq!(rs[0].request_type, 6);
    assert_eq!(rs[0].amount, 200);
    assert_eq!(rs[1].request_type, 5);
    assert_eq!(rs[1].amount, 800);
}

#[test]
fn liquidation_split_rounds_down_and_still_sums() {
    // 33 percent of 100 truncates to 33; the repay leg takes the rest
    let rs = liquidation_requests(10, 100, 33);
    assert_eq!(rs[0].amount, 33);
    assert_eq!(rs[1].amount, 67);
}

#[test]
fn liquidation_split_edges() {
    let all = liquidation_requests(10, 100, 100);
    assert_eq!(all[0].amount, 100);
    assert_eq!(all[1].amount, 0);
    let none = liquidation_requests(10, 100, 0);
    assert_eq!(none[0].amount, 0);
    assert_eq!(none[1].amount, 100);
    let empty = liquidation_requests(10, 0, 50);
    assert_eq!(empty[0].amount, 0);
    assert_eq!(empty[1].amount, 0);
}
