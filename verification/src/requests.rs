//! Position requests and positions exchanged with the external lending pool.
//!
//! The pool accepts batches of typed requests and answers with the caller's
//! resulting position. The numeric request codes are a fixed contract with
//! the external pool and must match its numbering exactly.

use vstd::prelude::*;

verus! {

/// The request kinds this protocol sends to the lending pool.
#[derive(Clone, Copy, Debug, PartialEq, Eq, Structural)]
pub enum RequestType {
    /// Deposit funds into the pool.
    Supply,
    /// Withdraw previously supplied funds.
    Withdraw,
    /// Repay an open liability.
    Repay,
    /// Fill a user's liquidation auction, seizing collateral.
    FillUserLiquidationAuction,
}

impl RequestType {
    /// The numeric code the external pool assigns to this request kind.
    pub open spec fn code_spec(self) -> u32 {
        match self {
            RequestType::Supply => 0,
            RequestType::Withdraw => 1,
            RequestType::Repay => 5,
            RequestType::FillUserLiquidationAuction => 6,
        }
    }

    /// The wire code for this request kind, exactly as the pool numbers it.
    pub fn code(self) -> (c: u32)
        ensures
            c == self.code_spec(),
    {
        match self {
            RequestType::Supply => 0,
            RequestType::Withdraw => 1,
            RequestType::Repay => 5,
            RequestType::FillUserLiquidationAuction => 6,
        }
    }
}

/// One position request, as the external pool receives it.
#[derive(Clone, Copy, Debug, PartialEq, Eq, Structural)]
pub struct Request {
    /// The pool's numeric code for the request kind.
    pub request_type: u32,
    /// The asset the request concerns.
    pub address: u64,
    /// The amount the request moves.
    pub amount: i128,
}

impl Request {
    /// Builds a request, translating the kind into the pool's numbering.
    pub fn new(kind: RequestType, address: u64, amount: i128) -> (r: Request)
        ensures
            r.request_type == kind.code_spec(),
            r.address == address,
            r.amount == amount,
    {
        Request { request_type: kind.code(), address, amount }
    }
}

/// The position the pool reports back after a submission: collateral and
/// liabilities, indexed by the pool's internal asset ordering.
#[derive(Clone, Debug, PartialEq, Eq)]
pub struct Position {
    /// Collateral amounts held for the caller.
    pub collateral: Vec<i128>,
    /// Outstanding debts of the caller.
    pub liabilities: Vec<i128>,
}

/// The share of `amount` that a liquidation sized at `percent` fills.
pub open spec fn liquidate_share(amount: i128, percent: u32) -> int {
    amount * percent / 100
}

/// The batched liquidate-and-repay submission: fill the liquidation auction
/// with `percent` percent of `amount`, and repay the remainder, both against
/// `token`. Batching the two matters because the pool must see them in one
/// settlement; the split is a caller-chosen parameter, not a fixed ratio.
pub fn liquidation_requests(token: u64, amount: i128, percent: u32) -> (rs: Vec<Request>)
    requires
        0 <= amount,
        percent <= 100,
        amount * percent <= i128::MAX,
    ensures
        rs@.len() == 2,
        rs@[0].request_type == RequestType::FillUserLiquidationAuction.code_spec(),
        rs@[0].address == token,
        rs@[0].amount == liquidate_share(amount, percent),
        rs@[1].request_type == RequestType::Repay.code_spec(),
        rs@[1].address == token,
        rs@[1].amount == amount - liquidate_share(amount, percent),
        rs@[0].amount + rs@[1].amount == amount,
        0 <= rs@[0].amount <= amount,
        0 <= rs@[1].amount <= amount,
{
    proof {
        lemma_liquidate_share_bounds(amount, percent);
    }
    let liquidate_amount: i128 = amount * (percent as i128) / 100;
    let repay_amount: i128 = amount - liquidate_amount;
    let mut rs: Vec<Request> = Vec::new();
    rs.push(Request::new(RequestType::FillUserLiquidationAuction, token, liquidate_amount));
    rs.push(Request::new(RequestType::Repay, token, repay_amount));
    rs
}

/// A liquidation sized at no more than a hundred percent fills at most the
/// whole amount, and never a negative share.
pub proof fn lemma_liquidate_share_bounds(amount: i128, percent: u32)
    requires
        0 <= amount,
        percent <= 100,
    ensures
        0 <= liquidate_share(amount, percent) <= amount,
{
    assert(0 <= amount * percent <= amount * 100) by (nonlinear_arith)
        requires
            0 <= amount,
            0 <= percent <= 100,
    ;
    assert(amount * percent / 100 <= amount * 100 / 100) by (nonlinear_arith)
        requires
            amount * percent <= amount * 100,
    ;
    assert(amount * 100 / 100 == amount) by (nonlinear_arith);
}

} // verus!
