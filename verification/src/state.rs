use vstd::prelude::*;

verus! {

/// Identity of an account on the hosting platform (a seller, a bidder, or
/// the custody account). The core only compares identities for equality; the
/// host resolves and authenticates the real platform keys and hands each one
/// in as a distinct numeric id.
#[derive(Clone, Copy, PartialEq, Eq, Structural, Debug)]
pub struct AccountId {
    pub id: u64,
}

/// One fund movement that an operation authorizes the custody collaborator
/// to perform: `amount` moves from `from` to `to`, atomically and
/// all-or-nothing. The core hands these out; the host executes them.
#[derive(Clone, Copy, PartialEq, Eq, Structural, Debug)]
pub struct FundMovement {
    pub from: AccountId,
    pub to: AccountId,
    pub amount: u64,
}

/// The persistent record of one auction: who sells, where deposits are
/// escrowed, when bidding closes, who currently leads, and whether the
/// seller has claimed the winning bid. `seller`, `custody_account` and
/// `closes_at` are fixed at creation; only the leader fields and `settled`
/// ever change.
#[derive(Clone, Copy, PartialEq, Eq, Structural, Debug)]
pub struct Auction {
    pub seller: AccountId,
    pub custody_account: AccountId,
    pub closes_at: i64,
    pub highest_bid: Option<u64>,
    pub highest_bidder: Option<AccountId>,
    pub settled: bool,
}

impl Auction {
    /// Well-formedness of an auction record: the two leader fields mirror
    /// each other, and a settled auction has a recorded winning bid (an
    /// auction with no bids can never settle). Established by `initialize`
    /// and preserved by every operation.
    pub open spec fn wf(self) -> bool {
        &&& (self.highest_bid is Some <==> self.highest_bidder is Some)
        &&& (self.settled ==> self.highest_bid is Some)
    }
}

/// One bidder's deposit record: created by `bid` with the deposited amount,
/// never amended, and consumed exactly once by a successful `refund`. A
/// bidder who bids again creates a new, independent record.
#[derive(Clone, Copy, PartialEq, Eq, Structural, Debug)]
pub struct BidInfo {
    pub bidder: AccountId,
    pub amount: u64,
    pub refunded: bool,
}

} // verus!
