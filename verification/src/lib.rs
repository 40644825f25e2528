//! A single-item English auction with escrowed funds.
//!
//! A seller opens an auction with a fixed closing time; bidders deposit
//! funds that are escrowed in a custody account; after closing, the seller
//! claims the highest bid once, and every losing bidder reclaims their own
//! deposit once. This crate is the auction core alone: the lifecycle state
//! machine, the leader bookkeeping, and the rules that keep settlement and
//! refunds mutually exclusive and exactly-once. The hosting platform remains
//! responsible for persistence, identity resolution, the clock, and the
//! actual transfers: every operation takes the current time as an argument,
//! and each fund-moving operation returns the one [`state::FundMovement`]
//! it authorizes, for the host to execute atomically.

use vstd::prelude::*;

pub mod error;
pub mod laws;
pub mod state;
pub mod validation;

use crate::error::AuctionError;
use crate::state::{AccountId, Auction, BidInfo, FundMovement};
use crate::validation::{is_active, validate_auction_active, validate_auction_inactive};

verus! {

/// What `initialize` returns: a fresh, unsettled auction with no bids,
/// provided the requested closing time still lies strictly in the future.
pub open spec fn initialize_outcome(
    seller: AccountId,
    custody_account: AccountId,
    closes_at: i64,
    now: i64,
) -> Result<Auction, AuctionError> {
    if closes_at > now {
        Ok(
            Auction {
                seller,
                custody_account,
                closes_at,
                highest_bid: None,
                highest_bidder: None,
                settled: false,
            },
        )
    } else {
        Err(AuctionError::InvalidDuration)
    }
}

/// Creates a new auction for `seller`, escrowing deposits in
/// `custody_account`, with bidding open through `closes_at`. Fails with
/// `InvalidDuration` unless the closing time is strictly in the future; the
/// host persists the returned record.
pub fn initialize(
    seller: AccountId,
    custody_account: AccountId,
    closes_at: i64,
    now: i64,
) -> (r: Result<Auction, AuctionError>)
    ensures
        r == initialize_outcome(seller, custody_account, closes_at, now),
        r is Ok <==> closes_at > now,
        r is Ok ==> r->Ok_0.wf(),
{
    if closes_at > now {
        Ok(
            Auction {
                seller,
                custody_account,
                closes_at,
                highest_bid: None,
                highest_bidder: None,
                settled: false,
            },
        )
    } else {
        Err(AuctionError::InvalidDuration)
    }
}

/// How one accepted bid updates the leader fields: a bid strictly greater
/// than the current highest (or the first bid of all) becomes the new
/// leader; an equal or lower bid leaves the leader unchanged, so on ties
/// the earliest bidder keeps the lead.
pub open spec fn bid_leader_update(auction: Auction, bidder: AccountId, amount: u64) -> Auction {
    if auction.highest_bid is None || amount > auction.highest_bid->0 {
        Auction { highest_bid: Some(amount), highest_bidder: Some(bidder), ..auction }
    } else {
        auction
    }
}

/// What `bid` returns: while the auction is active, the bidder's new
/// deposit record together with the movement of the deposit into custody;
/// after the closing time, `AuctionInactive`.
pub open spec fn bid_outcome(
    auction: Auction,
    bidder: AccountId,
    amount: u64,
    now: i64,
) -> Result<(BidInfo, FundMovement), AuctionError> {
    if is_active(auction.closes_at, now) {
        Ok(
            (
                BidInfo { bidder, amount, refunded: false },
                FundMovement { from: bidder, to: auction.custody_account, amount },
            ),
        )
    } else {
        Err(AuctionError::AuctionInactive)
    }
}

/// The auction state after a `bid` call: the leader update while active,
/// unchanged otherwise.
pub open spec fn bid_next(auction: Auction, bidder: AccountId, amount: u64, now: i64) -> Auction {
    if is_active(auction.closes_at, now) {
        bid_leader_update(auction, bidder, amount)
    } else {
        auction
    }
}

/// Places a bid of `amount` by `bidder`. While the auction is active this
/// creates a new deposit record, authorizes the movement of `amount` from
/// the bidder into custody, and makes the bidder the leader exactly when
/// the amount strictly exceeds the current highest bid; an equal bid never
/// displaces the current leader. After `closes_at` it fails with
/// `AuctionInactive` and changes nothing. The highest bid never decreases.
pub fn bid(
    auction: &mut Auction,
    bidder: AccountId,
    amount: u64,
    now: i64,
) -> (r: Result<(BidInfo, FundMovement), AuctionError>)
    requires
        old(auction).wf(),
        amount > 0,
    ensures
        final(auction).wf(),
        r == bid_outcome(*old(auction), bidder, amount, now),
        *final(auction) == bid_next(*old(auction), bidder, amount, now),
        r is Err ==> *final(auction) == *old(auction),
        old(auction).highest_bid is Some ==> final(auction).highest_bid is Some
            && final(auction).highest_bid->0 >= old(auction).highest_bid->0,
{
    validate_auction_active(auction.closes_at, now)?;
    let record = BidInfo { bidder, amount, refunded: false };
    let movement = FundMovement { from: bidder, to: auction.custody_account, amount };
    let leads = match auction.highest_bid {
        None => true,
        Some(h) => amount > h,
    };
    if leads {
        auction.highest_bid = Some(amount);
        auction.highest_bidder = Some(bidder);
    }
    Ok((record, movement))
}

/// What `end_auction` returns: with the auction closed, still unsettled,
/// called by the seller, and at least one bid placed, the movement of the
/// highest bid from custody to the seller; otherwise the first failing
/// check, in this order: `AuctionActive`, `AuctionEnded`, `CallerMismatch`,
/// `NoBids`.
pub open spec fn end_auction_outcome(
    auction: Auction,
    caller: AccountId,
    now: i64,
) -> Result<FundMovement, AuctionError> {
    if is_active(auction.closes_at, now) {
        Err(AuctionError::AuctionActive)
    } else if auction.settled {
        Err(AuctionError::AuctionEnded)
    } else if caller != auction.seller {
        Err(AuctionError::CallerMismatch)
    } else if auction.highest_bid is None {
        Err(AuctionError::NoBids)
    } else {
        Ok(
            FundMovement {
                from: auction.custody_account,
                to: auction.seller,
                amount: auction.highest_bid->0,
            },
        )
    }
}

/// The auction state after an `end_auction` call: settled on success,
/// unchanged on failure.
pub open spec fn end_auction_next(auction: Auction, caller: AccountId, now: i64) -> Auction {
    if end_auction_outcome(auction, caller, now) is Ok {
        Auction { settled: true, ..auction }
    } else {
        auction
    }
}

/// Settlement: after the auction closes, the seller claims the highest bid
/// once. On success the auction is marked settled and the movement of the
/// winning amount from custody to the seller is authorized; every failure
/// (`AuctionActive` before closing, `AuctionEnded` on a second attempt,
/// `CallerMismatch` for anyone but the seller, `NoBids` with no bid placed)
/// leaves the auction unchanged and moves nothing.
pub fn end_auction(auction: &mut Auction, caller: AccountId, now: i64) -> (r: Result<
    FundMovement,
    AuctionError,
>)
    requires
        old(auction).wf(),
    ensures
        final(auction).wf(),
        r == end_auction_outcome(*old(auction), caller, now),
        *final(auction) == end_auction_next(*old(auction), caller, now),
        r is Ok ==> final(auction).settled,
        r is Err ==> *final(auction) == *old(auction),
{
    validate_auction_inactive(auction.closes_at, now)?;
    if auction.settled {
        return Err(AuctionError::AuctionEnded);
    }
    if caller != auction.seller {
        return Err(AuctionError::CallerMismatch);
    }
    let winning_amount = match auction.highest_bid {
        None => {
            return Err(AuctionError::NoBids);
        },
        Some(h) => h,
    };
    auction.settled = true;
    Ok(
        FundMovement {
            from: auction.custody_account,
            to: auction.seller,
            amount: winning_amount,
        },
    )
}

/// What `refund` returns: with the auction closed and settled, called by
/// the owner of the record, who is not the recorded winner, on a record not
/// yet consumed, the movement of the recorded deposit from custody back to
/// the caller; otherwise the first failing check, in this order:
/// `AuctionActive`, `AuctionNotEnded`, `CallerMismatch`, `AlreadyRefunded`.
pub open spec fn refund_outcome(
    auction: Auction,
    record: BidInfo,
    caller: AccountId,
    now: i64,
) -> Result<FundMovement, AuctionError> {
    if is_active(auction.closes_at, now) {
        Err(AuctionError::AuctionActive)
    } else if !auction.settled {
        Err(AuctionError::AuctionNotEnded)
    } else if caller != record.bidder || auction.highest_bidder == Some(caller) {
        Err(AuctionError::CallerMismatch)
    } else if record.refunded {
        Err(AuctionError::AlreadyRefunded)
    } else {
        Ok(FundMovement { from: auction.custody_account, to: caller, amount: record.amount })
    }
}

/// The deposit record after a `refund` call: consumed on success, unchanged
/// on failure.
pub open spec fn refund_next(
    auction: Auction,
    record: BidInfo,
    caller: AccountId,
    now: i64,
) -> BidInfo {
    if refund_outcome(auction, record, caller, now) is Ok {
        BidInfo { refunded: true, ..record }
    } else {
        record
    }
}

/// Refund: after settlement, a losing bidder reclaims their own deposit
/// once. On success the record is marked consumed and the movement of its
/// amount from custody back to the caller is authorized. It fails with
/// `AuctionActive` before closing, `AuctionNotEnded` before settlement,
/// `CallerMismatch` when the caller does not own the record or is the
/// recorded winner (the winner's deposit was claimed by the seller), and
/// `AlreadyRefunded` on a consumed record; every failure leaves the record
/// unchanged and moves nothing. The auction itself is only read.
pub fn refund(auction: &Auction, record: &mut BidInfo, caller: AccountId, now: i64) -> (r: Result<
    FundMovement,
    AuctionError,
>)
    requires
        auction.wf(),
    ensures
        r == refund_outcome(*auction, *old(record), caller, now),
        *final(record) == refund_next(*auction, *old(record), caller, now),
        r is Err ==> *final(record) == *old(record),
{
    validate_auction_inactive(auction.closes_at, now)?;
    if !auction.settled {
        return Err(AuctionError::AuctionNotEnded);
    }
    let is_winner = match auction.highest_bidder {
        Some(w) => w == caller,
        None => false,
    };
    if caller != record.bidder || is_winner {
        return Err(AuctionError::CallerMismatch);
    }
    if record.refunded {
        return Err(AuctionError::AlreadyRefunded);
    }
    record.refunded = true;
    Ok(FundMovement { from: auction.custody_account, to: caller, amount: record.amount })
}

} // verus!
