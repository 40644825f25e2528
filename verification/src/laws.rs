use vstd::prelude::*;

use crate::error::AuctionError;
use crate::state::{AccountId, Auction, BidInfo, FundMovement};
use crate::validation::is_active;
use crate::{
    bid_leader_update, bid_next, bid_outcome, end_auction_next, end_auction_outcome, refund_next,
    refund_outcome,
};

verus! {

/// The auction state after a sequence of accepted bids, each applied by the
/// leader-update rule of `bid`, in order.
pub open spec fn run_bids(auction: Auction, bids: Seq<(AccountId, u64)>) -> Auction
    decreases bids.len(),
{
    if bids.len() == 0 {
        auction
    } else {
        bid_leader_update(run_bids(auction, bids.drop_last()), bids.last().0, bids.last().1)
    }
}

/// After any sequence of valid bids on a fresh auction, the recorded highest
/// bid is the maximum amount offered, and the leader is the bidder of the
/// earliest bid that reached that maximum: no bid exceeds the leader's
/// amount, and every earlier bid lies strictly below it. The returned index
/// names that earliest maximal bid.
pub proof fn lemma_highest_bid_is_first_maximum(
    auction: Auction,
    bids: Seq<(AccountId, u64)>,
) -> (i: int)
    requires
        auction.highest_bid is None,
        auction.highest_bidder is None,
        bids.len() > 0,
        forall|k: int| 0 <= k < bids.len() ==> (#[trigger] bids[k]).1 > 0,
    ensures
        0 <= i < bids.len(),
        run_bids(auction, bids).highest_bid == Some(bids[i].1),
        run_bids(auction, bids).highest_bidder == Some(bids[i].0),
        forall|j: int| 0 <= j < bids.len() ==> (#[trigger] bids[j]).1 <= bids[i].1,
        forall|j: int| 0 <= j < i ==> (#[trigger] bids[j]).1 < bids[i].1,
    decreases bids.len(),
{
    if bids.len() == 1 {
        0
    } else {
        let prefix = bids.drop_last();
        let i = lemma_highest_bid_is_first_maximum(auction, prefix);
        assert(forall|j: int| 0 <= j < prefix.len() ==> prefix[j] == bids[j]);
        if bids.last().1 > prefix[i].1 {
            bids.len() - 1
        } else {
            i
        }
    }
}

/// Bids only ever touch the leader fields, and only upwards: over any
/// sequence of accepted bids, the seller, the custody account, the closing
/// time and the settlement flag never change, well-formedness is preserved,
/// and the highest bid is monotonically non-decreasing.
pub proof fn lemma_bids_keep_frame_and_raise_leader(auction: Auction, bids: Seq<(AccountId, u64)>)
    requires
        auction.wf(),
    ensures
        run_bids(auction, bids).wf(),
        run_bids(auction, bids).seller == auction.seller,
        run_bids(auction, bids).custody_account == auction.custody_account,
        run_bids(auction, bids).closes_at == auction.closes_at,
        run_bids(auction, bids).settled == auction.settled,
        auction.highest_bid is Some ==> run_bids(auction, bids).highest_bid is Some
            && run_bids(auction, bids).highest_bid->0 >= auction.highest_bid->0,
    decreases bids.len(),
{
    if bids.len() > 0 {
        lemma_bids_keep_frame_and_raise_leader(auction, bids.drop_last());
    }
}

/// A late bid is rejected: after the closing time, `bid` fails with
/// `AuctionInactive`, changes no auction field, and authorizes no fund
/// movement.
pub proof fn lemma_late_bid_rejected(auction: Auction, bidder: AccountId, amount: u64, now: i64)
    requires
        !is_active(auction.closes_at, now),
    ensures
        bid_outcome(auction, bidder, amount, now) == Err::<
            (BidInfo, FundMovement),
            AuctionError,
        >(AuctionError::AuctionInactive),
        bid_next(auction, bidder, amount, now) == auction,
{
}

/// Settlement needs a closed auction: before the closing time,
/// `end_auction` fails with `AuctionActive` and changes nothing.
pub proof fn lemma_settle_requires_closed(auction: Auction, caller: AccountId, now: i64)
    requires
        is_active(auction.closes_at, now),
    ensures
        end_auction_outcome(auction, caller, now) == Err::<
            FundMovement,
            AuctionError,
        >(AuctionError::AuctionActive),
        end_auction_next(auction, caller, now) == auction,
{
}

/// Settlement is exactly-once: after one successful `end_auction`, every
/// further attempt fails — with `AuctionEnded` whenever it comes after the
/// closing time — so the winning amount moves from custody to the seller
/// exactly once over the auction's lifetime.
pub proof fn lemma_settle_exactly_once(
    auction: Auction,
    caller1: AccountId,
    now1: i64,
    caller2: AccountId,
    now2: i64,
)
    requires
        end_auction_outcome(auction, caller1, now1) is Ok,
    ensures
        end_auction_next(auction, caller1, now1).settled,
        end_auction_outcome(end_auction_next(auction, caller1, now1), caller2, now2) is Err,
        !is_active(auction.closes_at, now2) ==> end_auction_outcome(
            end_auction_next(auction, caller1, now1),
            caller2,
            now2,
        ) == Err::<FundMovement, AuctionError>(AuctionError::AuctionEnded),
{
}

/// A refund needs a settled auction: after closing but before the seller
/// has settled, `refund` fails with `AuctionNotEnded` and consumes nothing.
pub proof fn lemma_refund_requires_settlement(
    auction: Auction,
    record: BidInfo,
    caller: AccountId,
    now: i64,
)
    requires
        !is_active(auction.closes_at, now),
        !auction.settled,
    ensures
        refund_outcome(auction, record, caller, now) == Err::<
            FundMovement,
            AuctionError,
        >(AuctionError::AuctionNotEnded),
        refund_next(auction, record, caller, now) == record,
{
}

/// The winner never refunds: a caller recorded as the highest bidder is
/// turned away from `refund` on every record, at every time, with every
/// settlement state — their deposit is the seller's settlement, not theirs
/// to reclaim.
pub proof fn lemma_winner_cannot_refund(
    auction: Auction,
    record: BidInfo,
    caller: AccountId,
    now: i64,
)
    requires
        auction.highest_bidder == Some(caller),
    ensures
        refund_outcome(auction, record, caller, now) is Err,
        refund_next(auction, record, caller, now) == record,
{
}

/// A losing bidder is owed their refund: once the auction is closed and
/// settled, the owner of an unconsumed record who is not the recorded
/// winner receives exactly their recorded deposit back from custody.
pub proof fn lemma_loser_can_refund(auction: Auction, record: BidInfo, now: i64)
    requires
        !is_active(auction.closes_at, now),
        auction.settled,
        auction.highest_bidder != Some(record.bidder),
        !record.refunded,
    ensures
        refund_outcome(auction, record, record.bidder, now) == Ok::<FundMovement, AuctionError>(
            FundMovement {
                from: auction.custody_account,
                to: record.bidder,
                amount: record.amount,
            },
        ),
        refund_next(auction, record, record.bidder, now).refunded,
{
}

/// A refund is exactly-once: after one successful `refund`, a repeat of the
/// same call on the consumed record fails — with `AlreadyRefunded` whenever
/// it comes after the closing time — so each losing deposit leaves custody
/// at most once.
pub proof fn lemma_refund_exactly_once(
    auction: Auction,
    record: BidInfo,
    caller: AccountId,
    now1: i64,
    now2: i64,
)
    requires
        refund_outcome(auction, record, caller, now1) is Ok,
        !is_active(auction.closes_at, now2),
    ensures
        refund_outcome(auction, refund_next(auction, record, caller, now1), caller, now2) == Err::<
            FundMovement,
            AuctionError,
        >(AuctionError::AlreadyRefunded),
{
}

} // verus!
