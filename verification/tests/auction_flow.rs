use auction::error::AuctionError;
use auction::state::{AccountId, Auction, BidInfo, FundMovement};
use auction::{bid, end_auction, initialize, refund};

fn acct(id: u64) -> AccountId {
    AccountId { id }
}

fn open_at(seller: AccountId, custody: AccountId, closes_at: i64, now: i64) -> Auction {
    initialize(seller, custody, closes_at, now).unwrap()
}

#[test]
fn scenario_full_auction() {
    // Open at T = 0, closing at T + 100, seller S, custody C.
    let s = acct(1);
    let c = acct(2);
    let b1 = acct(3);
    let b2 = acct(4);
    let mut a = open_at(s, c, 100, 0);
    assert_eq!(a.highest_bid, None);
    assert_eq!(a.highest_bidder, None);
    assert!(!a.settled);

    // B1 bids 10 at T + 10.
    let (mut rec1, mv1) = bid(&mut a, b1, 10, 10).unwrap();
    assert_eq!(a.highest_bid, Some(10));
    assert_eq!(a.highest_bidder, Some(b1));
    assert_eq!(mv1, FundMovement { from: b1, to: c, amount: 10 });

    // B2 bids 15 at T + 20.
    let (mut rec2, mv2) = bid(&mut a, b2, 15, 20).unwrap();
    assert_eq!(a.highest_bid, Some(15));
    assert_eq!(a.highest_bidder, Some(b2));
    assert_eq!(mv2, FundMovement { from: b2, to: c, amount: 15 });

    // At T + 101, settlement by S succeeds and moves 15 from C to S.
    let payout = end_auction(&mut a, s, 101).unwrap();
    assert_eq!(payout, FundMovement { from: c, to: s, amount: 15 });
    assert!(a.settled);

    // Refund by B1 succeeds and moves 10 from C back to B1.
    let back = refund(&a, &mut rec1, b1, 101).unwrap();
    assert_eq!(back, FundMovement { from: c, to: b1, amount: 10 });
    assert!(rec1.refunded);

    // Refund by B2 fails: B2 is the winner.
    let denied = refund(&a, &mut rec2, b2, 101);
    assert!(matches!(denied, Err(AuctionError::CallerMismatch)));
    assert!(!rec2.refunded);
}

#[test]
fn scenario_equal_rebid_keeps_leader_and_stacks_deposits() {
    let s = acct(1);
    let c = acct(2);
    let b1 = acct(3);
    let mut a = open_at(s, c, 100, 0);

    // A bidder bids 10, then bids 10 again: the leader stays as after the
    // first bid, and the second bid creates an independent deposit record
    // rather than being rejected.
    let (rec1, mv1) = bid(&mut a, b1, 10, 5).unwrap();
    let (rec2, mv2) = bid(&mut a, b1, 10, 6).unwrap();
    assert_eq!(a.highest_bid, Some(10));
    assert_eq!(a.highest_bidder, Some(b1));
    assert_eq!(rec1, BidInfo { bidder: b1, amount: 10, refunded: false });
    assert_eq!(rec2, rec1);
    assert_eq!(mv1, FundMovement { from: b1, to: c, amount: 10 });
    assert_eq!(mv2, mv1);
}

#[test]
fn scenario_open_with_closing_time_now_is_rejected() {
    let r = initialize(acct(1), acct(2), 50, 50);
    assert!(matches!(r, Err(AuctionError::InvalidDuration)));
    let r = initialize(acct(1), acct(2), 49, 50);
    assert!(matches!(r, Err(AuctionError::InvalidDuration)));
    assert!(initialize(acct(1), acct(2), 51, 50).is_ok());
}

#[test]
fn equal_bid_from_rival_never_displaces_leader() {
    let s = acct(1);
    let c = acct(2);
    let b1 = acct(3);
    let b2 = acct(4);
    let mut a = open_at(s, c, 100, 0);
    bid(&mut a, b1, 10, 5).unwrap();
    bid(&mut a, b2, 10, 6).unwrap();
    assert_eq!(a.highest_bidder, Some(b1));
    assert_eq!(a.highest_bid, Some(10));
}

#[test]
fn highest_bid_is_maximum_of_sequence() {
    let s = acct(1);
    let c = acct(2);
    let mut a = open_at(s, c, 100, 0);
    let amounts: [u64; 6] = [5, 3, 7, 2, 7, 6];
    for (k, amount) in amounts.iter().enumerate() {
        bid(&mut a, acct(10 + k as u64), *amount, k as i64).unwrap();
    }
    // The maximum is 7, first offered by the third bidder; the later equal
    // bid of 7 did not displace it.
    assert_eq!(a.highest_bid, Some(7));
    assert_eq!(a.highest_bidder, Some(acct(12)));
}

#[test]
fn late_bid_fails_and_changes_nothing() {
    let s = acct(1);
    let c = acct(2);
    let b1 = acct(3);
    let b2 = acct(4);
    let mut a = open_at(s, c, 100, 0);
    bid(&mut a, b1, 10, 10).unwrap();
    let before = a;
    let r = bid(&mut a, b2, 99, 101);
    assert!(matches!(r, Err(AuctionError::AuctionInactive)));
    assert_eq!(a, before);
    // The boundary itself is still active: a bid exactly at the closing
    // time is accepted.
    assert!(bid(&mut a, b2, 99, 100).is_ok());
    assert_eq!(a.highest_bidder, Some(b2));
}

#[test]
fn settle_before_closing_fails_with_auction_active() {
    let s = acct(1);
    let c = acct(2);
    let mut a = open_at(s, c, 100, 0);
    bid(&mut a, acct(3), 10, 10).unwrap();
    let before = a;
    let r = end_auction(&mut a, s, 100);
    assert!(matches!(r, Err(AuctionError::AuctionActive)));
    assert_eq!(a, before);
}

#[test]
fn settle_twice_fails_and_pays_once() {
    let s = acct(1);
    let c = acct(2);
    let mut a = open_at(s, c, 100, 0);
    bid(&mut a, acct(3), 10, 10).unwrap();
    let first = end_auction(&mut a, s, 101);
    assert_eq!(first.unwrap(), FundMovement { from: c, to: s, amount: 10 });
    let before = a;
    let second = end_auction(&mut a, s, 102);
    assert!(matches!(second, Err(AuctionError::AuctionEnded)));
    assert_eq!(a, before);
}

#[test]
fn settle_by_stranger_fails_with_caller_mismatch() {
    let s = acct(1);
    let c = acct(2);
    let mut a = open_at(s, c, 100, 0);
    bid(&mut a, acct(3), 10, 10).unwrap();
    let r = end_auction(&mut a, acct(9), 101);
    assert!(matches!(r, Err(AuctionError::CallerMismatch)));
    assert!(!a.settled);
}

#[test]
fn settle_without_bids_fails_with_no_bids() {
    let s = acct(1);
    let c = acct(2);
    let mut a = open_at(s, c, 100, 0);
    let r = end_auction(&mut a, s, 101);
    assert!(matches!(r, Err(AuctionError::NoBids)));
    assert!(!a.settled);
}

#[test]
fn refund_before_settlement_fails_with_auction_not_ended() {
    let s = acct(1);
    let c = acct(2);
    let b1 = acct(3);
    let b2 = acct(4);
    let mut a = open_at(s, c, 100, 0);
    let (mut rec1, _) = bid(&mut a, b1, 10, 10).unwrap();
    bid(&mut a, b2, 15, 20).unwrap();
    let r = refund(&a, &mut rec1, b1, 101);
    assert!(matches!(r, Err(AuctionError::AuctionNotEnded)));
    assert!(!rec1.refunded);
}

#[test]
fn refund_while_active_fails_with_auction_active() {
    let s = acct(1);
    let c = acct(2);
    let b1 = acct(3);
    let mut a = open_at(s, c, 100, 0);
    let (mut rec1, _) = bid(&mut a, b1, 10, 10).unwrap();
    let r = refund(&a, &mut rec1, b1, 50);
    assert!(matches!(r, Err(AuctionError::AuctionActive)));
    assert!(!rec1.refunded);
}

#[test]
fn refund_twice_fails_with_already_refunded() {
    let s = acct(1);
    let c = acct(2);
    let b1 = acct(3);
    let b2 = acct(4);
    let mut a = open_at(s, c, 100, 0);
    let (mut rec1, _) = bid(&mut a, b1, 10, 10).unwrap();
    bid(&mut a, b2, 15, 20).unwrap();
    end_auction(&mut a, s, 101).unwrap();
    refund(&a, &mut rec1, b1, 102).unwrap();
    let again = refund(&a, &mut rec1, b1, 103);
    assert!(matches!(again, Err(AuctionError::AlreadyRefunded)));
    assert!(rec1.refunded);
}

#[test]
fn refund_of_someone_elses_record_fails_with_caller_mismatch() {
    let s = acct(1);
    let c = acct(2);
    let b1 = acct(3);
    let b2 = acct(4);
    let thief = acct(9);
    let mut a = open_at(s, c, 100, 0);
    let (mut rec1, _) = bid(&mut a, b1, 10, 10).unwrap();
    bid(&mut a, b2, 15, 20).unwrap();
    end_auction(&mut a, s, 101).unwrap();
    let r = refund(&a, &mut rec1, thief, 102);
    assert!(matches!(r, Err(AuctionError::CallerMismatch)));
    assert!(!rec1.refunded);
}

#[test]
fn winner_cannot_refund_any_of_their_records() {
    let s = acct(1);
    let c = acct(2);
    let b1 = acct(3);
    let b2 = acct(4);
    let mut a = open_at(s, c, 100, 0);
    // The eventual winner also placed an earlier, lower bid; even that
    // record stays locked for them.
    let (mut low, _) = bid(&mut a, b2, 5, 5).unwrap();
    bid(&mut a, b1, 10, 10).unwrap();
    bid(&mut a, b2, 15, 20).unwrap();
    end_auction(&mut a, s, 101).unwrap();
    let r = refund(&a, &mut low, b2, 102);
    assert!(matches!(r, Err(AuctionError::CallerMismatch)));
    assert!(!low.refunded);
}
