use vstd::prelude::*;

use crate::error::AuctionError;

verus! {

/// The auction phase: active while the current time has not passed the
/// closing time, inactive afterwards. The phase is never stored; every
/// operation evaluates it against the time the host reads from its clock.
pub open spec fn is_active(closes_at: i64, now: i64) -> bool {
    now <= closes_at
}

/// Succeeds exactly while the auction is still active; afterwards fails
/// with `AuctionInactive`.
pub fn validate_auction_active(closes_at: i64, now: i64) -> (r: Result<(), AuctionError>)
    ensures
        r is Ok <==> is_active(closes_at, now),
        r is Err ==> r->Err_0 == AuctionError::AuctionInactive,
{
    if now > closes_at {
        Err(AuctionError::AuctionInactive)
    } else {
        Ok(())
    }
}

/// Succeeds exactly once the auction has become inactive; before that fails
/// with `AuctionActive`.
pub fn validate_auction_inactive(closes_at: i64, now: i64) -> (r: Result<(), AuctionError>)
    ensures
        r is Ok <==> !is_active(closes_at, now),
        r is Err ==> r->Err_0 == AuctionError::AuctionActive,
{
    match validate_auction_active(closes_at, now) {
        Ok(()) => Err(AuctionError::AuctionActive),
        _ => Ok(()),
    }
}

} // verus!
