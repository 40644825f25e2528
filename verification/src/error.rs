use vstd::prelude::*;

verus! {

/// Every way an auction operation can refuse to act. Each precondition
/// violation is detected before any state mutation, so a caller that receives
/// one of these knows that nothing changed and no fund movement was
/// authorized.
#[derive(Clone, Copy, PartialEq, Eq, Structural, Debug)]
pub enum AuctionError {
    /// `initialize`: the requested closing time is not strictly in the future.
    InvalidDuration,
    /// The operation requires the inactive phase, but the closing time has
    /// not passed yet.
    AuctionActive,
    /// The operation requires the active phase, but the closing time has
    /// passed.
    AuctionInactive,
    /// `end_auction`: the highest bid was already claimed by the seller.
    AuctionEnded,
    /// `refund`: the seller has not settled the auction yet.
    AuctionNotEnded,
    /// The caller is not the authorized identity for the operation: not the
    /// seller on `end_auction`, or not the owner of the deposit record or the
    /// recorded winner on `refund`.
    CallerMismatch,
    /// `refund`: the deposit record was already consumed by an earlier
    /// refund.
    AlreadyRefunded,
    /// `end_auction`: no bid was ever placed, so there is nothing to claim.
    NoBids,
    /// The custody collaborator rejected an authorized fund movement. The
    /// core never produces this value itself; the host reports it when the
    /// transfer primitive fails, and then discards the operation's effects.
    TransferFailed,
}

} // verus!
