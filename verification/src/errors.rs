use vstd::prelude::*;

verus! {

/// Every way an operation of the auction engine can be refused.
///
/// Each precondition violation aborts the whole operation with no state
/// change; the caller may resubmit with corrected inputs.
#[derive(Clone, Copy, Debug, PartialEq, Eq, Structural)]
pub enum AuctionErrors {
    /// A non-admin caller attempted an admin-gated action.
    Unauthorized,
    /// A whitelist entry or auction record with the same key already exists.
    AlreadyExists,
    /// A configuration was requested whose maximum duration does not exceed
    /// its minimum duration.
    InvalidMinMaxDuration,
    /// The requested auction duration is below the configured minimum.
    DurationTooShort,
    /// The requested auction duration is above the configured maximum.
    DurationTooLong,
    /// The asset is already frozen, so it cannot be listed.
    FrozenAsset,
    /// A pre-existing freeze delegation is controlled by someone other than
    /// the owner; it must be revoked before listing.
    FreezeDelegateNotOwner,
    /// A pre-existing transfer delegation is controlled by someone other
    /// than the owner; it must be revoked before listing.
    TransferDelegateNotOwner,
    /// The listing owner (as bidder or as paying party) may never bid on
    /// their own auction.
    OwnerBid,
    /// The bid is not strictly greater than the current high bid.
    InvalidBid,
    /// The bid arrived after the auction's time window closed.
    AuctionEnded,
    /// Cancellation was attempted after a real bid had been accepted.
    AuctionStarted,
    /// Completion was attempted before any bid was placed.
    AuctionNotStarted,
    /// Completion was attempted before the time window elapsed.
    AuctionRunning,
}

} // verus!
