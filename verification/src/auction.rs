use vstd::prelude::*;

use crate::errors::AuctionErrors;

verus! {

/// The bidding state of a listed asset: either no real bid has arrived
/// yet, or the named buyer's escrowed amount is the current high bid.
#[derive(Clone, Copy, Debug, PartialEq, Eq, Structural)]
pub enum BidState {
    NoBid,
    HasBid { buyer: u64, lamports: u64 },
}

/// One listed asset's auction: a record per `(collection, asset)` pair,
/// holding the bidding state and the time window.
///
/// The window opens at the first accepted bid (`first_bid_timestamp`,
/// seconds; zero while no bid exists) and closes `duration_minutes` later.
#[derive(Clone, Copy, Debug, PartialEq, Eq, Structural)]
pub struct AssetAuction {
    /// The record's own derived address, under which it signs escrow
    /// refunds and holds the asset's delegations.
    pub address: u64,
    /// The whitelisted collection the asset belongs to.
    pub collection: u64,
    /// The listed asset.
    pub core_asset: u64,
    /// The seller: the asset's owner at listing time.
    pub owner: u64,
    /// Length of the bidding window, in minutes, counted from the first
    /// accepted bid.
    pub duration_minutes: u32,
    /// The listing's advertised minimum bid, recorded for bidders; the
    /// engine only demands that each bid beat the current one.
    pub min_bid_lamports: u64,
    /// The current high bid, if any.
    pub bid_state: BidState,
    /// When the first bid arrived, in seconds; zero while none has.
    pub first_bid_timestamp: u64,
}

impl AssetAuction {
    /// The escrowed amount attributable to this record: the high bid, or
    /// zero before any bid.
    pub open spec fn spec_current_bid(self) -> u64 {
        match self.bid_state {
            BidState::NoBid => 0,
            BidState::HasBid { lamports, .. } => lamports,
        }
    }

    /// The account an accepted refund would go to: the high bidder, or the
    /// owner as placeholder before any bid.
    pub open spec fn spec_current_buyer(self) -> u64 {
        match self.bid_state {
            BidState::NoBid => self.owner,
            BidState::HasBid { buyer, .. } => buyer,
        }
    }

    /// A real bid exists, so the clock is running and cancellation is
    /// forever impossible.
    pub open spec fn spec_started(self) -> bool {
        self.first_bid_timestamp != 0
    }

    /// Whole minutes elapsed since the first bid.
    pub open spec fn spec_elapsed_minutes(self, now: u64) -> int {
        (now - self.first_bid_timestamp) / 60
    }

    /// The record invariant: the clock runs exactly when a bid exists, the
    /// owner never appears as buyer, and a real bid is positive.
    pub open spec fn wf(self) -> bool {
        &&& (self.bid_state is NoBid <==> self.first_bid_timestamp == 0)
        &&& (self.bid_state matches BidState::HasBid { buyer, lamports }
            ==> buyer != self.owner && lamports > 0)
    }

    pub fn current_bid(&self) -> (r: u64)
        ensures
            r == self.spec_current_bid(),
    {
        match self.bid_state {
            BidState::NoBid => 0,
            BidState::HasBid { lamports, .. } => lamports,
        }
    }

    pub fn current_buyer(&self) -> (r: u64)
        ensures
            r == self.spec_current_buyer(),
    {
        match self.bid_state {
            BidState::NoBid => self.owner,
            BidState::HasBid { buyer, .. } => buyer,
        }
    }
}

/// Why a bid of `lamports` by `buyer`, paid for by `payer`, would be
/// refused against this record at time `now` — or `None` when it must be
/// accepted. The checks apply in the engine's order: the owner may not bid
/// or pay, ties and lower bids are refused at any time, and a bid after
/// the window closes is too late.
pub open spec fn bid_check(
    record: AssetAuction,
    buyer: u64,
    payer: u64,
    lamports: u64,
    now: u64,
) -> Option<AuctionErrors> {
    if buyer == record.owner {
        Some(AuctionErrors::OwnerBid)
    } else if payer == record.owner {
        Some(AuctionErrors::OwnerBid)
    } else if lamports <= record.spec_current_bid() {
        Some(AuctionErrors::InvalidBid)
    } else if record.spec_started()
        && record.spec_elapsed_minutes(now) >= record.duration_minutes {
        Some(AuctionErrors::AuctionEnded)
    } else {
        None
    }
}

/// Why cancellation would be refused: it is allowed exactly while no real
/// bid exists.
pub open spec fn cancel_check(record: AssetAuction) -> Option<AuctionErrors> {
    if record.bid_state is HasBid {
        Some(AuctionErrors::AuctionStarted)
    } else {
        None
    }
}

/// Why completion would be refused at time `now`: never before a first
/// bid, never while the window is still open.
pub open spec fn complete_check(record: AssetAuction, now: u64) -> Option<AuctionErrors> {
    if !record.spec_started() {
        Some(AuctionErrors::AuctionNotStarted)
    } else if record.spec_elapsed_minutes(now) < record.duration_minutes {
        Some(AuctionErrors::AuctionRunning)
    } else {
        None
    }
}

/// Why a listing with this duration would be refused against the allowed
/// range `[min_duration, max_duration]`; both boundaries are allowed.
pub open spec fn duration_check(
    duration_minutes: u32,
    min_duration: u32,
    max_duration: u32,
) -> Option<AuctionErrors> {
    if duration_minutes < min_duration {
        Some(AuctionErrors::DurationTooShort)
    } else if duration_minutes > max_duration {
        Some(AuctionErrors::DurationTooLong)
    } else {
        None
    }
}

/// What an accepted bid turns the record into: the new buyer's amount
/// becomes the high bid, and the window opens at `now` if this was the
/// record's first bid.
pub open spec fn spec_bid_updated_record(
    record: AssetAuction,
    buyer: u64,
    lamports: u64,
    now: u64,
) -> AssetAuction {
    AssetAuction {
        bid_state: BidState::HasBid { buyer, lamports },
        first_bid_timestamp: if record.bid_state is NoBid {
            now
        } else {
            record.first_bid_timestamp
        },
        ..record
    }
}

/// The owner can never outbid: a bid naming the owner as buyer is refused
/// with `OwnerBid` at every auction stage, whatever the amount or time.
pub proof fn lemma_owner_cannot_bid(
    record: AssetAuction,
    buyer: u64,
    payer: u64,
    lamports: u64,
    now: u64,
)
    requires
        buyer == record.owner || payer == record.owner,
    ensures
        bid_check(record, buyer, payer, lamports, now) == Some(AuctionErrors::OwnerBid),
{
}

/// No tie bids: any bid not strictly above the current one is refused with
/// `InvalidBid`, at every auction stage, equal amounts included.
pub proof fn lemma_bid_must_exceed_current(
    record: AssetAuction,
    buyer: u64,
    payer: u64,
    lamports: u64,
    now: u64,
)
    requires
        buyer != record.owner,
        payer != record.owner,
        lamports <= record.spec_current_bid(),
    ensures
        bid_check(record, buyer, payer, lamports, now) == Some(AuctionErrors::InvalidBid),
{
}

/// Durations below the minimum are refused as too short, above the maximum
/// as too long, and the whole closed range — both boundary values
/// included — is accepted.
pub proof fn lemma_duration_bounds(duration_minutes: u32, min_duration: u32, max_duration: u32)
    ensures
        duration_minutes < min_duration
            ==> duration_check(duration_minutes, min_duration, max_duration)
                == Some(AuctionErrors::DurationTooShort),
        duration_minutes > max_duration && duration_minutes >= min_duration
            ==> duration_check(duration_minutes, min_duration, max_duration)
                == Some(AuctionErrors::DurationTooLong),
        min_duration <= duration_minutes <= max_duration
            ==> duration_check(duration_minutes, min_duration, max_duration) is None,
{
}

/// Completion is refused with `AuctionNotStarted` while no bid was ever
/// placed, with `AuctionRunning` strictly inside the window, and allowed
/// from the moment the elapsed minutes reach the duration — in particular
/// exactly at `elapsed_minutes == duration_minutes`.
pub proof fn lemma_complete_timing(record: AssetAuction, now: u64)
    requires
        now >= record.first_bid_timestamp,
    ensures
        !record.spec_started()
            ==> complete_check(record, now) == Some(AuctionErrors::AuctionNotStarted),
        record.spec_started() && record.spec_elapsed_minutes(now) < record.duration_minutes
            ==> complete_check(record, now) == Some(AuctionErrors::AuctionRunning),
        record.spec_started() && record.spec_elapsed_minutes(now) >= record.duration_minutes
            ==> complete_check(record, now) is None,
        record.spec_started()
            && now - record.first_bid_timestamp == 60 * (record.duration_minutes as int)
            ==> complete_check(record, now) is None,
{
    if record.spec_started()
        && now - record.first_bid_timestamp == 60 * (record.duration_minutes as int) {
        assert((60 * (record.duration_minutes as int)) / 60 == record.duration_minutes as int)
            by (nonlinear_arith);
    }
}

/// Cancellation succeeds exactly while the owner still stands as the
/// placeholder buyer; from the first accepted bid on, the record leaves
/// the no-bid state for good and cancellation is refused with
/// `AuctionStarted`.
pub proof fn lemma_cancel_only_before_first_bid(record: AssetAuction)
    requires
        record.wf(),
    ensures
        cancel_check(record) is None <==> record.spec_current_buyer() == record.owner,
        cancel_check(record) is None <==> record.bid_state is NoBid,
        record.bid_state is HasBid
            ==> cancel_check(record) == Some(AuctionErrors::AuctionStarted),
{
}

/// The no-bid sentinel reads the same both ways: a well-formed record has
/// a zero current bid exactly when the owner still stands as the
/// placeholder buyer.
pub proof fn lemma_no_bid_sentinel(record: AssetAuction)
    requires
        record.wf(),
    ensures
        record.spec_current_bid() == 0 <==> record.spec_current_buyer() == record.owner,
        record.spec_current_bid() == 0 <==> record.bid_state is NoBid,
{
}

/// Once the window has opened, no accepted bid moves it: the first bid's
/// timestamp is set once and never changes for the record's lifetime.
pub proof fn lemma_first_bid_timestamp_permanent(
    record: AssetAuction,
    buyer: u64,
    lamports: u64,
    now: u64,
)
    requires
        record.wf(),
        record.spec_started(),
    ensures
        spec_bid_updated_record(record, buyer, lamports, now).first_bid_timestamp
            == record.first_bid_timestamp,
{
}

/// The high bid only climbs: every accepted bid leaves the record with a
/// strictly greater current bid than before.
pub proof fn lemma_current_bid_strictly_increases(
    record: AssetAuction,
    buyer: u64,
    payer: u64,
    lamports: u64,
    now: u64,
)
    requires
        bid_check(record, buyer, payer, lamports, now) is None,
    ensures
        spec_bid_updated_record(record, buyer, lamports, now).spec_current_bid()
            > record.spec_current_bid(),
{
}

/// Accepting a bid is a one-way door: the record that results from any
/// accepted bid carries a real bid, so from that moment on cancellation
/// is refused with `AuctionStarted` for the rest of the record's life —
/// no later operation ever returns it to the no-bid state.
pub proof fn lemma_accepted_bid_bars_cancellation(
    record: AssetAuction,
    buyer: u64,
    lamports: u64,
    now: u64,
)
    ensures
        spec_bid_updated_record(record, buyer, lamports, now).bid_state is HasBid,
        cancel_check(spec_bid_updated_record(record, buyer, lamports, now))
            == Some(AuctionErrors::AuctionStarted),
{
}

/// The well-formedness of records survives every accepted bid.
pub proof fn lemma_bid_preserves_wf(
    record: AssetAuction,
    buyer: u64,
    payer: u64,
    lamports: u64,
    now: u64,
)
    requires
        record.wf(),
        now != 0,
        bid_check(record, buyer, payer, lamports, now) is None,
    ensures
        spec_bid_updated_record(record, buyer, lamports, now).wf(),
{
}

} // verus!
