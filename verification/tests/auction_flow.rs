use mpl_core_auction::asset::{CoreAsset, DelegateAuthority, FreezeDelegate, TransferDelegate};
use mpl_core_auction::auction::BidState;
use mpl_core_auction::config::Config;
use mpl_core_auction::engine::AuctionEngine;
use mpl_core_auction::errors::AuctionErrors;

const ADMIN: u64 = 1;
const OWNER: u64 = 2;
const BIDDER_A: u64 = 3;
const BIDDER_B: u64 = 4;
const VAULT: u64 = 100;
const TREASURY: u64 = 101;
const COLLECTION: u64 = 10;
const ASSET: u64 = 20;

fn engine(fee_bps: u16) -> AuctionEngine {
    let config = Config::initialize(7, ADMIN, fee_bps, 10, 1440, VAULT, TREASURY).unwrap();
    AuctionEngine::new(config)
}

fn listed_engine(fee_bps: u16) -> (AuctionEngine, CoreAsset) {
    let mut e = engine(fee_bps);
    e.whitelist_collection(ADMIN, COLLECTION).unwrap();
    let mut asset = CoreAsset::new(ASSET, OWNER, COLLECTION);
    e.create_asset_auction(OWNER, COLLECTION, &mut asset, 60, 100).unwrap();
    (e, asset)
}

#[test]
fn initialize_rejects_empty_duration_range() {
    assert_eq!(
        Config::initialize(7, ADMIN, 500, 60, 60, VAULT, TREASURY),
        Err(AuctionErrors::InvalidMinMaxDuration)
    );
    assert_eq!(
        Config::initialize(7, ADMIN, 500, 60, 10, VAULT, TREASURY),
        Err(AuctionErrors::InvalidMinMaxDuration)
    );
    assert!(Config::initialize(7, ADMIN, 500, 60, 61, VAULT, TREASURY).is_ok());
}

#[test]
fn whitelist_requires_admin() {
    let mut e = engine(500);
    assert_eq!(e.whitelist_collection(OWNER, COLLECTION), Err(AuctionErrors::Unauthorized));
    assert!(!e.is_whitelisted(COLLECTION));
    assert_eq!(e.whitelist_collection(ADMIN, COLLECTION), Ok(()));
    assert!(e.is_whitelisted(COLLECTION));
}

#[test]
fn whitelist_twice_rejected() {
    let mut e = engine(500);
    e.whitelist_collection(ADMIN, COLLECTION).unwrap();
    assert_eq!(e.whitelist_collection(ADMIN, COLLECTION), Err(AuctionErrors::AlreadyExists));
    assert!(e.is_whitelisted(COLLECTION));
}

#[test]
fn create_checks_duration_bounds() {
    let mut e = engine(500);
    e.whitelist_collection(ADMIN, COLLECTION).unwrap();
    let mut asset = CoreAsset::new(ASSET, OWNER, COLLECTION);
    assert_eq!(
        e.create_asset_auction(OWNER, COLLECTION, &mut asset, 9, 100),
        Err(AuctionErrors::DurationTooShort)
    );
    assert_eq!(
        e.create_asset_auction(OWNER, COLLECTION, &mut asset, 1441, 100),
        Err(AuctionErrors::DurationTooLong)
    );
    assert!(!e.has_auction(COLLECTION, ASSET));
    assert!(asset.freeze_delegate.is_none());
}

#[test]
fn create_succeeds_at_both_duration_boundaries() {
    let mut e = engine(500);
    e.whitelist_collection(ADMIN, COLLECTION).unwrap();
    let mut shortest = CoreAsset::new(ASSET, OWNER, COLLECTION);
    assert_eq!(e.create_asset_auction(OWNER, COLLECTION, &mut shortest, 10, 100), Ok(()));
    let mut longest = CoreAsset::new(ASSET + 1, OWNER, COLLECTION);
    assert_eq!(e.create_asset_auction(OWNER, COLLECTION, &mut longest, 1440, 100), Ok(()));
    assert!(e.has_auction(COLLECTION, ASSET));
    assert!(e.has_auction(COLLECTION, ASSET + 1));
}

#[test]
fn create_rejects_double_listing() {
    let (mut e, _asset) = listed_engine(500);
    let mut again = CoreAsset::new(ASSET, OWNER, COLLECTION);
    assert_eq!(
        e.create_asset_auction(OWNER, COLLECTION, &mut again, 60, 100),
        Err(AuctionErrors::AlreadyExists)
    );
}

#[test]
fn create_rejects_frozen_asset() {
    let mut e = engine(500);
    e.whitelist_collection(ADMIN, COLLECTION).unwrap();
    let mut asset = CoreAsset::new(ASSET, OWNER, COLLECTION);
    asset.add_freeze_delegate(
        OWNER,
        FreezeDelegate { authority: DelegateAuthority::Owner, frozen: true },
    );
    assert_eq!(
        e.create_asset_auction(OWNER, COLLECTION, &mut asset, 60, 100),
        Err(AuctionErrors::FrozenAsset)
    );
}

#[test]
fn create_rejects_foreign_freeze_delegate() {
    let mut e = engine(500);
    e.whitelist_collection(ADMIN, COLLECTION).unwrap();
    let mut asset = CoreAsset::new(ASSET, OWNER, COLLECTION);
    asset.add_freeze_delegate(
        OWNER,
        FreezeDelegate { authority: DelegateAuthority::Owner, frozen: false },
    );
    asset.approve_freeze_authority(OWNER, BIDDER_A);
    assert_eq!(
        e.create_asset_auction(OWNER, COLLECTION, &mut asset, 60, 100),
        Err(AuctionErrors::FreezeDelegateNotOwner)
    );
}

#[test]
fn create_rejects_foreign_transfer_delegate() {
    let mut e = engine(500);
    e.whitelist_collection(ADMIN, COLLECTION).unwrap();
    let mut asset = CoreAsset::new(ASSET, OWNER, COLLECTION);
    asset.add_transfer_delegate(OWNER, TransferDelegate { authority: DelegateAuthority::Owner });
    asset.approve_transfer_authority(OWNER, BIDDER_A);
    assert_eq!(
        e.create_asset_auction(OWNER, COLLECTION, &mut asset, 60, 100),
        Err(AuctionErrors::TransferDelegateNotOwner)
    );
}

#[test]
fn create_reassigns_owner_controlled_delegations() {
    let mut e = engine(500);
    e.whitelist_collection(ADMIN, COLLECTION).unwrap();
    let mut asset = CoreAsset::new(ASSET, OWNER, COLLECTION);
    asset.add_freeze_delegate(
        OWNER,
        FreezeDelegate { authority: DelegateAuthority::Owner, frozen: false },
    );
    asset.add_transfer_delegate(OWNER, TransferDelegate { authority: DelegateAuthority::Owner });
    assert_eq!(e.create_asset_auction(OWNER, COLLECTION, &mut asset, 60, 100), Ok(()));
    let record = e.get_auction(COLLECTION, ASSET).unwrap();
    assert!(asset.is_frozen());
    assert_eq!(
        asset.freeze_delegate,
        Some(FreezeDelegate {
            authority: DelegateAuthority::Address { address: record.address },
            frozen: true,
        })
    );
    assert_eq!(
        asset.transfer_delegate,
        Some(TransferDelegate {
            authority: DelegateAuthority::Address { address: record.address },
        })
    );
}

#[test]
fn owner_cannot_bid() {
    let (mut e, _asset) = listed_engine(500);
    e.fund_account(OWNER, 1_000);
    assert_eq!(
        e.bid_asset_auction(OWNER, OWNER, COLLECTION, ASSET, 200, 1_000),
        Err(AuctionErrors::OwnerBid)
    );
    // the owner may not even pay for someone else's bid
    assert_eq!(
        e.bid_asset_auction(OWNER, BIDDER_A, COLLECTION, ASSET, 200, 1_000),
        Err(AuctionErrors::OwnerBid)
    );
    // still refused once bidding has started
    e.fund_account(BIDDER_A, 1_000);
    e.bid_asset_auction(BIDDER_A, BIDDER_A, COLLECTION, ASSET, 200, 1_000).unwrap();
    assert_eq!(
        e.bid_asset_auction(OWNER, OWNER, COLLECTION, ASSET, 300, 1_010),
        Err(AuctionErrors::OwnerBid)
    );
}

#[test]
fn bids_must_strictly_increase() {
    let (mut e, _asset) = listed_engine(500);
    e.fund_account(BIDDER_A, 1_000);
    e.fund_account(BIDDER_B, 1_000);
    // a zero first bid does not beat the zero starting bid
    assert_eq!(
        e.bid_asset_auction(BIDDER_A, BIDDER_A, COLLECTION, ASSET, 0, 1_000),
        Err(AuctionErrors::InvalidBid)
    );
    e.bid_asset_auction(BIDDER_A, BIDDER_A, COLLECTION, ASSET, 200, 1_000).unwrap();
    // a tie is refused
    assert_eq!(
        e.bid_asset_auction(BIDDER_B, BIDDER_B, COLLECTION, ASSET, 200, 1_010),
        Err(AuctionErrors::InvalidBid)
    );
    // a lower bid is refused
    assert_eq!(
        e.bid_asset_auction(BIDDER_B, BIDDER_B, COLLECTION, ASSET, 150, 1_010),
        Err(AuctionErrors::InvalidBid)
    );
    let record = e.get_auction(COLLECTION, ASSET).unwrap();
    assert_eq!(record.bid_state, BidState::HasBid { buyer: BIDDER_A, lamports: 200 });
}

#[test]
fn bid_after_window_rejected() {
    let (mut e, _asset) = listed_engine(500);
    e.fund_account(BIDDER_A, 1_000);
    e.fund_account(BIDDER_B, 1_000);
    e.bid_asset_auction(BIDDER_A, BIDDER_A, COLLECTION, ASSET, 200, 1_000).unwrap();
    // 60 minutes later the window has closed
    assert_eq!(
        e.bid_asset_auction(BIDDER_B, BIDDER_B, COLLECTION, ASSET, 300, 1_000 + 60 * 60),
        Err(AuctionErrors::AuctionEnded)
    );
    // one second before the close it is still open
    assert_eq!(
        e.bid_asset_auction(BIDDER_B, BIDDER_B, COLLECTION, ASSET, 300, 1_000 + 60 * 60 - 1),
        Ok(())
    );
}

#[test]
fn each_accepted_bid_escrows_exactly_the_bid_and_refunds_the_last() {
    let (mut e, _asset) = listed_engine(500);
    e.fund_account(BIDDER_A, 1_000);
    e.fund_account(BIDDER_B, 1_000);

    e.bid_asset_auction(BIDDER_A, BIDDER_A, COLLECTION, ASSET, 100, 1_000).unwrap();
    assert_eq!(e.balance_of(VAULT), 100);
    assert_eq!(e.balance_of(BIDDER_A), 900);

    e.bid_asset_auction(BIDDER_B, BIDDER_B, COLLECTION, ASSET, 150, 1_060).unwrap();
    assert_eq!(e.balance_of(VAULT), 150);
    assert_eq!(e.balance_of(BIDDER_A), 1_000);
    assert_eq!(e.balance_of(BIDDER_B), 850);

    e.bid_asset_auction(BIDDER_A, BIDDER_A, COLLECTION, ASSET, 400, 1_120).unwrap();
    assert_eq!(e.balance_of(VAULT), 400);
    assert_eq!(e.balance_of(BIDDER_A), 600);
    assert_eq!(e.balance_of(BIDDER_B), 1_000);

    let record = e.get_auction(COLLECTION, ASSET).unwrap();
    assert_eq!(record.bid_state, BidState::HasBid { buyer: BIDDER_A, lamports: 400 });
    assert_eq!(record.first_bid_timestamp, 1_000);
}

#[test]
fn rebid_by_same_bidder_refunds_their_own_escrow() {
    let (mut e, _asset) = listed_engine(500);
    e.fund_account(BIDDER_A, 1_000);
    e.bid_asset_auction(BIDDER_A, BIDDER_A, COLLECTION, ASSET, 100, 1_000).unwrap();
    e.bid_asset_auction(BIDDER_A, BIDDER_A, COLLECTION, ASSET, 250, 1_030).unwrap();
    assert_eq!(e.balance_of(VAULT), 250);
    assert_eq!(e.balance_of(BIDDER_A), 750);
}

#[test]
fn cancel_only_while_no_bid() {
    let (mut e, mut asset) = listed_engine(500);
    e.fund_account(BIDDER_A, 1_000);
    e.bid_asset_auction(BIDDER_A, BIDDER_A, COLLECTION, ASSET, 200, 1_000).unwrap();
    assert_eq!(
        e.cancel_asset_auction(OWNER, COLLECTION, &mut asset),
        Err(AuctionErrors::AuctionStarted)
    );
    // the refusal holds for the remainder of the auction's life
    assert_eq!(
        e.cancel_asset_auction(OWNER, COLLECTION, &mut asset),
        Err(AuctionErrors::AuctionStarted)
    );
    assert!(e.has_auction(COLLECTION, ASSET));
    assert!(asset.is_frozen());
}

#[test]
fn cancel_releases_the_asset_and_destroys_the_record() {
    let (mut e, mut asset) = listed_engine(500);
    assert_eq!(e.cancel_asset_auction(OWNER, COLLECTION, &mut asset), Ok(()));
    assert!(!e.has_auction(COLLECTION, ASSET));
    assert_eq!(asset.owner, OWNER);
    assert!(asset.freeze_delegate.is_none());
    assert!(asset.transfer_delegate.is_none());
    assert!(asset.can_transfer(OWNER));
    // the freed asset can be listed again
    assert_eq!(e.create_asset_auction(OWNER, COLLECTION, &mut asset, 60, 100), Ok(()));
}

#[test]
fn complete_requires_a_started_and_finished_auction() {
    let (mut e, mut asset) = listed_engine(500);
    assert_eq!(
        e.complete_asset_auction(COLLECTION, &mut asset, 10_000),
        Err(AuctionErrors::AuctionNotStarted)
    );
    e.fund_account(BIDDER_A, 1_000);
    e.bid_asset_auction(BIDDER_A, BIDDER_A, COLLECTION, ASSET, 200, 1_000).unwrap();
    // one second short of the 60-minute window
    assert_eq!(
        e.complete_asset_auction(COLLECTION, &mut asset, 1_000 + 60 * 60 - 1),
        Err(AuctionErrors::AuctionRunning)
    );
    // exactly at elapsed_minutes == duration_minutes it succeeds
    assert_eq!(e.complete_asset_auction(COLLECTION, &mut asset, 1_000 + 60 * 60), Ok(()));
    assert!(!e.has_auction(COLLECTION, ASSET));
}

#[test]
fn locked_asset_cannot_be_moved_by_its_owner() {
    let (e, asset) = listed_engine(500);
    assert!(e.has_auction(COLLECTION, ASSET));
    assert!(asset.is_frozen());
    assert!(!asset.can_transfer(OWNER));
}

#[test]
fn settlement_leaves_the_asset_owner_controlled() {
    let (mut e, mut asset) = listed_engine(500);
    e.fund_account(BIDDER_A, 1_000);
    e.bid_asset_auction(BIDDER_A, BIDDER_A, COLLECTION, ASSET, 200, 1_000).unwrap();
    e.complete_asset_auction(COLLECTION, &mut asset, 1_000 + 60 * 60).unwrap();
    assert_eq!(asset.owner, BIDDER_A);
    assert!(!asset.is_frozen());
    assert_eq!(
        asset.freeze_delegate,
        Some(FreezeDelegate { authority: DelegateAuthority::Owner, frozen: false })
    );
    assert_eq!(
        asset.transfer_delegate,
        Some(TransferDelegate { authority: DelegateAuthority::Owner })
    );
    assert!(asset.can_transfer(BIDDER_A));
}

#[test]
fn end_to_end_auction() {
    let mut e = engine(500);
    e.whitelist_collection(ADMIN, COLLECTION).unwrap();
    let mut asset = CoreAsset::new(ASSET, OWNER, COLLECTION);
    e.create_asset_auction(OWNER, COLLECTION, &mut asset, 60, 100).unwrap();
    e.fund_account(BIDDER_A, 1_000);
    e.fund_account(BIDDER_B, 1_000);

    e.bid_asset_auction(BIDDER_A, BIDDER_A, COLLECTION, ASSET, 100, 5_000).unwrap();
    e.bid_asset_auction(BIDDER_B, BIDDER_B, COLLECTION, ASSET, 150, 5_100).unwrap();
    // the outbid party got their 100 back
    assert_eq!(e.balance_of(BIDDER_A), 1_000);

    // 61 minutes after the first bid the window has closed
    let now = 5_000 + 61 * 60;
    assert_eq!(e.complete_asset_auction(COLLECTION, &mut asset, now), Ok(()));

    assert_eq!(asset.owner, BIDDER_B);
    assert!(!e.has_auction(COLLECTION, ASSET));
    assert_eq!(e.balance_of(BIDDER_A), 1_000);
    assert_eq!(e.balance_of(BIDDER_B), 850);
    // fee split of the 150 winning bid at 500 bps: 8 up to the treasury,
    // 142 down to the owner
    assert_eq!(e.balance_of(TREASURY), 8);
    assert_eq!(e.balance_of(OWNER), 142);
    assert_eq!(e.balance_of(VAULT), 0);
}
