use mpl_core_auction::asset::CoreAsset;
use mpl_core_auction::config::Config;
use mpl_core_auction::engine::AuctionEngine;
use mpl_core_auction::fees::fee_split;

const ADMIN: u64 = 1;
const OWNER: u64 = 2;
const BIDDER: u64 = 3;
const VAULT: u64 = 100;
const TREASURY: u64 = 101;
const COLLECTION: u64 = 10;
const ASSET: u64 = 20;

#[test]
fn fee_split_rounds_treasury_up_and_owner_down() {
    // 5% of 10_000 splits exactly
    assert_eq!(fee_split(10_000, 500), (500, 9_500));
    // 3.33% of 10_003: the treasury's ceil and the owner's floor
    assert_eq!(fee_split(10_003, 333), (334, 9_669));
    // zero fee: everything to the owner
    assert_eq!(fee_split(10_000, 0), (0, 10_000));
    // full fee: everything to the treasury
    assert_eq!(fee_split(10_000, 10_000), (10_000, 0));
    // a fractional fee on a tiny bid still rounds the treasury up
    assert_eq!(fee_split(1, 1), (1, 0));
    assert_eq!(fee_split(0, 333), (0, 0));
}

#[test]
fn settlement_pays_the_split_and_keeps_any_residual_in_the_vault() {
    let config = Config::initialize(7, ADMIN, 333, 10, 1440, VAULT, TREASURY).unwrap();
    let mut e = AuctionEngine::new(config);
    e.whitelist_collection(ADMIN, COLLECTION).unwrap();
    let mut asset = CoreAsset::new(ASSET, OWNER, COLLECTION);
    e.create_asset_auction(OWNER, COLLECTION, &mut asset, 10, 1).unwrap();
    e.fund_account(BIDDER, 20_000);
    e.bid_asset_auction(BIDDER, BIDDER, COLLECTION, ASSET, 10_003, 1_000).unwrap();
    assert_eq!(e.balance_of(VAULT), 10_003);

    e.complete_asset_auction(COLLECTION, &mut asset, 1_000 + 10 * 60).unwrap();
    assert_eq!(e.balance_of(TREASURY), 334);
    assert_eq!(e.balance_of(OWNER), 9_669);
    // whatever the rounding leaves over stays in the vault: nothing is
    // lost and nothing is double-counted
    assert_eq!(e.balance_of(VAULT), 10_003 - 334 - 9_669);
    assert_eq!(e.balance_of(BIDDER), 20_000 - 10_003);
}
