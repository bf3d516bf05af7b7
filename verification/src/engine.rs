use vstd::prelude::*;

use crate::auction::{bid_check, cancel_check, complete_check, duration_check};
use crate::auction::{spec_bid_updated_record, AssetAuction, BidState};
use crate::asset::{CoreAsset, DelegateAuthority, FreezeDelegate, TransferDelegate};
use crate::bank::Bank;
use crate::config::Config;
use crate::errors::AuctionErrors;
use crate::fees::{lemma_fee_split_bounded, fee_split, spec_owner_proceeds, spec_treasury_cut};
use crate::lock::{acquire_check, acquire_lock, release_lock, settle_lock};

verus! {

/// Whether a record is the one for the `(collection, asset)` pair.
pub open spec fn key_matches(record: AssetAuction, collection: u64, core_asset: u64) -> bool {
    record.collection == collection && record.core_asset == core_asset
}

/// At most one record per `(collection, asset)` pair — the engine's
/// stand-in for the platform's collision-free derived addressing.
pub open spec fn record_keys_unique(records: Seq<AssetAuction>) -> bool {
    forall|i: int, j: int|
        0 <= i < j < records.len()
            ==> !key_matches(#[trigger] records[i], (#[trigger] records[j]).collection,
                records[j].core_asset)
}

/// Some record exists for the pair.
pub open spec fn has_key(records: Seq<AssetAuction>, collection: u64, core_asset: u64) -> bool {
    exists|i: int| 0 <= i < records.len() && key_matches(#[trigger] records[i], collection, core_asset)
}

/// The index of the pair's record.
pub open spec fn index_of_key(records: Seq<AssetAuction>, collection: u64, core_asset: u64) -> int {
    choose|i: int| 0 <= i < records.len() && key_matches(#[trigger] records[i], collection, core_asset)
}

/// With unique keys, any index whose record matches the pair is the index
/// of the pair's record.
pub proof fn lemma_index_of_key(records: Seq<AssetAuction>, i: int)
    requires
        record_keys_unique(records),
        0 <= i < records.len(),
    ensures
        has_key(records, records[i].collection, records[i].core_asset),
        index_of_key(records, records[i].collection, records[i].core_asset) == i,
{
    let c = records[i].collection;
    let a = records[i].core_asset;
    assert(has_key(records, c, a));
    let j = index_of_key(records, c, a);
    if i < j {
        assert(!key_matches(records[i], records[j].collection, records[j].core_asset));
    } else if j < i {
        assert(!key_matches(records[j], records[i].collection, records[i].core_asset));
    }
}

/// The sum of every record's current bid: what the vault must at least
/// hold to refund or settle every open auction.
pub open spec fn escrow_total(records: Seq<AssetAuction>) -> int
    decreases records.len(),
{
    if records.len() == 0 {
        0
    } else {
        escrow_total(records.drop_last()) + records.last().spec_current_bid()
    }
}

pub proof fn lemma_escrow_total_nonneg(records: Seq<AssetAuction>)
    ensures
        escrow_total(records) >= 0,
    decreases records.len(),
{
    if records.len() > 0 {
        lemma_escrow_total_nonneg(records.drop_last());
    }
}

/// One record's bid never exceeds the whole escrow total.
pub proof fn lemma_escrow_total_element(records: Seq<AssetAuction>, i: int)
    requires
        0 <= i < records.len(),
    ensures
        records[i].spec_current_bid() <= escrow_total(records),
    decreases records.len(),
{
    if i == records.len() - 1 {
        lemma_escrow_total_nonneg(records.drop_last());
    } else {
        assert(records.drop_last()[i] == records[i]);
        lemma_escrow_total_element(records.drop_last(), i);
    }
}

/// Replacing one record adjusts the escrow total by the bid difference.
pub proof fn lemma_escrow_total_update(records: Seq<AssetAuction>, i: int, record: AssetAuction)
    requires
        0 <= i < records.len(),
    ensures
        escrow_total(records.update(i, record)) == escrow_total(records)
            - records[i].spec_current_bid() + record.spec_current_bid(),
    decreases records.len(),
{
    let updated = records.update(i, record);
    if i == records.len() - 1 {
        assert(updated.drop_last() =~= records.drop_last());
    } else {
        assert(updated.drop_last() =~= records.drop_last().update(i, record));
        assert(records.drop_last()[i] == records[i]);
        lemma_escrow_total_update(records.drop_last(), i, record);
        assert(updated.last() == records.last());
    }
}

/// Removing one record lowers the escrow total by exactly its bid.
pub proof fn lemma_escrow_total_remove(records: Seq<AssetAuction>, i: int)
    requires
        0 <= i < records.len(),
    ensures
        escrow_total(records.remove(i)) == escrow_total(records) - records[i].spec_current_bid(),
    decreases records.len(),
{
    let removed = records.remove(i);
    records.remove_ensures(i);
    if i == records.len() - 1 {
        assert(removed =~= records.drop_last());
    } else {
        assert(removed.drop_last() =~= records.drop_last().remove(i));
        assert(records.drop_last()[i] == records[i]);
        lemma_escrow_total_remove(records.drop_last(), i);
        assert(removed.last() == records.last());
    }
}

/// The auction-settlement engine: one protocol instance together with the
/// slice of the ledger it governs — the collection whitelist, every open
/// auction record, and the native-currency accounts it moves money
/// between (bidders, sellers, the shared vault, the treasury).
pub struct AuctionEngine {
    config: Config,
    collections: Vec<u64>,
    auctions: Vec<AssetAuction>,
    bank: Bank,
    next_address: u64,
}

impl AuctionEngine {
    /// The instance's immutable parameters.
    pub closed spec fn spec_config(self) -> Config {
        self.config
    }

    /// The whitelisted collections, in whitelisting order.
    pub closed spec fn spec_collections(self) -> Seq<u64> {
        self.collections@
    }

    pub open spec fn spec_whitelisted(self, collection: u64) -> bool {
        self.spec_collections().contains(collection)
    }

    /// Every open auction record, in listing order.
    pub closed spec fn spec_auctions(self) -> Seq<AssetAuction> {
        self.auctions@
    }

    pub open spec fn spec_has_auction(self, collection: u64, core_asset: u64) -> bool {
        has_key(self.spec_auctions(), collection, core_asset)
    }

    /// The pair's record (meaningful when `spec_has_auction` holds).
    pub open spec fn spec_auction(self, collection: u64, core_asset: u64) -> AssetAuction {
        self.spec_auctions()[index_of_key(self.spec_auctions(), collection, core_asset)]
    }

    /// The balance the modelled ledger holds for `account`.
    pub closed spec fn spec_balance(self, account: u64) -> int {
        self.bank.spec_balance(account)
    }

    /// The sum of all modelled balances.
    pub closed spec fn spec_total_lamports(self) -> int {
        self.bank.spec_total()
    }

    pub open spec fn spec_vault_balance(self) -> int {
        self.spec_balance(self.spec_config().vault)
    }

    /// The next derived address to be handed to a new auction record.
    pub closed spec fn spec_next_address(self) -> int {
        self.next_address as int
    }

    /// One record's part of the engine invariant: the record itself is
    /// well-formed, and neither its seller nor its buyer is the vault (on
    /// the platform nobody can sign for the vault's derived address), so
    /// refunds and proceeds never flow from the vault to itself.
    pub open spec fn record_ok(self, record: AssetAuction) -> bool {
        &&& record.wf()
        &&& record.owner != self.spec_config().vault
        &&& (record.bid_state matches BidState::HasBid { buyer, .. }
            ==> buyer != self.spec_config().vault)
        &&& record.address < self.spec_next_address()
    }

    /// The engine invariant, established by [`AuctionEngine::new`] and
    /// preserved by every operation.
    pub closed spec fn wf(self) -> bool {
        &&& self.config.wf()
        &&& record_keys_unique(self.auctions@)
        &&& forall|i: int| 0 <= i < self.auctions@.len() ==> self.record_ok(#[trigger] self.auctions@[i])
        &&& forall|i: int, j: int|
            0 <= i < j < self.auctions@.len()
                ==> (#[trigger] self.auctions@[i]).address != (#[trigger] self.auctions@[j]).address
        &&& self.bank.wf()
        &&& self.spec_vault_balance() >= escrow_total(self.auctions@)
    }

    /// Money safety, the heart of the invariant: the shared vault always
    /// holds at least the sum of every open auction's current bid, so no
    /// refund and no settlement can ever leave it short.
    pub proof fn lemma_vault_covers_escrow(self)
        requires
            self.wf(),
        ensures
            self.spec_vault_balance() >= escrow_total(self.spec_auctions()) >= 0,
    {
        lemma_escrow_total_nonneg(self.auctions@);
    }

    /// What the invariant gives for one existing record: it is well-formed
    /// and the vault can refund its whole current bid.
    pub proof fn lemma_record_invariant(self, collection: u64, core_asset: u64)
        requires
            self.wf(),
            self.spec_has_auction(collection, core_asset),
        ensures
            self.record_ok(self.spec_auction(collection, core_asset)),
            self.spec_auction(collection, core_asset).spec_current_bid()
                <= self.spec_vault_balance(),
            key_matches(self.spec_auction(collection, core_asset), collection, core_asset),
    {
        let i = index_of_key(self.auctions@, collection, core_asset);
        lemma_escrow_total_element(self.auctions@, i);
    }

    /// A fresh protocol instance: nothing whitelisted, nothing listed, and
    /// an empty ledger.
    pub fn new(config: Config) -> (r: AuctionEngine)
        requires
            config.wf(),
        ensures
            r.wf(),
            r.spec_config() == config,
            r.spec_collections() == Seq::<u64>::empty(),
            r.spec_auctions() == Seq::<AssetAuction>::empty(),
            forall|a: u64| r.spec_balance(a) == 0,
            r.spec_total_lamports() == 0,
            r.spec_next_address() == 0,
    {
        let engine = AuctionEngine {
            config,
            collections: Vec::new(),
            auctions: Vec::new(),
            bank: Bank::new(),
            next_address: 0,
        };
        proof {
            assert(engine.collections@ =~= Seq::<u64>::empty());
            assert(engine.auctions@ =~= Seq::<AssetAuction>::empty());
        }
        engine
    }

    /// Brings `lamports` into `account` from outside the protocol; the
    /// platform keeps the total supply within `u64`.
    pub fn fund_account(&mut self, account: u64, lamports: u64)
        requires
            old(self).wf(),
            old(self).spec_total_lamports() + lamports <= u64::MAX,
        ensures
            final(self).wf(),
            final(self).spec_balance(account) == old(self).spec_balance(account) + lamports,
            forall|a: u64| a != account
                ==> final(self).spec_balance(a) == old(self).spec_balance(a),
            final(self).spec_total_lamports() == old(self).spec_total_lamports() + lamports,
            final(self).spec_config() == old(self).spec_config(),
            final(self).spec_collections() == old(self).spec_collections(),
            final(self).spec_auctions() == old(self).spec_auctions(),
            final(self).spec_next_address() == old(self).spec_next_address(),
    {
        proof {
            lemma_escrow_total_nonneg(self.auctions@);
            self.bank.lemma_balance_bounds(self.config.vault);
        }
        self.bank.deposit(account, lamports);
    }

    pub fn balance_of(&self, account: u64) -> (r: u64)
        requires
            self.wf(),
        ensures
            r == self.spec_balance(account),
    {
        self.bank.balance_of(account)
    }

    /// The instance's parameters, for callers and tests.
    pub fn config(&self) -> (r: Config)
        ensures
            r == self.spec_config(),
    {
        self.config
    }

    pub fn is_whitelisted(&self, collection: u64) -> (r: bool)
        ensures
            r == self.spec_whitelisted(collection),
    {
        let n = self.collections.len();
        let mut i: usize = 0;
        while i < n
            invariant
                i <= n,
                n == self.collections@.len(),
                forall|j: int| 0 <= j < i ==> self.collections@[j] != collection,
            decreases n - i,
        {
            if self.collections[i] == collection {
                return true;
            }
            i = i + 1;
        }
        proof {
            assert(forall|j: int| 0 <= j < self.collections@.len()
                ==> self.collections@[j] != collection);
        }
        false
    }

    /// Whitelists a collection, the sole gate for listing its assets.
    /// Only the admin may do it, and a collection can be whitelisted only
    /// once; nothing else about the engine changes.
    pub fn whitelist_collection(&mut self, caller: u64, collection: u64) -> (r: Result<
        (),
        AuctionErrors,
    >)
        requires
            old(self).wf(),
        ensures
            final(self).wf(),
            r is Ok <==> caller == old(self).spec_config().admin
                && !old(self).spec_whitelisted(collection),
            r matches Err(e) ==> *final(self) == *old(self) && (if caller
                != old(self).spec_config().admin {
                e == AuctionErrors::Unauthorized
            } else {
                e == AuctionErrors::AlreadyExists
            }),
            r is Ok ==> final(self).spec_collections()
                == old(self).spec_collections().push(collection),
            final(self).spec_whitelisted(collection)
                <==> (r is Ok || old(self).spec_whitelisted(collection)),
            forall|c: u64| c != collection
                ==> (final(self).spec_whitelisted(c) <==> old(self).spec_whitelisted(c)),
            final(self).spec_config() == old(self).spec_config(),
            final(self).spec_auctions() == old(self).spec_auctions(),
            forall|a: u64| final(self).spec_balance(a) == old(self).spec_balance(a),
            final(self).spec_total_lamports() == old(self).spec_total_lamports(),
            final(self).spec_next_address() == old(self).spec_next_address(),
    {
        if caller != self.config.admin {
            return Err(AuctionErrors::Unauthorized);
        }
        if self.is_whitelisted(collection) {
            return Err(AuctionErrors::AlreadyExists);
        }
        let ghost before = self.collections@;
        self.collections.push(collection);
        proof {
            assert(self.collections@ == before.push(collection));
            assert(self.collections@.contains(collection)) by {
                assert(self.collections@[before.len() as int] == collection);
            }
            assert forall|c: u64| c != collection implies (self.collections@.contains(c)
                <==> before.contains(c)) by {
                if self.collections@.contains(c) {
                    let k = choose|k: int| 0 <= k < self.collections@.len()
                        && self.collections@[k] == c;
                    assert(before[k] == c);
                } else if before.contains(c) {
                    let k = choose|k: int| 0 <= k < before.len() && before[k] == c;
                    assert(self.collections@[k] == c);
                }
            }
        }
        Ok(())
    }

    /// The pair's record as the engine holds it now, if the pair is listed.
    pub fn get_auction(&self, collection: u64, core_asset: u64) -> (r: Option<AssetAuction>)
        requires
            self.wf(),
        ensures
            match r {
                Some(record) => self.spec_has_auction(collection, core_asset)
                    && record == self.spec_auction(collection, core_asset),
                None => !self.spec_has_auction(collection, core_asset),
            },
    {
        match self.find_auction(collection, core_asset) {
            Some(i) => Some(self.auctions[i]),
            None => None,
        }
    }

    pub fn has_auction(&self, collection: u64, core_asset: u64) -> (r: bool)
        requires
            self.wf(),
        ensures
            r == self.spec_has_auction(collection, core_asset),
    {
        self.find_auction(collection, core_asset).is_some()
    }

    /// Why listing `asset` with this duration would be refused — or `None`
    /// when the listing must succeed: the pair may not already be listed,
    /// the duration must lie in the configured range, and the asset must be
    /// lockable (thawed, with owner-controlled delegations at most).
    pub open spec fn spec_create_check(
        self,
        asset: CoreAsset,
        collection: u64,
        duration_minutes: u32,
    ) -> Option<AuctionErrors> {
        if self.spec_has_auction(collection, asset.address) {
            Some(AuctionErrors::AlreadyExists)
        } else {
            match duration_check(
                duration_minutes,
                self.spec_config().min_duration_minutes,
                self.spec_config().max_duration_minutes,
            ) {
                Some(e) => Some(e),
                None => acquire_check(asset),
            }
        }
    }

    /// The record a successful listing appends: owner as placeholder
    /// buyer, a zero bid, a closed clock, and the next derived address.
    pub open spec fn spec_new_record(
        self,
        owner: u64,
        collection: u64,
        core_asset: u64,
        duration_minutes: u32,
        min_bid_lamports: u64,
    ) -> AssetAuction {
        AssetAuction {
            address: self.spec_next_address() as u64,
            collection,
            core_asset,
            owner,
            duration_minutes,
            min_bid_lamports,
            bid_state: BidState::NoBid,
            first_bid_timestamp: 0,
        }
    }

    /// Lists `asset` for auction: checks the duration against the
    /// configured range, creates the record with no bid and a closed
    /// clock, and locks the asset under the record's own derived address.
    ///
    /// The collection must be whitelisted and the caller must own the
    /// asset — on the platform both are resolved before the operation
    /// runs, so they are preconditions here. On any refusal neither the
    /// engine nor the asset changes.
    pub fn create_asset_auction(
        &mut self,
        owner: u64,
        collection: u64,
        asset: &mut CoreAsset,
        duration_minutes: u32,
        min_bid_lamports: u64,
    ) -> (r: Result<(), AuctionErrors>)
        requires
            old(self).wf(),
            old(self).spec_whitelisted(collection),
            old(asset).owner == owner,
            old(asset).collection == collection,
            owner != old(self).spec_config().vault,
            old(self).spec_next_address() < u64::MAX,
        ensures
            final(self).wf(),
            final(asset).owner == old(asset).owner,
            final(asset).address == old(asset).address,
            final(asset).collection == old(asset).collection,
            r is Ok <==> old(self).spec_create_check(*old(asset), collection, duration_minutes)
                is None,
            r matches Err(e) ==> Some(e) == old(self).spec_create_check(
                *old(asset),
                collection,
                duration_minutes,
            ) && *final(self) == *old(self) && *final(asset) == *old(asset),
            r is Ok ==> ({
                let record = old(self).spec_new_record(
                    owner,
                    collection,
                    old(asset).address,
                    duration_minutes,
                    min_bid_lamports,
                );
                &&& final(self).spec_auctions() == old(self).spec_auctions().push(record)
                &&& final(self).spec_has_auction(collection, old(asset).address)
                &&& final(self).spec_auction(collection, old(asset).address) == record
                &&& final(asset).locked_by(record.address)
                &&& final(self).spec_next_address() == old(self).spec_next_address() + 1
            }),
            final(self).spec_config() == old(self).spec_config(),
            final(self).spec_collections() == old(self).spec_collections(),
            forall|a: u64| final(self).spec_balance(a) == old(self).spec_balance(a),
            final(self).spec_total_lamports() == old(self).spec_total_lamports(),
    {
        let core_asset = asset.address;
        if self.find_auction(collection, core_asset).is_some() {
            return Err(AuctionErrors::AlreadyExists);
        }
        if duration_minutes < self.config.min_duration_minutes {
            return Err(AuctionErrors::DurationTooShort);
        }
        if duration_minutes > self.config.max_duration_minutes {
            return Err(AuctionErrors::DurationTooLong);
        }
        let record_address = self.next_address;
        if let Err(e) = acquire_lock(asset, owner, record_address) {
            return Err(e);
        }
        self.next_address = self.next_address + 1;
        let record = AssetAuction {
            address: record_address,
            collection,
            core_asset,
            owner,
            duration_minutes,
            min_bid_lamports,
            bid_state: BidState::NoBid,
            first_bid_timestamp: 0,
        };
        let ghost before = self.auctions@;
        self.auctions.push(record);
        proof {
            assert(self.auctions@ == before.push(record));
            assert(self.auctions@.drop_last() =~= before);
            assert(record_keys_unique(self.auctions@)) by {
                assert forall|i: int, j: int| 0 <= i < j < self.auctions@.len()
                    implies !key_matches(self.auctions@[i], self.auctions@[j].collection,
                        self.auctions@[j].core_asset) by {
                    if j == self.auctions@.len() - 1 {
                        assert(!key_matches(before[i], collection, core_asset));
                    }
                }
            }
            lemma_index_of_key(self.auctions@, before.len() as int);
        }
        Ok(())
    }

    /// Accepts a bid on a listed asset: the owner may neither bid nor
    /// pay, the amount must strictly beat the current bid, and after the
    /// first bid the window must still be open. On success the previous
    /// high bid, if any, is refunded to its bidder out of the vault, the
    /// payer's amount moves into the vault, and the record carries the new
    /// high bid — the vault's balance attributable to the record is
    /// exactly the accepted amount.
    pub fn bid_asset_auction(
        &mut self,
        payer: u64,
        buyer: u64,
        collection: u64,
        core_asset: u64,
        lamports: u64,
        now: u64,
    ) -> (r: Result<(), AuctionErrors>)
        requires
            old(self).wf(),
            old(self).spec_has_auction(collection, core_asset),
            now > 0,
            now >= old(self).spec_auction(collection, core_asset).first_bid_timestamp,
            buyer != old(self).spec_config().vault,
            payer != old(self).spec_config().vault,
            old(self).spec_balance(payer) >= lamports,
        ensures
            final(self).wf(),
            r is Ok <==> bid_check(
                old(self).spec_auction(collection, core_asset),
                buyer,
                payer,
                lamports,
                now,
            ) is None,
            r matches Err(e) ==> Some(e) == bid_check(
                old(self).spec_auction(collection, core_asset),
                buyer,
                payer,
                lamports,
                now,
            ) && *final(self) == *old(self),
            r is Ok ==> ({
                let record = old(self).spec_auction(collection, core_asset);
                let updated = spec_bid_updated_record(record, buyer, lamports, now);
                let refund = record.spec_current_bid() as int;
                let previous = record.spec_current_buyer();
                let vault = old(self).spec_config().vault;
                &&& final(self).spec_auctions() == old(self).spec_auctions().update(
                    index_of_key(old(self).spec_auctions(), collection, core_asset),
                    updated,
                )
                &&& final(self).spec_has_auction(collection, core_asset)
                &&& final(self).spec_auction(collection, core_asset) == updated
                &&& forall|x: u64| final(self).spec_balance(x) == old(self).spec_balance(x) + (
                if x == vault {
                    lamports - refund
                } else {
                    0int
                }) + (if x == previous {
                    refund
                } else {
                    0int
                }) - (if x == payer {
                    lamports as int
                } else {
                    0int
                })
            }),
            final(self).spec_config() == old(self).spec_config(),
            final(self).spec_collections() == old(self).spec_collections(),
            final(self).spec_total_lamports() == old(self).spec_total_lamports(),
            final(self).spec_next_address() == old(self).spec_next_address(),
    {
        let i = match self.find_auction(collection, core_asset) {
            Some(i) => i,
            None => {
                proof {
                    assert(false);
                }
                return Err(AuctionErrors::InvalidBid);
            }
        };
        let record = self.auctions[i];
        if buyer == record.owner {
            return Err(AuctionErrors::OwnerBid);
        }
        if payer == record.owner {
            return Err(AuctionErrors::OwnerBid);
        }
        if lamports <= record.current_bid() {
            return Err(AuctionErrors::InvalidBid);
        }
        let first = record.first_bid_timestamp;
        if first != 0 {
            let elapsed_minutes = (now - first) / 60;
            if elapsed_minutes >= record.duration_minutes as u64 {
                return Err(AuctionErrors::AuctionEnded);
            }
            // refund the outbid party out of the vault before accepting
            // the new bid, under the record's own signing authority
            let refund = record.current_bid();
            let previous = record.current_buyer();
            proof {
                lemma_escrow_total_element(self.auctions@, i as int);
            }
            self.bank.transfer(self.config.vault, previous, refund);
        }
        self.bank.transfer(payer, self.config.vault, lamports);
        let updated = AssetAuction {
            bid_state: BidState::HasBid { buyer, lamports },
            first_bid_timestamp: if first == 0 {
                now
            } else {
                first
            },
            ..record
        };
        let ghost before = self.auctions@;
        let slot = &mut self.auctions[i];
        *slot = updated;
        proof {
            assert(self.auctions@ == before.update(i as int, updated));
            crate::auction::lemma_bid_preserves_wf(record, buyer, payer, lamports, now);
            assert(record_keys_unique(self.auctions@)) by {
                assert forall|p: int, q: int| 0 <= p < q < self.auctions@.len()
                    implies !key_matches(self.auctions@[p], self.auctions@[q].collection,
                        self.auctions@[q].core_asset) by {
                    assert(!key_matches(before[p], before[q].collection, before[q].core_asset));
                }
            }
            lemma_escrow_total_update(before, i as int, updated);
            lemma_index_of_key(self.auctions@, i as int);
        }
        Ok(())
    }

    /// Cancels a listing that never received a bid: releases the asset
    /// lock fully — thaw, then remove both delegations — and destroys the
    /// record. From the first accepted bid on, cancellation is refused
    /// with `AuctionStarted` for the rest of the auction's life.
    pub fn cancel_asset_auction(
        &mut self,
        owner: u64,
        collection: u64,
        asset: &mut CoreAsset,
    ) -> (r: Result<(), AuctionErrors>)
        requires
            old(self).wf(),
            old(self).spec_has_auction(collection, old(asset).address),
            old(self).spec_auction(collection, old(asset).address).owner == owner,
            old(asset).owner == owner,
            old(asset).locked_by(old(self).spec_auction(collection, old(asset).address).address),
        ensures
            final(self).wf(),
            final(asset).owner == old(asset).owner,
            final(asset).address == old(asset).address,
            final(asset).collection == old(asset).collection,
            r is Ok <==> cancel_check(old(self).spec_auction(collection, old(asset).address))
                is None,
            r matches Err(e) ==> Some(e) == cancel_check(
                old(self).spec_auction(collection, old(asset).address),
            ) && *final(self) == *old(self) && *final(asset) == *old(asset),
            r is Ok ==> ({
                &&& *final(asset) == (CoreAsset {
                    freeze_delegate: None,
                    transfer_delegate: None,
                    ..*old(asset)
                })
                &&& final(self).spec_auctions() == old(self).spec_auctions().remove(
                    index_of_key(old(self).spec_auctions(), collection, old(asset).address),
                )
                &&& !final(self).spec_has_auction(collection, old(asset).address)
            }),
            final(self).spec_config() == old(self).spec_config(),
            final(self).spec_collections() == old(self).spec_collections(),
            forall|a: u64| final(self).spec_balance(a) == old(self).spec_balance(a),
            final(self).spec_total_lamports() == old(self).spec_total_lamports(),
            final(self).spec_next_address() == old(self).spec_next_address(),
    {
        let core_asset = asset.address;
        let i = match self.find_auction(collection, core_asset) {
            Some(i) => i,
            None => {
                proof {
                    assert(false);
                }
                return Err(AuctionErrors::AuctionStarted);
            }
        };
        let record = self.auctions[i];
        match record.bid_state {
            BidState::HasBid { .. } => {
                return Err(AuctionErrors::AuctionStarted);
            }
            BidState::NoBid => {}
        }
        release_lock(asset, owner, record.address);
        let ghost before = self.auctions@;
        self.auctions.remove(i);
        proof {
            self.lemma_record_store_shrunk(before, i as int, collection, core_asset);
            lemma_escrow_total_remove(before, i as int);
        }
        Ok(())
    }

    /// Settles a finished auction: the fee — the bid times the fee rate,
    /// rounded up — goes from the vault to the treasury, the proceeds —
    /// the bid times the remaining rate, rounded down — go to the seller,
    /// any rounding residual stays in the vault, the asset is thawed and
    /// moved to the winning bidder free of the protocol's delegations, and
    /// the record is destroyed. Refused before any bid exists and while
    /// the window is still open; allowed from the minute the elapsed time
    /// reaches the duration.
    pub fn complete_asset_auction(
        &mut self,
        collection: u64,
        asset: &mut CoreAsset,
        now: u64,
    ) -> (r: Result<(), AuctionErrors>)
        requires
            old(self).wf(),
            old(self).spec_has_auction(collection, old(asset).address),
            old(self).spec_auction(collection, old(asset).address).owner == old(asset).owner,
            old(asset).locked_by(old(self).spec_auction(collection, old(asset).address).address),
            now >= old(self).spec_auction(collection, old(asset).address).first_bid_timestamp,
        ensures
            final(self).wf(),
            final(asset).address == old(asset).address,
            final(asset).collection == old(asset).collection,
            r is Ok <==> complete_check(
                old(self).spec_auction(collection, old(asset).address),
                now,
            ) is None,
            r matches Err(e) ==> Some(e) == complete_check(
                old(self).spec_auction(collection, old(asset).address),
                now,
            ) && *final(self) == *old(self) && *final(asset) == *old(asset),
            r is Ok ==> ({
                let record = old(self).spec_auction(collection, old(asset).address);
                let fee_bps = old(self).spec_config().fee_bps;
                let bid = record.spec_current_bid();
                let cut = spec_treasury_cut(bid, fee_bps);
                let proceeds = spec_owner_proceeds(bid, fee_bps);
                let vault = old(self).spec_config().vault;
                let treasury = old(self).spec_config().treasury;
                &&& *final(asset) == (CoreAsset {
                    owner: record.spec_current_buyer(),
                    freeze_delegate: Some(
                        FreezeDelegate { authority: DelegateAuthority::Owner, frozen: false },
                    ),
                    transfer_delegate: Some(
                        TransferDelegate { authority: DelegateAuthority::Owner },
                    ),
                    ..*old(asset)
                })
                &&& final(self).spec_auctions() == old(self).spec_auctions().remove(
                    index_of_key(old(self).spec_auctions(), collection, old(asset).address),
                )
                &&& !final(self).spec_has_auction(collection, old(asset).address)
                &&& forall|x: u64| final(self).spec_balance(x) == old(self).spec_balance(x) + (
                if x == treasury {
                    cut
                } else {
                    0int
                }) + (if x == record.owner {
                    proceeds
                } else {
                    0int
                }) - (if x == vault {
                    cut + proceeds
                } else {
                    0int
                })
            }),
            final(self).spec_config() == old(self).spec_config(),
            final(self).spec_collections() == old(self).spec_collections(),
            final(self).spec_total_lamports() == old(self).spec_total_lamports(),
            final(self).spec_next_address() == old(self).spec_next_address(),
    {
        let core_asset = asset.address;
        let i = match self.find_auction(collection, core_asset) {
            Some(i) => i,
            None => {
                proof {
                    assert(false);
                }
                return Err(AuctionErrors::AuctionNotStarted);
            }
        };
        let record = self.auctions[i];
        if record.first_bid_timestamp == 0 {
            return Err(AuctionErrors::AuctionNotStarted);
        }
        let elapsed_minutes = (now - record.first_bid_timestamp) / 60;
        if elapsed_minutes < record.duration_minutes as u64 {
            return Err(AuctionErrors::AuctionRunning);
        }
        let bid = record.current_bid();
        let buyer = record.current_buyer();
        proof {
            lemma_fee_split_bounded(bid, self.config.fee_bps);
            lemma_escrow_total_element(self.auctions@, i as int);
        }
        let (treasury_cut, owner_proceeds) = fee_split(bid, self.config.fee_bps);
        self.bank.transfer(self.config.vault, self.config.treasury, treasury_cut);
        self.bank.transfer(self.config.vault, record.owner, owner_proceeds);
        settle_lock(asset, record.address, buyer);
        let ghost before = self.auctions@;
        self.auctions.remove(i);
        proof {
            self.lemma_record_store_shrunk(before, i as int, collection, core_asset);
            lemma_escrow_total_remove(before, i as int);
        }
        Ok(())
    }

    /// After removing the record at `i`, the store still has unique keys
    /// and addresses, every surviving record still satisfies the record
    /// invariant, and the removed key is gone.
    proof fn lemma_record_store_shrunk(
        self,
        before: Seq<AssetAuction>,
        i: int,
        collection: u64,
        core_asset: u64,
    )
        requires
            0 <= i < before.len(),
            record_keys_unique(before),
            key_matches(before[i], collection, core_asset),
            forall|j: int, k: int|
                0 <= j < k < before.len()
                    ==> (#[trigger] before[j]).address != (#[trigger] before[k]).address,
            forall|j: int| 0 <= j < before.len() ==> self.record_ok(#[trigger] before[j]),
            self.spec_auctions() == before.remove(i),
        ensures
            record_keys_unique(self.spec_auctions()),
            forall|j: int, k: int|
                0 <= j < k < self.spec_auctions().len()
                    ==> (#[trigger] self.spec_auctions()[j]).address
                        != (#[trigger] self.spec_auctions()[k]).address,
            forall|j: int| 0 <= j < self.spec_auctions().len()
                ==> self.record_ok(#[trigger] self.spec_auctions()[j]),
            !has_key(self.spec_auctions(), collection, core_asset),
    {
        let after = before.remove(i);
        before.remove_ensures(i);
        assert forall|j: int| 0 <= j < after.len() implies self.record_ok(#[trigger] after[j])
            && exists|j0: int|
            0 <= j0 < before.len() && #[trigger] before[j0] == after[j] && (j < i ==> j0 == j) && (j
                >= i ==> j0 == j + 1) by {
            if j < i {
                assert(before[j] == after[j]);
            } else {
                assert(before[j + 1] == after[j]);
            }
        }
        assert forall|j: int, k: int| 0 <= j < k < after.len() implies !key_matches(
            #[trigger] after[j],
            (#[trigger] after[k]).collection,
            after[k].core_asset,
        ) && after[j].address != after[k].address by {
            let j0: int = if j < i {
                j
            } else {
                j + 1
            };
            let k0: int = if k < i {
                k
            } else {
                k + 1
            };
            assert(before[j0] == after[j]);
            assert(before[k0] == after[k]);
            assert(!key_matches(before[j0], before[k0].collection, before[k0].core_asset));
        }
        assert forall|j: int| 0 <= j < after.len() implies !key_matches(
            #[trigger] after[j],
            collection,
            core_asset,
        ) by {
            let j0: int = if j < i {
                j
            } else {
                j + 1
            };
            assert(before[j0] == after[j]);
            if j0 < i {
                assert(!key_matches(before[j0], before[i].collection, before[i].core_asset));
            } else {
                assert(!key_matches(before[i], before[j0].collection, before[j0].core_asset));
            }
        }
    }

    /// The index of the pair's record in the store.
    fn find_auction(&self, collection: u64, core_asset: u64) -> (r: Option<usize>)
        requires
            record_keys_unique(self.spec_auctions()),
        ensures
            match r {
                Some(i) => i < self.spec_auctions().len()
                    && key_matches(self.spec_auctions()[i as int], collection, core_asset)
                    && self.spec_has_auction(collection, core_asset)
                    && i == index_of_key(self.spec_auctions(), collection, core_asset),
                None => !self.spec_has_auction(collection, core_asset),
            },
    {
        let n = self.auctions.len();
        let mut i: usize = 0;
        while i < n
            invariant
                i <= n,
                n == self.auctions@.len(),
                record_keys_unique(self.auctions@),
                forall|j: int| 0 <= j < i
                    ==> !key_matches(#[trigger] self.auctions@[j], collection, core_asset),
            decreases n - i,
        {
            if self.auctions[i].collection == collection
                && self.auctions[i].core_asset == core_asset {
                proof {
                    lemma_index_of_key(self.auctions@, i as int);
                }
                return Some(i);
            }
            i = i + 1;
        }
        proof {
            assert(forall|j: int| 0 <= j < self.auctions@.len()
                ==> !key_matches(#[trigger] self.auctions@[j], collection, core_asset));
        }
        None
    }
}

} // verus!
