use vstd::prelude::*;

use crate::asset::{CoreAsset, DelegateAuthority, FreezeDelegate, TransferDelegate};
use crate::errors::AuctionErrors;

verus! {

/// Why an asset cannot be locked for auction right now: it is already
/// frozen, or one of its delegations answers to a third party. `None`
/// means [`acquire_lock`] will succeed.
pub open spec fn acquire_check(asset: CoreAsset) -> Option<AuctionErrors> {
    if asset.freeze_delegate matches Some(fd) && fd.frozen {
        Some(AuctionErrors::FrozenAsset)
    } else if asset.freeze_delegate matches Some(fd) && fd.authority != DelegateAuthority::Owner {
        Some(AuctionErrors::FreezeDelegateNotOwner)
    } else if asset.transfer_delegate matches Some(td) && td.authority != DelegateAuthority::Owner {
        Some(AuctionErrors::TransferDelegateNotOwner)
    } else {
        None
    }
}

/// Any state the release protocol can find the asset in, from fully locked
/// down to fully released: a freeze delegation, if present, still answers
/// to the record, and a transfer delegation, if present, answers to the
/// record or has already been given back to the owner.
pub open spec fn release_pending(asset: CoreAsset, authority_address: u64) -> bool {
    &&& (asset.freeze_delegate matches Some(fd)
        ==> fd.authority == (DelegateAuthority::Address { address: authority_address }))
    &&& (asset.transfer_delegate matches Some(td)
        ==> (td.authority == (DelegateAuthority::Address { address: authority_address })
            || td.authority == DelegateAuthority::Owner))
}

/// Both delegations installed by the protocol are gone.
pub open spec fn released(asset: CoreAsset) -> bool {
    asset.freeze_delegate is None && asset.transfer_delegate is None
}

/// Takes delegated freeze and transfer control of `asset` away from its
/// owner and gives it to the auction record at `record_address`, leaving
/// the asset frozen: create each missing delegation already assigned to the
/// record, reassign each existing owner-controlled one.
///
/// On any refusal the asset is untouched, mirroring the platform's
/// transactional abort.
pub fn acquire_lock(asset: &mut CoreAsset, owner: u64, record_address: u64) -> (r: Result<
    (),
    AuctionErrors,
>)
    requires
        old(asset).owner == owner,
    ensures
        final(asset).owner == old(asset).owner,
        final(asset).address == old(asset).address,
        final(asset).collection == old(asset).collection,
        r is Ok <==> acquire_check(*old(asset)) is None,
        r matches Err(e) ==> Some(e) == acquire_check(*old(asset)) && *final(asset) == *old(asset),
        r is Ok ==> final(asset).locked_by(record_address),
{
    if let Some(fd) = asset.freeze_delegate {
        if fd.frozen {
            return Err(AuctionErrors::FrozenAsset);
        }
        if fd.authority != DelegateAuthority::Owner {
            return Err(AuctionErrors::FreezeDelegateNotOwner);
        }
    }
    if let Some(td) = asset.transfer_delegate {
        if td.authority != DelegateAuthority::Owner {
            return Err(AuctionErrors::TransferDelegateNotOwner);
        }
    }
    if asset.freeze_delegate.is_some() {
        asset.approve_freeze_authority(owner, record_address);
        asset.set_frozen(record_address, true);
    } else {
        asset.add_freeze_delegate(
            owner,
            FreezeDelegate {
                authority: DelegateAuthority::Address { address: record_address },
                frozen: true,
            },
        );
    }
    if asset.transfer_delegate.is_some() {
        asset.approve_transfer_authority(owner, record_address);
    } else {
        asset.add_transfer_delegate(
            owner,
            TransferDelegate { authority: DelegateAuthority::Address { address: record_address } },
        );
    }
    Ok(())
}

/// Gives full control of `asset` back to its owner, in the one order that
/// cannot strand the asset: thaw under the record's authority, remove the
/// freeze delegation, give the transfer authority back to the owner, remove
/// the transfer delegation.
///
/// Every step detects whether it has already been applied and skips itself,
/// so the release can be resumed from any intermediate state — running it
/// on an already-released asset changes nothing.
pub fn release_lock(asset: &mut CoreAsset, owner: u64, record_address: u64)
    requires
        old(asset).owner == owner,
        release_pending(*old(asset), record_address),
    ensures
        *final(asset) == (CoreAsset {
            freeze_delegate: None,
            transfer_delegate: None,
            ..*old(asset)
        }),
        released(*old(asset)) ==> *final(asset) == *old(asset),
{
    let thaw_needed = match asset.freeze_delegate {
        Some(fd) => fd.frozen,
        None => false,
    };
    if thaw_needed {
        asset.set_frozen(record_address, false);
    }
    if asset.freeze_delegate.is_some() {
        asset.remove_freeze_delegate(owner);
    }
    let revoke_needed = match asset.transfer_delegate {
        Some(td) => td.authority != DelegateAuthority::Owner,
        None => false,
    };
    if revoke_needed {
        asset.revoke_transfer_authority(record_address);
    }
    if asset.transfer_delegate.is_some() {
        asset.remove_transfer_delegate(owner);
    }
}

/// Settles a locked asset to the auction winner: thaw under the record's
/// authority, then move the asset under the record's transfer delegation.
/// The move itself hands both delegations back to owner control, so the new
/// owner receives the asset unencumbered.
pub fn settle_lock(asset: &mut CoreAsset, record_address: u64, new_owner: u64)
    requires
        old(asset).locked_by(record_address),
    ensures
        *final(asset) == (CoreAsset {
            owner: new_owner,
            freeze_delegate: Some(
                FreezeDelegate { authority: DelegateAuthority::Owner, frozen: false },
            ),
            transfer_delegate: Some(TransferDelegate { authority: DelegateAuthority::Owner }),
            ..*old(asset)
        }),
{
    if asset.is_frozen() {
        asset.set_frozen(record_address, false);
    }
    asset.transfer(record_address, new_owner);
}

} // verus!
