use vstd::prelude::*;

verus! {

/// Who currently controls a delegation on an asset: the asset's owner, or
/// a fixed third-party address (for a listed asset, the auction record's
/// own derived address).
#[derive(Clone, Copy, Debug, PartialEq, Eq, Structural)]
pub enum DelegateAuthority {
    Owner,
    Address { address: u64 },
}

/// The freeze delegation on an asset: whoever holds its authority may
/// freeze and thaw the asset; while frozen the asset cannot move.
#[derive(Clone, Copy, Debug, PartialEq, Eq, Structural)]
pub struct FreezeDelegate {
    pub authority: DelegateAuthority,
    pub frozen: bool,
}

/// The transfer delegation on an asset: whoever holds its authority may
/// move the asset to a new owner.
#[derive(Clone, Copy, Debug, PartialEq, Eq, Structural)]
pub struct TransferDelegate {
    pub authority: DelegateAuthority,
}

/// Whether `caller` controls a delegation with the given authority on an
/// asset owned by `owner`.
pub open spec fn controls(authority: DelegateAuthority, caller: u64, owner: u64) -> bool {
    match authority {
        DelegateAuthority::Owner => caller == owner,
        DelegateAuthority::Address { address } => caller == address,
    }
}

/// An asset of the external registry, as the engine reads it: its current
/// owner, the collection it belongs to (its update authority), and the two
/// delegations the lock protocol works with.
///
/// The registry's rules are modelled by the methods' contracts: only the
/// freeze authority toggles the frozen flag, only the owner adds or removes
/// a delegation, removal demands a thawed asset, and a transfer demands a
/// thawed asset and returns both delegations to owner control.
#[derive(Clone, Copy, Debug, PartialEq, Eq)]
pub struct CoreAsset {
    /// The asset's identity on the ledger.
    pub address: u64,
    /// The account that currently owns the asset.
    pub owner: u64,
    /// The collection whose update authority governs the asset.
    pub collection: u64,
    pub freeze_delegate: Option<FreezeDelegate>,
    pub transfer_delegate: Option<TransferDelegate>,
}

impl CoreAsset {
    /// A frozen asset cannot move.
    pub open spec fn spec_frozen(self) -> bool {
        self.freeze_delegate matches Some(fd) && fd.frozen
    }

    /// The locked state the auction protocol establishes on listing: the
    /// asset is frozen and both delegations answer only to
    /// `authority_address`, so nobody else can thaw or move it.
    pub open spec fn locked_by(self, authority_address: u64) -> bool {
        &&& self.freeze_delegate matches Some(fd)
            && fd.authority == (DelegateAuthority::Address { address: authority_address })
            && fd.frozen
        &&& self.transfer_delegate matches Some(td)
            && td.authority == (DelegateAuthority::Address { address: authority_address })
    }

    /// Whether `caller` may move the asset right now: it must be thawed,
    /// and the caller must be the owner or hold the transfer delegation.
    pub open spec fn spec_can_transfer(self, caller: u64) -> bool {
        &&& !self.spec_frozen()
        &&& (caller == self.owner
            || (self.transfer_delegate matches Some(td) && controls(td.authority, caller, self.owner)))
    }

    /// A fresh asset: owned, in a collection, with no delegations.
    pub fn new(address: u64, owner: u64, collection: u64) -> (r: CoreAsset)
        ensures
            r == (CoreAsset {
                address,
                owner,
                collection,
                freeze_delegate: None,
                transfer_delegate: None,
            }),
    {
        CoreAsset { address, owner, collection, freeze_delegate: None, transfer_delegate: None }
    }

    pub fn is_frozen(&self) -> (r: bool)
        ensures
            r == self.spec_frozen(),
    {
        match self.freeze_delegate {
            Some(fd) => fd.frozen,
            None => false,
        }
    }

    pub fn can_transfer(&self, caller: u64) -> (r: bool)
        ensures
            r == self.spec_can_transfer(caller),
    {
        if self.is_frozen() {
            return false;
        }
        if caller == self.owner {
            return true;
        }
        match self.transfer_delegate {
            Some(td) => match td.authority {
                DelegateAuthority::Owner => caller == self.owner,
                DelegateAuthority::Address { address } => caller == address,
            },
            None => false,
        }
    }

    /// The owner installs a freeze delegation on an asset that has none.
    pub fn add_freeze_delegate(&mut self, caller: u64, delegate: FreezeDelegate)
        requires
            caller == old(self).owner,
            old(self).freeze_delegate is None,
        ensures
            *final(self) == (CoreAsset { freeze_delegate: Some(delegate), ..*old(self) }),
    {
        self.freeze_delegate = Some(delegate);
    }

    /// The owner hands an owner-controlled freeze delegation to a new
    /// authority; the frozen state is untouched.
    pub fn approve_freeze_authority(&mut self, caller: u64, new_authority: u64)
        requires
            caller == old(self).owner,
            old(self).freeze_delegate matches Some(fd) && fd.authority == DelegateAuthority::Owner,
        ensures
            *final(self) == (CoreAsset {
                freeze_delegate: Some(FreezeDelegate {
                    authority: DelegateAuthority::Address { address: new_authority },
                    frozen: old(self).freeze_delegate->Some_0.frozen,
                }),
                ..*old(self)
            }),
    {
        let frozen = match self.freeze_delegate {
            Some(fd) => fd.frozen,
            None => false,
        };
        self.freeze_delegate = Some(FreezeDelegate {
            authority: DelegateAuthority::Address { address: new_authority },
            frozen,
        });
    }

    /// The freeze authority freezes or thaws the asset.
    pub fn set_frozen(&mut self, caller: u64, frozen: bool)
        requires
            old(self).freeze_delegate matches Some(fd)
                && controls(fd.authority, caller, old(self).owner),
        ensures
            *final(self) == (CoreAsset {
                freeze_delegate: Some(FreezeDelegate {
                    authority: old(self).freeze_delegate->Some_0.authority,
                    frozen,
                }),
                ..*old(self)
            }),
    {
        let authority = match self.freeze_delegate {
            Some(fd) => fd.authority,
            None => DelegateAuthority::Owner,
        };
        self.freeze_delegate = Some(FreezeDelegate { authority, frozen });
    }

    /// The owner removes the freeze delegation; the registry refuses this
    /// while the asset is frozen, which is why the release protocol must
    /// thaw first.
    pub fn remove_freeze_delegate(&mut self, caller: u64)
        requires
            caller == old(self).owner,
            old(self).freeze_delegate is Some,
            !old(self).spec_frozen(),
        ensures
            *final(self) == (CoreAsset { freeze_delegate: None, ..*old(self) }),
    {
        self.freeze_delegate = None;
    }

    /// The owner installs a transfer delegation on an asset that has none.
    pub fn add_transfer_delegate(&mut self, caller: u64, delegate: TransferDelegate)
        requires
            caller == old(self).owner,
            old(self).transfer_delegate is None,
        ensures
            *final(self) == (CoreAsset { transfer_delegate: Some(delegate), ..*old(self) }),
    {
        self.transfer_delegate = Some(delegate);
    }

    /// The owner hands an owner-controlled transfer delegation to a new
    /// authority.
    pub fn approve_transfer_authority(&mut self, caller: u64, new_authority: u64)
        requires
            caller == old(self).owner,
            old(self).transfer_delegate matches Some(td)
                && td.authority == DelegateAuthority::Owner,
        ensures
            *final(self) == (CoreAsset {
                transfer_delegate: Some(TransferDelegate {
                    authority: DelegateAuthority::Address { address: new_authority },
                }),
                ..*old(self)
            }),
    {
        self.transfer_delegate = Some(TransferDelegate {
            authority: DelegateAuthority::Address { address: new_authority },
        });
    }

    /// The current transfer authority gives its control back to the owner.
    pub fn revoke_transfer_authority(&mut self, caller: u64)
        requires
            old(self).transfer_delegate matches Some(td)
                && controls(td.authority, caller, old(self).owner),
        ensures
            *final(self) == (CoreAsset {
                transfer_delegate: Some(TransferDelegate { authority: DelegateAuthority::Owner }),
                ..*old(self)
            }),
    {
        self.transfer_delegate = Some(TransferDelegate { authority: DelegateAuthority::Owner });
    }

    /// The owner removes the transfer delegation.
    pub fn remove_transfer_delegate(&mut self, caller: u64)
        requires
            caller == old(self).owner,
            old(self).transfer_delegate is Some,
        ensures
            *final(self) == (CoreAsset { transfer_delegate: None, ..*old(self) }),
    {
        self.transfer_delegate = None;
    }

    /// Moves the asset to a new owner. Only a thawed asset moves, only the
    /// owner or the transfer authority moves it, and the move returns both
    /// delegations to owner control.
    pub fn transfer(&mut self, caller: u64, new_owner: u64)
        requires
            old(self).spec_can_transfer(caller),
        ensures
            *final(self) == (CoreAsset {
                owner: new_owner,
                freeze_delegate: if old(self).freeze_delegate is Some {
                    Some(FreezeDelegate { authority: DelegateAuthority::Owner, frozen: false })
                } else {
                    None
                },
                transfer_delegate: if old(self).transfer_delegate is Some {
                    Some(TransferDelegate { authority: DelegateAuthority::Owner })
                } else {
                    None
                },
                ..*old(self)
            }),
    {
        self.owner = new_owner;
        if self.freeze_delegate.is_some() {
            self.freeze_delegate = Some(FreezeDelegate {
                authority: DelegateAuthority::Owner,
                frozen: false,
            });
        }
        if self.transfer_delegate.is_some() {
            self.transfer_delegate = Some(TransferDelegate {
                authority: DelegateAuthority::Owner,
            });
        }
    }
}

} // verus!
