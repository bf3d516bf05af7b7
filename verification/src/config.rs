use vstd::prelude::*;

use crate::errors::AuctionErrors;

verus! {

/// The basis-point denominator: a fee rate of 10000 basis points is 100%.
pub const BPS_DENOMINATOR: u16 = 10000;

/// Global protocol parameters, created once by the admin and immutable
/// afterwards.
///
/// The vault is the single shared escrow account holding every outstanding
/// bid, and the treasury receives the protocol fee at settlement. Both are
/// plain account identities here; on the platform they are derived,
/// program-owned addresses, so no outside party can sign for them.
#[derive(Clone, Copy, Debug, PartialEq, Eq, Structural)]
pub struct Config {
    /// Distinguishes protocol instances.
    pub seed: u32,
    /// The only identity allowed to whitelist collections.
    pub admin: u64,
    /// Protocol fee in basis points, at most [`BPS_DENOMINATOR`].
    pub fee_bps: u16,
    /// Smallest allowed auction duration, in minutes.
    pub min_duration_minutes: u32,
    /// Largest allowed auction duration, in minutes.
    pub max_duration_minutes: u32,
    /// The shared escrow account where bids rest.
    pub vault: u64,
    /// The account receiving protocol fees.
    pub treasury: u64,
}

impl Config {
    /// The configuration invariant: a non-empty duration range, a fee rate
    /// that is a genuine fraction, and distinct vault and treasury accounts.
    pub open spec fn wf(self) -> bool {
        &&& self.max_duration_minutes > self.min_duration_minutes
        &&& self.fee_bps <= BPS_DENOMINATOR
        &&& self.vault != self.treasury
    }

    /// Creates the protocol configuration, refusing an empty duration range.
    ///
    /// The fee-rate bound and the distinctness of vault and treasury are
    /// the platform's to guarantee when it allocates the two derived
    /// accounts, so they are preconditions rather than checked errors.
    pub fn initialize(
        seed: u32,
        admin: u64,
        fee_bps: u16,
        min_duration_minutes: u32,
        max_duration_minutes: u32,
        vault: u64,
        treasury: u64,
    ) -> (r: Result<Config, AuctionErrors>)
        requires
            fee_bps <= BPS_DENOMINATOR,
            vault != treasury,
        ensures
            r is Ok <==> max_duration_minutes > min_duration_minutes,
            r matches Err(e) ==> e == AuctionErrors::InvalidMinMaxDuration,
            r matches Ok(c) ==> c == (Config {
                seed,
                admin,
                fee_bps,
                min_duration_minutes,
                max_duration_minutes,
                vault,
                treasury,
            }) && c.wf(),
    {
        if max_duration_minutes <= min_duration_minutes {
            return Err(AuctionErrors::InvalidMinMaxDuration);
        }
        Ok(Config { seed, admin, fee_bps, min_duration_minutes, max_duration_minutes, vault, treasury })
    }
}

} // verus!
