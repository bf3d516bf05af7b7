//! A verified settlement engine for time-boxed English auctions of
//! uniquely-identified digital assets recorded on a shared ledger.
//!
//! A seller lists an asset from a whitelisted collection, bidders escrow
//! funds into a shared vault, and the auction settles atomically once its
//! time window closes: the highest bidder receives the asset, the seller
//! receives the proceeds minus a protocol fee, and the fee goes to a
//! treasury. The ledger platform and the external asset registry are
//! modelled explicitly as plain data (account balances, delegation state),
//! so every rule of the lifecycle — whitelisting, listing, bidding,
//! cancellation, settlement, and the asset lock protocol — is verified.

pub mod asset;
pub mod auction;
pub mod bank;
pub mod config;
pub mod lock;
pub mod engine;
pub mod errors;
pub mod fees;
