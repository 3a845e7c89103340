//! Escrow and dispute resolution for a peer-to-peer marketplace.
//!
//! Sellers post listings backed by a deposit, buyers place offerings that
//! escrow a value and promise a commission to a whitelisted affiliate, and the
//! arbitrator named in an offering rules on how the escrowed value is split.
//! The engine keeps the ledger state and decides what is announced and which
//! payout is due; moving funds and delivering notifications is left to the
//! caller.

pub mod auth;
pub mod dispatch;
pub mod laws;
pub mod ledger;
pub mod market;
pub mod registry;
pub mod snapshot;
pub mod types;
pub mod whitelist;

pub use auth::authorize;
pub use dispatch::{Call, Receipt};
pub use ledger::{LedgerState, OfferingLedger};
pub use market::{MarketState, Marketplace};
pub use registry::{ListingRegistry, RegistryState};
pub use snapshot::Snapshot;
pub use types::{
    AccountId, Amount, BlockHeight, Error, Event, Listing, ListingId, MetadataRef, OfferId,
    Offering, OfferingStatus, PayoutPath, Ruling, Settlement,
};
pub use whitelist::AffiliateWhitelist;
