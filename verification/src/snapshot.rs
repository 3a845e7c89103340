//! What is kept of the marketplace across a restart.

use sr_std::prelude::Vec;
use vstd::prelude::*;
use crate::ledger::LedgerState;
use crate::market::MarketState;
use crate::registry::{table_of, valid_listings, RegistryState};
use crate::types::{AccountId, Listing, Offering};

verus! {

/// The durable part of the marketplace in plain values: the listings on
/// offer, the number of listing identifiers handed out, every offering made,
/// and the whitelisted affiliates. The number of offerings made is the length
/// of `offerings`.
#[derive(Clone, Debug, PartialEq, Eq)]
pub struct Snapshot {
    /// The listings on offer, in the order of their identifiers.
    pub listings: Vec<Listing>,
    /// How many listing identifiers have been handed out.
    pub listings_issued: u64,
    /// Every offering made, in the order of their identifiers.
    pub offerings: Vec<Offering>,
    /// The whitelisted affiliates, in any order.
    pub affiliates: Vec<AccountId>,
}

impl Snapshot {
    /// Whether the snapshot describes a marketplace: the listings stand in
    /// the order of their identifiers, which are among those handed out, and
    /// the offerings are numbered from 1 without a gap and refund no more than
    /// they escrow.
    pub open spec fn valid(&self) -> bool {
        &&& valid_listings(self.listings@, self.listings_issued)
        &&& (LedgerState { offerings: self.offerings@ }).wf()
    }

    /// The state that the snapshot describes.
    pub open spec fn state(&self) -> MarketState {
        MarketState {
            registry: RegistryState {
                listings: table_of(self.listings@),
                issued: self.listings_issued as nat,
            },
            ledger: LedgerState { offerings: self.offerings@ },
            affiliates: self.affiliates@.to_set(),
            events: Seq::empty(),
        }
    }
}

/// A copy of `items`.
pub(crate) fn copied<T: Copy>(items: &Vec<T>) -> (copy: Vec<T>)
    ensures
        copy@ == items@,
{
    let mut copy: Vec<T> = Vec::new();
    let mut i: usize = 0;
    while i < items.len()
        invariant
            i <= items.len(),
            copy@ == items@.take(i as int),
        decreases items.len() - i,
    {
        copy.push(items[i]);
        assert(items@.take(i + 1) =~= items@.take(i as int).push(items@[i as int]));
        i += 1;
    }
    assert(items@.take(items.len() as int) =~= items@);
    copy
}

} // verus!
