//! The records, decisions, failures and notifications of the marketplace.

use vstd::prelude::*;

verus! {

/// An authenticated account identity.
pub type AccountId = u64;

/// An amount of the native currency.
pub type Amount = u128;

/// A block height.
pub type BlockHeight = u64;

/// The identifier of a listing; the first listing gets 1.
pub type ListingId = u64;

/// The identifier of an offering; the first offering gets 1.
pub type OfferId = u64;

/// A content-addressed pointer to off-chain data. The engine stores and
/// forwards it and never looks inside.
pub type MetadataRef = [u8; 32];

/// Where an offering stands in its life.
#[derive(Clone, Copy, Debug, PartialEq, Eq, Structural)]
pub enum OfferingStatus {
    Undefined,
    Created,
    Accepted,
    Disputed,
}

impl OfferingStatus {
    /// The position of a status in the order `Undefined`, `Created`,
    /// `Accepted`, `Disputed`, along which an offering advances.
    pub open spec fn rank(self) -> nat {
        match self {
            OfferingStatus::Undefined => 0,
            OfferingStatus::Created => 1,
            OfferingStatus::Accepted => 2,
            OfferingStatus::Disputed => 3,
        }
    }

    /// Whether an arbitrator may rule on an offering in this status. An
    /// offering that is only accepted has no dispute to settle; every other
    /// status admits a ruling.
    pub open spec fn spec_admits_ruling(self) -> bool {
        self != OfferingStatus::Accepted
    }

    #[verifier::when_used_as_spec(spec_admits_ruling)]
    pub fn admits_ruling(self) -> (admitted: bool)
        ensures
            admitted == self.spec_admits_ruling(),
    {
        match self {
            OfferingStatus::Accepted => false,
            _ => true,
        }
    }
}

/// An arbitrator's decision: who receives the disputed value, and whether the
/// commission is paid out as well.
#[derive(Clone, Copy, Debug, PartialEq, Eq, Structural)]
pub enum Ruling {
    Seller,
    Buyer,
    ComAndSeller,
    ComAndBuyer,
}

/// The payout hook of the currency ledger that a ruling triggers.
#[derive(Clone, Copy, Debug, PartialEq, Eq, Structural)]
pub enum PayoutPath {
    RefundBuyer,
    PaySeller,
}

impl Ruling {
    /// Whether the ruling awards the commission to the affiliate. Without it
    /// the commission goes back to the listing's deposit.
    pub open spec fn spec_pays_commission(self) -> bool {
        self == Ruling::ComAndSeller || self == Ruling::ComAndBuyer
    }

    #[verifier::when_used_as_spec(spec_pays_commission)]
    pub fn pays_commission(self) -> (paid: bool)
        ensures
            paid == self.spec_pays_commission(),
    {
        match self {
            Ruling::ComAndSeller | Ruling::ComAndBuyer => true,
            Ruling::Seller | Ruling::Buyer => false,
        }
    }

    /// The payout hook that the ruling triggers: only `Buyer` takes the
    /// refund path, the three others pay the seller.
    pub open spec fn spec_payout_path(self) -> PayoutPath {
        if self == Ruling::Buyer {
            PayoutPath::RefundBuyer
        } else {
            PayoutPath::PaySeller
        }
    }

    #[verifier::when_used_as_spec(spec_payout_path)]
    pub fn payout_path(self) -> (path: PayoutPath)
        ensures
            path == self.spec_payout_path(),
    {
        match self {
            Ruling::Buyer => PayoutPath::RefundBuyer,
            _ => PayoutPath::PaySeller,
        }
    }
}

/// A seller's entry in the marketplace, backed by a deposit. Only the
/// deposit manager may withdraw it.
#[derive(Clone, Copy, Debug, PartialEq, Eq, Structural)]
pub struct Listing {
    pub id: ListingId,
    pub seller: AccountId,
    pub deposit: Amount,
    pub deposit_manager: AccountId,
}

/// A buyer's escrowed bid against a listing.
#[derive(Clone, Copy, Debug, PartialEq, Eq, Structural)]
pub struct Offering {
    pub listing_id: ListingId,
    pub offer_id: OfferId,
    pub buyer: AccountId,
    pub affiliate: AccountId,
    pub arbitrator: AccountId,
    pub value: Amount,
    pub commission: Amount,
    pub refund: Amount,
    pub finalizes_at: BlockHeight,
    pub status: OfferingStatus,
}

impl Offering {
    /// The refund never exceeds the escrowed value.
    pub open spec fn wf(self) -> bool {
        self.refund <= self.value
    }

    /// The part of the escrowed value that is left for the seller once the
    /// refund has gone to the buyer.
    pub open spec fn spec_seller_share(&self) -> Amount
        recommends
            self.wf(),
    {
        (self.value - self.refund) as Amount
    }

    #[verifier::when_used_as_spec(spec_seller_share)]
    pub fn seller_share(&self) -> (share: Amount)
        requires
            self.wf(),
        ensures
            share == self.spec_seller_share(),
            share + self.refund == self.value,
    {
        self.value - self.refund
    }
}

/// Why an operation was refused. A refused operation changes nothing.
#[derive(Clone, Copy, Debug, PartialEq, Eq, Structural)]
pub enum Error {
    /// The caller is not the deposit manager or arbitrator that the
    /// operation is reserved to.
    Unauthorized,
    /// The listing or offering referred to does not exist.
    NotFound,
    /// The offering's status does not admit the operation.
    InvalidState,
    /// The requested refund exceeds the escrowed value.
    RefundTooHigh,
    /// The affiliate is not on the whitelist.
    AffiliateNotAllowed,
}

/// A notification for outside observers.
#[derive(Clone, Copy, Debug, PartialEq, Eq)]
pub enum Event {
    /// affiliate, metadata
    AffiliateAdded(AccountId, MetadataRef),
    /// affiliate, metadata
    AffiliateRemoved(AccountId, MetadataRef),
    /// caller, listing, metadata
    ListingCreated(AccountId, ListingId, MetadataRef),
    /// listing, offering, metadata
    ListingData(ListingId, OfferId, MetadataRef),
    /// caller, listing, metadata
    ListingUpdated(AccountId, ListingId, MetadataRef),
    /// target, listing, metadata
    ListingWithdrawn(AccountId, ListingId, MetadataRef),
    /// caller, metadata
    MarketplaceData(AccountId, MetadataRef),
    /// caller, listing, number of offerings made so far, metadata
    OfferingCreated(AccountId, ListingId, u64, MetadataRef),
    /// listing, offering, metadata
    OfferingData(ListingId, OfferId, MetadataRef),
    /// arbitrator, listing, offering, metadata, ruling
    OfferRuling(AccountId, ListingId, OfferId, MetadataRef, Ruling),
}

/// What a ruling hands to the currency ledger: the hook to invoke and the
/// amounts that are due.
#[derive(Clone, Copy, Debug, PartialEq, Eq, Structural)]
pub struct Settlement {
    pub path: PayoutPath,
    pub listing_id: ListingId,
    pub offer_id: OfferId,
    /// The refund, due to the buyer.
    pub to_buyer: Amount,
    /// The rest of the escrowed value, due to the seller.
    pub to_seller: Amount,
    /// The commission where the ruling awards it, else zero.
    pub to_affiliate: Amount,
}

} // verus!
