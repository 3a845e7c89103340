//! The offering ledger: every offering made, in the order of its identifier.

use sr_std::prelude::Vec;
use vstd::prelude::*;
use crate::auth::authorize;
use crate::snapshot::copied;
use crate::types::{
    AccountId,
    Amount,
    BlockHeight,
    Error,
    ListingId,
    OfferId,
    Offering,
    OfferingStatus,
};

verus! {

/// What the ledger holds: the offerings in the order in which they were made.
/// One counter numbers the offerings of all listings, so the offering with
/// identifier `n` is the `n`-th of the sequence.
pub struct LedgerState {
    pub offerings: Seq<Offering>,
}

impl LedgerState {
    /// The ledger before the first offering.
    pub open spec fn empty() -> Self {
        LedgerState { offerings: Seq::empty() }
    }

    /// Every offering stands at the place that its identifier names, and none
    /// refunds more than it escrows.
    pub open spec fn wf(self) -> bool {
        &&& self.offerings.len() <= u64::MAX
        &&& forall|i: int|
            0 <= i < self.offerings.len() ==> (#[trigger] self.offerings[i]).offer_id == i + 1
                && self.offerings[i].wf()
    }

    /// How many offerings have been made.
    pub open spec fn count(self) -> nat {
        self.offerings.len()
    }

    /// The identifier that the next offering gets.
    pub open spec fn next_id(self) -> OfferId {
        (self.offerings.len() + 1) as OfferId
    }

    /// Whether offering `offer_id` exists and belongs to listing `listing_id`.
    pub open spec fn contains(self, listing_id: ListingId, offer_id: OfferId) -> bool {
        1 <= offer_id <= self.offerings.len() && self.offerings[offer_id - 1].listing_id
            == listing_id
    }

    /// The offering `offer_id` of listing `listing_id`, if there is one.
    pub open spec fn get(self, listing_id: ListingId, offer_id: OfferId) -> Option<Offering> {
        if self.contains(listing_id, offer_id) {
            Some(self.offerings[offer_id - 1])
        } else {
            None
        }
    }

    /// The offering that `buyer` makes with the given terms: newly created,
    /// with nothing refunded yet.
    pub open spec fn fresh(
        self,
        listing_id: ListingId,
        buyer: AccountId,
        affiliate: AccountId,
        arbitrator: AccountId,
        value: Amount,
        commission: Amount,
        finalizes_at: BlockHeight,
    ) -> Offering {
        Offering {
            listing_id,
            offer_id: self.next_id(),
            buyer,
            affiliate,
            arbitrator,
            value,
            commission,
            refund: 0,
            finalizes_at,
            status: OfferingStatus::Created,
        }
    }

    /// The ledger after `offering` has been appended.
    pub open spec fn append(self, offering: Offering) -> Self {
        LedgerState { offerings: self.offerings.push(offering) }
    }

    /// Why `caller` may not rule on the offering `offer_id` of listing
    /// `listing_id` with the given refund, or `None` if the ruling is in
    /// order. The first of these that applies is the reason: there is no such
    /// offering; `caller` is not its arbitrator; the refund exceeds the
    /// escrowed value; the offering's status does not admit a ruling.
    pub open spec fn ruling_refusal(
        self,
        caller: AccountId,
        listing_id: ListingId,
        offer_id: OfferId,
        refund: Amount,
    ) -> Option<Error> {
        if !self.contains(listing_id, offer_id) {
            Some(Error::NotFound)
        } else {
            let offering = self.offerings[offer_id - 1];
            if caller != offering.arbitrator {
                Some(Error::Unauthorized)
            } else if refund > offering.value {
                Some(Error::RefundTooHigh)
            } else if !offering.status.admits_ruling() {
                Some(Error::InvalidState)
            } else {
                None
            }
        }
    }

    /// The ledger after `refund` has been recorded on offering `offer_id`.
    pub open spec fn record_refund(self, offer_id: OfferId, refund: Amount) -> Self
        recommends
            1 <= offer_id <= self.offerings.len(),
    {
        LedgerState {
            offerings: self.offerings.update(
                offer_id - 1,
                Offering { refund, ..self.offerings[offer_id - 1] },
            ),
        }
    }

    /// The ledger after `caller` has asked for a ruling: with the refund
    /// recorded if the ruling was in order, unchanged if not.
    pub open spec fn rule(
        self,
        caller: AccountId,
        listing_id: ListingId,
        offer_id: OfferId,
        refund: Amount,
    ) -> Self {
        if self.ruling_refusal(caller, listing_id, offer_id, refund) is None {
            self.record_refund(offer_id, refund)
        } else {
            self
        }
    }
}

/// Every offering made, numbered from 1 in the order of arrival.
pub struct OfferingLedger {
    items: Vec<Offering>,
}

impl View for OfferingLedger {
    type V = LedgerState;

    closed spec fn view(&self) -> LedgerState {
        LedgerState { offerings: self.items@ }
    }
}

impl OfferingLedger {
    #[verifier::type_invariant]
    pub(crate) closed spec fn inv(self) -> bool {
        &&& self.items@.len() <= u64::MAX
        &&& forall|i: int|
            0 <= i < self.items@.len() ==> (#[trigger] self.items@[i]).offer_id == i + 1
                && self.items@[i].wf()
    }

    /// The invariant, told of the view.
    pub(crate) proof fn lemma_view_wf(self)
        requires
            self.inv(),
        ensures
            self@.wf(),
    {
    }

    /// The ledger before the first offering.
    pub fn new() -> (ledger: Self)
        ensures
            ledger@ == LedgerState::empty(),
    {
        let ledger = OfferingLedger { items: Vec::new() };
        assert(ledger@.offerings =~= Seq::<Offering>::empty());
        ledger
    }

    /// The ledger that holds `offerings`, if there can be one: each must
    /// stand at the place that its identifier names, and refund no more than
    /// it escrows.
    pub fn from_offerings(offerings: &Vec<Offering>) -> (ledger: Option<Self>)
        ensures
            ledger is Some <==> (LedgerState { offerings: offerings@ }).wf(),
            ledger matches Some(l) ==> l@.offerings == offerings@,
    {
        let count: usize = offerings.len();
        let mut i: usize = 0;
        while i < count
            invariant
                i <= count,
                count == offerings.len(),
                forall|j: int|
                    0 <= j < i ==> (#[trigger] offerings@[j]).offer_id == j + 1
                        && offerings@[j].wf(),
            decreases count - i,
        {
            let offering = offerings[i];
            if offering.offer_id != i as u64 + 1 || offering.refund > offering.value {
                return None;
            }
            i += 1;
        }
        Some(OfferingLedger { items: copied(offerings) })
    }

    /// The offerings, in the order of their identifiers.
    pub fn offerings(&self) -> (offerings: Vec<Offering>)
        ensures
            offerings@ == self@.offerings,
            self@.wf(),
    {
        proof {
            use_type_invariant(self);
        }
        copied(&self.items)
    }

    /// How many offerings have been made.
    pub fn count(&self) -> (count: u64)
        ensures
            count == self@.count(),
            self@.wf(),
    {
        proof {
            use_type_invariant(self);
        }
        self.items.len() as u64
    }

    /// The offering `offer_id` of listing `listing_id`, if there is one.
    pub fn get(&self, listing_id: ListingId, offer_id: OfferId) -> (found: Option<Offering>)
        ensures
            found == self@.get(listing_id, offer_id),
            self@.wf(),
    {
        proof {
            use_type_invariant(self);
        }
        let count: usize = self.items.len();
        if offer_id == 0 || offer_id > count as u64 {
            return None;
        }
        let offering = self.items[(offer_id - 1) as usize];
        if offering.listing_id == listing_id {
            Some(offering)
        } else {
            None
        }
    }

    /// Appends the offering that `buyer` makes on listing `listing_id`, and
    /// returns its identifier. Asks that the counter has not reached the end
    /// of its range.
    pub fn open(
        &mut self,
        listing_id: ListingId,
        buyer: AccountId,
        affiliate: AccountId,
        arbitrator: AccountId,
        value: Amount,
        commission: Amount,
        finalizes_at: BlockHeight,
    ) -> (id: OfferId)
        requires
            old(self)@.count() < u64::MAX,
        ensures
            id == old(self)@.next_id(),
            final(self)@ == old(self)@.append(
                old(self)@.fresh(
                    listing_id,
                    buyer,
                    affiliate,
                    arbitrator,
                    value,
                    commission,
                    finalizes_at,
                ),
            ),
            final(self)@.wf(),
    {
        proof {
            use_type_invariant(&*self);
        }
        let id: OfferId = self.items.len() as u64 + 1;
        let offering = Offering {
            listing_id,
            offer_id: id,
            buyer,
            affiliate,
            arbitrator,
            value,
            commission,
            refund: 0,
            finalizes_at,
            status: OfferingStatus::Created,
        };
        let mut items: Vec<Offering> = Vec::new();
        std::mem::swap(&mut items, &mut self.items);
        items.push(offering);
        self.items = items;
        id
    }

    /// Records `refund` on the offering `offer_id` of listing `listing_id` at
    /// the request of `caller`, and returns the offering as it stands then.
    /// The request is refused, and nothing recorded, for the first reason
    /// that applies: there is no such offering (`NotFound`), `caller` is not
    /// its arbitrator (`Unauthorized`), `refund` exceeds its value
    /// (`RefundTooHigh`), its status is `Accepted` (`InvalidState`).
    pub fn rule(
        &mut self,
        caller: AccountId,
        listing_id: ListingId,
        offer_id: OfferId,
        refund: Amount,
    ) -> (ruled: Result<Offering, Error>)
        ensures
            final(self)@ == old(self)@.rule(caller, listing_id, offer_id, refund),
            final(self)@.wf(),
            match ruled {
                Ok(offering) => old(self)@.ruling_refusal(caller, listing_id, offer_id, refund)
                    is None && final(self)@.get(listing_id, offer_id) == Some(offering)
                    && offering.refund == refund,
                Err(reason) => old(self)@.ruling_refusal(caller, listing_id, offer_id, refund)
                    == Some(reason),
            },
    {
        proof {
            use_type_invariant(&*self);
        }
        let count: usize = self.items.len();
        if offer_id == 0 || offer_id > count as u64 {
            return Err(Error::NotFound);
        }
        let k: usize = (offer_id - 1) as usize;
        let offering = self.items[k];
        if offering.listing_id != listing_id {
            return Err(Error::NotFound);
        }
        if authorize(caller, offering.arbitrator).is_err() {
            return Err(Error::Unauthorized);
        }
        if refund > offering.value {
            return Err(Error::RefundTooHigh);
        }
        if !offering.status.admits_ruling() {
            return Err(Error::InvalidState);
        }
        let ruled = Offering {
            listing_id: offering.listing_id,
            offer_id: offering.offer_id,
            buyer: offering.buyer,
            affiliate: offering.affiliate,
            arbitrator: offering.arbitrator,
            value: offering.value,
            commission: offering.commission,
            refund,
            finalizes_at: offering.finalizes_at,
            status: offering.status,
        };
        let mut items: Vec<Offering> = Vec::new();
        std::mem::swap(&mut items, &mut self.items);
        items.set(k, ruled);
        self.items = items;
        Ok(ruled)
    }
}

} // verus!
