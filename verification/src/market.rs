//! The marketplace engine: the operations that callers submit, applied one at
//! a time to the registry, the ledger and the whitelist.

use sr_std::prelude::Vec;
use vstd::prelude::*;
use crate::ledger::{LedgerState, OfferingLedger};
use crate::registry::{ListingRegistry, RegistryState};
use crate::snapshot::Snapshot;
use crate::types::{
    AccountId,
    Amount,
    BlockHeight,
    Error,
    Event,
    Listing,
    ListingId,
    MetadataRef,
    OfferId,
    Offering,
    Ruling,
    Settlement,
};
use crate::whitelist::AffiliateWhitelist;

verus! {

/// The state of the marketplace: the listings, the offerings, the whitelisted
/// affiliates, and the notifications that wait to be delivered, oldest first.
pub struct MarketState {
    pub registry: RegistryState,
    pub ledger: LedgerState,
    pub affiliates: Set<AccountId>,
    pub events: Seq<Event>,
}

impl MarketState {
    /// The marketplace before anything has happened.
    pub open spec fn empty() -> Self {
        MarketState {
            registry: RegistryState::empty(),
            ledger: LedgerState::empty(),
            affiliates: Set::empty(),
            events: Seq::empty(),
        }
    }

    /// The registry and the ledger are well formed.
    pub open spec fn wf(self) -> bool {
        self.registry.wf() && self.ledger.wf()
    }

    /// The state with one more notification waiting.
    pub open spec fn announce(self, event: Event) -> Self {
        MarketState { events: self.events.push(event), ..self }
    }

    /// The state after `caller` has posted a listing.
    pub open spec fn create_listing(
        self,
        caller: AccountId,
        deposit: Amount,
        deposit_manager: AccountId,
        metadata_ref: MetadataRef,
    ) -> Self {
        MarketState {
            registry: self.registry.create(caller, deposit, deposit_manager),
            ..self
        }.announce(Event::ListingCreated(caller, self.registry.next_id(), metadata_ref))
    }

    /// The state after `caller` has updated listing `listing_id`: the deposit
    /// is raised where the listing exists, and the update is announced in
    /// either case.
    pub open spec fn update_listing(
        self,
        caller: AccountId,
        listing_id: ListingId,
        metadata_ref: MetadataRef,
        additional_deposit: Amount,
    ) -> Self {
        MarketState {
            registry: self.registry.add_deposit(listing_id, additional_deposit),
            ..self
        }.announce(Event::ListingUpdated(caller, listing_id, metadata_ref))
    }

    /// The state after `caller` has asked to withdraw listing `listing_id` in
    /// favour of `target`.
    pub open spec fn withdraw_listing(
        self,
        caller: AccountId,
        listing_id: ListingId,
        target: AccountId,
        metadata_ref: MetadataRef,
    ) -> Self {
        if self.registry.withdrawal(caller, listing_id) is Ok {
            MarketState {
                registry: self.registry.withdraw(caller, listing_id),
                ..self
            }.announce(Event::ListingWithdrawn(target, listing_id, metadata_ref))
        } else {
            self
        }
    }

    /// The state after `affiliate` has been put on the whitelist.
    pub open spec fn add_affiliate(self, affiliate: AccountId, metadata_ref: MetadataRef) -> Self {
        MarketState { affiliates: self.affiliates.insert(affiliate), ..self }.announce(
            Event::AffiliateAdded(affiliate, metadata_ref),
        )
    }

    /// The state after `affiliate` has been taken off the whitelist.
    pub open spec fn remove_affiliate(
        self,
        affiliate: AccountId,
        metadata_ref: MetadataRef,
    ) -> Self {
        MarketState { affiliates: self.affiliates.remove(affiliate), ..self }.announce(
            Event::AffiliateRemoved(affiliate, metadata_ref),
        )
    }

    /// What an offer that names `affiliate` gets: the identifier of the new
    /// offering if the affiliate is whitelisted, else `AffiliateNotAllowed`.
    pub open spec fn offer_outcome(self, affiliate: AccountId) -> Result<OfferId, Error> {
        if self.affiliates.contains(affiliate) {
            Ok(self.ledger.next_id())
        } else {
            Err(Error::AffiliateNotAllowed)
        }
    }

    /// The state after `caller` has made an offer on listing `listing_id`.
    pub open spec fn make_offer(
        self,
        caller: AccountId,
        listing_id: ListingId,
        metadata_ref: MetadataRef,
        finalizes_at: BlockHeight,
        affiliate: AccountId,
        commission: Amount,
        value: Amount,
        arbitrator: AccountId,
    ) -> Self {
        if self.affiliates.contains(affiliate) {
            MarketState {
                ledger: self.ledger.append(
                    self.ledger.fresh(
                        listing_id,
                        caller,
                        affiliate,
                        arbitrator,
                        value,
                        commission,
                        finalizes_at,
                    ),
                ),
                ..self
            }.announce(
                Event::OfferingCreated(caller, listing_id, self.ledger.next_id(), metadata_ref),
            )
        } else {
            self
        }
    }

    /// What `caller` gets for ruling on the offering `offer_id` of listing
    /// `listing_id`: the payout that is due, or the reason for the refusal.
    /// The refund goes to the buyer and the rest of the escrowed value to the
    /// seller; the commission goes to the affiliate where the ruling awards
    /// it.
    pub open spec fn ruling_outcome(
        self,
        caller: AccountId,
        listing_id: ListingId,
        offer_id: OfferId,
        ruling: Ruling,
        refund: Amount,
    ) -> Result<Settlement, Error> {
        match self.ledger.ruling_refusal(caller, listing_id, offer_id, refund) {
            Some(reason) => Err(reason),
            None => {
                let offering = self.ledger.offerings[offer_id - 1];
                Ok(
                    Settlement {
                        path: ruling.payout_path(),
                        listing_id,
                        offer_id,
                        to_buyer: refund,
                        to_seller: (offering.value - refund) as Amount,
                        to_affiliate: if ruling.pays_commission() {
                            offering.commission
                        } else {
                            0
                        },
                    },
                )
            },
        }
    }

    /// Whether the ruling, if it is in order and sends the commission back to
    /// the listing's deposit, leaves that deposit within the range of
    /// `Amount`.
    pub open spec fn ruling_fits(
        self,
        caller: AccountId,
        listing_id: ListingId,
        offer_id: OfferId,
        ruling: Ruling,
        refund: Amount,
    ) -> bool {
        self.ledger.ruling_refusal(caller, listing_id, offer_id, refund) is None
            && !ruling.pays_commission() ==> self.registry.deposit_fits(
            listing_id,
            self.ledger.offerings[offer_id - 1].commission,
        )
    }

    /// The state after `caller` has ruled on the offering `offer_id` of
    /// listing `listing_id`. A ruling that is in order records the refund on
    /// the offering, sends the commission back to the listing's deposit
    /// unless it awards it to the affiliate, and is announced; one that is
    /// refused changes nothing.
    pub open spec fn execute_ruling(
        self,
        caller: AccountId,
        listing_id: ListingId,
        offer_id: OfferId,
        metadata_ref: MetadataRef,
        ruling: Ruling,
        refund: Amount,
    ) -> Self {
        if self.ledger.ruling_refusal(caller, listing_id, offer_id, refund) is None {
            MarketState {
                registry: if ruling.pays_commission() {
                    self.registry
                } else {
                    self.registry.add_deposit(
                        listing_id,
                        self.ledger.offerings[offer_id - 1].commission,
                    )
                },
                ledger: self.ledger.record_refund(offer_id, refund),
                ..self
            }.announce(Event::OfferRuling(caller, listing_id, offer_id, metadata_ref, ruling))
        } else {
            self
        }
    }

    /// The state after `caller` has attached data to an offering: three
    /// notifications, for the listing, the offering and the marketplace.
    pub open spec fn add_data(
        self,
        caller: AccountId,
        listing_id: ListingId,
        offer_id: OfferId,
        metadata_ref: MetadataRef,
    ) -> Self {
        self.announce(Event::ListingData(listing_id, offer_id, metadata_ref)).announce(
            Event::OfferingData(listing_id, offer_id, metadata_ref),
        ).announce(Event::MarketplaceData(caller, metadata_ref))
    }

    /// The state after the waiting notifications have been handed out.
    pub open spec fn drained(self) -> Self {
        MarketState { events: Seq::empty(), ..self }
    }
}

/// The marketplace. Every operation takes the identity of its caller, which
/// has been authenticated before, and is applied whole or not at all: one
/// that is refused leaves the state as it was and announces nothing.
pub struct Marketplace {
    registry: ListingRegistry,
    ledger: OfferingLedger,
    whitelist: AffiliateWhitelist,
    events: Vec<Event>,
}

impl View for Marketplace {
    type V = MarketState;

    closed spec fn view(&self) -> MarketState {
        MarketState {
            registry: self.registry@,
            ledger: self.ledger@,
            affiliates: self.whitelist@,
            events: self.events@,
        }
    }
}

impl Marketplace {
    /// A marketplace in any state is well formed.
    proof fn lemma_wf(&self)
        requires
            self.registry.inv(),
            self.ledger.inv(),
        ensures
            self@.wf(),
    {
        self.registry.lemma_view_wf();
        self.ledger.lemma_view_wf();
    }

    /// A marketplace without listings, offerings or affiliates.
    pub fn new() -> (market: Self)
        ensures
            market@ == MarketState::empty(),
            market@.wf(),
    {
        Marketplace {
            registry: ListingRegistry::new(),
            ledger: OfferingLedger::new(),
            whitelist: AffiliateWhitelist::new(),
            events: Vec::new(),
        }
    }

    /// The marketplace that `snapshot` describes, with no notification
    /// waiting, if the snapshot is valid.
    pub fn restore(snapshot: &Snapshot) -> (market: Option<Self>)
        ensures
            market is Some <==> snapshot.valid(),
            market matches Some(m) ==> m@ == snapshot.state() && m@.wf(),
    {
        let registry = match ListingRegistry::from_parts(
            &snapshot.listings,
            snapshot.listings_issued,
        ) {
            Some(registry) => registry,
            None => {
                return None;
            },
        };
        let ledger = match OfferingLedger::from_offerings(&snapshot.offerings) {
            Some(ledger) => ledger,
            None => {
                return None;
            },
        };
        let market = Marketplace {
            registry,
            ledger,
            whitelist: AffiliateWhitelist::from_members(&snapshot.affiliates),
            events: Vec::new(),
        };
        proof {
            use_type_invariant(&market.registry);
            use_type_invariant(&market.ledger);
            market.lemma_wf();
            assert(market@.events =~= snapshot.state().events);
        }
        Some(market)
    }

    /// What is to be kept of the marketplace across a restart: everything but
    /// the notifications that wait.
    pub fn snapshot(&self) -> (snapshot: Snapshot)
        ensures
            snapshot.valid(),
            snapshot.state() == self@.drained(),
            self@.wf(),
    {
        let snapshot = Snapshot {
            listings: self.registry.listings(),
            listings_issued: self.registry.issued(),
            offerings: self.ledger.offerings(),
            affiliates: self.whitelist.members(),
        };
        snapshot
    }

    /// How many listings have been posted so far, withdrawn ones included.
    pub fn listing_count(&self) -> (count: u64)
        ensures
            count == self@.registry.issued,
            self@.wf(),
    {
        proof {
            use_type_invariant(&self.ledger);
            self.ledger.lemma_view_wf();
        }
        self.registry.issued()
    }

    /// How many offerings have been made so far.
    pub fn offering_count(&self) -> (count: u64)
        ensures
            count == self@.ledger.count(),
            self@.wf(),
    {
        proof {
            use_type_invariant(&self.registry);
            self.registry.lemma_view_wf();
        }
        self.ledger.count()
    }

    /// The listing `listing_id`, if it exists.
    pub fn listing(&self, listing_id: ListingId) -> (found: Option<Listing>)
        ensures
            found == self@.registry.get(listing_id),
            self@.wf(),
    {
        proof {
            use_type_invariant(&self.ledger);
            self.ledger.lemma_view_wf();
        }
        self.registry.get(listing_id)
    }

    /// The offering `offer_id` of listing `listing_id`, if it exists.
    pub fn offering(&self, listing_id: ListingId, offer_id: OfferId) -> (found: Option<Offering>)
        ensures
            found == self@.ledger.get(listing_id, offer_id),
            self@.wf(),
    {
        proof {
            use_type_invariant(&self.registry);
            self.registry.lemma_view_wf();
        }
        self.ledger.get(listing_id, offer_id)
    }

    /// Whether `affiliate` is on the whitelist. An account that was never
    /// added is not.
    pub fn is_allowed(&self, affiliate: AccountId) -> (allowed: bool)
        ensures
            allowed == self@.affiliates.contains(affiliate),
    {
        self.whitelist.is_allowed(affiliate)
    }

    /// Hands out the notifications that wait, oldest first, and empties the
    /// queue.
    pub fn take_events(&mut self) -> (events: Vec<Event>)
        ensures
            events@ == old(self)@.events,
            final(self)@ == old(self)@.drained(),
            final(self)@.wf(),
    {
        proof {
            use_type_invariant(&self.registry);
            use_type_invariant(&self.ledger);
            self.lemma_wf();
        }
        let mut events: Vec<Event> = Vec::new();
        std::mem::swap(&mut events, &mut self.events);
        events
    }

    /// Posts a listing of `caller` with the given deposit, and returns its
    /// identifier: one more than that of the listing posted before, 1 for the
    /// first. Announces `ListingCreated(caller, id, metadata_ref)`. Asks that
    /// the counter of listings has not reached the end of its range.
    pub fn create_listing(
        &mut self,
        caller: AccountId,
        deposit: Amount,
        deposit_manager: AccountId,
        metadata_ref: MetadataRef,
    ) -> (id: ListingId)
        requires
            old(self)@.registry.issued < u64::MAX,
        ensures
            id == old(self)@.registry.issued + 1,
            final(self)@.registry.get(id) == Some(Listing { id, seller: caller, deposit, deposit_manager }),
            final(self)@ == old(self)@.create_listing(
                caller,
                deposit,
                deposit_manager,
                metadata_ref,
            ),
            final(self)@.wf(),
    {
        proof {
            use_type_invariant(&self.ledger);
            self.ledger.lemma_view_wf();
        }
        let id: ListingId = self.registry.create(caller, deposit, deposit_manager);
        self.events.push(Event::ListingCreated(caller, id, metadata_ref));
        id
    }

    /// Adds `additional_deposit` to the deposit of listing `listing_id`, and
    /// announces `ListingUpdated(caller, listing_id, metadata_ref)`. Any
    /// caller may do so. Where there is no such listing, no deposit changes.
    /// Asks that the raised deposit stays within the range of `Amount`.
    pub fn update_listing(
        &mut self,
        caller: AccountId,
        listing_id: ListingId,
        metadata_ref: MetadataRef,
        additional_deposit: Amount,
    )
        requires
            old(self)@.registry.deposit_fits(listing_id, additional_deposit),
        ensures
            final(self)@ == old(self)@.update_listing(
                caller,
                listing_id,
                metadata_ref,
                additional_deposit,
            ),
            final(self)@.wf(),
    {
        proof {
            use_type_invariant(&self.ledger);
            self.ledger.lemma_view_wf();
        }
        self.registry.add_deposit(listing_id, additional_deposit);
        self.events.push(Event::ListingUpdated(caller, listing_id, metadata_ref));
    }

    /// Withdraws listing `listing_id` in favour of `target`, and returns the
    /// deposit that the currency ledger is to send there. Refused with
    /// `NotFound` where there is no such listing, and with `Unauthorized`
    /// where `caller` is not its deposit manager. A withdrawn listing is
    /// gone. Announces `ListingWithdrawn(target, listing_id, metadata_ref)`.
    pub fn withdraw_listing(
        &mut self,
        caller: AccountId,
        listing_id: ListingId,
        target: AccountId,
        metadata_ref: MetadataRef,
    ) -> (released: Result<Amount, Error>)
        ensures
            released == old(self)@.registry.withdrawal(caller, listing_id),
            final(self)@ == old(self)@.withdraw_listing(caller, listing_id, target, metadata_ref),
            final(self)@.wf(),
            old(self)@.registry.get(listing_id) matches Some(listing) && caller
                != listing.deposit_manager ==> released == Err::<Amount, Error>(
                Error::Unauthorized,
            ),
            released is Err ==> final(self)@ == old(self)@,
    {
        proof {
            use_type_invariant(&self.ledger);
            self.ledger.lemma_view_wf();
        }
        let released = self.registry.withdraw(caller, listing_id);
        if released.is_ok() {
            self.events.push(Event::ListingWithdrawn(target, listing_id, metadata_ref));
        }
        released
    }

    /// Puts `affiliate` on the whitelist, at the request of any caller, and
    /// announces `AffiliateAdded(affiliate, metadata_ref)`.
    pub fn add_affiliate(
        &mut self,
        caller: AccountId,
        affiliate: AccountId,
        metadata_ref: MetadataRef,
    )
        ensures
            final(self)@ == old(self)@.add_affiliate(affiliate, metadata_ref),
            final(self)@.wf(),
    {
        proof {
            use_type_invariant(&self.registry);
            use_type_invariant(&self.ledger);
            self.lemma_wf();
        }
        self.whitelist.add(affiliate);
        self.events.push(Event::AffiliateAdded(affiliate, metadata_ref));
    }

    /// Takes `affiliate` off the whitelist, at the request of any caller, and
    /// announces `AffiliateRemoved(affiliate, metadata_ref)`.
    pub fn remove_affiliate(
        &mut self,
        caller: AccountId,
        affiliate: AccountId,
        metadata_ref: MetadataRef,
    )
        ensures
            final(self)@ == old(self)@.remove_affiliate(affiliate, metadata_ref),
            final(self)@.wf(),
    {
        proof {
            use_type_invariant(&self.registry);
            use_type_invariant(&self.ledger);
            self.lemma_wf();
        }
        self.whitelist.remove(affiliate);
        self.events.push(Event::AffiliateRemoved(affiliate, metadata_ref));
    }

    /// Makes an offer of `caller` on listing `listing_id` and returns its
    /// identifier: one more than that of the offering made before, 1 for the
    /// first. The offering starts as `Created` with nothing refunded.
    /// Refused with `AffiliateNotAllowed` where `affiliate` is not on the
    /// whitelist. Announces
    /// `OfferingCreated(caller, listing_id, id, metadata_ref)`. Asks that the
    /// counter of offerings has not reached the end of its range.
    pub fn make_offer(
        &mut self,
        caller: AccountId,
        listing_id: ListingId,
        metadata_ref: MetadataRef,
        finalizes_at: BlockHeight,
        affiliate: AccountId,
        commission: Amount,
        value: Amount,
        arbitrator: AccountId,
    ) -> (made: Result<OfferId, Error>)
        requires
            old(self)@.affiliates.contains(affiliate) ==> old(self)@.ledger.count() < u64::MAX,
        ensures
            made == old(self)@.offer_outcome(affiliate),
            made == Err::<OfferId, Error>(Error::AffiliateNotAllowed) <==> !old(
                self,
            )@.affiliates.contains(affiliate),
            made is Err ==> final(self)@ == old(self)@,
            made matches Ok(id) ==> id == old(self)@.ledger.count() + 1 && final(self)@.ledger.get(
                listing_id,
                id,
            ) == Some(
                old(self)@.ledger.fresh(
                    listing_id,
                    caller,
                    affiliate,
                    arbitrator,
                    value,
                    commission,
                    finalizes_at,
                ),
            ),
            final(self)@ == old(self)@.make_offer(
                caller,
                listing_id,
                metadata_ref,
                finalizes_at,
                affiliate,
                commission,
                value,
                arbitrator,
            ),
            final(self)@.wf(),
    {
        proof {
            use_type_invariant(&self.registry);
            use_type_invariant(&self.ledger);
            self.lemma_wf();
        }
        if !self.whitelist.is_allowed(affiliate) {
            return Err(Error::AffiliateNotAllowed);
        }
        let id: OfferId = self.ledger.open(
            listing_id,
            caller,
            affiliate,
            arbitrator,
            value,
            commission,
            finalizes_at,
        );
        self.events.push(Event::OfferingCreated(caller, listing_id, id, metadata_ref));
        Ok(id)
    }

    /// Rules on the offering `offer_id` of listing `listing_id` and returns
    /// the payout that the currency ledger is to make. Refused for the first
    /// reason that applies: there is no such offering (`NotFound`), `caller`
    /// is not its arbitrator (`Unauthorized`), `refund` exceeds its value
    /// (`RefundTooHigh`), its status is `Accepted` (`InvalidState`). A ruling
    /// that is in order records `refund` on the offering; unless it awards
    /// the commission to the affiliate, the commission goes back to the
    /// deposit of the listing, if that still exists. Announces
    /// `OfferRuling(caller, listing_id, offer_id, metadata_ref, ruling)`. Asks
    /// that a deposit raised by the commission stays within the range of
    /// `Amount`.
    pub fn execute_ruling(
        &mut self,
        caller: AccountId,
        listing_id: ListingId,
        offer_id: OfferId,
        metadata_ref: MetadataRef,
        ruling: Ruling,
        refund: Amount,
    ) -> (settled: Result<Settlement, Error>)
        requires
            old(self)@.ruling_fits(caller, listing_id, offer_id, ruling, refund),
        ensures
            settled == old(self)@.ruling_outcome(caller, listing_id, offer_id, ruling, refund),
            settled is Ok ==> (final(self)@.ledger.get(listing_id, offer_id) matches Some(offering)
                && offering.refund == refund && 0 <= offering.refund <= offering.value),
            old(self)@.ledger.get(listing_id, offer_id) matches Some(offering) && caller
                != offering.arbitrator ==> settled == Err::<Settlement, Error>(Error::Unauthorized),
            settled is Err ==> final(self)@ == old(self)@,
            final(self)@ == old(self)@.execute_ruling(
                caller,
                listing_id,
                offer_id,
                metadata_ref,
                ruling,
                refund,
            ),
            final(self)@.wf(),
    {
        proof {
            use_type_invariant(&self.registry);
            use_type_invariant(&self.ledger);
            self.lemma_wf();
        }
        match self.ledger.rule(caller, listing_id, offer_id, refund) {
            Err(reason) => Err(reason),
            Ok(offering) => {
                let pays_commission: bool = ruling.pays_commission();
                if !pays_commission {
                    self.registry.add_deposit(listing_id, offering.commission);
                }
                self.events.push(
                    Event::OfferRuling(caller, listing_id, offer_id, metadata_ref, ruling),
                );
                Ok(
                    Settlement {
                        path: ruling.payout_path(),
                        listing_id,
                        offer_id,
                        to_buyer: refund,
                        to_seller: offering.seller_share(),
                        to_affiliate: if pays_commission {
                            offering.commission
                        } else {
                            0
                        },
                    },
                )
            },
        }
    }

    /// Announces that `metadata_ref` belongs to the offering `offer_id` of
    /// listing `listing_id`: `ListingData`, `OfferingData` and
    /// `MarketplaceData`, in this order. Nothing else changes, and nothing is
    /// asked of the listing or the offering.
    pub fn add_data(
        &mut self,
        caller: AccountId,
        listing_id: ListingId,
        offer_id: OfferId,
        metadata_ref: MetadataRef,
    )
        ensures
            final(self)@ == old(self)@.add_data(caller, listing_id, offer_id, metadata_ref),
            final(self)@.wf(),
    {
        proof {
            use_type_invariant(&self.registry);
            use_type_invariant(&self.ledger);
            self.lemma_wf();
        }
        self.events.push(Event::ListingData(listing_id, offer_id, metadata_ref));
        self.events.push(Event::OfferingData(listing_id, offer_id, metadata_ref));
        self.events.push(Event::MarketplaceData(caller, metadata_ref));
    }
}

} // verus!
