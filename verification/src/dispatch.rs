//! The operations as values: a call is applied to the marketplace and gets a
//! reply.

use vstd::prelude::*;
use crate::market::{MarketState, Marketplace};
use crate::types::{
    AccountId,
    Amount,
    BlockHeight,
    Error,
    ListingId,
    MetadataRef,
    OfferId,
    Ruling,
    Settlement,
};

verus! {

/// One of the operations of the marketplace, with its arguments. The caller
/// is not part of the call: it comes with the submission.
#[derive(Clone, Copy, Debug, PartialEq, Eq)]
pub enum Call {
    CreateListing { deposit: Amount, deposit_manager: AccountId, metadata_ref: MetadataRef },
    UpdateListing { listing_id: ListingId, metadata_ref: MetadataRef, additional_deposit: Amount },
    WithdrawListing { listing_id: ListingId, target: AccountId, metadata_ref: MetadataRef },
    MakeOffer {
        listing_id: ListingId,
        metadata_ref: MetadataRef,
        finalizes_at: BlockHeight,
        affiliate: AccountId,
        commission: Amount,
        value: Amount,
        arbitrator: AccountId,
    },
    ExecuteRuling {
        listing_id: ListingId,
        offer_id: OfferId,
        metadata_ref: MetadataRef,
        ruling: Ruling,
        refund: Amount,
    },
    AddData { listing_id: ListingId, offer_id: OfferId, metadata_ref: MetadataRef },
    AddAffiliate { affiliate: AccountId, metadata_ref: MetadataRef },
    RemoveAffiliate { affiliate: AccountId, metadata_ref: MetadataRef },
}

/// What a call that was applied hands back.
#[derive(Clone, Copy, Debug, PartialEq, Eq, Structural)]
pub enum Receipt {
    /// The call has nothing to hand back.
    Done,
    /// The identifier of the listing that was posted.
    ListingCreated(ListingId),
    /// The deposit that a withdrawal released.
    DepositReleased(Amount),
    /// The identifier of the offering that was made.
    OfferMade(OfferId),
    /// The payout that a ruling calls for.
    Settled(Settlement),
}

impl MarketState {
    /// Whether `call` stays within the range of the counters and amounts: a
    /// call that hands out an identifier finds one left, and one that raises
    /// a deposit leaves it within the range of `Amount`.
    pub open spec fn admits(self, caller: AccountId, call: Call) -> bool {
        match call {
            Call::CreateListing { .. } => self.registry.issued < u64::MAX,
            Call::UpdateListing { listing_id, additional_deposit, .. } => self.registry.deposit_fits(
                listing_id,
                additional_deposit,
            ),
            Call::MakeOffer { affiliate, .. } => self.affiliates.contains(affiliate)
                ==> self.ledger.count() < u64::MAX,
            Call::ExecuteRuling { listing_id, offer_id, ruling, refund, .. } => self.ruling_fits(
                caller,
                listing_id,
                offer_id,
                ruling,
                refund,
            ),
            _ => true,
        }
    }

    /// What `caller` gets for `call`.
    pub open spec fn reply(self, caller: AccountId, call: Call) -> Result<Receipt, Error> {
        match call {
            Call::CreateListing { .. } => Ok(Receipt::ListingCreated(self.registry.next_id())),
            Call::UpdateListing { .. } => Ok(Receipt::Done),
            Call::WithdrawListing { listing_id, .. } => match self.registry.withdrawal(
                caller,
                listing_id,
            ) {
                Ok(deposit) => Ok(Receipt::DepositReleased(deposit)),
                Err(reason) => Err(reason),
            },
            Call::MakeOffer { affiliate, .. } => match self.offer_outcome(affiliate) {
                Ok(id) => Ok(Receipt::OfferMade(id)),
                Err(reason) => Err(reason),
            },
            Call::ExecuteRuling { listing_id, offer_id, ruling, refund, .. } => match self.ruling_outcome(
                caller,
                listing_id,
                offer_id,
                ruling,
                refund,
            ) {
                Ok(settlement) => Ok(Receipt::Settled(settlement)),
                Err(reason) => Err(reason),
            },
            Call::AddData { .. } => Ok(Receipt::Done),
            Call::AddAffiliate { .. } => Ok(Receipt::Done),
            Call::RemoveAffiliate { .. } => Ok(Receipt::Done),
        }
    }

    /// The state after `caller` has submitted `call`.
    pub open spec fn step(self, caller: AccountId, call: Call) -> Self {
        match call {
            Call::CreateListing { deposit, deposit_manager, metadata_ref } => self.create_listing(
                caller,
                deposit,
                deposit_manager,
                metadata_ref,
            ),
            Call::UpdateListing {
                listing_id,
                metadata_ref,
                additional_deposit,
            } => self.update_listing(caller, listing_id, metadata_ref, additional_deposit),
            Call::WithdrawListing { listing_id, target, metadata_ref } => self.withdraw_listing(
                caller,
                listing_id,
                target,
                metadata_ref,
            ),
            Call::MakeOffer {
                listing_id,
                metadata_ref,
                finalizes_at,
                affiliate,
                commission,
                value,
                arbitrator,
            } => self.make_offer(
                caller,
                listing_id,
                metadata_ref,
                finalizes_at,
                affiliate,
                commission,
                value,
                arbitrator,
            ),
            Call::ExecuteRuling {
                listing_id,
                offer_id,
                metadata_ref,
                ruling,
                refund,
            } => self.execute_ruling(caller, listing_id, offer_id, metadata_ref, ruling, refund),
            Call::AddData { listing_id, offer_id, metadata_ref } => self.add_data(
                caller,
                listing_id,
                offer_id,
                metadata_ref,
            ),
            Call::AddAffiliate { affiliate, metadata_ref } => self.add_affiliate(
                affiliate,
                metadata_ref,
            ),
            Call::RemoveAffiliate { affiliate, metadata_ref } => self.remove_affiliate(
                affiliate,
                metadata_ref,
            ),
        }
    }

    /// The state after the submissions of `calls`, each a caller with a call,
    /// have been applied in order.
    pub open spec fn run(self, calls: Seq<(AccountId, Call)>) -> Self
        decreases calls.len(),
    {
        if calls.len() == 0 {
            self
        } else {
            self.run(calls.drop_last()).step(calls.last().0, calls.last().1)
        }
    }

    /// Whether each of `calls`, applied in order, stays within the range of
    /// the counters and amounts.
    pub open spec fn admits_all(self, calls: Seq<(AccountId, Call)>) -> bool
        decreases calls.len(),
    {
        calls.len() > 0 ==> self.admits_all(calls.drop_last()) && self.run(
            calls.drop_last(),
        ).admits(calls.last().0, calls.last().1)
    }
}

impl Marketplace {
    /// Whether `call`, submitted by `caller` now, stays within the range of
    /// the counters and amounts, so that it can be applied.
    pub fn admits(&self, caller: AccountId, call: &Call) -> (admitted: bool)
        ensures
            admitted == self@.admits(caller, *call),
    {
        match *call {
            Call::CreateListing { .. } => self.listing_count() < u64::MAX,
            Call::UpdateListing { listing_id, additional_deposit, .. } => self.deposit_fits(
                listing_id,
                additional_deposit,
            ),
            Call::MakeOffer { affiliate, .. } => !self.is_allowed(affiliate)
                || self.offering_count() < u64::MAX,
            Call::ExecuteRuling { listing_id, offer_id, ruling, refund, .. } => {
                match self.offering(listing_id, offer_id) {
                    None => true,
                    Some(offering) => {
                        if caller != offering.arbitrator || refund > offering.value
                            || !offering.status.admits_ruling() || ruling.pays_commission() {
                            true
                        } else {
                            self.deposit_fits(listing_id, offering.commission)
                        }
                    },
                }
            },
            _ => true,
        }
    }

    /// Whether `amount` can be added to the deposit of listing `listing_id`
    /// within the range of `Amount`. It can where there is no such listing.
    pub fn deposit_fits(&self, listing_id: ListingId, amount: Amount) -> (fits: bool)
        ensures
            fits == self@.registry.deposit_fits(listing_id, amount),
    {
        match self.listing(listing_id) {
            Some(listing) => listing.deposit <= Amount::MAX - amount,
            None => true,
        }
    }

    /// Applies `call` on behalf of `caller` if it stays within the range of
    /// the counters and amounts, and returns its reply; returns `None`, and
    /// changes nothing, if it does not.
    pub fn try_dispatch(&mut self, caller: AccountId, call: Call) -> (reply: Option<
        Result<Receipt, Error>,
    >)
        ensures
            reply is Some <==> old(self)@.admits(caller, call),
            reply matches Some(r) ==> r == old(self)@.reply(caller, call) && final(self)@ == old(
                self,
            )@.step(caller, call),
            reply is None ==> final(self)@ == old(self)@,
    {
        if self.admits(caller, &call) {
            Some(self.dispatch(caller, call))
        } else {
            None
        }
    }

    /// Applies `call` on behalf of `caller` and returns its reply. Asks that
    /// the call stays within the range of the counters and amounts.
    pub fn dispatch(&mut self, caller: AccountId, call: Call) -> (reply: Result<Receipt, Error>)
        requires
            old(self)@.admits(caller, call),
        ensures
            reply == old(self)@.reply(caller, call),
            final(self)@ == old(self)@.step(caller, call),
            final(self)@.wf(),
            reply is Err ==> final(self)@ == old(self)@,
    {
        match call {
            Call::CreateListing { deposit, deposit_manager, metadata_ref } => {
                let id: ListingId = self.create_listing(
                    caller,
                    deposit,
                    deposit_manager,
                    metadata_ref,
                );
                Ok(Receipt::ListingCreated(id))
            },
            Call::UpdateListing { listing_id, metadata_ref, additional_deposit } => {
                self.update_listing(caller, listing_id, metadata_ref, additional_deposit);
                Ok(Receipt::Done)
            },
            Call::WithdrawListing { listing_id, target, metadata_ref } => {
                match self.withdraw_listing(caller, listing_id, target, metadata_ref) {
                    Ok(deposit) => Ok(Receipt::DepositReleased(deposit)),
                    Err(reason) => Err(reason),
                }
            },
            Call::MakeOffer {
                listing_id,
                metadata_ref,
                finalizes_at,
                affiliate,
                commission,
                value,
                arbitrator,
            } => {
                match self.make_offer(
                    caller,
                    listing_id,
                    metadata_ref,
                    finalizes_at,
                    affiliate,
                    commission,
                    value,
                    arbitrator,
                ) {
                    Ok(id) => Ok(Receipt::OfferMade(id)),
                    Err(reason) => Err(reason),
                }
            },
            Call::ExecuteRuling { listing_id, offer_id, metadata_ref, ruling, refund } => {
                match self.execute_ruling(
                    caller,
                    listing_id,
                    offer_id,
                    metadata_ref,
                    ruling,
                    refund,
                ) {
                    Ok(settlement) => Ok(Receipt::Settled(settlement)),
                    Err(reason) => Err(reason),
                }
            },
            Call::AddData { listing_id, offer_id, metadata_ref } => {
                self.add_data(caller, listing_id, offer_id, metadata_ref);
                Ok(Receipt::Done)
            },
            Call::AddAffiliate { affiliate, metadata_ref } => {
                self.add_affiliate(caller, affiliate, metadata_ref);
                Ok(Receipt::Done)
            },
            Call::RemoveAffiliate { affiliate, metadata_ref } => {
                self.remove_affiliate(caller, affiliate, metadata_ref);
                Ok(Receipt::Done)
            },
        }
    }
}

} // verus!
