//! What holds of the marketplace whatever is submitted to it.

use vstd::prelude::*;
use crate::dispatch::Call;
use crate::market::MarketState;
use crate::types::{
    AccountId,
    Amount,
    BlockHeight,
    Error,
    ListingId,
    MetadataRef,
    OfferId,
    Offering,
    Ruling,
    Settlement,
};

verus! {

/// A call that stays within the range of the counters and amounts takes a
/// well-formed state to a well-formed state. In particular no offering ever
/// refunds more than it escrows.
pub proof fn law_step_keeps_state_valid(s: MarketState, caller: AccountId, call: Call)
    requires
        s.wf(),
        s.admits(caller, call),
    ensures
        s.step(caller, call).wf(),
{
    let t = s.step(caller, call);
    match call {
        Call::MakeOffer { affiliate, .. } => {
            if s.affiliates.contains(affiliate) {
                assert forall|i: int| 0 <= i < t.ledger.offerings.len() implies (
                #[trigger] t.ledger.offerings[i]).offer_id == i + 1
                    && t.ledger.offerings[i].wf() by {
                    if i < s.ledger.offerings.len() {
                        assert(t.ledger.offerings[i] == s.ledger.offerings[i]);
                    }
                }
            }
        },
        Call::ExecuteRuling { listing_id, offer_id, ruling, refund, .. } => {
            if s.ledger.ruling_refusal(caller, listing_id, offer_id, refund) is None {
                assert forall|i: int| 0 <= i < t.ledger.offerings.len() implies (
                #[trigger] t.ledger.offerings[i]).offer_id == i + 1
                    && t.ledger.offerings[i].wf() by {
                    if i != offer_id - 1 {
                        assert(t.ledger.offerings[i] == s.ledger.offerings[i]);
                    }
                }
            }
        },
        _ => {},
    }
}

/// Calls that stay within the range of the counters and amounts, applied in
/// order, take a well-formed state to a well-formed state.
pub proof fn law_run_keeps_state_valid(s: MarketState, calls: Seq<(AccountId, Call)>)
    requires
        s.wf(),
        s.admits_all(calls),
    ensures
        s.run(calls).wf(),
    decreases calls.len(),
{
    if calls.len() > 0 {
        law_run_keeps_state_valid(s, calls.drop_last());
        law_step_keeps_state_valid(s.run(calls.drop_last()), calls.last().0, calls.last().1);
    }
}

/// A call that is refused leaves the state as it was: no record changes, no
/// identifier is used up, and nothing is announced.
pub proof fn law_refused_call_changes_nothing(s: MarketState, caller: AccountId, call: Call)
    requires
        s.reply(caller, call) is Err,
    ensures
        s.step(caller, call) == s,
{
}

/// No call takes a counter back, and no call makes an offering disappear.
pub proof fn law_step_never_goes_back(s: MarketState, caller: AccountId, call: Call)
    ensures
        s.step(caller, call).registry.issued >= s.registry.issued,
        s.step(caller, call).ledger.count() >= s.ledger.count(),
{
}

/// However many calls are applied, no counter goes back.
pub proof fn law_run_never_goes_back(s: MarketState, calls: Seq<(AccountId, Call)>)
    ensures
        s.run(calls).registry.issued >= s.registry.issued,
        s.run(calls).ledger.count() >= s.ledger.count(),
    decreases calls.len(),
{
    if calls.len() > 0 {
        law_run_never_goes_back(s, calls.drop_last());
        law_step_never_goes_back(s.run(calls.drop_last()), calls.last().0, calls.last().1);
    }
}

/// Listing identifiers grow and are never used twice: every listing on offer
/// has an identifier below the next one, and a listing posted now gets a
/// smaller identifier than any listing posted after it, whatever calls are
/// applied in between, refused ones included.
pub proof fn law_listing_ids_never_reused(
    s: MarketState,
    caller: AccountId,
    deposit: Amount,
    deposit_manager: AccountId,
    metadata_ref: MetadataRef,
    between: Seq<(AccountId, Call)>,
)
    requires
        s.wf(),
    ensures
        forall|id: ListingId| #[trigger]
            s.registry.listings.contains_key(id) ==> id < s.registry.issued + 1,
        s.registry.issued + 1 < s.create_listing(
            caller,
            deposit,
            deposit_manager,
            metadata_ref,
        ).run(between).registry.issued + 1,
{
    law_run_never_goes_back(
        s.create_listing(caller, deposit, deposit_manager, metadata_ref),
        between,
    );
}

/// Offering identifiers grow and are never used twice: every offering made
/// has an identifier below the next one, and an offering made now gets a
/// smaller identifier than any offering made after it, whatever calls are
/// applied in between, refused ones included.
pub proof fn law_offer_ids_never_reused(
    s: MarketState,
    caller: AccountId,
    listing_id: ListingId,
    metadata_ref: MetadataRef,
    finalizes_at: BlockHeight,
    affiliate: AccountId,
    commission: Amount,
    value: Amount,
    arbitrator: AccountId,
    between: Seq<(AccountId, Call)>,
)
    requires
        s.wf(),
        s.affiliates.contains(affiliate),
    ensures
        forall|i: int|
            0 <= i < s.ledger.offerings.len() ==> (#[trigger] s.ledger.offerings[i]).offer_id
                < s.ledger.count() + 1,
        s.ledger.count() + 1 < s.make_offer(
            caller,
            listing_id,
            metadata_ref,
            finalizes_at,
            affiliate,
            commission,
            value,
            arbitrator,
        ).run(between).ledger.count() + 1,
{
    law_run_never_goes_back(
        s.make_offer(
            caller,
            listing_id,
            metadata_ref,
            finalizes_at,
            affiliate,
            commission,
            value,
            arbitrator,
        ),
        between,
    );
}

/// Whether `now` is what `before` can have become: the same offering, but
/// for the refund recorded on it.
pub open spec fn same_but_refund(before: Offering, now: Offering) -> bool {
    now == (Offering { refund: now.refund, ..before })
}

/// No call changes an offering that was made, but for the refund that a
/// ruling records: its place, its parties, its terms and its status stay, so
/// the status never falls back.
pub proof fn law_step_keeps_offerings(s: MarketState, caller: AccountId, call: Call, i: int)
    requires
        0 <= i < s.ledger.offerings.len(),
    ensures
        i < s.step(caller, call).ledger.offerings.len(),
        same_but_refund(s.ledger.offerings[i], s.step(caller, call).ledger.offerings[i]),
        s.step(caller, call).ledger.offerings[i].status.rank() >= s.ledger.offerings[i].status.rank(),
{
}

/// However many calls are applied, an offering that was made stays as it
/// was, but for its refund.
pub proof fn law_run_keeps_offerings(s: MarketState, calls: Seq<(AccountId, Call)>, i: int)
    requires
        0 <= i < s.ledger.offerings.len(),
    ensures
        i < s.run(calls).ledger.offerings.len(),
        same_but_refund(s.ledger.offerings[i], s.run(calls).ledger.offerings[i]),
        s.run(calls).ledger.offerings[i].status.rank() >= s.ledger.offerings[i].status.rank(),
    decreases calls.len(),
{
    if calls.len() > 0 {
        law_run_keeps_offerings(s, calls.drop_last(), i);
        law_step_keeps_offerings(s.run(calls.drop_last()), calls.last().0, calls.last().1, i);
    }
}

/// An offer is refused for its affiliate exactly when the affiliate is not
/// on the whitelist as it stands at that moment: right after the affiliate
/// was added the offer is accepted, right after it was removed the offer is
/// refused, and offers that name another affiliate are not touched.
pub proof fn law_whitelist_decides_at_call_time(
    s: MarketState,
    affiliate: AccountId,
    other: AccountId,
    metadata_ref: MetadataRef,
)
    requires
        other != affiliate,
    ensures
        s.offer_outcome(affiliate) == Err::<OfferId, Error>(Error::AffiliateNotAllowed)
            <==> !s.affiliates.contains(affiliate),
        s.add_affiliate(affiliate, metadata_ref).offer_outcome(affiliate) is Ok,
        s.remove_affiliate(affiliate, metadata_ref).offer_outcome(affiliate) == Err::<
            OfferId,
            Error,
        >(Error::AffiliateNotAllowed),
        s.add_affiliate(affiliate, metadata_ref).offer_outcome(other) == s.offer_outcome(other),
        s.remove_affiliate(affiliate, metadata_ref).offer_outcome(other) == s.offer_outcome(other),
{
}

/// A change of the whitelist reaches later offers only: the offerings made
/// before it, and the listings, stay as they were.
pub proof fn law_whitelist_change_spares_past_offers(
    s: MarketState,
    affiliate: AccountId,
    metadata_ref: MetadataRef,
)
    ensures
        s.add_affiliate(affiliate, metadata_ref).ledger == s.ledger,
        s.add_affiliate(affiliate, metadata_ref).registry == s.registry,
        s.remove_affiliate(affiliate, metadata_ref).ledger == s.ledger,
        s.remove_affiliate(affiliate, metadata_ref).registry == s.registry,
{
}

/// An offering that was made with a whitelisted affiliate stands, with the
/// terms it was made with, after the affiliate has been taken off the
/// whitelist, while the next offer that names the affiliate is refused.
pub proof fn law_removed_affiliate_keeps_its_offers(
    s: MarketState,
    caller: AccountId,
    listing_id: ListingId,
    metadata_ref: MetadataRef,
    finalizes_at: BlockHeight,
    affiliate: AccountId,
    commission: Amount,
    value: Amount,
    arbitrator: AccountId,
)
    requires
        s.wf(),
        s.ledger.count() < u64::MAX,
        s.affiliates.contains(affiliate),
    ensures
        ({
            let made = s.make_offer(
                caller,
                listing_id,
                metadata_ref,
                finalizes_at,
                affiliate,
                commission,
                value,
                arbitrator,
            );
            let after = made.remove_affiliate(affiliate, metadata_ref);
            &&& s.offer_outcome(affiliate) == Ok::<OfferId, Error>(s.ledger.next_id())
            &&& after.ledger.get(listing_id, s.ledger.next_id()) == Some(
                s.ledger.fresh(
                    listing_id,
                    caller,
                    affiliate,
                    arbitrator,
                    value,
                    commission,
                    finalizes_at,
                ),
            )
            &&& after.offer_outcome(affiliate) == Err::<OfferId, Error>(
                Error::AffiliateNotAllowed,
            )
        }),
{
}

/// After a ruling that was in order, the refund stored on the offering is the
/// one that was asked for, and it lies between zero and the escrowed value.
pub proof fn law_ruled_refund_within_value(
    s: MarketState,
    caller: AccountId,
    listing_id: ListingId,
    offer_id: OfferId,
    metadata_ref: MetadataRef,
    ruling: Ruling,
    refund: Amount,
)
    requires
        s.ruling_outcome(caller, listing_id, offer_id, ruling, refund) is Ok,
    ensures
        ({
            let after = s.execute_ruling(caller, listing_id, offer_id, metadata_ref, ruling, refund);
            &&& after.ledger.get(listing_id, offer_id) matches Some(offering)
            &&& offering.refund == refund
            &&& 0 <= offering.refund <= offering.value
        }),
{
}

/// What a ruling pays out is what the offering escrows: the refund to the
/// buyer and the seller's share add up to the value.
pub proof fn law_settlement_splits_value(
    s: MarketState,
    caller: AccountId,
    listing_id: ListingId,
    offer_id: OfferId,
    ruling: Ruling,
    refund: Amount,
)
    requires
        s.ruling_outcome(caller, listing_id, offer_id, ruling, refund) is Ok,
    ensures
        ({
            let settlement = s.ruling_outcome(caller, listing_id, offer_id, ruling, refund)->Ok_0;
            &&& s.ledger.get(listing_id, offer_id) matches Some(offering)
            &&& settlement.to_buyer + settlement.to_seller == offering.value
            &&& settlement.to_affiliate == 0 || settlement.to_affiliate == offering.commission
        }),
{
}

/// Whoever is not the arbitrator of an offering is refused a ruling on it
/// with `Unauthorized`, whatever the ruling and the refund, and nothing
/// changes.
pub proof fn law_only_arbitrator_rules(
    s: MarketState,
    caller: AccountId,
    listing_id: ListingId,
    offer_id: OfferId,
    metadata_ref: MetadataRef,
    ruling: Ruling,
    refund: Amount,
)
    requires
        s.ledger.get(listing_id, offer_id) matches Some(offering) && caller != offering.arbitrator,
    ensures
        s.ruling_outcome(caller, listing_id, offer_id, ruling, refund) == Err::<Settlement, Error>(
            Error::Unauthorized,
        ),
        s.execute_ruling(caller, listing_id, offer_id, metadata_ref, ruling, refund) == s,
{
}

/// Whoever is not the deposit manager of a listing is refused its withdrawal
/// with `Unauthorized`, and nothing changes.
pub proof fn law_only_deposit_manager_withdraws(
    s: MarketState,
    caller: AccountId,
    listing_id: ListingId,
    target: AccountId,
    metadata_ref: MetadataRef,
)
    requires
        s.registry.get(listing_id) matches Some(listing) && caller != listing.deposit_manager,
    ensures
        s.registry.withdrawal(caller, listing_id) == Err::<Amount, Error>(Error::Unauthorized),
        s.withdraw_listing(caller, listing_id, target, metadata_ref) == s,
{
}

} // verus!
