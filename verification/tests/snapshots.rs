use marketplace::{
    Call, Error, Listing, ListingRegistry, Marketplace, Offering, OfferingLedger, OfferingStatus,
    Receipt, Ruling, Snapshot,
};

const META: [u8; 32] = [0u8; 32];

fn listing(id: u64, deposit: u128) -> Listing {
    Listing { id, seller: 1, deposit, deposit_manager: 2 }
}

fn offering(listing_id: u64, offer_id: u64, value: u128, refund: u128) -> Offering {
    Offering {
        listing_id,
        offer_id,
        buyer: 3,
        affiliate: 8,
        arbitrator: 4,
        value,
        commission: 10,
        refund,
        finalizes_at: 50,
        status: OfferingStatus::Disputed,
    }
}

#[test]
fn snapshot_of_a_new_marketplace_is_empty() {
    assert_eq!(
        Marketplace::new().snapshot(),
        Snapshot { listings: vec![], listings_issued: 0, offerings: vec![], affiliates: vec![] }
    );
}

#[test]
fn snapshot_holds_what_was_done() {
    let mut market = Marketplace::new();
    market.create_listing(1, 100, 2, META);
    market.create_listing(1, 200, 2, META);
    market.create_listing(1, 300, 2, META);
    assert_eq!(market.withdraw_listing(2, 2, 2, META), Ok(200));
    market.add_affiliate(1, 9, META);
    market.add_affiliate(1, 8, META);
    assert_eq!(market.make_offer(3, 3, META, 50, 8, 10, 200, 4), Ok(1));
    assert!(market.execute_ruling(4, 3, 1, META, Ruling::ComAndSeller, 20).is_ok());
    let snapshot = market.snapshot();
    assert_eq!(snapshot.listings, vec![listing(1, 100), listing(3, 300)]);
    assert_eq!(snapshot.listings_issued, 3);
    assert_eq!(
        snapshot.offerings,
        vec![Offering { status: OfferingStatus::Created, ..offering(3, 1, 200, 20) }]
    );
    assert_eq!(snapshot.affiliates, vec![8, 9]);
}

#[test]
fn restore_gives_back_the_marketplace() {
    let mut market = Marketplace::new();
    market.create_listing(1, 100, 2, META);
    market.create_listing(1, 200, 2, META);
    market.add_affiliate(1, 8, META);
    assert_eq!(market.make_offer(3, 1, META, 50, 8, 10, 200, 4), Ok(1));
    let snapshot = market.snapshot();
    let mut restored = Marketplace::restore(&snapshot).unwrap();
    assert_eq!(restored.snapshot(), snapshot);
    assert_eq!(restored.take_events(), vec![]);
    assert_eq!(restored.listing(2), market.listing(2));
    assert_eq!(restored.offering(1, 1), market.offering(1, 1));
    assert!(restored.is_allowed(8));
    assert_eq!(restored.create_listing(1, 1, 1, META), 3);
    assert_eq!(restored.make_offer(3, 1, META, 50, 8, 10, 200, 4), Ok(2));
}

#[test]
fn restore_keeps_counters_past_withdrawn_listings() {
    let snapshot = Snapshot {
        listings: vec![listing(2, 20), listing(5, 50)],
        listings_issued: 9,
        offerings: vec![],
        affiliates: vec![4, 4, 1],
    };
    let mut market = Marketplace::restore(&snapshot).unwrap();
    assert_eq!(market.listing_count(), 9);
    assert_eq!(market.listing(5), Some(listing(5, 50)));
    assert_eq!(market.listing(3), None);
    assert_eq!(market.create_listing(1, 0, 1, META), 10);
    assert_eq!(market.snapshot().affiliates, vec![1, 4]);
}

#[test]
fn restore_refuses_listings_out_of_order_or_range() {
    let with = |listings: Vec<Listing>, listings_issued: u64| Snapshot {
        listings,
        listings_issued,
        offerings: vec![],
        affiliates: vec![],
    };
    assert!(Marketplace::restore(&with(vec![listing(1, 0), listing(2, 0)], 2)).is_some());
    assert!(Marketplace::restore(&with(vec![listing(2, 0), listing(1, 0)], 2)).is_none());
    assert!(Marketplace::restore(&with(vec![listing(1, 0), listing(1, 0)], 2)).is_none());
    assert!(Marketplace::restore(&with(vec![listing(0, 0)], 2)).is_none());
    assert!(Marketplace::restore(&with(vec![listing(3, 0)], 2)).is_none());
    assert!(Marketplace::restore(&with(vec![listing(1, 0)], 0)).is_none());
    assert!(ListingRegistry::from_parts(&vec![listing(1, 0), listing(3, 0)], 3).is_some());
    assert!(ListingRegistry::from_parts(&vec![listing(1, 0), listing(3, 0)], 2).is_none());
}

#[test]
fn restore_refuses_offerings_out_of_place_or_over_refunded() {
    let with = |offerings: Vec<Offering>| Snapshot {
        listings: vec![],
        listings_issued: 0,
        offerings,
        affiliates: vec![],
    };
    assert!(Marketplace::restore(&with(vec![offering(1, 1, 5, 5), offering(7, 2, 5, 0)])).is_some());
    assert!(Marketplace::restore(&with(vec![offering(1, 2, 5, 0)])).is_none());
    assert!(Marketplace::restore(&with(vec![offering(1, 0, 5, 0)])).is_none());
    assert!(Marketplace::restore(&with(vec![offering(1, 1, 5, 0), offering(1, 1, 5, 0)])).is_none());
    assert!(Marketplace::restore(&with(vec![offering(1, 1, 5, 6)])).is_none());
    assert!(OfferingLedger::from_offerings(&vec![offering(1, 1, 5, 6)]).is_none());
    let ledger = OfferingLedger::from_offerings(&vec![offering(4, 1, 5, 1)]).unwrap();
    assert_eq!(ledger.count(), 1);
    assert_eq!(ledger.get(4, 1), Some(offering(4, 1, 5, 1)));
    assert_eq!(ledger.get(1, 1), None);
    assert_eq!(ledger.offerings(), vec![offering(4, 1, 5, 1)]);
}

#[test]
fn counters_at_their_end_admit_no_new_identifier() {
    let snapshot = Snapshot {
        listings: vec![listing(u64::MAX, 1)],
        listings_issued: u64::MAX,
        offerings: vec![],
        affiliates: vec![],
    };
    let mut market = Marketplace::restore(&snapshot).unwrap();
    let call = Call::CreateListing { deposit: 0, deposit_manager: 1, metadata_ref: META };
    assert!(!market.admits(1, &call));
    assert_eq!(market.try_dispatch(1, call), None);
    assert_eq!(market.listing_count(), u64::MAX);
    assert_eq!(market.withdraw_listing(2, u64::MAX, 2, META), Ok(1));
}

#[test]
fn dispatch_replies_as_the_operations_do() {
    let mut market = Marketplace::new();
    let create = Call::CreateListing { deposit: 100, deposit_manager: 2, metadata_ref: META };
    assert_eq!(market.dispatch(1, create), Ok(Receipt::ListingCreated(1)));
    let update = Call::UpdateListing { listing_id: 1, metadata_ref: META, additional_deposit: 50 };
    assert_eq!(market.dispatch(1, update), Ok(Receipt::Done));
    let offer = Call::MakeOffer {
        listing_id: 1,
        metadata_ref: META,
        finalizes_at: 50,
        affiliate: 8,
        commission: 10,
        value: 200,
        arbitrator: 4,
    };
    assert_eq!(market.dispatch(3, offer), Err(Error::AffiliateNotAllowed));
    let add = Call::AddAffiliate { affiliate: 8, metadata_ref: META };
    assert_eq!(market.dispatch(1, add), Ok(Receipt::Done));
    assert_eq!(market.dispatch(3, offer), Ok(Receipt::OfferMade(1)));
    let remove = Call::RemoveAffiliate { affiliate: 8, metadata_ref: META };
    assert_eq!(market.dispatch(1, remove), Ok(Receipt::Done));
    assert_eq!(market.dispatch(3, offer), Err(Error::AffiliateNotAllowed));
    let data = Call::AddData { listing_id: 1, offer_id: 1, metadata_ref: META };
    assert_eq!(market.dispatch(3, data), Ok(Receipt::Done));
    let rule = Call::ExecuteRuling {
        listing_id: 1,
        offer_id: 1,
        metadata_ref: META,
        ruling: Ruling::Seller,
        refund: 40,
    };
    assert_eq!(market.dispatch(3, rule), Err(Error::Unauthorized));
    assert!(market.admits(4, &rule));
    match market.dispatch(4, rule) {
        Ok(Receipt::Settled(settlement)) => {
            assert_eq!(settlement.to_buyer, 40);
            assert_eq!(settlement.to_seller, 160);
        }
        other => panic!("unexpected reply {:?}", other),
    }
    let withdraw = Call::WithdrawListing { listing_id: 1, target: 9, metadata_ref: META };
    assert_eq!(market.dispatch(1, withdraw), Err(Error::Unauthorized));
    assert_eq!(market.dispatch(2, withdraw), Ok(Receipt::DepositReleased(160)));
    assert_eq!(market.dispatch(2, withdraw), Err(Error::NotFound));
    assert_eq!(market.take_events().len(), 10);
}
