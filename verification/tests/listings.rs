use marketplace::{Call, Error, Event, Listing, Marketplace, Receipt};

const META: [u8; 32] = [0u8; 32];

fn meta(tag: u8) -> [u8; 32] {
    [tag; 32]
}

#[test]
fn create_listing() {
    let mut market = Marketplace::new();
    let id = market.create_listing(1, 0, 1, [0u8; 32]);
    assert_eq!(id, 1);
    assert_eq!(
        market.listing(1),
        Some(Listing { id: 1, seller: 1, deposit: 0, deposit_manager: 1 })
    );

    let mut other = Marketplace::new();
    let call = Call::CreateListing { deposit: 0, deposit_manager: 1, metadata_ref: [0u8; 32] };
    assert!(other.admits(1, &call));
    assert!(other.dispatch(1, call).is_ok());
}

#[test]
fn create_listing_announces_caller_id_and_metadata() {
    let mut market = Marketplace::new();
    let id = market.create_listing(7, 100, 8, meta(3));
    assert_eq!(market.take_events(), vec![Event::ListingCreated(7, id, meta(3))]);
    assert_eq!(market.take_events(), vec![]);
}

#[test]
fn listing_ids_count_up_from_one() {
    let mut market = Marketplace::new();
    assert_eq!(market.listing_count(), 0);
    assert_eq!(market.create_listing(1, 10, 1, META), 1);
    assert_eq!(market.create_listing(2, 20, 2, META), 2);
    assert_eq!(market.create_listing(1, 30, 3, META), 3);
    assert_eq!(market.listing_count(), 3);
    assert_eq!(market.listing(2).unwrap().seller, 2);
    assert_eq!(market.listing(3).unwrap().deposit, 30);
    assert_eq!(market.listing(0), None);
    assert_eq!(market.listing(4), None);
}

#[test]
fn update_listing_adds_to_the_deposit() {
    let mut market = Marketplace::new();
    let id = market.create_listing(1, 100, 2, META);
    assert!(market.deposit_fits(id, 50));
    market.update_listing(1, id, meta(1), 50);
    assert_eq!(market.listing(id).unwrap().deposit, 150);
    assert_eq!(
        market.take_events(),
        vec![Event::ListingCreated(1, id, META), Event::ListingUpdated(1, id, meta(1))]
    );
}

#[test]
fn update_listing_with_nothing_added_keeps_the_deposit() {
    let mut market = Marketplace::new();
    let id = market.create_listing(1, 100, 2, META);
    market.update_listing(1, id, META, 0);
    assert_eq!(
        market.listing(id),
        Some(Listing { id, seller: 1, deposit: 100, deposit_manager: 2 })
    );
}

#[test]
fn update_listing_is_open_to_any_caller() {
    let mut market = Marketplace::new();
    let id = market.create_listing(1, 100, 2, META);
    market.update_listing(99, id, META, 1);
    assert_eq!(market.listing(id).unwrap().deposit, 101);
}

#[test]
fn update_listing_of_a_missing_listing_changes_no_deposit() {
    let mut market = Marketplace::new();
    let id = market.create_listing(1, 100, 2, META);
    market.take_events();
    market.update_listing(1, 5, meta(9), 50);
    assert_eq!(market.listing(5), None);
    assert_eq!(market.listing(id).unwrap().deposit, 100);
    assert_eq!(market.listing_count(), 1);
    assert_eq!(market.take_events(), vec![Event::ListingUpdated(1, 5, meta(9))]);
}

#[test]
fn deposit_that_would_overflow_is_not_admitted() {
    let mut market = Marketplace::new();
    let id = market.create_listing(1, u128::MAX - 10, 2, META);
    assert!(market.deposit_fits(id, 10));
    assert!(!market.deposit_fits(id, 11));
    assert!(market.deposit_fits(id + 1, u128::MAX));
    let call = Call::UpdateListing { listing_id: id, metadata_ref: META, additional_deposit: 11 };
    assert!(!market.admits(1, &call));
    market.take_events();
    assert_eq!(market.try_dispatch(1, call), None);
    assert_eq!(market.listing(id).unwrap().deposit, u128::MAX - 10);
    assert_eq!(market.take_events(), vec![]);
    let call = Call::UpdateListing { listing_id: id, metadata_ref: META, additional_deposit: 10 };
    assert_eq!(market.try_dispatch(1, call), Some(Ok(Receipt::Done)));
    assert_eq!(market.listing(id).unwrap().deposit, u128::MAX);
}

#[test]
fn withdraw_listing_by_the_deposit_manager_releases_the_deposit() {
    let mut market = Marketplace::new();
    let id = market.create_listing(1, 100, 2, META);
    market.take_events();
    assert_eq!(market.withdraw_listing(2, id, 9, meta(4)), Ok(100));
    assert_eq!(market.listing(id), None);
    assert_eq!(market.take_events(), vec![Event::ListingWithdrawn(9, id, meta(4))]);
}

#[test]
fn withdraw_listing_by_another_caller_is_unauthorized() {
    let mut market = Marketplace::new();
    let id = market.create_listing(1, 100, 2, META);
    market.take_events();
    assert_eq!(market.withdraw_listing(1, id, 1, META), Err(Error::Unauthorized));
    assert_eq!(market.withdraw_listing(3, id, 3, META), Err(Error::Unauthorized));
    assert_eq!(
        market.listing(id),
        Some(Listing { id, seller: 1, deposit: 100, deposit_manager: 2 })
    );
    assert_eq!(market.take_events(), vec![]);
}

#[test]
fn withdraw_listing_that_does_not_exist_is_not_found() {
    let mut market = Marketplace::new();
    assert_eq!(market.withdraw_listing(1, 1, 1, META), Err(Error::NotFound));
    let id = market.create_listing(1, 100, 2, META);
    assert_eq!(market.withdraw_listing(2, id, 2, META), Ok(100));
    market.take_events();
    assert_eq!(market.withdraw_listing(2, id, 2, META), Err(Error::NotFound));
    assert_eq!(market.take_events(), vec![]);
}

#[test]
fn withdrawn_listing_id_is_not_used_again() {
    let mut market = Marketplace::new();
    let first = market.create_listing(1, 100, 2, META);
    let second = market.create_listing(1, 100, 2, META);
    assert_eq!(market.withdraw_listing(2, second, 2, META), Ok(100));
    let third = market.create_listing(1, 5, 2, META);
    assert_eq!((first, second, third), (1, 2, 3));
    assert_eq!(market.listing(second), None);
    assert_eq!(market.listing(third).unwrap().deposit, 5);
    assert_eq!(market.listing_count(), 3);
}

#[test]
fn listing_ids_grow_across_refused_calls() {
    let mut market = Marketplace::new();
    let first = market.create_listing(1, 100, 2, META);
    assert_eq!(market.withdraw_listing(1, first, 1, META), Err(Error::Unauthorized));
    assert_eq!(market.withdraw_listing(1, 44, 1, META), Err(Error::NotFound));
    assert_eq!(market.make_offer(3, first, META, 10, 8, 1, 2, 4), Err(Error::AffiliateNotAllowed));
    assert_eq!(market.execute_ruling(4, first, 1, META, marketplace::Ruling::Seller, 0),
        Err(Error::NotFound));
    let second = market.create_listing(1, 100, 2, META);
    assert_eq!(second, first + 1);
}

#[test]
fn middle_listing_can_be_withdrawn_and_the_others_stay() {
    let mut market = Marketplace::new();
    for k in 1..=5u64 {
        assert_eq!(market.create_listing(k, (k as u128) * 10, k + 100, META), k);
    }
    assert_eq!(market.withdraw_listing(103, 3, 1, META), Ok(30));
    assert_eq!(market.withdraw_listing(101, 1, 1, META), Ok(10));
    assert_eq!(market.withdraw_listing(105, 5, 1, META), Ok(50));
    assert_eq!(market.listing(1), None);
    assert_eq!(market.listing(3), None);
    assert_eq!(market.listing(5), None);
    assert_eq!(
        market.listing(2),
        Some(Listing { id: 2, seller: 2, deposit: 20, deposit_manager: 102 })
    );
    assert_eq!(
        market.listing(4),
        Some(Listing { id: 4, seller: 4, deposit: 40, deposit_manager: 104 })
    );
    market.update_listing(1, 4, META, 2);
    assert_eq!(market.listing(4).unwrap().deposit, 42);
    assert_eq!(market.listing(2).unwrap().deposit, 20);
}
