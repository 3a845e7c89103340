use marketplace::{AffiliateWhitelist, Event, Marketplace};

const META: [u8; 32] = [0u8; 32];

#[test]
fn unknown_account_is_not_whitelisted() {
    let market = Marketplace::new();
    assert!(!market.is_allowed(0));
    assert!(!market.is_allowed(8));
    assert!(!market.is_allowed(u64::MAX));
    assert!(!AffiliateWhitelist::new().is_allowed(8));
}

#[test]
fn add_and_remove_affiliate_toggle_membership() {
    let mut market = Marketplace::new();
    market.add_affiliate(1, 8, [1u8; 32]);
    assert!(market.is_allowed(8));
    assert!(!market.is_allowed(9));
    market.remove_affiliate(2, 8, [2u8; 32]);
    assert!(!market.is_allowed(8));
    assert_eq!(
        market.take_events(),
        vec![Event::AffiliateAdded(8, [1u8; 32]), Event::AffiliateRemoved(8, [2u8; 32])]
    );
}

#[test]
fn adding_twice_and_removing_a_stranger_change_no_membership() {
    let mut market = Marketplace::new();
    market.add_affiliate(1, 8, META);
    market.add_affiliate(1, 8, META);
    market.remove_affiliate(1, 9, META);
    assert!(market.is_allowed(8));
    assert_eq!(market.snapshot().affiliates, vec![8]);
    market.remove_affiliate(1, 8, META);
    assert!(!market.is_allowed(8));
    assert_eq!(market.snapshot().affiliates, Vec::<u64>::new());
    assert_eq!(market.take_events().len(), 4);
}

#[test]
fn whitelist_keeps_many_members_apart() {
    let mut whitelist = AffiliateWhitelist::new();
    for account in [50u64, 10, 40, 20, 30, 0, u64::MAX, 20, 50] {
        whitelist.add(account);
    }
    assert_eq!(whitelist.members(), vec![0, 10, 20, 30, 40, 50, u64::MAX]);
    for account in [0u64, 10, 20, 30, 40, 50, u64::MAX] {
        assert!(whitelist.is_allowed(account));
    }
    for account in [1u64, 9, 11, 25, 49, 51, u64::MAX - 1] {
        assert!(!whitelist.is_allowed(account));
    }
    whitelist.remove(30);
    whitelist.remove(0);
    whitelist.remove(u64::MAX);
    whitelist.remove(31);
    assert_eq!(whitelist.members(), vec![10, 20, 40, 50]);
    assert!(!whitelist.is_allowed(30));
    assert!(whitelist.is_allowed(40));
}

#[test]
fn whitelist_from_members_ignores_order_and_repeats() {
    let whitelist = AffiliateWhitelist::from_members(&vec![7, 3, 7, 5, 3]);
    assert_eq!(whitelist.members(), vec![3, 5, 7]);
    assert!(whitelist.is_allowed(5));
    assert!(!whitelist.is_allowed(4));
    assert_eq!(AffiliateWhitelist::from_members(&vec![]).members(), Vec::<u64>::new());
}

#[test]
fn authorize_lets_only_the_holder_pass() {
    assert_eq!(marketplace::authorize(4, 4), Ok(()));
    assert_eq!(marketplace::authorize(5, 4), Err(marketplace::Error::Unauthorized));
    assert_eq!(marketplace::authorize(0, u64::MAX), Err(marketplace::Error::Unauthorized));
}
