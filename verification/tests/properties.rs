use marketplace::contract::MarketplaceContract;
use marketplace::identity::VerifiedIdentity;
use marketplace::ledger::Ledger;
use marketplace::records::{MarketError, MarketplaceStats};

fn offer(ledger: &mut Ledger, seller: &str, title: &str, price: i128) -> Result<u64, MarketError> {
    MarketplaceContract::create_listing(
        ledger,
        &VerifiedIdentity::new(seller.to_string()),
        seller.to_string(),
        title.to_string(),
        "as described".to_string(),
        price,
        42,
    )
}

fn buy(ledger: &mut Ledger, buyer: &str, listing_id: u64) -> Result<(), MarketError> {
    MarketplaceContract::purchase_item(
        ledger,
        &VerifiedIdentity::new(buyer.to_string()),
        &buyer.to_string(),
        listing_id,
    )
}

fn balanced(stats: &MarketplaceStats) -> bool {
    stats.total_listings == stats.active_listings + stats.completed_sales
}

#[test]
fn the_nth_accepted_creation_gets_the_identifier_n() {
    let mut ledger = Ledger::new();
    let mut expected = 1;
    while expected <= 50 {
        assert_eq!(offer(&mut ledger, "S", "Item", 10), Ok(expected));
        assert_eq!(ledger.counter(), Some(expected));
        expected += 1;
    }
}

#[test]
fn refused_requests_do_not_use_up_identifiers() {
    let mut ledger = Ledger::new();
    assert_eq!(offer(&mut ledger, "S", "One", 10), Ok(1));
    assert_eq!(offer(&mut ledger, "S", "Free", 0), Err(MarketError::InvalidPrice));
    assert_eq!(buy(&mut ledger, "S", 1), Err(MarketError::SelfPurchase));
    assert_eq!(buy(&mut ledger, "B", 7), Err(MarketError::ListingNotFound));
    assert_eq!(offer(&mut ledger, "T", "Two", 20), Ok(2));
    assert_eq!(buy(&mut ledger, "B", 1), Ok(()));
    assert_eq!(offer(&mut ledger, "S", "Three", 30), Ok(3));
    assert_eq!(MarketplaceContract::get_listing(&ledger, 2).title, "Two");
    assert_eq!(MarketplaceContract::get_listing(&ledger, 2).seller, "T");
    assert_eq!(MarketplaceContract::get_listing(&ledger, 3).title, "Three");
}

#[test]
fn the_aggregate_stays_balanced_through_a_mixed_run() {
    let mut ledger = Ledger::new();
    assert!(balanced(&MarketplaceContract::get_marketplace_stats(&ledger)));
    let mut round = 0;
    while round < 20 {
        let _ = offer(&mut ledger, "S", "Item", round - 3);
        assert!(balanced(&MarketplaceContract::get_marketplace_stats(&ledger)));
        let _ = buy(&mut ledger, if round % 3 == 0 { "S" } else { "B" }, (round / 2) as u64);
        assert!(balanced(&MarketplaceContract::get_marketplace_stats(&ledger)));
        round += 1;
    }
    let stats = MarketplaceContract::get_marketplace_stats(&ledger);
    assert_eq!(stats.total_listings, 16);
    assert_eq!(stats.active_listings, 8);
    assert_eq!(stats.completed_sales, 8);
}

#[test]
fn reading_twice_gives_the_same_answer() {
    let mut ledger = Ledger::new();
    assert_eq!(offer(&mut ledger, "S", "Bike", 500), Ok(1));
    assert_eq!(buy(&mut ledger, "B", 1), Ok(()));
    assert_eq!(offer(&mut ledger, "S", "Lamp", 70), Ok(2));
    for listing_id in [0, 1, 2, 3, 999] {
        let first = MarketplaceContract::get_listing(&ledger, listing_id);
        let second = MarketplaceContract::get_listing(&ledger, listing_id);
        assert_eq!(first, second);
    }
    let first = MarketplaceContract::get_marketplace_stats(&ledger);
    let second = MarketplaceContract::get_marketplace_stats(&ledger);
    assert_eq!(first, second);
    assert_eq!(first.total_listings, 2);
}

#[test]
fn a_purchase_changes_only_the_listing_it_names() {
    let mut ledger = Ledger::new();
    assert_eq!(offer(&mut ledger, "S", "Bike", 500), Ok(1));
    assert_eq!(offer(&mut ledger, "T", "Lamp", 70), Ok(2));
    assert_eq!(offer(&mut ledger, "S", "Desk", 90), Ok(3));
    let first = MarketplaceContract::get_listing(&ledger, 1);
    let third = MarketplaceContract::get_listing(&ledger, 3);
    assert_eq!(buy(&mut ledger, "B", 2), Ok(()));
    assert_eq!(MarketplaceContract::get_listing(&ledger, 1), first);
    assert_eq!(MarketplaceContract::get_listing(&ledger, 3), third);
    assert!(!MarketplaceContract::get_listing(&ledger, 2).is_active);
    let stats = MarketplaceContract::get_marketplace_stats(&ledger);
    assert_eq!((stats.total_listings, stats.active_listings, stats.completed_sales), (3, 2, 1));
}

#[test]
fn a_clone_of_a_listing_equals_it() {
    let mut ledger = Ledger::new();
    assert_eq!(offer(&mut ledger, "S", "Bike", 500), Ok(1));
    let listing = MarketplaceContract::get_listing(&ledger, 1);
    assert_eq!(listing.clone(), listing);
}
