use marketplace::identity::{authorize, VerifiedIdentity};
use marketplace::records::{Listing, ListingBook, MarketError, MarketplaceStats};
use marketplace::rules::{
    check_creation, check_purchase, has_room_for_creation, has_room_for_sale, plan_creation,
    plan_purchase, Creation, Sale,
};

fn token(name: &str) -> VerifiedIdentity {
    VerifiedIdentity::new(name.to_string())
}

fn stats(total: u64, active: u64, completed: u64) -> MarketplaceStats {
    MarketplaceStats { total_listings: total, active_listings: active, completed_sales: completed }
}

fn bike(listing_id: u64, is_active: bool) -> Listing {
    Listing {
        listing_id,
        seller: "S".to_string(),
        title: "Bike".to_string(),
        description: "Used".to_string(),
        price: 500,
        is_active,
        created_at: 9,
    }
}

#[test]
fn the_token_controls_its_own_identity_only() {
    let caller = token("alice");
    assert_eq!(caller.identity(), "alice");
    assert!(caller.controls(&"alice".to_string()));
    assert!(!caller.controls(&"alicE".to_string()));
    assert!(!caller.controls(&"".to_string()));
    assert_eq!(authorize(&caller, &"alice".to_string()), Ok(()));
    assert_eq!(authorize(&caller, &"bob".to_string()), Err(MarketError::Unauthorized));
}

#[test]
fn the_first_creation_starts_from_absent_records() {
    let plan = plan_creation(
        &token("S"),
        "S".to_string(),
        "Bike".to_string(),
        "Used".to_string(),
        500,
        77,
        None,
        None,
    );
    let expected = Creation {
        listing: Listing {
            listing_id: 1,
            seller: "S".to_string(),
            title: "Bike".to_string(),
            description: "Used".to_string(),
            price: 500,
            is_active: true,
            created_at: 77,
        },
        counter: 1,
        stats: stats(1, 1, 0),
        retain_for: 5000,
    };
    assert_eq!(plan, Ok(expected));
}

#[test]
fn a_later_creation_continues_from_the_stored_records() {
    let plan = plan_creation(
        &token("T"),
        "T".to_string(),
        "Lamp".to_string(),
        "New".to_string(),
        70,
        78,
        Some(41),
        Some(stats(41, 30, 11)),
    )
    .unwrap();
    assert_eq!(plan.listing.listing_id, 42);
    assert_eq!(plan.counter, 42);
    assert_eq!(plan.stats, stats(42, 31, 11));
    assert!(plan.listing.is_active);
    assert_eq!(plan.listing.seller, "T");
    assert_eq!(plan.listing.created_at, 78);
}

#[test]
fn a_creation_is_refused_for_a_stranger_and_for_a_bad_price() {
    let stranger = plan_creation(
        &token("B"),
        "S".to_string(),
        "Bike".to_string(),
        "Used".to_string(),
        500,
        1,
        Some(3),
        Some(stats(3, 3, 0)),
    );
    assert_eq!(stranger, Err(MarketError::Unauthorized));
    let free = plan_creation(
        &token("S"),
        "S".to_string(),
        "Bike".to_string(),
        "Used".to_string(),
        0,
        1,
        Some(3),
        Some(stats(3, 3, 0)),
    );
    assert_eq!(free, Err(MarketError::InvalidPrice));
    let lowest = plan_creation(
        &token("S"),
        "S".to_string(),
        "Bike".to_string(),
        "Used".to_string(),
        i128::MIN,
        1,
        Some(u64::MAX),
        Some(stats(u64::MAX, u64::MAX, 0)),
    );
    assert_eq!(lowest, Err(MarketError::InvalidPrice));
}

#[test]
fn a_purchase_flips_the_flag_and_moves_one_count() {
    let plan = plan_purchase(&token("B"), &"B".to_string(), bike(4, true), Some(stats(9, 5, 4)));
    let expected = Sale { listing: bike(4, false), stats: stats(9, 4, 5), retain_for: 5000 };
    assert_eq!(plan, Ok(expected));
}

#[test]
fn a_purchase_is_refused_by_the_first_test_that_fails() {
    let all = Some(stats(9, 5, 4));
    let sentinel = Listing::not_found();
    assert_eq!(
        plan_purchase(&token("C"), &"B".to_string(), sentinel.clone(), all),
        Err(MarketError::Unauthorized)
    );
    assert_eq!(
        plan_purchase(&token("B"), &"B".to_string(), sentinel, all),
        Err(MarketError::ListingNotFound)
    );
    assert_eq!(
        plan_purchase(&token("S"), &"S".to_string(), bike(0, true), all),
        Err(MarketError::ListingNotFound)
    );
    assert_eq!(
        plan_purchase(&token("S"), &"S".to_string(), bike(4, false), all),
        Err(MarketError::ListingInactive)
    );
    assert_eq!(
        plan_purchase(&token("B"), &"B".to_string(), bike(4, false), all),
        Err(MarketError::ListingInactive)
    );
    assert_eq!(
        plan_purchase(&token("S"), &"S".to_string(), bike(4, true), all),
        Err(MarketError::SelfPurchase)
    );
    assert_eq!(
        plan_purchase(&token("S"), &"S".to_string(), bike(4, true), None),
        Err(MarketError::SelfPurchase)
    );
}

#[test]
fn room_is_there_until_a_count_is_at_its_limit() {
    assert!(has_room_for_creation(None, None));
    assert!(has_room_for_creation(Some(u64::MAX - 1), Some(stats(u64::MAX - 1, 0, u64::MAX - 1))));
    assert!(!has_room_for_creation(Some(u64::MAX), Some(stats(5, 5, 0))));
    assert!(!has_room_for_creation(Some(5), Some(stats(u64::MAX, 5, 0))));
    assert!(!has_room_for_creation(Some(5), Some(stats(5, u64::MAX, 0))));
    assert!(!has_room_for_sale(None));
    assert!(!has_room_for_sale(Some(stats(5, 0, 5))));
    assert!(!has_room_for_sale(Some(stats(5, 1, u64::MAX))));
    assert!(has_room_for_sale(Some(stats(5, 1, 4))));
}

#[test]
fn absent_records_read_as_their_defaults() {
    assert_eq!(MarketplaceStats::zero(), stats(0, 0, 0));
    assert_eq!(MarketplaceStats::or_zero(None), stats(0, 0, 0));
    assert_eq!(MarketplaceStats::or_zero(Some(stats(3, 2, 1))), stats(3, 2, 1));
    assert_eq!(Listing::or_not_found(None), Listing::not_found());
    assert_eq!(Listing::or_not_found(Some(bike(4, true))), bike(4, true));
    assert!(bike(4, false).is_found());
    assert!(!Listing::not_found().is_found());
}

#[test]
fn a_key_names_its_listing() {
    assert_eq!(ListingBook::Listing(17).listing_id(), 17);
    assert_eq!(ListingBook::Listing(0).listing_id(), 0);
    assert_eq!(ListingBook::Listing(u64::MAX).listing_id(), u64::MAX);
}

#[test]
fn a_creation_is_tested_for_the_caller_first_and_the_price_second() {
    let seller = "S".to_string();
    assert_eq!(check_creation(&token("S"), &seller, 1), Ok(()));
    assert_eq!(check_creation(&token("S"), &seller, i128::MAX), Ok(()));
    assert_eq!(check_creation(&token("S"), &seller, 0), Err(MarketError::InvalidPrice));
    assert_eq!(check_creation(&token("S"), &seller, -500), Err(MarketError::InvalidPrice));
    assert_eq!(check_creation(&token("B"), &seller, 500), Err(MarketError::Unauthorized));
    assert_eq!(check_creation(&token("B"), &seller, 0), Err(MarketError::Unauthorized));
}

#[test]
fn a_purchase_is_tested_in_the_fixed_order() {
    let buyer = "B".to_string();
    let seller = "S".to_string();
    assert_eq!(check_purchase(&token("B"), &buyer, &bike(4, true)), Ok(()));
    assert_eq!(
        check_purchase(&token("S"), &buyer, &bike(4, true)),
        Err(MarketError::Unauthorized)
    );
    assert_eq!(
        check_purchase(&token("B"), &buyer, &Listing::not_found()),
        Err(MarketError::ListingNotFound)
    );
    assert_eq!(
        check_purchase(&token("B"), &buyer, &bike(4, false)),
        Err(MarketError::ListingInactive)
    );
    assert_eq!(
        check_purchase(&token("S"), &seller, &bike(4, true)),
        Err(MarketError::SelfPurchase)
    );
    assert_eq!(
        check_purchase(&token("S"), &seller, &bike(4, false)),
        Err(MarketError::ListingInactive)
    );
}
