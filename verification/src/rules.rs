//! The rules of the two changing operations, decided from the records that an
//! operation reads. Each rule either refuses the request or says which
//! records are to be written, all together.

use vstd::prelude::*;
use crate::identity::{authorize, VerifiedIdentity};
use crate::model::{creation_refusal, purchase_refusal, RETENTION_WINDOW};
use crate::records::{
    stored_counter,
    stored_stats,
    Listing,
    ListingView,
    MarketError,
    MarketplaceStats,
};

verus! {

/// What an accepted creation writes, as one batch.
#[derive(Debug, PartialEq, Eq)]
pub struct Creation {
    /// The new listing, to be stored under its own identifier.
    pub listing: Listing,
    /// The new value of the counter: the identifier of the new listing.
    pub counter: u64,
    /// The new statistics aggregate.
    pub stats: MarketplaceStats,
    /// The window to which the retention of the store is to be extended.
    pub retain_for: u32,
}

/// What an accepted purchase writes, as one batch.
#[derive(Debug, PartialEq, Eq)]
pub struct Sale {
    /// The listing, now sold, to be stored under its own identifier.
    pub listing: Listing,
    /// The new statistics aggregate.
    pub stats: MarketplaceStats,
    /// The window to which the retention of the store is to be extended.
    pub retain_for: u32,
}

/// Whether the counter and the aggregate can count one more listing.
pub open spec fn room_for_creation(counter: Option<u64>, stats: Option<MarketplaceStats>) -> bool {
    &&& stored_counter(counter) < u64::MAX
    &&& stored_stats(stats).total < u64::MAX
    &&& stored_stats(stats).active < u64::MAX
}

/// Whether the aggregate can move one count from active to completed.
pub open spec fn room_for_sale(stats: Option<MarketplaceStats>) -> bool {
    &&& stored_stats(stats).active > 0
    &&& stored_stats(stats).completed < u64::MAX
}

/// Tests whether the counter and the aggregate can count one more listing.
pub fn has_room_for_creation(counter: Option<u64>, stats: Option<MarketplaceStats>) -> (yes: bool)
    ensures
        yes == room_for_creation(counter, stats),
{
    let last = match counter {
        Some(last) => last,
        None => 0,
    };
    let current = MarketplaceStats::or_zero(stats);
    last < u64::MAX && current.total_listings < u64::MAX && current.active_listings < u64::MAX
}

/// Tests whether the aggregate can move one count from active to completed.
pub fn has_room_for_sale(stats: Option<MarketplaceStats>) -> (yes: bool)
    ensures
        yes == room_for_sale(stats),
{
    let current = MarketplaceStats::or_zero(stats);
    current.active_listings > 0 && current.completed_sales < u64::MAX
}

/// Tests a request to create a listing: the caller must control the seller's
/// identity, and the price must be strictly positive.
pub fn check_creation(caller: &VerifiedIdentity, seller: &String, price: i128) -> (verdict: Result<
    (),
    MarketError,
>)
    ensures
        verdict == match creation_refusal(caller@, seller@, price as int) {
            None => Ok::<(), MarketError>(()),
            Some(error) => Err::<(), MarketError>(error),
        },
{
    match authorize(caller, seller) {
        Err(error) => Err(error),
        Ok(()) => if price <= 0 {
            Err(MarketError::InvalidPrice)
        } else {
            Ok(())
        },
    }
}

/// Tests a request to purchase `listing`, which is what the lookup of the
/// requested identifier yielded. The first test that fails decides: the
/// caller controls the buyer's identity, the listing exists, it is still
/// active, and the buyer is not its seller.
pub fn check_purchase(caller: &VerifiedIdentity, buyer: &String, listing: &Listing) -> (verdict:
    Result<(), MarketError>)
    ensures
        verdict == match purchase_refusal(caller@, buyer@, listing@) {
            None => Ok::<(), MarketError>(()),
            Some(error) => Err::<(), MarketError>(error),
        },
{
    match authorize(caller, buyer) {
        Err(error) => Err(error),
        Ok(()) => if !listing.is_found() {
            Err(MarketError::ListingNotFound)
        } else if !listing.is_active {
            Err(MarketError::ListingInactive)
        } else if *buyer == listing.seller {
            Err(MarketError::SelfPurchase)
        } else {
            Ok(())
        },
    }
}

/// Decides a request to create a listing from the counter and the aggregate
/// as they were read, each absent while it has never been written.
///
/// The request is refused as `creation_refusal` says. Otherwise the new
/// listing gets the identifier after the counter, is active and bears the time
/// `now`; the counter becomes that identifier; the aggregate counts one more
/// listing, which is active.
///
/// A request that is accepted needs a counter and an aggregate that can
/// still count one more listing.
pub fn plan_creation(
    caller: &VerifiedIdentity,
    seller: String,
    title: String,
    description: String,
    price: i128,
    now: u64,
    counter: Option<u64>,
    stats: Option<MarketplaceStats>,
) -> (plan: Result<Creation, MarketError>)
    requires
        creation_refusal(caller@, seller@, price as int) is None ==> room_for_creation(
            counter,
            stats,
        ),
    ensures
        match plan {
            Ok(creation) => {
                &&& creation_refusal(caller@, seller@, price as int) is None
                &&& creation.listing@ == ListingView::offered(
                    stored_counter(counter) + 1,
                    seller@,
                    title@,
                    description@,
                    price as int,
                    now as nat,
                )
                &&& creation.counter == stored_counter(counter) + 1
                &&& creation.stats@ == stored_stats(stats).after_creation()
                &&& creation.retain_for == RETENTION_WINDOW
            },
            Err(error) => creation_refusal(caller@, seller@, price as int) == Some(error),
        },
{
    match check_creation(caller, &seller, price) {
        Err(error) => {
            return Err(error);
        },
        Ok(()) => {},
    }
    let listing_id: u64 = match counter {
        Some(last) => last + 1,
        None => 1,
    };
    let current = MarketplaceStats::or_zero(stats);
    let listing = Listing {
        listing_id,
        seller,
        title,
        description,
        price,
        is_active: true,
        created_at: now,
    };
    let stats = MarketplaceStats {
        total_listings: current.total_listings + 1,
        active_listings: current.active_listings + 1,
        completed_sales: current.completed_sales,
    };
    Ok(Creation { listing, counter: listing_id, stats, retain_for: RETENTION_WINDOW })
}

/// Decides a request to purchase `listing`, which is what the lookup of the
/// requested identifier yielded, from the aggregate as it was read.
///
/// The request is refused as `purchase_refusal` says. Otherwise the listing
/// is marked as sold, with nothing else about it changed, and the aggregate
/// moves one count from active to completed.
///
/// A request that is accepted needs an aggregate that counts an active
/// listing and can still count one more sale.
pub fn plan_purchase(
    caller: &VerifiedIdentity,
    buyer: &String,
    listing: Listing,
    stats: Option<MarketplaceStats>,
) -> (plan: Result<Sale, MarketError>)
    requires
        purchase_refusal(caller@, buyer@, listing@) is None ==> room_for_sale(stats),
    ensures
        match plan {
            Ok(sale) => {
                &&& purchase_refusal(caller@, buyer@, listing@) is None
                &&& sale.listing@ == listing@.sold()
                &&& sale.stats@ == stored_stats(stats).after_sale()
                &&& sale.retain_for == RETENTION_WINDOW
            },
            Err(error) => purchase_refusal(caller@, buyer@, listing@) == Some(error),
        },
{
    match check_purchase(caller, buyer, &listing) {
        Err(error) => {
            return Err(error);
        },
        Ok(()) => {},
    }
    let current = MarketplaceStats::or_zero(stats);
    let mut sold = listing;
    sold.is_active = false;
    let stats = MarketplaceStats {
        total_listings: current.total_listings,
        active_listings: current.active_listings - 1,
        completed_sales: current.completed_sales + 1,
    };
    Ok(Sale { listing: sold, stats, retain_for: RETENTION_WINDOW })
}

} // verus!
