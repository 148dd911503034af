//! The records of the marketplace: listings, the statistics aggregate, the key
//! of the listing table and the kinds of failure.

use vstd::prelude::*;

verus! {

/// Why an operation was refused.
#[derive(Debug, Clone, Copy, PartialEq, Eq, Structural)]
pub enum MarketError {
    /// The caller does not control the identity it claims to act as.
    Unauthorized,
    /// A listing was offered at a price that is not strictly positive.
    InvalidPrice,
    /// No listing is stored under the identifier.
    ListingNotFound,
    /// The listing has already been sold.
    ListingInactive,
    /// The buyer is the seller of the listing.
    SelfPurchase,
}

/// The key under which a record of the listing table is stored.
#[derive(Debug, Clone, Copy, PartialEq, Eq, Structural)]
pub enum ListingBook {
    /// The listing with the given identifier.
    Listing(u64),
}

impl ListingBook {
    /// The identifier that the key names.
    pub open spec fn id(self) -> nat {
        match self {
            ListingBook::Listing(id) => id as nat,
        }
    }

    /// The identifier that the key names.
    pub fn listing_id(&self) -> (id: u64)
        ensures
            id == self.id(),
    {
        match self {
            ListingBook::Listing(id) => *id,
        }
    }
}

/// The statistics aggregate as mathematical integers.
pub struct StatsView {
    pub total: nat,
    pub active: nat,
    pub completed: nat,
}

impl StatsView {
    /// The aggregate of an empty marketplace.
    pub open spec fn zero() -> StatsView {
        StatsView { total: 0, active: 0, completed: 0 }
    }

    /// Every listing ever created is either still active or sold.
    pub open spec fn balanced(self) -> bool {
        self.total == self.active + self.completed
    }

    /// The aggregate after one more listing was created.
    pub open spec fn after_creation(self) -> StatsView {
        StatsView { total: self.total + 1, active: self.active + 1, completed: self.completed }
    }

    /// The aggregate after one active listing was sold.
    pub open spec fn after_sale(self) -> StatsView
        recommends
            self.active > 0,
    {
        StatsView {
            total: self.total,
            active: (self.active - 1) as nat,
            completed: self.completed + 1,
        }
    }
}

/// Counts over all listings: how many were ever created, how many are still
/// active and how many were sold.
#[derive(Debug, Clone, Copy, PartialEq, Eq, Structural)]
pub struct MarketplaceStats {
    pub total_listings: u64,
    pub active_listings: u64,
    pub completed_sales: u64,
}

impl View for MarketplaceStats {
    type V = StatsView;

    open spec fn view(&self) -> StatsView {
        StatsView {
            total: self.total_listings as nat,
            active: self.active_listings as nat,
            completed: self.completed_sales as nat,
        }
    }
}

impl MarketplaceStats {
    /// The aggregate of an empty marketplace: all counts are zero.
    pub fn zero() -> (stats: MarketplaceStats)
        ensures
            stats@ == StatsView::zero(),
    {
        MarketplaceStats { total_listings: 0, active_listings: 0, completed_sales: 0 }
    }

    /// What a read of the aggregate yields: the stored record, or all zeros
    /// while none has been written.
    pub fn or_zero(stored: Option<MarketplaceStats>) -> (stats: MarketplaceStats)
        ensures
            stats@ == stored_stats(stored),
    {
        match stored {
            Some(stats) => stats,
            None => MarketplaceStats::zero(),
        }
    }
}

/// The aggregate that a store holds: the stored record, or all zeros while
/// none has been written.
pub open spec fn stored_stats(stored: Option<MarketplaceStats>) -> StatsView {
    match stored {
        Some(stats) => stats@,
        None => StatsView::zero(),
    }
}

/// The counter that a store holds: the stored value, or zero while none has
/// been written.
pub open spec fn stored_counter(stored: Option<u64>) -> nat {
    match stored {
        Some(counter) => counter as nat,
        None => 0,
    }
}

/// A listing as mathematical values.
pub struct ListingView {
    pub listing_id: nat,
    pub seller: Seq<char>,
    pub title: Seq<char>,
    pub description: Seq<char>,
    pub price: int,
    pub is_active: bool,
    pub created_at: nat,
}

impl ListingView {
    /// The placeholder that a lookup yields where nothing is stored: it bears
    /// the reserved identifier zero, is inactive and costs nothing.
    pub open spec fn not_found() -> ListingView {
        ListingView {
            listing_id: 0,
            seller: "GAAAAAAAAAAAAAAAAAAAAAAAAAAAAAAAAAAAAAAAAAAAAAAAAAAAAWHF"@,
            title: "Not Found"@,
            description: "Not Found"@,
            price: 0,
            is_active: false,
            created_at: 0,
        }
    }

    /// Whether this is a stored listing rather than the placeholder.
    pub open spec fn is_found(self) -> bool {
        self.listing_id != 0
    }

    /// The listing as a seller offers it: active from its creation on.
    pub open spec fn offered(
        listing_id: nat,
        seller: Seq<char>,
        title: Seq<char>,
        description: Seq<char>,
        price: int,
        created_at: nat,
    ) -> ListingView {
        ListingView {
            listing_id,
            seller,
            title,
            description,
            price,
            is_active: true,
            created_at,
        }
    }

    /// The same listing once it is sold: only the activity flag changes.
    pub open spec fn sold(self) -> ListingView {
        ListingView { is_active: false, ..self }
    }
}

/// One item offered for sale.
///
/// The seller is named by the textual form of its address. The price is an
/// amount in the smallest unit of the currency.
#[derive(Debug, PartialEq, Eq)]
pub struct Listing {
    pub listing_id: u64,
    pub seller: String,
    pub title: String,
    pub description: String,
    pub price: i128,
    pub is_active: bool,
    pub created_at: u64,
}

impl View for Listing {
    type V = ListingView;

    open spec fn view(&self) -> ListingView {
        ListingView {
            listing_id: self.listing_id as nat,
            seller: self.seller@,
            title: self.title@,
            description: self.description@,
            price: self.price as int,
            is_active: self.is_active,
            created_at: self.created_at as nat,
        }
    }
}

impl Clone for Listing {
    fn clone(&self) -> (copy: Listing)
        ensures
            copy@ == self@,
    {
        Listing {
            listing_id: self.listing_id,
            seller: self.seller.clone(),
            title: self.title.clone(),
            description: self.description.clone(),
            price: self.price,
            is_active: self.is_active,
            created_at: self.created_at,
        }
    }
}

impl Listing {
    /// The placeholder that a lookup yields where nothing is stored.
    pub fn not_found() -> (listing: Listing)
        ensures
            listing@ == ListingView::not_found(),
    {
        Listing {
            listing_id: 0,
            seller: "GAAAAAAAAAAAAAAAAAAAAAAAAAAAAAAAAAAAAAAAAAAAAAAAAAAAAWHF".to_owned(),
            title: "Not Found".to_owned(),
            description: "Not Found".to_owned(),
            price: 0,
            is_active: false,
            created_at: 0,
        }
    }

    /// What a lookup yields: the stored listing, or the placeholder where
    /// nothing is stored under the key.
    pub fn or_not_found(stored: Option<Listing>) -> (listing: Listing)
        ensures
            listing@ == stored_listing(stored),
    {
        match stored {
            Some(listing) => listing,
            None => Listing::not_found(),
        }
    }

    /// Whether this is a stored listing rather than the placeholder.
    pub fn is_found(&self) -> (found: bool)
        ensures
            found == self@.is_found(),
    {
        self.listing_id != 0
    }
}

/// The listing that a lookup yields: the stored one, or the placeholder where
/// nothing is stored under the key.
pub open spec fn stored_listing(stored: Option<Listing>) -> ListingView {
    match stored {
        Some(listing) => listing@,
        None => ListingView::not_found(),
    }
}

} // verus!
