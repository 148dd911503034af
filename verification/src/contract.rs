//! The four operations of the marketplace on a ledger.

use vstd::prelude::*;
use crate::identity::VerifiedIdentity;
use crate::ledger::Ledger;
use crate::model::{creation_refusal, purchase_refusal};
use crate::records::{Listing, ListingBook, MarketError, MarketplaceStats};
use crate::rules::{plan_creation, plan_purchase};

verus! {

/// The marketplace: sellers create listings, buyers purchase them, and anyone
/// may look up a listing or the statistics.
///
/// Each operation works on the ledger it is handed. A changing operation
/// reads the records it needs, decides, and writes all the records it changes
/// together; a refused request writes nothing.
pub struct MarketplaceContract;

impl MarketplaceContract {
    /// Offers an item for sale and returns the identifier of the new listing.
    ///
    /// The request is refused with `Unauthorized` unless the caller controls
    /// the seller's identity, and else with `InvalidPrice` unless the price is
    /// strictly positive. An accepted request changes the ledger as
    /// `MarketState::create` says and returns the identifier after the
    /// counter, which is at least one.
    ///
    /// An accepted request needs a counter that can still be advanced.
    pub fn create_listing(
        ledger: &mut Ledger,
        caller: &VerifiedIdentity,
        seller: String,
        title: String,
        description: String,
        price: i128,
        now: u64,
    ) -> (outcome: Result<u64, MarketError>)
        requires
            creation_refusal(caller@, seller@, price as int) is None ==> old(ledger)@.counter
                < u64::MAX,
        ensures
            final(ledger)@ == old(ledger)@.create(
                caller@,
                seller@,
                title@,
                description@,
                price as int,
                now as nat,
            ),
            final(ledger)@.consistent(),
            match outcome {
                Ok(listing_id) => creation_refusal(caller@, seller@, price as int) is None
                    && listing_id == old(ledger)@.next_id() && listing_id >= 1,
                Err(error) => creation_refusal(caller@, seller@, price as int) == Some(error),
            },
    {
        let counter = ledger.counter();
        let stats = ledger.stats();
        proof {
            old(ledger)@.lemma_create_consistent(
                caller@,
                seller@,
                title@,
                description@,
                price as int,
                now as nat,
            );
        }
        match plan_creation(caller, seller, title, description, price, now, counter, stats) {
            Ok(creation) => {
                let listing_id = creation.counter;
                ledger.write_creation(creation);
                Ok(listing_id)
            },
            Err(error) => Err(error),
        }
    }

    /// Buys the listing with the given identifier.
    ///
    /// The request is refused by the first of these tests that fails: with
    /// `Unauthorized` unless the caller controls the buyer's identity, with
    /// `ListingNotFound` unless a listing is stored under the identifier, with
    /// `ListingInactive` if it has been sold, and with `SelfPurchase` if the
    /// buyer is its seller. An accepted request changes the ledger as
    /// `MarketState::purchase` says.
    pub fn purchase_item(
        ledger: &mut Ledger,
        caller: &VerifiedIdentity,
        buyer: &String,
        listing_id: u64,
    ) -> (outcome: Result<(), MarketError>)
        ensures
            final(ledger)@ == old(ledger)@.purchase(caller@, buyer@, listing_id as nat),
            final(ledger)@.consistent(),
            outcome == match purchase_refusal(
                caller@,
                buyer@,
                old(ledger)@.lookup(listing_id as nat),
            ) {
                None => Ok::<(), MarketError>(()),
                Some(error) => Err::<(), MarketError>(error),
            },
    {
        let listing = Self::get_listing(ledger, listing_id);
        let stats = ledger.stats();
        proof {
            old(ledger)@.lemma_purchase_consistent(caller@, buyer@, listing_id as nat);
            if purchase_refusal(caller@, buyer@, listing@) is None {
                old(ledger)@.lemma_active_listing_counted(listing_id as nat);
            }
        }
        match plan_purchase(caller, buyer, listing, stats) {
            Ok(sale) => {
                ledger.write_sale(sale);
                Ok(())
            },
            Err(error) => Err(error),
        }
    }

    /// Looks up the listing with the given identifier: a copy of the stored
    /// listing, or the placeholder with the reserved identifier zero where
    /// none is stored. Never fails and changes nothing.
    pub fn get_listing(ledger: &Ledger, listing_id: u64) -> (listing: Listing)
        ensures
            listing@ == ledger@.lookup(listing_id as nat),
            listing@.is_found() <==> 1 <= listing_id <= ledger@.counter,
    {
        match ledger.listing(ListingBook::Listing(listing_id)) {
            Some(stored) => stored.clone(),
            None => Listing::not_found(),
        }
    }

    /// Reads the statistics aggregate: all zeros while no listing has been
    /// created. Never fails and changes nothing. Every listing ever created
    /// is either still active or sold.
    pub fn get_marketplace_stats(ledger: &Ledger) -> (stats: MarketplaceStats)
        ensures
            stats@ == ledger@.stats,
            stats@.balanced(),
    {
        MarketplaceStats::or_zero(ledger.stats())
    }
}

} // verus!
