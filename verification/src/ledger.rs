//! The store of the marketplace, held in memory: the listing table, the
//! counter and the statistics aggregate, bundled so that they change together.

use vstd::prelude::*;
use crate::model::{lemma_active_after_sale, lemma_active_agrees, MarketState, RETENTION_WINDOW};
use crate::records::{
    stored_counter,
    stored_stats,
    Listing,
    ListingBook,
    ListingView,
    MarketplaceStats,
};
use crate::rules::{Creation, Sale};

verus! {

/// The three tables of the marketplace and the retention of the store.
///
/// A record is absent until it is first written. The records can be read one
/// by one; they are written only by the operations, each of which writes all
/// the records it changes together, so that every ledger is consistent.
#[derive(Debug)]
pub struct Ledger {
    /// The listing with identifier `i + 1` stands at index `i`.
    listings: Vec<Listing>,
    counter: Option<u64>,
    stats: Option<MarketplaceStats>,
    retention: u32,
}

impl View for Ledger {
    type V = MarketState;

    closed spec fn view(&self) -> MarketState {
        MarketState {
            listings: Map::new(
                |id: nat| 1 <= id <= self.listings.len(),
                |id: nat| self.listings[id - 1]@,
            ),
            counter: stored_counter(self.counter),
            stats: stored_stats(self.stats),
            retention: self.retention as nat,
        }
    }
}

impl Ledger {
    /// The counter and the aggregate are absent exactly while there is no
    /// listing, and what is stored is consistent.
    #[verifier::type_invariant]
    spec fn well_formed(&self) -> bool {
        &&& self.listings.len() == stored_counter(self.counter)
        &&& self.counter != Some(0u64)
        &&& self.stats is None <==> self.counter is None
        &&& self@.consistent()
    }

    /// A store in which nothing has been written yet.
    pub fn new() -> (ledger: Ledger)
        ensures
            ledger@ == MarketState::empty(),
    {
        let ledger = Ledger { listings: Vec::new(), counter: None, stats: None, retention: 0 };
        assert(ledger@.listings =~= Map::<nat, ListingView>::empty());
        ledger
    }

    /// The counter as it is stored: the identifier that was assigned last,
    /// absent until the first listing is created.
    pub fn counter(&self) -> (stored: Option<u64>)
        ensures
            stored_counter(stored) == self@.counter,
            stored is None <==> self@.counter == 0,
            self@.consistent(),
    {
        proof {
            use_type_invariant(self);
        }
        self.counter
    }

    /// The statistics aggregate as it is stored, absent until the first
    /// listing is created.
    pub fn stats(&self) -> (stored: Option<MarketplaceStats>)
        ensures
            stored_stats(stored) == self@.stats,
            stored is None <==> self@.counter == 0,
            self@.consistent(),
    {
        proof {
            use_type_invariant(self);
        }
        self.stats
    }

    /// The listing that is stored under `key`, if there is one.
    pub fn listing(&self, key: ListingBook) -> (stored: Option<&Listing>)
        ensures
            match stored {
                Some(listing) => self@.listings.contains_key(key.id()) && listing@
                    == self@.listings[key.id()],
                None => !self@.listings.contains_key(key.id()),
            },
            self@.consistent(),
    {
        proof {
            use_type_invariant(self);
        }
        let id = key.listing_id();
        if id == 0 || id > self.listings.len() as u64 {
            None
        } else {
            Some(&self.listings[(id - 1) as usize])
        }
    }

    /// For how many ledgers the store is retained.
    pub fn retention(&self) -> (window: u32)
        ensures
            window == self@.retention,
    {
        self.retention
    }

    /// Writes the batch of an accepted creation and extends the retention.
    pub(crate) fn write_creation(&mut self, creation: Creation)
        requires
            creation.counter == old(self)@.next_id(),
            creation.listing@.listing_id == creation.counter,
            creation.listing@.is_active,
            creation.listing@.price > 0,
            creation.stats@ == old(self)@.stats.after_creation(),
            creation.retain_for == RETENTION_WINDOW,
        ensures
            final(self)@ == (MarketState {
                listings: old(self)@.listings.insert(creation.counter as nat, creation.listing@),
                counter: creation.counter as nat,
                stats: creation.stats@,
                retention: old(self)@.retention,
            }).retained(),
    {
        proof {
            use_type_invariant(&*self);
        }
        // The ledger is taken apart and put together again in one piece, so
        // that it is never seen with only some of the records written.
        let mut taken = Ledger::new();
        core::mem::swap(self, &mut taken);
        let Ledger { listings, counter: _, stats: _, retention } = taken;
        let mut listings = listings;
        listings.push(creation.listing);
        let retention = if retention < creation.retain_for {
            creation.retain_for
        } else {
            retention
        };
        let ghost before = old(self)@;
        let ghost after = (Ledger {
            listings,
            counter: Some(creation.counter),
            stats: Some(creation.stats),
            retention,
        })@;
        proof {
            assert(after.listings =~= before.listings.insert(
                creation.counter as nat,
                creation.listing@,
            ));
            lemma_active_agrees(before.listings, after.listings, before.counter);
        }
        *self = Ledger {
            listings,
            counter: Some(creation.counter),
            stats: Some(creation.stats),
            retention,
        };
    }

    /// Writes the batch of an accepted purchase and extends the retention.
    pub(crate) fn write_sale(&mut self, sale: Sale)
        requires
            old(self)@.listings.contains_key(sale.listing@.listing_id),
            old(self)@.listings[sale.listing@.listing_id].is_active,
            sale.listing@ == old(self)@.listings[sale.listing@.listing_id].sold(),
            sale.stats@ == old(self)@.stats.after_sale(),
            sale.retain_for == RETENTION_WINDOW,
        ensures
            final(self)@ == (MarketState {
                listings: old(self)@.listings.insert(sale.listing@.listing_id, sale.listing@),
                counter: old(self)@.counter,
                stats: sale.stats@,
                retention: old(self)@.retention,
            }).retained(),
    {
        proof {
            use_type_invariant(&*self);
        }
        // As for a creation: taken apart and put together again in one piece.
        let mut taken = Ledger::new();
        core::mem::swap(self, &mut taken);
        let Ledger { listings, counter, stats: _, retention } = taken;
        let mut listings = listings;
        let index = (sale.listing.listing_id - 1) as usize;
        listings.set(index, sale.listing);
        let retention = if retention < sale.retain_for {
            sale.retain_for
        } else {
            retention
        };
        let ghost before = old(self)@;
        let ghost after = (Ledger { listings, counter, stats: Some(sale.stats), retention })@;
        proof {
            assert(after.listings =~= before.listings.insert(
                sale.listing@.listing_id,
                sale.listing@,
            ));
            lemma_active_after_sale(before.listings, sale.listing@.listing_id, before.counter);
        }
        *self = Ledger { listings, counter, stats: Some(sale.stats), retention };
    }
}

} // verus!
