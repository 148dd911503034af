//! What holds of the marketplace whatever is asked of it.

use vstd::prelude::*;
use crate::contract::MarketplaceContract;
use crate::ledger::Ledger;
use crate::model::{creations, MarketState, Request, Response};
use crate::records::{Listing, MarketplaceStats, StatsView};

verus! {

/// Whatever requests are made, in whatever order, the marketplace stays
/// consistent: the table holds the identifiers from one to the counter, and
/// the aggregate counts its listings.
pub proof fn law_always_consistent(requests: Seq<Request>)
    ensures
        MarketState::after(requests).consistent(),
    decreases requests.len(),
{
    if requests.len() > 0 {
        let before = MarketState::after(requests.drop_last());
        law_always_consistent(requests.drop_last());
        match requests.last() {
            Request::Create { caller, seller, title, description, price, now } => {
                before.lemma_create_consistent(caller, seller, title, description, price, now);
            },
            Request::Purchase { caller, buyer, listing_id } => {
                before.lemma_purchase_consistent(caller, buyer, listing_id);
            },
        }
    }
}

/// After any sequence of requests the total of the aggregate is the sum of
/// its active listings and its completed sales.
pub proof fn law_stats_balanced(requests: Seq<Request>)
    ensures
        MarketState::after(requests).stats.total == MarketState::after(requests).stats.active
            + MarketState::after(requests).stats.completed,
{
    law_always_consistent(requests);
}

/// After any sequence of requests the counter is the number of creations
/// that were accepted: it starts at zero, every accepted creation advances
/// it by exactly one, and nothing else moves it.
pub proof fn law_counter_counts_creations(requests: Seq<Request>)
    ensures
        MarketState::after(requests).counter == creations(requests),
    decreases requests.len(),
{
    if requests.len() > 0 {
        law_counter_counts_creations(requests.drop_last());
    }
}

/// The creation that is accepted as the `n`-th is answered with the
/// identifier `n`: where the request at `index` is an accepted creation, its
/// identifier is the number of accepted creations up to and including it.
pub proof fn law_nth_creation_gets_n(requests: Seq<Request>, index: int)
    requires
        0 <= index < requests.len(),
        requests[index].creates(),
    ensures
        MarketState::after(requests.take(index)).respond(requests[index]) == Response::Created(
            creations(requests.take(index + 1)),
        ),
        creations(requests.take(index + 1)) >= 1,
{
    let upto = requests.take(index + 1);
    assert(upto.drop_last() =~= requests.take(index));
    assert(upto.last() == requests[index]);
    law_counter_counts_creations(requests.take(index));
}

/// The number of accepted creations never shrinks as requests are added.
pub proof fn lemma_creations_grow(requests: Seq<Request>, shorter: int, longer: int)
    requires
        0 <= shorter <= longer <= requests.len(),
    ensures
        creations(requests.take(shorter)) <= creations(requests.take(longer)),
    decreases longer - shorter,
{
    if shorter < longer {
        lemma_creations_grow(requests, shorter, longer - 1);
        assert(requests.take(longer).drop_last() =~= requests.take(longer - 1));
    }
}

/// Identifiers are handed out in strictly increasing order: of two accepted
/// creations, the later one gets the greater identifier.
pub proof fn law_ids_strictly_increase(requests: Seq<Request>, earlier: int, later: int)
    requires
        0 <= earlier < later < requests.len(),
        requests[earlier].creates(),
        requests[later].creates(),
    ensures
        MarketState::after(requests.take(earlier)).respond(requests[earlier])
            matches Response::Created(first)
            && MarketState::after(requests.take(later)).respond(requests[later])
            matches Response::Created(second) && first < second,
{
    law_nth_creation_gets_n(requests, earlier);
    law_nth_creation_gets_n(requests, later);
    lemma_creations_grow(requests, earlier + 1, later);
    assert(requests.take(later + 1).drop_last() =~= requests.take(later));
    assert(requests.take(later + 1).last() == requests[later]);
}

/// Counting a creation or a sale keeps a balanced aggregate balanced, so the
/// balance also holds of an aggregate that is kept by the rules alone.
pub proof fn law_counting_keeps_the_balance(stats: StatsView)
    requires
        stats.balanced(),
    ensures
        stats.after_creation().balanced(),
        stats.active > 0 ==> stats.after_sale().balanced(),
{
}

/// What is stored stays stored: a request leaves every listing of a
/// consistent marketplace as it was, or marks it as sold if it was active.
/// Nothing else about a listing ever changes, and a sold listing is never
/// active again. The counter and the total never shrink.
pub proof fn law_listings_are_permanent(state: MarketState, request: Request, id: nat)
    requires
        state.consistent(),
        state.listings.contains_key(id),
    ensures
        state.step(request).listings.contains_key(id),
        state.step(request).lookup(id) == state.lookup(id) || (state.lookup(id).is_active
            && state.step(request).lookup(id) == state.lookup(id).sold()),
        state.counter <= state.step(request).counter <= state.counter + 1,
        state.stats.total <= state.step(request).stats.total,
{
}

/// Looking a listing up twice in the same ledger gives the same listing:
/// the lookup is determined by the ledger and the identifier.
pub proof fn law_lookup_repeats(ledger: Ledger, listing_id: u64, first: Listing, second: Listing)
    requires
        call_ensures(MarketplaceContract::get_listing, (&ledger, listing_id), first),
        call_ensures(MarketplaceContract::get_listing, (&ledger, listing_id), second),
    ensures
        first@ == second@,
{
}

/// Reading the statistics twice from the same ledger gives the same
/// aggregate.
pub proof fn law_stats_repeat(ledger: Ledger, first: MarketplaceStats, second: MarketplaceStats)
    requires
        call_ensures(MarketplaceContract::get_marketplace_stats, (&ledger,), first),
        call_ensures(MarketplaceContract::get_marketplace_stats, (&ledger,), second),
    ensures
        first == second,
{
}

} // verus!
