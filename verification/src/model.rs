//! The marketplace as a mathematical state machine: what is stored, what each
//! operation decides and how it changes the state.

use vstd::prelude::*;
use crate::records::{ListingView, MarketError, StatsView};

verus! {

/// The window, counted in ledgers, to which every successful change extends
/// the retention of the store.
pub const RETENTION_WINDOW: u32 = 5000;

/// Why a creation is refused, if it is: the caller must control the seller's
/// identity, and the price must be strictly positive.
pub open spec fn creation_refusal(caller: Seq<char>, seller: Seq<char>, price: int) -> Option<
    MarketError,
> {
    if caller != seller {
        Some(MarketError::Unauthorized)
    } else if price <= 0 {
        Some(MarketError::InvalidPrice)
    } else {
        None
    }
}

/// Why a purchase is refused, if it is. `listing` is what the lookup yielded.
/// The tests are made in this order and the first that fails decides: the
/// caller controls the buyer's identity, the listing exists, it is still
/// active, and the buyer is not its seller.
pub open spec fn purchase_refusal(caller: Seq<char>, buyer: Seq<char>, listing: ListingView)
    -> Option<MarketError> {
    if caller != buyer {
        Some(MarketError::Unauthorized)
    } else if !listing.is_found() {
        Some(MarketError::ListingNotFound)
    } else if !listing.is_active {
        Some(MarketError::ListingInactive)
    } else if buyer == listing.seller {
        Some(MarketError::SelfPurchase)
    } else {
        None
    }
}

/// How many of the listings with identifiers `1..=upto` are active.
pub open spec fn active_up_to(listings: Map<nat, ListingView>, upto: nat) -> nat
    decreases upto,
{
    if upto == 0 {
        0
    } else {
        active_up_to(listings, (upto - 1) as nat) + if listings[upto].is_active {
            1nat
        } else {
            0nat
        }
    }
}

/// Everything the marketplace stores.
pub struct MarketState {
    /// The listing table, from identifier to listing.
    pub listings: Map<nat, ListingView>,
    /// The identifier that was assigned last; zero while there is no listing.
    pub counter: nat,
    /// The statistics aggregate.
    pub stats: StatsView,
    /// For how many ledgers the store is retained.
    pub retention: nat,
}

impl MarketState {
    /// The marketplace before anything was stored.
    pub open spec fn empty() -> MarketState {
        MarketState { listings: Map::empty(), counter: 0, stats: StatsView::zero(), retention: 0 }
    }

    /// What a lookup yields: the stored listing, or the placeholder where
    /// nothing is stored under the identifier.
    pub open spec fn lookup(self, id: nat) -> ListingView {
        if self.listings.contains_key(id) {
            self.listings[id]
        } else {
            ListingView::not_found()
        }
    }

    /// The identifier that the next successful creation assigns.
    pub open spec fn next_id(self) -> nat {
        self.counter + 1
    }

    /// The state with its retention extended to the window, unless it already
    /// reaches that far.
    pub open spec fn retained(self) -> MarketState {
        MarketState {
            retention: if self.retention < RETENTION_WINDOW {
                RETENTION_WINDOW as nat
            } else {
                self.retention
            },
            ..self
        }
    }

    /// The state after a request to create a listing. A refused request
    /// changes nothing. An accepted one stores the new listing under the next
    /// identifier, advances the counter by one, counts the listing as created
    /// and active, and extends the retention.
    pub open spec fn create(
        self,
        caller: Seq<char>,
        seller: Seq<char>,
        title: Seq<char>,
        description: Seq<char>,
        price: int,
        now: nat,
    ) -> MarketState {
        if creation_refusal(caller, seller, price) is None {
            MarketState {
                listings: self.listings.insert(
                    self.next_id(),
                    ListingView::offered(self.next_id(), seller, title, description, price, now),
                ),
                counter: self.next_id(),
                stats: self.stats.after_creation(),
                retention: self.retention,
            }.retained()
        } else {
            self
        }
    }

    /// The state after a request to purchase a listing. A refused request
    /// changes nothing. An accepted one marks the listing as sold, moves one
    /// count from active to completed, and extends the retention.
    pub open spec fn purchase(self, caller: Seq<char>, buyer: Seq<char>, id: nat) -> MarketState {
        if purchase_refusal(caller, buyer, self.lookup(id)) is None {
            MarketState {
                listings: self.listings.insert(id, self.lookup(id).sold()),
                counter: self.counter,
                stats: self.stats.after_sale(),
                retention: self.retention,
            }.retained()
        } else {
            self
        }
    }

    /// What holds of every state that the operations can reach: the table
    /// holds exactly the identifiers from one to the counter, each listing
    /// bears the identifier it is stored under and a positive price, and the
    /// aggregate counts the listings of the table.
    pub open spec fn consistent(self) -> bool {
        &&& forall|id: nat| #[trigger] self.listings.contains_key(id) <==> 1 <= id <= self.counter
        &&& forall|id: nat| #[trigger]
            self.listings.contains_key(id) ==> self.listings[id].listing_id == id
                && self.listings[id].price > 0
        &&& self.stats.total == self.counter
        &&& self.stats.active == active_up_to(self.listings, self.counter)
        &&& self.stats.balanced()
    }
}

/// A request to change the marketplace, as mathematical values.
pub enum Request {
    /// The caller asks to list an item for the seller, at the time `now`.
    Create {
        caller: Seq<char>,
        seller: Seq<char>,
        title: Seq<char>,
        description: Seq<char>,
        price: int,
        now: nat,
    },
    /// The caller asks to buy a listing for the buyer.
    Purchase { caller: Seq<char>, buyer: Seq<char>, listing_id: nat },
}

/// The answer to a request.
pub enum Response {
    /// The listing was created under this identifier.
    Created(nat),
    /// The listing was sold.
    Purchased,
    /// The request was refused and nothing changed.
    Refused(MarketError),
}

impl Request {
    /// Whether the request is a creation that is accepted. This depends on
    /// the request alone.
    pub open spec fn creates(self) -> bool {
        match self {
            Request::Create { caller, seller, price, .. } => creation_refusal(
                caller,
                seller,
                price,
            ) is None,
            Request::Purchase { .. } => false,
        }
    }
}

impl MarketState {
    /// The state after a request.
    pub open spec fn step(self, request: Request) -> MarketState {
        match request {
            Request::Create { caller, seller, title, description, price, now } => self.create(
                caller,
                seller,
                title,
                description,
                price,
                now,
            ),
            Request::Purchase { caller, buyer, listing_id } => self.purchase(
                caller,
                buyer,
                listing_id,
            ),
        }
    }

    /// The answer to a request made in this state.
    pub open spec fn respond(self, request: Request) -> Response {
        match request {
            Request::Create { caller, seller, price, .. } => match creation_refusal(
                caller,
                seller,
                price,
            ) {
                None => Response::Created(self.next_id()),
                Some(error) => Response::Refused(error),
            },
            Request::Purchase { caller, buyer, listing_id } => match purchase_refusal(
                caller,
                buyer,
                self.lookup(listing_id),
            ) {
                None => Response::Purchased,
                Some(error) => Response::Refused(error),
            },
        }
    }

    /// The state that the requests lead to, made one after the other on the
    /// empty marketplace.
    pub open spec fn after(requests: Seq<Request>) -> MarketState
        decreases requests.len(),
    {
        if requests.len() == 0 {
            MarketState::empty()
        } else {
            MarketState::after(requests.drop_last()).step(requests.last())
        }
    }
}

/// How many of the requests are creations that are accepted.
pub open spec fn creations(requests: Seq<Request>) -> nat
    decreases requests.len(),
{
    if requests.len() == 0 {
        0
    } else {
        creations(requests.drop_last()) + if requests.last().creates() {
            1nat
        } else {
            0nat
        }
    }
}

/// Two tables that agree on the activity of the first `upto` listings have as
/// many active ones among them.
pub proof fn lemma_active_agrees(
    before: Map<nat, ListingView>,
    after: Map<nat, ListingView>,
    upto: nat,
)
    requires
        forall|id: nat| 1 <= id <= upto ==> before[id].is_active == after[id].is_active,
    ensures
        active_up_to(before, upto) == active_up_to(after, upto),
    decreases upto,
{
    if upto > 0 {
        lemma_active_agrees(before, after, (upto - 1) as nat);
    }
}

/// Marking one active listing among the first `upto` as sold leaves one
/// active listing fewer.
pub proof fn lemma_active_after_sale(listings: Map<nat, ListingView>, id: nat, upto: nat)
    requires
        1 <= id <= upto,
        listings[id].is_active,
    ensures
        active_up_to(listings, upto) >= 1,
        active_up_to(listings.insert(id, listings[id].sold()), upto) == active_up_to(
            listings,
            upto,
        ) - 1,
    decreases upto,
{
    let after = listings.insert(id, listings[id].sold());
    if id == upto {
        lemma_active_agrees(listings, after, (upto - 1) as nat);
    } else {
        lemma_active_after_sale(listings, id, (upto - 1) as nat);
    }
}

impl MarketState {
    /// A request to create a listing keeps a consistent state consistent,
    /// whether it is accepted or refused.
    pub proof fn lemma_create_consistent(
        self,
        caller: Seq<char>,
        seller: Seq<char>,
        title: Seq<char>,
        description: Seq<char>,
        price: int,
        now: nat,
    )
        requires
            self.consistent(),
        ensures
            self.create(caller, seller, title, description, price, now).consistent(),
    {
        if creation_refusal(caller, seller, price) is None {
            let offer = ListingView::offered(
                self.next_id(),
                seller,
                title,
                description,
                price,
                now,
            );
            let listings = self.listings.insert(self.next_id(), offer);
            lemma_active_agrees(self.listings, listings, self.counter);
        }
    }

    /// A request to purchase a listing keeps a consistent state consistent,
    /// whether it is accepted or refused.
    pub proof fn lemma_purchase_consistent(self, caller: Seq<char>, buyer: Seq<char>, id: nat)
        requires
            self.consistent(),
        ensures
            self.purchase(caller, buyer, id).consistent(),
    {
        if purchase_refusal(caller, buyer, self.lookup(id)) is None {
            assert(self.listings.contains_key(id));
            lemma_active_after_sale(self.listings, id, self.counter);
        }
    }

    /// In a consistent state an active listing is counted: a sale never finds
    /// the count of active listings at zero.
    pub proof fn lemma_active_listing_counted(self, id: nat)
        requires
            self.consistent(),
            self.lookup(id).is_found(),
            self.lookup(id).is_active,
        ensures
            self.stats.active >= 1,
            self.stats.completed < self.stats.total,
    {
        assert(self.listings.contains_key(id));
        lemma_active_after_sale(self.listings, id, self.counter);
    }
}

} // verus!
