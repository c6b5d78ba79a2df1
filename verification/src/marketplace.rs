//! A marketplace of listings, each of which is posted, bought and then
//! reviewed by both of its parties, with the reviews handed to a reputation
//! engine.

use crate::allocator::Allocator;
use crate::registry::Registry;
use crate::reputation_trait::{RateError, Reputation};
use crate::AccountId;
use std::collections::HashMap;
use vstd::prelude::*;

verus! {

/// The identifier of a listing: assigned once, never reused.
pub type ListingId = u32;

/// A seller's for-sale record.
#[derive(PartialEq, Eq, Debug)]
pub struct Listing<Account> {
    pub seller: Account,
    pub price: u32,
    pub description: u32,
}

impl<Account: Copy> Copy for Listing<Account> {

}

impl<Account: Copy> Clone for Listing<Account> {
    fn clone(&self) -> (copy: Self)
        ensures
            copy == *self,
    {
        *self
    }
}

/// States a listing can be in. There is no status for a settled listing: once
/// both reviews have come in, the sale is deleted.
#[derive(Clone, Copy, PartialEq, Eq, Debug, Structural)]
pub enum Status {
    Active,
    Sold,
    SellerReviewed,
    BuyerReviewed,
}

impl Default for Status {
    fn default() -> (status: Status)
        ensures
            status == Status::Active,
    {
        Status::Active
    }
}

/// The part that a caller plays in a sale.
#[derive(Clone, Copy, PartialEq, Eq, Debug, Structural)]
pub enum Role {
    Seller,
    Buyer,
}

/// Why the marketplace refused a call. A refused call changes nothing.
#[derive(Clone, Copy, PartialEq, Eq, Debug, Structural)]
pub enum Error {
    /// No listing is stored under the identifier.
    NotFound,
    /// The listing's status forbids the operation.
    InvalidState,
    /// The caller may not do this: only the seller withdraws a listing, and
    /// nobody buys their own.
    Unauthorized,
    /// The caller is neither the seller nor the buyer of the listing.
    NotInvolved,
    /// The caller has reviewed this sale before.
    AlreadyReviewed,
    /// The reputation engine refused the rating.
    Reputation(RateError),
}

/// What the marketplace announces to its observers.
#[derive(PartialEq, Eq, Debug)]
pub enum Event<Account> {
    /// A seller posted a listing: seller, identifier, listing.
    Posted(Account, ListingId, Listing<Account>),
    /// A seller withdrew a listing.
    Cancelled(ListingId),
    /// A buyer bought a listing: buyer, identifier.
    Sold(Account, ListingId),
}

impl<Account: Copy> Copy for Event<Account> {

}

impl<Account: Copy> Clone for Event<Account> {
    fn clone(&self) -> (copy: Self)
        ensures
            copy == *self,
    {
        *self
    }
}

/// The abstract state of a marketplace whose reputation engine has the
/// abstract state `E`: the identifier counter, the three tables, the
/// announcements made so far, and the engine.
pub struct State<E> {
    pub next_id: ListingId,
    pub listings: Map<ListingId, Listing<AccountId>>,
    pub buyers: Map<ListingId, AccountId>,
    pub statuses: Map<ListingId, Status>,
    pub events: Seq<Event<AccountId>>,
    pub reputation: E,
}

/// The role of `caller` in the sale of `listing` to `buyer`: the seller's
/// where the caller is the seller, else the buyer's where there is a buyer
/// and the caller is that account.
pub open spec fn role_of(
    listing: Listing<AccountId>,
    buyer: Option<AccountId>,
    caller: AccountId,
) -> Option<Role> {
    if caller == listing.seller {
        Some(Role::Seller)
    } else if buyer == Some(caller) {
        Some(Role::Buyer)
    } else {
        None
    }
}

/// What a review by `role` makes of a listing in `status`: a new status, the
/// end of the sale (`None`), or a refusal.
pub open spec fn next_status(status: Status, role: Role) -> Result<Option<Status>, Error> {
    match (status, role) {
        (Status::Active, _) => Err(Error::InvalidState),
        (Status::Sold, Role::Seller) => Ok(Some(Status::SellerReviewed)),
        (Status::Sold, Role::Buyer) => Ok(Some(Status::BuyerReviewed)),
        (Status::SellerReviewed, Role::Buyer) => Ok(None),
        (Status::BuyerReviewed, Role::Seller) => Ok(None),
        (Status::SellerReviewed, Role::Seller) => Err(Error::AlreadyReviewed),
        (Status::BuyerReviewed, Role::Buyer) => Err(Error::AlreadyReviewed),
    }
}

impl<E> State<E> {
    /// The state of a marketplace on which nothing has happened yet.
    pub open spec fn initial(reputation: E) -> State<E> {
        State {
            next_id: 0,
            listings: Map::empty(),
            buyers: Map::empty(),
            statuses: Map::empty(),
            events: Seq::empty(),
            reputation,
        }
    }

    /// The listing stored under `id`.
    pub open spec fn listing(self, id: ListingId) -> Option<Listing<AccountId>> {
        if self.listings.contains_key(id) {
            Some(self.listings[id])
        } else {
            None
        }
    }

    /// The buyer of `id`.
    pub open spec fn buyer(self, id: ListingId) -> Option<AccountId> {
        if self.buyers.contains_key(id) {
            Some(self.buyers[id])
        } else {
            None
        }
    }

    /// The status of `id`.
    pub open spec fn status(self, id: ListingId) -> Option<Status> {
        if self.statuses.contains_key(id) {
            Some(self.statuses[id])
        } else {
            None
        }
    }

    /// What holds of every state that the operations can reach:
    /// a listing has a status and a status has a listing; a buyer is recorded
    /// exactly for the listings that are past `Active`; every listing's
    /// identifier has been issued; nobody bought their own listing.
    pub open spec fn wf(self) -> bool {
        &&& forall|id: ListingId|
            #![trigger self.listings.contains_key(id)]
            #![trigger self.statuses.contains_key(id)]
            self.listings.contains_key(id) <==> self.statuses.contains_key(id)
        &&& forall|id: ListingId|
            #![trigger self.buyers.contains_key(id)]
            #![trigger self.statuses.contains_key(id)]
            self.buyers.contains_key(id) <==> self.statuses.contains_key(id)
                && self.statuses[id] != Status::Active
        &&& forall|id: ListingId|
            #![trigger self.listings.contains_key(id)]
            self.listings.contains_key(id) ==> id < self.next_id
        &&& forall|id: ListingId|
            #![trigger self.buyers.contains_key(id)]
            self.buyers.contains_key(id) ==> self.buyers[id] != self.listings[id].seller
    }

    /// The state without any record of `id`.
    pub open spec fn without(self, id: ListingId) -> State<E> {
        State {
            listings: self.listings.remove(id),
            buyers: self.buyers.remove(id),
            statuses: self.statuses.remove(id),
            ..self
        }
    }

    /// The state after `seller` has posted a listing, which gets the
    /// identifier `self.next_id`.
    pub open spec fn post_listing(self, seller: AccountId, price: u32, description: u32) -> State<
        E,
    >
        recommends
            self.next_id < ListingId::MAX,
    {
        let listing = Listing { seller, price, description };
        State {
            next_id: (self.next_id + 1) as ListingId,
            listings: self.listings.insert(self.next_id, listing),
            statuses: self.statuses.insert(self.next_id, Status::Active),
            events: self.events.push(Event::Posted(seller, self.next_id, listing)),
            ..self
        }
    }

    /// The state after `caller` has withdrawn the listing `id`, or the reason
    /// for which that is refused.
    pub open spec fn cancel_listing(self, caller: AccountId, id: ListingId) -> Result<
        State<E>,
        Error,
    > {
        if !self.listings.contains_key(id) {
            Err(Error::NotFound)
        } else if self.statuses[id] != Status::Active {
            Err(Error::InvalidState)
        } else if self.listings[id].seller != caller {
            Err(Error::Unauthorized)
        } else {
            Ok(State { events: self.events.push(Event::Cancelled(id)), ..self.without(id) })
        }
    }

    /// The state after `caller` has bought the listing `id`, or the reason for
    /// which that is refused.
    pub open spec fn buy(self, caller: AccountId, id: ListingId) -> Result<State<E>, Error> {
        if !self.listings.contains_key(id) {
            Err(Error::NotFound)
        } else if self.statuses[id] != Status::Active {
            Err(Error::InvalidState)
        } else if self.listings[id].seller == caller {
            Err(Error::Unauthorized)
        } else {
            Ok(
                State {
                    buyers: self.buyers.insert(id, caller),
                    statuses: self.statuses.insert(id, Status::Sold),
                    events: self.events.push(Event::Sold(caller, id)),
                    ..self
                },
            )
        }
    }

    /// The account that `role` reviews in the sale of `id`: the other party.
    pub open spec fn reviewee(self, id: ListingId, role: Role) -> AccountId {
        match role {
            Role::Seller => self.buyers[id],
            Role::Buyer => self.listings[id].seller,
        }
    }
}

/// The state after `caller` has reviewed the sale of `id`, or the reason for
/// which that is refused. The engine `R` is handed the rating of the other
/// party exactly when the marketplace itself has no objection, and its
/// refusal refuses the review.
pub open spec fn review<R: Reputation<AccountId>>(
    state: State<R::State>,
    caller: AccountId,
    id: ListingId,
    feedback: R::Feedback,
) -> Result<State<R::State>, Error> {
    if !state.listings.contains_key(id) {
        Err(Error::NotFound)
    } else {
        match role_of(state.listings[id], state.buyer(id), caller) {
            None => Err(Error::NotInvolved),
            Some(role) => match next_status(state.statuses[id], role) {
                Err(e) => Err(e),
                Ok(next) => match R::rated(
                    state.reputation,
                    caller,
                    state.reviewee(id, role),
                    feedback,
                ) {
                    Err(e) => Err(Error::Reputation(e)),
                    Ok(reputation) => Ok(
                        match next {
                            Some(status) => State {
                                statuses: state.statuses.insert(id, status),
                                reputation,
                                ..state
                            },
                            None => State { reputation, ..state.without(id) },
                        },
                    ),
                },
            },
        }
    }
}

/// One call of a marketplace operation, without its caller.
pub enum Call<Feedback> {
    /// Post a listing with this price and this description.
    PostListing(u32, u32),
    /// Withdraw this listing.
    CancelListing(ListingId),
    /// Buy this listing.
    Buy(ListingId),
    /// Review the sale of this listing with this feedback.
    Review(ListingId, Feedback),
}

/// The state in which `call` by `caller` leaves `state`. A refused call
/// leaves it as it was.
pub open spec fn step<R: Reputation<AccountId>>(
    state: State<R::State>,
    caller: AccountId,
    call: Call<R::Feedback>,
) -> State<R::State> {
    match call {
        Call::PostListing(price, description) => state.post_listing(caller, price, description),
        Call::CancelListing(id) => match state.cancel_listing(caller, id) {
            Ok(after) => after,
            Err(_) => state,
        },
        Call::Buy(id) => match state.buy(caller, id) {
            Ok(after) => after,
            Err(_) => state,
        },
        Call::Review(id, feedback) => match review::<R>(state, caller, id, feedback) {
            Ok(after) => after,
            Err(_) => state,
        },
    }
}

/// What `call` by `caller` returns in `state`: the new listing's identifier
/// for a post, nothing for the other operations, or the refusal.
pub open spec fn answer<R: Reputation<AccountId>>(
    state: State<R::State>,
    caller: AccountId,
    call: Call<R::Feedback>,
) -> Result<Option<ListingId>, Error> {
    match call {
        Call::PostListing(_, _) => Ok(Some(state.next_id)),
        Call::CancelListing(id) => match state.cancel_listing(caller, id) {
            Ok(_) => Ok(None),
            Err(e) => Err(e),
        },
        Call::Buy(id) => match state.buy(caller, id) {
            Ok(_) => Ok(None),
            Err(e) => Err(e),
        },
        Call::Review(id, feedback) => match review::<R>(state, caller, id, feedback) {
            Ok(_) => Ok(None),
            Err(e) => Err(e),
        },
    }
}

impl Role {
    /// The role of `caller` in the sale of `listing` to `buyer`.
    pub fn of(listing: &Listing<AccountId>, buyer: Option<AccountId>, caller: AccountId) -> (role:
        Option<Role>)
        ensures
            role == role_of(*listing, buyer, caller),
    {
        if caller == listing.seller {
            Some(Role::Seller)
        } else {
            match buyer {
                Some(account) if account == caller => Some(Role::Buyer),
                _ => None,
            }
        }
    }
}

impl Status {
    /// What a review by `role` makes of a listing in this status.
    pub fn after_review(self, role: Role) -> (next: Result<Option<Status>, Error>)
        ensures
            next == next_status(self, role),
    {
        match (self, role) {
            (Status::Active, _) => Err(Error::InvalidState),
            (Status::Sold, Role::Seller) => Ok(Some(Status::SellerReviewed)),
            (Status::Sold, Role::Buyer) => Ok(Some(Status::BuyerReviewed)),
            (Status::SellerReviewed, Role::Buyer) => Ok(None),
            (Status::BuyerReviewed, Role::Seller) => Ok(None),
            (Status::SellerReviewed, Role::Seller) => Err(Error::AlreadyReviewed),
            (Status::BuyerReviewed, Role::Buyer) => Err(Error::AlreadyReviewed),
        }
    }
}

/// The marketplace: the identifier counter, the registry, the status of each
/// listing, the announcements made so far, and the reputation engine `R` to
/// which completed reviews are handed.
pub struct Module<R: Reputation<AccountId>> {
    ids: Allocator,
    registry: Registry,
    statuses: HashMap<ListingId, Status>,
    events: Vec<Event<AccountId>>,
    reputation: R,
}

impl<R: Reputation<AccountId>> View for Module<R> {
    type V = State<R::State>;

    closed spec fn view(&self) -> State<R::State> {
        State {
            next_id: self.ids@,
            listings: self.registry@.listings,
            buyers: self.registry@.buyers,
            statuses: self.statuses@,
            events: self.events@,
            reputation: self.reputation.state(),
        }
    }
}

impl<R: Reputation<AccountId>> Module<R> {
    /// The reputation engine as a value.
    pub closed spec fn spec_engine(&self) -> &R {
        &self.reputation
    }

    /// The marketplace is valid: its state is one that the operations can
    /// reach, and its engine is valid.
    pub open spec fn wf(&self) -> bool {
        &&& self@.wf()
        &&& self.spec_engine().wf()
        &&& self.spec_engine().state() == self@.reputation
    }

    /// A marketplace on which nothing has happened yet, around `reputation`.
    pub fn new(reputation: R) -> (market: Module<R>)
        requires
            reputation.wf(),
        ensures
            market.wf(),
            market@ == State::initial(reputation.state()),
            market.spec_engine() == reputation,
    {
        Module {
            ids: Allocator::new(),
            registry: Registry::new(),
            statuses: HashMap::new(),
            events: Vec::new(),
            reputation,
        }
    }

    /// The identifier that the next listing will get.
    pub fn next_id(&self) -> (id: ListingId)
        ensures
            id == self@.next_id,
    {
        self.ids.peek()
    }

    /// The listing stored under `id`.
    pub fn listing(&self, id: ListingId) -> (listing: Option<Listing<AccountId>>)
        ensures
            listing == self@.listing(id),
    {
        self.registry.get(id)
    }

    /// The buyer of `id`.
    pub fn buyer(&self, id: ListingId) -> (buyer: Option<AccountId>)
        ensures
            buyer == self@.buyer(id),
    {
        self.registry.get_buyer(id)
    }

    /// The status of `id`.
    pub fn status(&self, id: ListingId) -> (status: Option<Status>)
        ensures
            status == self@.status(id),
    {
        match self.statuses.get(&id) {
            Some(status) => Some(*status),
            None => None,
        }
    }

    /// The reputation of `account`, as the engine reports it.
    pub fn reputation(&self, account: AccountId) -> (score: R::Score)
        requires
            self.wf(),
        ensures
            score == R::score(self@.reputation, account),
    {
        self.reputation.reputation(account)
    }

    /// The announcements made so far, oldest first.
    pub fn events(&self) -> (events: &Vec<Event<AccountId>>)
        ensures
            events@ == self@.events,
    {
        &self.events
    }

    /// The reputation engine.
    #[verifier::when_used_as_spec(spec_engine)]
    pub fn engine(&self) -> (engine: &R)
        ensures
            engine == self.spec_engine(),
    {
        &self.reputation
    }

    /// Posts a listing for an item for sale and returns its identifier, which
    /// no listing had before.
    pub fn post_listing(&mut self, seller: AccountId, price: u32, description: u32) -> (id:
        ListingId)
        requires
            old(self).wf(),
            old(self)@.next_id < ListingId::MAX,
        ensures
            final(self).wf(),
            id == old(self)@.next_id,
            final(self)@ == old(self)@.post_listing(seller, price, description),
            final(self).spec_engine() == old(self).spec_engine(),
    {
        let listing = Listing { seller, price, description };
        let id: ListingId = self.ids.next();
        self.registry.insert(id, listing);
        self.statuses.insert(id, Status::Active);
        self.events.push(Event::Posted(seller, id, listing));
        id
    }

    /// Marks an item that the caller posted for sale as no longer for sale.
    pub fn cancel_listing(&mut self, caller: AccountId, id: ListingId) -> (r: Result<(), Error>)
        requires
            old(self).wf(),
        ensures
            final(self).wf(),
            final(self).spec_engine() == old(self).spec_engine(),
            match old(self)@.cancel_listing(caller, id) {
                Ok(state) => r is Ok && final(self)@ == state,
                Err(e) => r == Err::<(), Error>(e) && final(self)@ == old(self)@,
            },
    {
        let listing = match self.registry.get(id) {
            Some(listing) => listing,
            None => { return Err(Error::NotFound); },
        };
        match self.status(id) {
            Some(Status::Active) => {},
            _ => { return Err(Error::InvalidState); },
        }
        if listing.seller != caller {
            return Err(Error::Unauthorized);
        }
        self.registry.remove(id);
        self.statuses.remove(&id);
        self.registry.remove_buyer(id);
        self.events.push(Event::Cancelled(id));
        Ok(())
    }

    /// Buys the item of the listing `id` for the caller.
    pub fn buy(&mut self, caller: AccountId, id: ListingId) -> (r: Result<(), Error>)
        requires
            old(self).wf(),
        ensures
            final(self).wf(),
            final(self).spec_engine() == old(self).spec_engine(),
            match old(self)@.buy(caller, id) {
                Ok(state) => r is Ok && final(self)@ == state,
                Err(e) => r == Err::<(), Error>(e) && final(self)@ == old(self)@,
            },
    {
        let listing = match self.registry.get(id) {
            Some(listing) => listing,
            None => { return Err(Error::NotFound); },
        };
        match self.status(id) {
            Some(Status::Active) => {},
            _ => { return Err(Error::InvalidState); },
        }
        if listing.seller == caller {
            return Err(Error::Unauthorized);
        }
        self.registry.insert_buyer(id, caller);
        self.statuses.insert(id, Status::Sold);
        self.events.push(Event::Sold(caller, id));
        Ok(())
    }

    /// Submits the caller's feedback on the other party of the sale of `id`.
    /// The second of the two reviews settles the sale: every record of the
    /// listing is deleted with it.
    pub fn review(&mut self, caller: AccountId, id: ListingId, feedback: R::Feedback) -> (r: Result<
        (),
        Error,
    >)
        requires
            old(self).wf(),
        ensures
            final(self).wf(),
            match review::<R>(old(self)@, caller, id, feedback) {
                Ok(state) => r is Ok && final(self)@ == state,
                Err(e) => r == Err::<(), Error>(e) && final(self)@ == old(self)@,
            },
    {
        let listing = match self.registry.get(id) {
            Some(listing) => listing,
            None => { return Err(Error::NotFound); },
        };
        let buyer = self.registry.get_buyer(id);
        let role = match Role::of(&listing, buyer, caller) {
            Some(role) => role,
            None => { return Err(Error::NotInvolved); },
        };
        let next = match self.status(id).unwrap().after_review(role) {
            Ok(next) => next,
            Err(e) => { return Err(e); },
        };
        let reviewee = match role {
            Role::Seller => buyer.unwrap(),
            Role::Buyer => listing.seller,
        };
        // The engine is consulted before the tables are touched, so that its
        // refusal leaves nothing to undo.
        match self.reputation.rate(caller, reviewee, feedback) {
            Ok(()) => {},
            Err(e) => { return Err(Error::Reputation(e)); },
        }
        match next {
            Some(status) => {
                self.statuses.insert(id, status);
            },
            None => {
                self.statuses.remove(&id);
                self.registry.remove(id);
                self.registry.remove_buyer(id);
            },
        }
        Ok(())
    }

    /// Performs `call` for `caller`. A post answers with the new listing's
    /// identifier, the other operations with nothing.
    pub fn dispatch(&mut self, caller: AccountId, call: Call<R::Feedback>) -> (r: Result<
        Option<ListingId>,
        Error,
    >)
        requires
            old(self).wf(),
            call is PostListing ==> old(self)@.next_id < ListingId::MAX,
        ensures
            final(self).wf(),
            final(self)@ == step::<R>(old(self)@, caller, call),
            r == answer::<R>(old(self)@, caller, call),
    {
        match call {
            Call::PostListing(price, description) => {
                let id: ListingId = self.post_listing(caller, price, description);
                Ok(Some(id))
            },
            Call::CancelListing(id) => match self.cancel_listing(caller, id) {
                Ok(()) => Ok(None),
                Err(e) => Err(e),
            },
            Call::Buy(id) => match self.buy(caller, id) {
                Ok(()) => Ok(None),
                Err(e) => Err(e),
            },
            Call::Review(id, feedback) => match self.review(caller, id, feedback) {
                Ok(()) => Ok(None),
                Err(e) => Err(e),
            },
        }
    }
}

} // verus!
