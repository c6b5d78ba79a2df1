//! The listing registry: which listing an identifier stands for, and who bought it.
//!
//! The registry is a plain keyed store. It checks nothing about what it is
//! given: the marketplace that drives it keeps the two tables consistent.

use crate::marketplace::{Listing, ListingId};
use crate::AccountId;
use std::collections::HashMap;
use vstd::prelude::*;

verus! {

/// The abstract content of a registry.
pub struct Tables {
    pub listings: Map<ListingId, Listing<AccountId>>,
    pub buyers: Map<ListingId, AccountId>,
}

/// The store of listings and of their buyers.
pub struct Registry {
    listings: HashMap<ListingId, Listing<AccountId>>,
    buyers: HashMap<ListingId, AccountId>,
}

impl View for Registry {
    type V = Tables;

    closed spec fn view(&self) -> Tables {
        Tables { listings: self.listings@, buyers: self.buyers@ }
    }
}

impl Registry {
    /// A registry without entries.
    pub fn new() -> (registry: Registry)
        ensures
            registry@.listings == Map::<ListingId, Listing<AccountId>>::empty(),
            registry@.buyers == Map::<ListingId, AccountId>::empty(),
    {
        Registry { listings: HashMap::new(), buyers: HashMap::new() }
    }

    /// Stores `listing` under `id`, in place of any listing that was there.
    pub fn insert(&mut self, id: ListingId, listing: Listing<AccountId>)
        ensures
            final(self)@.listings == old(self)@.listings.insert(id, listing),
            final(self)@.buyers == old(self)@.buyers,
    {
        self.listings.insert(id, listing);
    }

    /// The listing stored under `id`, if there is one.
    pub fn get(&self, id: ListingId) -> (listing: Option<Listing<AccountId>>)
        ensures
            listing == (if self@.listings.contains_key(id) {
                Some(self@.listings[id])
            } else {
                None
            }),
    {
        match self.listings.get(&id) {
            Some(listing) => Some(*listing),
            None => None,
        }
    }

    /// Deletes the listing stored under `id`; without one, nothing changes.
    pub fn remove(&mut self, id: ListingId)
        ensures
            final(self)@.listings == old(self)@.listings.remove(id),
            final(self)@.buyers == old(self)@.buyers,
    {
        self.listings.remove(&id);
    }

    /// Whether a listing is stored under `id`.
    pub fn contains(&self, id: ListingId) -> (found: bool)
        ensures
            found == self@.listings.contains_key(id),
    {
        self.listings.contains_key(&id)
    }

    /// Records `account` as the buyer of `id`, in place of any buyer recorded before.
    pub fn insert_buyer(&mut self, id: ListingId, account: AccountId)
        ensures
            final(self)@.buyers == old(self)@.buyers.insert(id, account),
            final(self)@.listings == old(self)@.listings,
    {
        self.buyers.insert(id, account);
    }

    /// The buyer recorded for `id`, if there is one.
    pub fn get_buyer(&self, id: ListingId) -> (buyer: Option<AccountId>)
        ensures
            buyer == (if self@.buyers.contains_key(id) {
                Some(self@.buyers[id])
            } else {
                None
            }),
    {
        match self.buyers.get(&id) {
            Some(buyer) => Some(*buyer),
            None => None,
        }
    }

    /// Deletes the buyer recorded for `id`; without one, nothing changes.
    pub fn remove_buyer(&mut self, id: ListingId)
        ensures
            final(self)@.buyers == old(self)@.buyers.remove(id),
            final(self)@.listings == old(self)@.listings,
    {
        self.buyers.remove(&id);
    }
}

} // verus!
