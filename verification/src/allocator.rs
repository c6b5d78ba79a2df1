//! Issues listing identifiers: consecutive integers from zero, none of them twice.

use crate::marketplace::ListingId;
use vstd::prelude::*;

verus! {

/// The source of listing identifiers. Its view is the identifier that it
/// issues next; every smaller one has been issued and none will be again.
pub struct Allocator {
    next: ListingId,
}

impl View for Allocator {
    type V = ListingId;

    closed spec fn view(&self) -> ListingId {
        self.next
    }
}

impl Allocator {
    /// An allocator that has issued nothing yet.
    pub fn new() -> (allocator: Allocator)
        ensures
            allocator@ == 0,
    {
        Allocator { next: 0 }
    }

    /// The identifier that `next` would issue.
    pub fn peek(&self) -> (id: ListingId)
        ensures
            id == self@,
    {
        self.next
    }

    /// Issues a fresh identifier and moves the counter on by exactly one.
    pub fn next(&mut self) -> (id: ListingId)
        requires
            old(self)@ < ListingId::MAX,
        ensures
            id == old(self)@,
            final(self)@ == old(self)@ + 1,
    {
        let id: ListingId = self.next;
        self.next = id + 1;
        id
    }
}

} // verus!
