//! What holds of the marketplace over whole histories of calls, proved from the
//! transitions that the operations implement.

use crate::marketplace::{review, step, Call, Error, ListingId, State, Status};
use crate::reputation_trait::Reputation;
use crate::AccountId;
use vstd::prelude::*;

verus! {

/// The state that a history of calls, oldest first and each with its caller,
/// makes of `state`.
pub open spec fn run<R: Reputation<AccountId>>(
    state: State<R::State>,
    history: Seq<(AccountId, Call<R::Feedback>)>,
) -> State<R::State>
    decreases history.len(),
{
    if history.len() == 0 {
        state
    } else {
        step::<R>(run::<R>(state, history.drop_last()), history.last().0, history.last().1)
    }
}

/// The number of posts in a history.
pub open spec fn posts<Feedback>(history: Seq<(AccountId, Call<Feedback>)>) -> nat
    decreases history.len(),
{
    if history.len() == 0 {
        0
    } else if history.last().1 is PostListing {
        posts(history.drop_last()) + 1
    } else {
        posts(history.drop_last())
    }
}

/// The identifiers that the posts of a history return, in the order of the posts.
pub open spec fn issued<R: Reputation<AccountId>>(
    state: State<R::State>,
    history: Seq<(AccountId, Call<R::Feedback>)>,
) -> Seq<ListingId>
    decreases history.len(),
{
    if history.len() == 0 {
        Seq::empty()
    } else if history.last().1 is PostListing {
        issued::<R>(state, history.drop_last()).push(
            run::<R>(state, history.drop_last()).next_id,
        )
    } else {
        issued::<R>(state, history.drop_last())
    }
}

/// Where an identifier stands in the life of its listing.
pub enum Stage {
    /// No listing has been given the identifier yet.
    Unissued,
    /// The listing exists and has this status.
    Listed(Status),
    /// The listing was withdrawn or settled.
    Retired,
}

impl Stage {
    /// How far along its life a listing in this stage is. The two reviewed
    /// statuses are equally far: neither leads to the other.
    pub open spec fn rank(self) -> nat {
        match self {
            Stage::Unissued => 0,
            Stage::Listed(Status::Active) => 1,
            Stage::Listed(Status::Sold) => 2,
            Stage::Listed(Status::SellerReviewed) => 3,
            Stage::Listed(Status::BuyerReviewed) => 3,
            Stage::Retired => 4,
        }
    }

    /// `later` is this stage or one further along.
    pub open spec fn leads_to(self, later: Stage) -> bool {
        self == later || self.rank() < later.rank()
    }
}

/// The stage of `id` in `state`.
pub open spec fn stage_of<E>(state: State<E>, id: ListingId) -> Stage {
    if state.statuses.contains_key(id) {
        Stage::Listed(state.statuses[id])
    } else if id < state.next_id {
        Stage::Retired
    } else {
        Stage::Unissued
    }
}

/// A marketplace on which nothing has happened yet is valid.
pub proof fn lemma_initial_state_valid<E>(reputation: E)
    ensures
        State::initial(reputation).wf(),
{
}

/// Every call leaves a valid state valid: afterwards, as before, a listing has
/// a registry entry exactly if it has a status, and a buyer exactly if its
/// status is past `Active`.
pub proof fn lemma_step_keeps_valid<R: Reputation<AccountId>>(
    state: State<R::State>,
    caller: AccountId,
    call: Call<R::Feedback>,
)
    requires
        state.wf(),
        call is PostListing ==> state.next_id < ListingId::MAX,
    ensures
        step::<R>(state, caller, call).wf(),
{
}

/// Only a post moves the identifier counter, and it moves it by one.
pub proof fn lemma_step_counts<R: Reputation<AccountId>>(
    state: State<R::State>,
    caller: AccountId,
    call: Call<R::Feedback>,
)
    requires
        call is PostListing ==> state.next_id < ListingId::MAX,
    ensures
        step::<R>(state, caller, call).next_id == state.next_id + (if call is PostListing {
            1int
        } else {
            0int
        }),
{
}

/// After a history the identifier counter stands at its start plus the number
/// of posts, whatever else was called in between.
pub proof fn lemma_run_counts<R: Reputation<AccountId>>(
    state: State<R::State>,
    history: Seq<(AccountId, Call<R::Feedback>)>,
)
    requires
        state.next_id + posts(history) <= ListingId::MAX,
    ensures
        run::<R>(state, history).next_id == state.next_id + posts(history),
    decreases history.len(),
{
    if history.len() > 0 {
        lemma_run_counts::<R>(state, history.drop_last());
        lemma_step_counts::<R>(
            run::<R>(state, history.drop_last()),
            history.last().0,
            history.last().1,
        );
    }
}

/// Every state that a history of calls reaches from a valid state is valid.
pub proof fn lemma_run_keeps_valid<R: Reputation<AccountId>>(
    state: State<R::State>,
    history: Seq<(AccountId, Call<R::Feedback>)>,
)
    requires
        state.wf(),
        state.next_id + posts(history) <= ListingId::MAX,
    ensures
        run::<R>(state, history).wf(),
    decreases history.len(),
{
    if history.len() > 0 {
        let earlier = history.drop_last();
        lemma_run_keeps_valid::<R>(state, earlier);
        lemma_run_counts::<R>(state, earlier);
        lemma_step_keeps_valid::<R>(run::<R>(state, earlier), history.last().0, history.last().1);
    }
}

/// The posts of a history return consecutive identifiers, starting at the
/// counter's first value (zero for a new marketplace): each is larger than all
/// before it, so none is returned twice, whatever was withdrawn or settled in
/// between.
pub proof fn lemma_identifiers_increase<R: Reputation<AccountId>>(
    state: State<R::State>,
    history: Seq<(AccountId, Call<R::Feedback>)>,
)
    requires
        state.next_id + posts(history) <= ListingId::MAX,
    ensures
        issued::<R>(state, history).len() == posts(history),
        forall|k: int|
            0 <= k < posts(history) ==> #[trigger] issued::<R>(state, history)[k] == state.next_id
                + k,
        forall|j: int, k: int|
            0 <= j < k < posts(history) ==> issued::<R>(state, history)[j] < issued::<R>(
                state,
                history,
            )[k],
    decreases history.len(),
{
    if history.len() > 0 {
        lemma_identifiers_increase::<R>(state, history.drop_last());
        lemma_run_counts::<R>(state, history.drop_last());
    }
}

/// In every state that a history of calls makes of a new marketplace, an
/// identifier has a registry entry exactly if it has a status.
pub proof fn lemma_listing_iff_status<R: Reputation<AccountId>>(
    reputation: R::State,
    history: Seq<(AccountId, Call<R::Feedback>)>,
    id: ListingId,
)
    requires
        posts(history) <= ListingId::MAX,
    ensures
        run::<R>(State::initial(reputation), history).listings.contains_key(id) == run::<R>(
            State::initial(reputation),
            history,
        ).statuses.contains_key(id),
{
    lemma_run_keeps_valid::<R>(State::initial(reputation), history);
}

/// In every state that a history of calls makes of a new marketplace, an
/// identifier has a buyer exactly if its status is `Sold`, `SellerReviewed` or
/// `BuyerReviewed`.
pub proof fn lemma_buyer_iff_sold<R: Reputation<AccountId>>(
    reputation: R::State,
    history: Seq<(AccountId, Call<R::Feedback>)>,
    id: ListingId,
)
    requires
        posts(history) <= ListingId::MAX,
    ensures
        ({
            let state = run::<R>(State::initial(reputation), history);
            state.buyers.contains_key(id) == (state.status(id) == Some(Status::Sold)
                || state.status(id) == Some(Status::SellerReviewed) || state.status(id) == Some(
                Status::BuyerReviewed,
            ))
        }),
{
    lemma_run_keeps_valid::<R>(State::initial(reputation), history);
}

/// On a new marketplace the posts of a history return 0, 1, 2 and so on.
pub proof fn lemma_identifiers_from_zero<R: Reputation<AccountId>>(
    reputation: R::State,
    history: Seq<(AccountId, Call<R::Feedback>)>,
)
    requires
        posts(history) <= ListingId::MAX,
    ensures
        issued::<R>(State::initial(reputation), history).len() == posts(history),
        forall|k: int|
            0 <= k < posts(history) ==> #[trigger] issued::<R>(
                State::initial(reputation),
                history,
            )[k] == k,
{
    lemma_identifiers_increase::<R>(State::initial(reputation), history);
}

/// No call moves a listing backward: each identifier stays in its stage or
/// moves to a later one.
pub proof fn lemma_step_never_regresses<R: Reputation<AccountId>>(
    state: State<R::State>,
    caller: AccountId,
    call: Call<R::Feedback>,
    id: ListingId,
)
    requires
        state.wf(),
        call is PostListing ==> state.next_id < ListingId::MAX,
    ensures
        stage_of(state, id).leads_to(stage_of(step::<R>(state, caller, call), id)),
{
}

/// No history moves a listing backward.
pub proof fn lemma_run_never_regresses<R: Reputation<AccountId>>(
    state: State<R::State>,
    history: Seq<(AccountId, Call<R::Feedback>)>,
    id: ListingId,
)
    requires
        state.wf(),
        state.next_id + posts(history) <= ListingId::MAX,
    ensures
        stage_of(state, id).leads_to(stage_of(run::<R>(state, history), id)),
    decreases history.len(),
{
    if history.len() > 0 {
        let earlier = history.drop_last();
        lemma_run_never_regresses::<R>(state, earlier, id);
        lemma_run_keeps_valid::<R>(state, earlier);
        lemma_run_counts::<R>(state, earlier);
        lemma_step_never_regresses::<R>(
            run::<R>(state, earlier),
            history.last().0,
            history.last().1,
            id,
        );
    }
}

/// A listing never changes while it exists, and neither does its buyer once
/// there is one.
pub proof fn lemma_step_keeps_records<R: Reputation<AccountId>>(
    state: State<R::State>,
    caller: AccountId,
    call: Call<R::Feedback>,
    id: ListingId,
)
    requires
        state.wf(),
        call is PostListing ==> state.next_id < ListingId::MAX,
    ensures
        ({
            let after = step::<R>(state, caller, call);
            &&& state.listings.contains_key(id) && after.listings.contains_key(id)
                ==> after.listings[id] == state.listings[id]
            &&& state.buyers.contains_key(id) && after.buyers.contains_key(id) ==> after.buyers[id]
                == state.buyers[id]
        }),
{
}

/// A listing goes away in two ways only: its seller withdraws it while it is
/// `Active`, or the second of its two reviews is accepted.
pub proof fn lemma_step_deletes_by_cancel_or_settlement<R: Reputation<AccountId>>(
    state: State<R::State>,
    caller: AccountId,
    call: Call<R::Feedback>,
    id: ListingId,
)
    requires
        state.wf(),
        call is PostListing ==> state.next_id < ListingId::MAX,
        state.listings.contains_key(id),
        !step::<R>(state, caller, call).listings.contains_key(id),
    ensures
        match call {
            Call::CancelListing(cancelled) => {
                &&& cancelled == id
                &&& state.statuses[id] == Status::Active
                &&& caller == state.listings[id].seller
            },
            Call::Review(reviewed, _) => {
                &&& reviewed == id
                &&& (state.statuses[id] == Status::SellerReviewed && caller == state.buyers[id])
                    || (state.statuses[id] == Status::BuyerReviewed && caller
                    == state.listings[id].seller)
            },
            _ => false,
        },
{
}

/// An accepted review of a sale that the other party has reviewed settles it:
/// the listing, its status and its buyer are gone together. An accepted first
/// review deletes none of them.
pub proof fn lemma_second_review_settles<R: Reputation<AccountId>>(
    state: State<R::State>,
    caller: AccountId,
    id: ListingId,
    feedback: R::Feedback,
)
    requires
        state.wf(),
        review::<R>(state, caller, id, feedback) is Ok,
    ensures
        ({
            let after = review::<R>(state, caller, id, feedback)->Ok_0;
            if state.statuses[id] == Status::Sold {
                &&& after.listing(id) == state.listing(id)
                &&& after.buyer(id) == state.buyer(id)
                &&& after.status(id) is Some
            } else {
                &&& after.listing(id) is None
                &&& after.buyer(id) is None
                &&& after.status(id) is None
            }
        }),
{
}

/// A party whose review of a sale is on record cannot review it again: in a
/// state in which the seller has reviewed, every review by the seller is
/// refused as already made, and likewise for the buyer.
pub proof fn lemma_reviewed_party_refused<R: Reputation<AccountId>>(
    state: State<R::State>,
    caller: AccountId,
    id: ListingId,
    feedback: R::Feedback,
)
    requires
        state.wf(),
        state.listings.contains_key(id),
        (state.statuses[id] == Status::SellerReviewed && caller == state.listings[id].seller) || (
        state.statuses[id] == Status::BuyerReviewed && caller == state.buyers[id]),
    ensures
        review::<R>(state, caller, id, feedback) == Err::<State<R::State>, Error>(
            Error::AlreadyReviewed,
        ),
        step::<R>(state, caller, Call::Review(id, feedback)) == state,
{
}

/// Once a party's review of a sale has been accepted and the sale is still
/// open, every further review by that party is refused as already made, and
/// changes nothing.
pub proof fn lemma_repeated_review_refused<R: Reputation<AccountId>>(
    state: State<R::State>,
    caller: AccountId,
    id: ListingId,
    first: R::Feedback,
    second: R::Feedback,
)
    requires
        state.wf(),
        review::<R>(state, caller, id, first) is Ok,
        review::<R>(state, caller, id, first)->Ok_0.listings.contains_key(id),
    ensures
        ({
            let after = review::<R>(state, caller, id, first)->Ok_0;
            &&& review::<R>(after, caller, id, second) == Err::<State<R::State>, Error>(
                Error::AlreadyReviewed,
            )
            &&& step::<R>(after, caller, Call::Review(id, second)) == after
        }),
{
}

} // verus!
