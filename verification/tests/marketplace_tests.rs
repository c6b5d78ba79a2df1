use marketplace::marketplace::{Call, Error, Event, Listing, Module, Role, Status};
use marketplace::reputation_trait::{DefaultFeedback, Reputation};
use marketplace::simple_feedback;

type Marketplace = Module<simple_feedback::Module>;

const A: u64 = 1;
const B: u64 = 2;
const C: u64 = 3;

fn new_marketplace() -> Marketplace {
    Module::new(simple_feedback::Module::new())
}

/// A marketplace in which A has posted listing 0 and B has bought it.
fn sold_marketplace() -> Marketplace {
    let mut market = new_marketplace();
    assert_eq!(market.post_listing(A, 123, 456), 0);
    assert_eq!(market.buy(B, 0), Ok(()));
    market
}

/// Everything that the queries show of a marketplace, for the first few identifiers.
fn snapshot(
    market: &Marketplace,
) -> (u32, Vec<(Option<Listing<u64>>, Option<u64>, Option<Status>)>, Vec<Event<u64>>, Vec<i32>) {
    let mut rows = Vec::new();
    for id in 0..4 {
        rows.push((market.listing(id), market.buyer(id), market.status(id)));
    }
    let scores = vec![market.reputation(A), market.reputation(B), market.reputation(C)];
    (market.next_id(), rows, market.events().clone(), scores)
}

#[test]
fn listing_id_increments_correctly() {
    let mut market = new_marketplace();

    // Post a listing
    assert_eq!(market.post_listing(1, 123, 456), 0);
    assert_eq!(market.next_id(), 1);
}

#[test]
fn new_marketplace_is_empty() {
    let market = new_marketplace();
    assert_eq!(market.next_id(), 0);
    assert_eq!(market.listing(0), None);
    assert_eq!(market.buyer(0), None);
    assert_eq!(market.status(0), None);
    assert!(market.events().is_empty());
    assert_eq!(market.reputation(A), 0);
}

#[test]
fn posted_listing_is_active_and_announced() {
    let mut market = new_marketplace();
    let id = market.post_listing(A, 123, 456);
    let listing = Listing { seller: A, price: 123, description: 456 };
    assert_eq!(id, 0);
    assert_eq!(market.listing(id), Some(listing));
    assert_eq!(market.status(id), Some(Status::Active));
    assert_eq!(market.buyer(id), None);
    assert_eq!(market.events(), &vec![Event::Posted(A, 0, listing)]);
}

#[test]
fn cancelled_listing_is_gone() {
    let mut market = new_marketplace();
    assert_eq!(market.post_listing(A, 123, 456), 0);
    assert_eq!(market.cancel_listing(A, 0), Ok(()));
    assert_eq!(market.listing(0), None);
    assert_eq!(market.status(0), None);
    assert_eq!(market.buyer(0), None);
    assert_eq!(market.events().last(), Some(&Event::Cancelled(0)));
    assert_eq!(market.cancel_listing(A, 0), Err(Error::NotFound));
}

#[test]
fn bought_listing_is_sold_and_cannot_be_bought_again() {
    let mut market = new_marketplace();
    assert_eq!(market.post_listing(A, 123, 456), 0);
    assert_eq!(market.buy(B, 0), Ok(()));
    assert_eq!(market.buyer(0), Some(B));
    assert_eq!(market.status(0), Some(Status::Sold));
    assert_eq!(market.events().last(), Some(&Event::Sold(B, 0)));
    assert_eq!(market.buy(A, 0), Err(Error::InvalidState));
    assert_eq!(market.buy(C, 0), Err(Error::InvalidState));
    assert_eq!(market.buyer(0), Some(B));
}

#[test]
fn two_reviews_settle_the_sale() {
    let mut market = sold_marketplace();
    assert_eq!(market.review(B, 0, DefaultFeedback::Positive), Ok(()));
    assert_eq!(market.status(0), Some(Status::BuyerReviewed));
    assert_eq!(market.listing(0), Some(Listing { seller: A, price: 123, description: 456 }));
    assert_eq!(market.buyer(0), Some(B));

    assert_eq!(market.review(A, 0, DefaultFeedback::Positive), Ok(()));
    assert_eq!(market.listing(0), None);
    assert_eq!(market.status(0), None);
    assert_eq!(market.buyer(0), None);

    assert_eq!(
        market.engine().events(),
        &vec![
            simple_feedback::Event::Rated(B, A, DefaultFeedback::Positive),
            simple_feedback::Event::Rated(A, B, DefaultFeedback::Positive),
        ]
    );
    assert_eq!(market.reputation(A), 1);
    assert_eq!(market.reputation(B), 1);
}

#[test]
fn seller_may_review_first() {
    let mut market = sold_marketplace();
    assert_eq!(market.review(A, 0, DefaultFeedback::Negative), Ok(()));
    assert_eq!(market.status(0), Some(Status::SellerReviewed));
    assert_eq!(market.reputation(B), -1);
    assert_eq!(market.reputation(A), 0);
    assert_eq!(market.review(B, 0, DefaultFeedback::Neutral), Ok(()));
    assert_eq!(market.status(0), None);
    assert_eq!(market.listing(0), None);
    assert_eq!(market.buyer(0), None);
    assert_eq!(market.reputation(A), 0);
    assert_eq!(
        market.engine().events(),
        &vec![
            simple_feedback::Event::Rated(A, B, DefaultFeedback::Negative),
            simple_feedback::Event::Rated(B, A, DefaultFeedback::Neutral),
        ]
    );
}

#[test]
fn reviews_announce_nothing_on_the_marketplace() {
    let mut market = sold_marketplace();
    let before = market.events().clone();
    assert_eq!(market.review(B, 0, DefaultFeedback::Positive), Ok(()));
    assert_eq!(market.review(A, 0, DefaultFeedback::Positive), Ok(()));
    assert_eq!(market.events(), &before);
}

#[test]
fn cancel_is_refused_for_an_unknown_listing() {
    let mut market = new_marketplace();
    assert_eq!(market.cancel_listing(A, 0), Err(Error::NotFound));
    market.post_listing(A, 1, 1);
    assert_eq!(market.cancel_listing(A, 1), Err(Error::NotFound));
}

#[test]
fn cancel_is_refused_once_sold() {
    let mut market = sold_marketplace();
    assert_eq!(market.cancel_listing(A, 0), Err(Error::InvalidState));
    assert_eq!(market.review(A, 0, DefaultFeedback::Positive), Ok(()));
    assert_eq!(market.cancel_listing(A, 0), Err(Error::InvalidState));
    assert_eq!(market.status(0), Some(Status::SellerReviewed));
}

#[test]
fn cancel_is_refused_for_another_account() {
    let mut market = new_marketplace();
    market.post_listing(A, 1, 1);
    assert_eq!(market.cancel_listing(B, 0), Err(Error::Unauthorized));
    assert_eq!(market.status(0), Some(Status::Active));
}

#[test]
fn cancel_checks_the_status_before_the_caller() {
    let mut market = sold_marketplace();
    assert_eq!(market.cancel_listing(C, 0), Err(Error::InvalidState));
    assert_eq!(market.cancel_listing(C, 5), Err(Error::NotFound));
}

#[test]
fn buy_is_refused_for_an_unknown_listing() {
    let mut market = new_marketplace();
    assert_eq!(market.buy(B, 0), Err(Error::NotFound));
}

#[test]
fn buy_is_refused_for_the_seller() {
    let mut market = new_marketplace();
    market.post_listing(A, 1, 1);
    assert_eq!(market.buy(A, 0), Err(Error::Unauthorized));
    assert_eq!(market.status(0), Some(Status::Active));
    assert_eq!(market.buyer(0), None);
}

#[test]
fn buy_is_refused_once_reviewed() {
    let mut market = sold_marketplace();
    assert_eq!(market.review(A, 0, DefaultFeedback::Positive), Ok(()));
    assert_eq!(market.buy(C, 0), Err(Error::InvalidState));
    assert_eq!(market.buyer(0), Some(B));
    assert_eq!(market.status(0), Some(Status::SellerReviewed));

    let mut market = sold_marketplace();
    assert_eq!(market.review(B, 0, DefaultFeedback::Positive), Ok(()));
    assert_eq!(market.buy(C, 0), Err(Error::InvalidState));
    assert_eq!(market.buy(A, 0), Err(Error::InvalidState));
    assert_eq!(market.buyer(0), Some(B));
    assert_eq!(market.status(0), Some(Status::BuyerReviewed));
}

#[test]
fn review_is_refused_for_an_unknown_listing() {
    let mut market = new_marketplace();
    assert_eq!(market.review(A, 0, DefaultFeedback::Positive), Err(Error::NotFound));
}

#[test]
fn review_is_refused_for_an_outsider() {
    let mut market = sold_marketplace();
    assert_eq!(market.review(C, 0, DefaultFeedback::Positive), Err(Error::NotInvolved));
    assert_eq!(market.status(0), Some(Status::Sold));
    assert!(market.engine().events().is_empty());
}

#[test]
fn review_is_refused_before_the_sale() {
    let mut market = new_marketplace();
    market.post_listing(A, 1, 1);
    assert_eq!(market.review(A, 0, DefaultFeedback::Positive), Err(Error::InvalidState));
    assert_eq!(market.review(B, 0, DefaultFeedback::Positive), Err(Error::NotInvolved));
    // No buyer is recorded yet, so no account counts as one.
    assert_eq!(market.review(0, 0, DefaultFeedback::Positive), Err(Error::NotInvolved));
    assert_eq!(market.status(0), Some(Status::Active));
    assert!(market.engine().events().is_empty());
}

#[test]
fn second_review_by_the_buyer_is_refused() {
    let mut market = sold_marketplace();
    assert_eq!(market.review(B, 0, DefaultFeedback::Positive), Ok(()));
    let before = snapshot(&market);
    let rated = market.engine().events().clone();
    assert_eq!(market.review(B, 0, DefaultFeedback::Positive), Err(Error::AlreadyReviewed));
    assert_eq!(market.review(B, 0, DefaultFeedback::Negative), Err(Error::AlreadyReviewed));
    assert_eq!(snapshot(&market), before);
    assert_eq!(market.engine().events(), &rated);
}

#[test]
fn second_review_by_the_seller_is_refused() {
    let mut market = sold_marketplace();
    assert_eq!(market.review(A, 0, DefaultFeedback::Neutral), Ok(()));
    let before = snapshot(&market);
    let rated = market.engine().events().clone();
    assert_eq!(market.review(A, 0, DefaultFeedback::Positive), Err(Error::AlreadyReviewed));
    assert_eq!(snapshot(&market), before);
    assert_eq!(market.engine().events(), &rated);
}

#[test]
fn review_after_settlement_finds_nothing() {
    let mut market = sold_marketplace();
    assert_eq!(market.review(B, 0, DefaultFeedback::Positive), Ok(()));
    assert_eq!(market.review(A, 0, DefaultFeedback::Positive), Ok(()));
    assert_eq!(market.review(A, 0, DefaultFeedback::Positive), Err(Error::NotFound));
    assert_eq!(market.review(B, 0, DefaultFeedback::Positive), Err(Error::NotFound));
    assert_eq!(market.reputation(A), 1);
    assert_eq!(market.reputation(B), 1);
}

#[test]
fn refused_calls_change_nothing() {
    let mut market = sold_marketplace();
    market.post_listing(C, 7, 8);
    let before = snapshot(&market);
    assert_eq!(market.cancel_listing(A, 9), Err(Error::NotFound));
    assert_eq!(market.cancel_listing(A, 0), Err(Error::InvalidState));
    assert_eq!(market.cancel_listing(A, 1), Err(Error::Unauthorized));
    assert_eq!(market.buy(B, 9), Err(Error::NotFound));
    assert_eq!(market.buy(C, 0), Err(Error::InvalidState));
    assert_eq!(market.buy(C, 1), Err(Error::Unauthorized));
    assert_eq!(market.review(A, 9, DefaultFeedback::Positive), Err(Error::NotFound));
    assert_eq!(market.review(C, 0, DefaultFeedback::Positive), Err(Error::NotInvolved));
    assert_eq!(market.review(C, 1, DefaultFeedback::Positive), Err(Error::InvalidState));
    assert_eq!(snapshot(&market), before);
    assert!(market.engine().events().is_empty());
}

#[test]
fn identifiers_are_never_reused() {
    let mut market = new_marketplace();
    assert_eq!(market.post_listing(A, 1, 1), 0);
    assert_eq!(market.cancel_listing(A, 0), Ok(()));
    assert_eq!(market.post_listing(A, 2, 2), 1);
    assert_eq!(market.buy(B, 1), Ok(()));
    assert_eq!(market.review(A, 1, DefaultFeedback::Positive), Ok(()));
    assert_eq!(market.review(B, 1, DefaultFeedback::Positive), Ok(()));
    assert_eq!(market.listing(1), None);
    assert_eq!(market.post_listing(B, 3, 3), 2);
    assert_eq!(market.post_listing(C, 4, 4), 3);
    assert_eq!(market.next_id(), 4);
    assert_eq!(market.listing(0), None);
    assert_eq!(market.listing(1), None);
    assert_eq!(market.listing(2), Some(Listing { seller: B, price: 3, description: 3 }));
    assert_eq!(market.listing(3), Some(Listing { seller: C, price: 4, description: 4 }));
}

/// A rank that grows as a listing moves through its life.
fn rank(status: Option<Status>, issued: bool) -> u8 {
    match status {
        None if !issued => 0,
        Some(Status::Active) => 1,
        Some(Status::Sold) => 2,
        Some(Status::SellerReviewed) | Some(Status::BuyerReviewed) => 3,
        None => 4,
    }
}

#[test]
fn tables_stay_consistent_and_statuses_only_advance() {
    let mut market = new_marketplace();
    let calls: Vec<(u64, Call<DefaultFeedback>)> = vec![
        (A, Call::PostListing(1, 1)),
        (B, Call::PostListing(2, 2)),
        (B, Call::Buy(0)),
        (A, Call::Buy(0)),
        (C, Call::PostListing(3, 3)),
        (A, Call::CancelListing(0)),
        (B, Call::CancelListing(1)),
        (A, Call::Review(0, DefaultFeedback::Positive)),
        (A, Call::Review(0, DefaultFeedback::Positive)),
        (A, Call::Buy(2)),
        (A, Call::Review(2, DefaultFeedback::Negative)),
        (B, Call::Review(0, DefaultFeedback::Negative)),
        (A, Call::Review(2, DefaultFeedback::Neutral)),
        (B, Call::PostListing(4, 4)),
        (B, Call::Review(0, DefaultFeedback::Negative)),
    ];
    let mut ranks = vec![0u8; 6];
    let mut statuses: Vec<Option<Status>> = vec![None; 6];
    for (caller, call) in calls {
        let _ = market.dispatch(caller, call);
        for id in 0..6u32 {
            let status = market.status(id);
            assert_eq!(market.listing(id).is_some(), status.is_some());
            assert_eq!(
                market.buyer(id).is_some(),
                matches!(
                    status,
                    Some(Status::Sold) | Some(Status::SellerReviewed) | Some(Status::BuyerReviewed)
                )
            );
            let now = rank(status, id < market.next_id());
            let slot = id as usize;
            assert!(ranks[slot] < now || (ranks[slot] == now && statuses[slot] == status));
            ranks[slot] = now;
            statuses[slot] = status;
        }
    }
    assert_eq!(market.next_id(), 4);
    assert_eq!(market.status(0), None);
    assert_eq!(market.status(1), None);
    assert_eq!(market.status(2), Some(Status::BuyerReviewed));
    assert_eq!(market.status(3), Some(Status::Active));
}

#[test]
fn dispatch_answers_as_the_operations_do() {
    let mut market = new_marketplace();
    assert_eq!(market.dispatch(A, Call::PostListing(123, 456)), Ok(Some(0)));
    assert_eq!(market.dispatch(A, Call::PostListing(1, 2)), Ok(Some(1)));
    assert_eq!(market.listing(0), Some(Listing { seller: A, price: 123, description: 456 }));
    assert_eq!(market.dispatch(A, Call::Buy(0)), Err(Error::Unauthorized));
    assert_eq!(market.dispatch(B, Call::Buy(0)), Ok(None));
    assert_eq!(market.buyer(0), Some(B));
    assert_eq!(market.dispatch(A, Call::CancelListing(0)), Err(Error::InvalidState));
    assert_eq!(market.dispatch(A, Call::CancelListing(1)), Ok(None));
    assert_eq!(market.dispatch(C, Call::Review(0, DefaultFeedback::Positive)), Err(Error::NotInvolved));
    assert_eq!(market.dispatch(B, Call::Review(0, DefaultFeedback::Positive)), Ok(None));
    assert_eq!(market.dispatch(B, Call::Review(0, DefaultFeedback::Positive)), Err(Error::AlreadyReviewed));
    assert_eq!(market.dispatch(A, Call::Review(0, DefaultFeedback::Negative)), Ok(None));
    assert_eq!(market.dispatch(A, Call::Review(0, DefaultFeedback::Negative)), Err(Error::NotFound));
    assert_eq!(market.reputation(A), 1);
    assert_eq!(market.reputation(B), -1);
    assert_eq!(
        market.events(),
        &vec![
            Event::Posted(A, 0, Listing { seller: A, price: 123, description: 456 }),
            Event::Posted(A, 1, Listing { seller: A, price: 1, description: 2 }),
            Event::Sold(B, 0),
            Event::Cancelled(1),
        ]
    );
}

#[test]
fn status_default_is_active() {
    assert_eq!(Status::default(), Status::Active);
}

#[test]
fn role_is_the_sellers_or_the_buyers_or_none() {
    let listing = Listing { seller: A, price: 1, description: 1 };
    assert_eq!(Role::of(&listing, None, A), Some(Role::Seller));
    assert_eq!(Role::of(&listing, Some(B), A), Some(Role::Seller));
    assert_eq!(Role::of(&listing, Some(B), B), Some(Role::Buyer));
    assert_eq!(Role::of(&listing, Some(B), C), None);
    assert_eq!(Role::of(&listing, None, B), None);
    // The seller's role wins where one account is both.
    assert_eq!(Role::of(&listing, Some(A), A), Some(Role::Seller));
}

#[test]
fn review_transitions_follow_the_table() {
    assert_eq!(Status::Active.after_review(Role::Seller), Err(Error::InvalidState));
    assert_eq!(Status::Active.after_review(Role::Buyer), Err(Error::InvalidState));
    assert_eq!(Status::Sold.after_review(Role::Buyer), Ok(Some(Status::BuyerReviewed)));
    assert_eq!(Status::Sold.after_review(Role::Seller), Ok(Some(Status::SellerReviewed)));
    assert_eq!(Status::SellerReviewed.after_review(Role::Buyer), Ok(None));
    assert_eq!(Status::BuyerReviewed.after_review(Role::Seller), Ok(None));
    assert_eq!(Status::SellerReviewed.after_review(Role::Seller), Err(Error::AlreadyReviewed));
    assert_eq!(Status::BuyerReviewed.after_review(Role::Buyer), Err(Error::AlreadyReviewed));
}

#[test]
fn listing_copies_are_equal() {
    let listing = Listing { seller: A, price: 5, description: 6 };
    let copy = listing.clone();
    assert_eq!(copy, listing);
    let event = Event::Posted(A, 0, listing);
    assert_eq!(event.clone(), event);
}
