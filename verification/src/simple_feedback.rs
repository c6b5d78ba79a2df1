//! A simple reputation system in which an account's reputation increases by 1
//! on receiving positive feedback and decreases by 1 on receiving negative
//! feedback. The score saturates at the ends of its range.

use crate::reputation_trait::{DefaultFeedback, RateError, Reputation};
use crate::AccountId;
use std::collections::HashMap;
use vstd::prelude::*;

verus! {

/// A running total of the feedback an account has received.
pub type Score = i32;

/// What the engine announces to its observers.
#[derive(PartialEq, Eq, Debug)]
pub enum Event<Account> {
    /// An account just submitted a rating: rater, ratee, rating.
    Rated(Account, Account, DefaultFeedback),
}

impl<Account: Copy> Copy for Event<Account> {

}

impl<Account: Copy> Clone for Event<Account> {
    fn clone(&self) -> (copy: Self)
        ensures
            copy == *self,
    {
        *self
    }
}

/// The abstract state of the engine: one score per rated account, and the
/// announcements made so far.
pub struct State {
    pub scores: Map<AccountId, Score>,
    pub events: Seq<Event<AccountId>>,
}

/// The amount by which a rating moves the ratee's score.
pub open spec fn delta(feedback: DefaultFeedback) -> int {
    match feedback {
        DefaultFeedback::Positive => 1,
        DefaultFeedback::Neutral => 0,
        DefaultFeedback::Negative => -1,
    }
}

/// The score nearest to `value`.
pub open spec fn saturate(value: int) -> Score {
    if value > i32::MAX {
        i32::MAX
    } else if value < i32::MIN {
        i32::MIN
    } else {
        value as i32
    }
}

/// The score that `feedback` makes of `score`: one more, the same or one
/// less, but never past the ends of the range.
pub open spec fn adjusted(score: Score, feedback: DefaultFeedback) -> Score {
    saturate(score + delta(feedback))
}

impl State {
    /// The state of an engine that has seen no rating.
    pub open spec fn initial() -> State {
        State { scores: Map::empty(), events: Seq::empty() }
    }

    /// The score of `who`: zero until the first rating arrives.
    pub open spec fn score_of(self, who: AccountId) -> Score {
        if self.scores.contains_key(who) {
            self.scores[who]
        } else {
            0
        }
    }

    /// The state after `rater` has rated `ratee`.
    pub open spec fn rate(self, rater: AccountId, ratee: AccountId, feedback: DefaultFeedback) -> State {
        State {
            scores: self.scores.insert(ratee, adjusted(self.score_of(ratee), feedback)),
            events: self.events.push(Event::Rated(rater, ratee, feedback)),
        }
    }
}

/// The cumulative reputation engine.
pub struct Module {
    scores: HashMap<AccountId, Score>,
    events: Vec<Event<AccountId>>,
}

impl View for Module {
    type V = State;

    closed spec fn view(&self) -> State {
        State { scores: self.scores@, events: self.events@ }
    }
}

/// A rating moves the score of the ratee and of nobody else.
pub proof fn lemma_rate_moves_only_ratee(
    state: State,
    rater: AccountId,
    ratee: AccountId,
    feedback: DefaultFeedback,
    other: AccountId,
)
    requires
        other != ratee,
    ensures
        state.rate(rater, ratee, feedback).score_of(other) == state.score_of(other),
        state.rate(rater, ratee, feedback).score_of(ratee) == adjusted(
            state.score_of(ratee),
            feedback,
        ),
{
}

/// Moves `score` by what `feedback` is worth, stopping at the ends of the range.
pub fn adjust(score: Score, feedback: DefaultFeedback) -> (next: Score)
    ensures
        next == adjusted(score, feedback),
{
    match feedback {
        DefaultFeedback::Positive => if score < i32::MAX {
            score + 1
        } else {
            score
        },
        DefaultFeedback::Neutral => score,
        DefaultFeedback::Negative => if score > i32::MIN {
            score - 1
        } else {
            score
        },
    }
}

impl Module {
    /// An engine that has seen no rating.
    pub fn new() -> (engine: Module)
        ensures
            engine@ == State::initial(),
    {
        Module { scores: HashMap::new(), events: Vec::new() }
    }

    /// The announcements made so far, oldest first.
    pub fn events(&self) -> (events: &Vec<Event<AccountId>>)
        ensures
            events@ == self@.events,
    {
        &self.events
    }
}

impl Reputation<AccountId> for Module {
    type Score = Score;

    type Feedback = DefaultFeedback;

    type State = State;

    open spec fn state(&self) -> State {
        self@
    }

    open spec fn wf(&self) -> bool {
        true
    }

    open spec fn rated(
        state: State,
        rater: AccountId,
        ratee: AccountId,
        feedback: DefaultFeedback,
    ) -> Result<State, RateError> {
        Ok(state.rate(rater, ratee, feedback))
    }

    open spec fn score(state: State, who: AccountId) -> Score {
        state.score_of(who)
    }

    fn rate(&mut self, rater: AccountId, ratee: AccountId, feedback: DefaultFeedback) -> (r: Result<
        (),
        RateError,
    >) {
        let next: Score = adjust(self.reputation(ratee), feedback);
        self.scores.insert(ratee, next);
        self.events.push(Event::Rated(rater, ratee, feedback));
        Ok(())
    }

    fn reputation(&self, who: AccountId) -> (s: Score) {
        match self.scores.get(&who) {
            Some(score) => *score,
            None => 0,
        }
    }
}

} // verus!
