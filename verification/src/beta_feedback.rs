//! A reputation system in which an account's reputation is given by
//! (p + 1) / (p + n + 2), where p is the number of positive reviews and n is
//! the number of negative reviews that the account has received.

use crate::reputation_trait::{DefaultFeedback, RateError, Reputation};
use crate::AccountId;
use std::collections::HashMap;
use vstd::prelude::*;

verus! {

/// A fraction between zero and one, kept as it was computed: neither reduced
/// nor rounded.
#[derive(Clone, Copy, PartialEq, Eq, Debug, Structural)]
pub struct Ratio {
    pub numerator: u64,
    pub denominator: u64,
}

/// The score of an account under this engine.
pub type Score = Ratio;

/// What the engine announces to its observers.
#[derive(PartialEq, Eq, Debug)]
pub enum Event<Account> {
    /// An account just submitted a rating: rater, ratee, rating.
    Rated(Account, Account, DefaultFeedback),
}

impl<Account: Copy> Copy for Event<Account> {

}

impl<Account: Copy> Clone for Event<Account> {
    fn clone(&self) -> (copy: Self)
        ensures
            copy == *self,
    {
        *self
    }
}

/// The abstract state of the engine: the two counters and the current score of
/// each rated account, and the announcements made so far.
pub struct State {
    pub positives: Map<AccountId, u32>,
    pub negatives: Map<AccountId, u32>,
    pub scores: Map<AccountId, Score>,
    pub events: Seq<Event<AccountId>>,
}

/// The counter of `who` in `table`: zero until the table has an entry.
pub open spec fn count(table: Map<AccountId, u32>, who: AccountId) -> u32 {
    if table.contains_key(who) {
        table[who]
    } else {
        0
    }
}

/// The score of an account with `p` positive and `n` negative reviews.
pub open spec fn estimate(p: u32, n: u32) -> Ratio {
    Ratio { numerator: (p + 1) as u64, denominator: (p + n + 2) as u64 }
}

/// A counter after one more review, unless it is at the end of its range.
pub open spec fn incremented(count: u32) -> Result<u32, RateError> {
    if count == u32::MAX {
        Err(RateError::Overflow)
    } else {
        Ok((count + 1) as u32)
    }
}

impl Ratio {
    /// The fraction denotes a number between zero and one.
    pub open spec fn wf(self) -> bool {
        self.numerator <= self.denominator && self.denominator > 0
    }

    /// The score of an account that was never rated.
    pub open spec fn zero() -> Ratio {
        Ratio { numerator: 0, denominator: 1 }
    }
}

impl State {
    /// The state of an engine that has seen no rating.
    pub open spec fn initial() -> State {
        State {
            positives: Map::empty(),
            negatives: Map::empty(),
            scores: Map::empty(),
            events: Seq::empty(),
        }
    }

    /// The score of `who`: the one computed at the last rating of `who`, and
    /// zero before the first.
    pub open spec fn score_of(self, who: AccountId) -> Score {
        if self.scores.contains_key(who) {
            self.scores[who]
        } else {
            Ratio::zero()
        }
    }

    /// The state after `rater` has rated `ratee`: the counter that the
    /// feedback names is one higher (none is for `Neutral`) and the score of
    /// `ratee` is the estimate over the new counters. A counter that is at the
    /// end of its range refuses the rating.
    pub open spec fn rate(self, rater: AccountId, ratee: AccountId, feedback: DefaultFeedback) -> Result<
        State,
        RateError,
    > {
        let p = count(self.positives, ratee);
        let n = count(self.negatives, ratee);
        let events = self.events.push(Event::Rated(rater, ratee, feedback));
        match feedback {
            DefaultFeedback::Positive => match incremented(p) {
                Ok(more) => Ok(
                    State {
                        positives: self.positives.insert(ratee, more),
                        scores: self.scores.insert(ratee, estimate(more, n)),
                        events,
                        ..self
                    },
                ),
                Err(e) => Err(e),
            },
            DefaultFeedback::Neutral => Ok(
                State { scores: self.scores.insert(ratee, estimate(p, n)), events, ..self },
            ),
            DefaultFeedback::Negative => match incremented(n) {
                Ok(more) => Ok(
                    State {
                        negatives: self.negatives.insert(ratee, more),
                        scores: self.scores.insert(ratee, estimate(p, more)),
                        events,
                        ..self
                    },
                ),
                Err(e) => Err(e),
            },
        }
    }

    /// What holds of every state that ratings can reach: an account that has
    /// a counter has a score, and each score is the estimate over the
    /// account's counters.
    pub open spec fn wf(self) -> bool {
        &&& forall|who: AccountId|
            #![trigger self.positives.contains_key(who)]
            self.positives.contains_key(who) ==> self.scores.contains_key(who)
        &&& forall|who: AccountId|
            #![trigger self.negatives.contains_key(who)]
            self.negatives.contains_key(who) ==> self.scores.contains_key(who)
        &&& forall|who: AccountId|
            #![trigger self.scores.contains_key(who)]
            self.scores.contains_key(who) ==> self.scores[who] == estimate(
                count(self.positives, who),
                count(self.negatives, who),
            )
    }
}

/// A rating leaves a valid state valid.
pub proof fn lemma_rate_keeps_valid(
    state: State,
    rater: AccountId,
    ratee: AccountId,
    feedback: DefaultFeedback,
)
    requires
        state.wf(),
        state.rate(rater, ratee, feedback) is Ok,
    ensures
        state.rate(rater, ratee, feedback)->Ok_0.wf(),
{
}

/// A rating moves the counters and the score of the ratee and of nobody else.
pub proof fn lemma_rate_moves_only_ratee(
    state: State,
    rater: AccountId,
    ratee: AccountId,
    feedback: DefaultFeedback,
    other: AccountId,
)
    requires
        other != ratee,
        state.rate(rater, ratee, feedback) is Ok,
    ensures
        ({
            let after = state.rate(rater, ratee, feedback)->Ok_0;
            &&& after.score_of(other) == state.score_of(other)
            &&& count(after.positives, other) == count(state.positives, other)
            &&& count(after.negatives, other) == count(state.negatives, other)
        }),
{
}

/// In a valid state every score is a fraction between zero and one.
pub proof fn lemma_score_is_fraction(state: State, who: AccountId)
    requires
        state.wf(),
    ensures
        state.score_of(who).wf(),
{
}

/// The beta-estimator reputation engine.
pub struct Module {
    positives: HashMap<AccountId, u32>,
    negatives: HashMap<AccountId, u32>,
    scores: HashMap<AccountId, Score>,
    events: Vec<Event<AccountId>>,
}

impl View for Module {
    type V = State;

    closed spec fn view(&self) -> State {
        State {
            positives: self.positives@,
            negatives: self.negatives@,
            scores: self.scores@,
            events: self.events@,
        }
    }
}

/// Counts one more review, unless the counter is at the end of its range.
pub fn increment(count: u32) -> (more: Result<u32, RateError>)
    ensures
        more == incremented(count),
{
    if count == u32::MAX {
        Err(RateError::Overflow)
    } else {
        Ok(count + 1)
    }
}

/// Computes the score of an account with `p` positive and `n` negative reviews.
pub fn score_from_counts(p: u32, n: u32) -> (score: Score)
    ensures
        score == estimate(p, n),
        score.wf(),
{
    let positives: u64 = p as u64;
    let negatives: u64 = n as u64;
    Ratio { numerator: positives + 1, denominator: positives + negatives + 2 }
}

impl Module {
    /// An engine that has seen no rating.
    pub fn new() -> (engine: Module)
        ensures
            engine@ == State::initial(),
            engine.wf(),
    {
        Module {
            positives: HashMap::new(),
            negatives: HashMap::new(),
            scores: HashMap::new(),
            events: Vec::new(),
        }
    }

    /// The number of positive reviews that `who` has received.
    pub fn positives(&self, who: AccountId) -> (p: u32)
        ensures
            p == count(self@.positives, who),
    {
        match self.positives.get(&who) {
            Some(p) => *p,
            None => 0,
        }
    }

    /// The number of negative reviews that `who` has received.
    pub fn negatives(&self, who: AccountId) -> (n: u32)
        ensures
            n == count(self@.negatives, who),
    {
        match self.negatives.get(&who) {
            Some(n) => *n,
            None => 0,
        }
    }

    /// The announcements made so far, oldest first.
    pub fn events(&self) -> (events: &Vec<Event<AccountId>>)
        ensures
            events@ == self@.events,
    {
        &self.events
    }
}

impl Reputation<AccountId> for Module {
    type Score = Score;

    type Feedback = DefaultFeedback;

    type State = State;

    open spec fn state(&self) -> State {
        self@
    }

    open spec fn wf(&self) -> bool {
        self@.wf()
    }

    open spec fn rated(
        state: State,
        rater: AccountId,
        ratee: AccountId,
        feedback: DefaultFeedback,
    ) -> Result<State, RateError> {
        state.rate(rater, ratee, feedback)
    }

    open spec fn score(state: State, who: AccountId) -> Score {
        state.score_of(who)
    }

    fn rate(&mut self, rater: AccountId, ratee: AccountId, feedback: DefaultFeedback) -> (r: Result<
        (),
        RateError,
    >) {
        let p: u32 = self.positives(ratee);
        let n: u32 = self.negatives(ratee);
        // Update the individual accumulators
        let score = match feedback {
            DefaultFeedback::Positive => {
                let more: u32 = match increment(p) {
                    Ok(more) => more,
                    Err(e) => { return Err(e); },
                };
                self.positives.insert(ratee, more);
                score_from_counts(more, n)
            },
            DefaultFeedback::Neutral => score_from_counts(p, n),
            DefaultFeedback::Negative => {
                let more: u32 = match increment(n) {
                    Ok(more) => more,
                    Err(e) => { return Err(e); },
                };
                self.negatives.insert(ratee, more);
                score_from_counts(p, more)
            },
        };
        // Update the current score
        self.scores.insert(ratee, score);
        self.events.push(Event::Rated(rater, ratee, feedback));
        Ok(())
    }

    fn reputation(&self, who: AccountId) -> (s: Score)
        ensures
            s.wf(),
    {
        proof {
            lemma_score_is_fraction(self@, who);
        }
        match self.scores.get(&who) {
            Some(score) => *score,
            None => Ratio { numerator: 0, denominator: 1 },
        }
    }
}

} // verus!
