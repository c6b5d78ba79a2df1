//! The interface between the marketplace and whichever reputation engine is
//! plugged into it.

use vstd::prelude::*;

verus! {

/// The three-valued rating that the engines of this crate accept.
#[derive(Clone, Copy, PartialEq, Eq, Debug, Structural)]
pub enum DefaultFeedback {
    Positive,
    Neutral,
    Negative,
}

/// Why an engine refused to record a rating.
#[derive(Clone, Copy, PartialEq, Eq, Debug, Structural)]
pub enum RateError {
    /// Recording the rating would push one of the engine's counters past its range.
    Overflow,
}

/// A reputation engine: it records ratings between accounts and reports a score
/// for each account.
///
/// An engine is a deterministic machine over its abstract state:
/// `rated` says what a rating does to that state and `score` reads a score off it.
pub trait Reputation<AccountId>: Sized {
    /// The reputational score of an account.
    type Score;

    /// The kind of feedback that one account gives about another.
    type Feedback;

    /// The abstract state of the engine, over which its contract is stated.
    type State;

    /// The abstract state that the engine is in.
    spec fn state(&self) -> Self::State;

    /// The representation invariant of the engine.
    spec fn wf(&self) -> bool;

    /// The state that follows `state` once `rater` has rated `ratee`, or the
    /// reason for which the engine refuses the rating.
    spec fn rated(
        state: Self::State,
        rater: AccountId,
        ratee: AccountId,
        feedback: Self::Feedback,
    ) -> Result<Self::State, RateError>;

    /// The score of `who` in `state`.
    spec fn score(state: Self::State, who: AccountId) -> Self::Score;

    /// One account assigns a rating to another. A refused rating leaves the
    /// engine as it was.
    fn rate(&mut self, rater: AccountId, ratee: AccountId, feedback: Self::Feedback) -> (r: Result<
        (),
        RateError,
    >)
        requires
            old(self).wf(),
        ensures
            final(self).wf(),
            match Self::rated(old(self).state(), rater, ratee, feedback) {
                Ok(state) => r is Ok && final(self).state() == state,
                Err(e) => r == Err::<(), RateError>(e) && final(self).state() == old(self).state(),
            },
    ;

    /// The current reputation of an account.
    fn reputation(&self, who: AccountId) -> (s: Self::Score)
        requires
            self.wf(),
        ensures
            s == Self::score(self.state(), who),
    ;
}

} // verus!
