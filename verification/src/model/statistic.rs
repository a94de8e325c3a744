use vstd::prelude::*;

verus! {

/// Mathematical content of a [`Statistic`]: the two counters, unbounded.
pub ghost struct ScoreModel {
    pub correct: int,
    pub incorrect: int,
}

/// A pair of monotonically increasing guess counters.
///
/// The counters start at zero, only ever grow (by exactly one per recorded
/// guess), and are reset only by replacing the whole value with a fresh
/// default.
#[derive(Debug, PartialEq, Eq)]
pub struct Statistic {
    correct: usize,
    incorrect: usize,
}

impl View for Statistic {
    type V = ScoreModel;

    closed spec fn view(&self) -> ScoreModel {
        ScoreModel { correct: self.correct as int, incorrect: self.incorrect as int }
    }
}

impl Default for Statistic {
    /// A fresh statistic counts no guesses at all.
    fn default() -> (r: Self)
        ensures
            r@.correct == 0,
            r@.incorrect == 0,
    {
        Statistic { correct: 0, incorrect: 0 }
    }
}

impl Clone for Statistic {
    fn clone(&self) -> (r: Self)
        ensures
            r@ == self@,
    {
        Statistic { correct: self.correct, incorrect: self.incorrect }
    }
}

impl Statistic {
    /// Rebuilds a statistic from previously persisted counter values.
    pub fn from_counts(correct: usize, incorrect: usize) -> (r: Self)
        ensures
            r@.correct == correct,
            r@.incorrect == incorrect,
    {
        Statistic { correct, incorrect }
    }

    /// How many guesses were counted in total: correct plus incorrect ones.
    pub fn total(&self) -> (r: usize)
        requires
            self@.correct + self@.incorrect <= usize::MAX,
        ensures
            r == self@.correct + self@.incorrect,
    {
        self.correct + self.incorrect
    }

    /// How many correct guesses were counted.
    pub fn correct(&self) -> (r: usize)
        ensures
            r == self@.correct,
    {
        self.correct
    }

    /// How many incorrect guesses were counted.
    pub fn incorrect(&self) -> (r: usize)
        ensures
            r == self@.incorrect,
    {
        self.incorrect
    }

    /// Counts one more correct guess; the incorrect counter is untouched.
    pub fn increment_correct(&mut self)
        requires
            old(self)@.correct < usize::MAX,
        ensures
            final(self)@.correct == old(self)@.correct + 1,
            final(self)@.incorrect == old(self)@.incorrect,
    {
        self.correct = self.correct + 1;
    }

    /// Counts one more incorrect guess; the correct counter is untouched.
    pub fn increment_incorrect(&mut self)
        requires
            old(self)@.incorrect < usize::MAX,
        ensures
            final(self)@.incorrect == old(self)@.incorrect + 1,
            final(self)@.correct == old(self)@.correct,
    {
        self.incorrect = self.incorrect + 1;
    }
}

} // verus!
