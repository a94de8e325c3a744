pub mod statistic;

use vstd::prelude::*;

use crate::model::statistic::{ScoreModel, Statistic};
use crate::observer::{Listener, Observable, Observers};

verus! {

/// Mathematical content of a [`Word`]: its three text fields as character
/// sequences.
pub ghost struct WordModel {
    pub word: Seq<char>,
    pub url: Seq<char>,
    pub credits: Seq<char>,
}

/// A drillable item: the text to spell, a locator for the picture that is
/// shown for it, and attribution for that picture. Items are plain immutable
/// values; equality is structural.
#[derive(Debug, PartialEq, Eq)]
pub struct Word {
    pub word: String,
    pub url: String,
    pub credits: String,
}

impl View for Word {
    type V = WordModel;

    open spec fn view(&self) -> WordModel {
        WordModel { word: self.word@, url: self.url@, credits: self.credits@ }
    }
}

impl Clone for Word {
    fn clone(&self) -> (r: Self)
        ensures
            r == *self,
    {
        Word { word: self.word.clone(), url: self.url.clone(), credits: self.credits.clone() }
    }
}

/// Mathematical content of a [`TrainerEvent`].
pub ghost enum EventModel {
    Selected(Option<WordModel>),
    Guessed { guess: Seq<char>, correct: bool },
}

/// A state transition of the trainer, announced to listeners: either the
/// active selection changed (carrying the newly active word, or absence), or
/// a guess was evaluated (carrying the submitted text and its correctness).
#[derive(Debug, PartialEq, Eq)]
pub enum TrainerEvent {
    Selected(Option<Word>),
    Guessed { guess: String, correct: bool },
}

impl View for TrainerEvent {
    type V = EventModel;

    open spec fn view(&self) -> EventModel {
        match self {
            TrainerEvent::Selected(active) => EventModel::Selected(
                match active {
                    Some(word) => Some(word@),
                    None => None,
                },
            ),
            TrainerEvent::Guessed { guess, correct } => (EventModel::Guessed {
                guess: guess@,
                correct: *correct,
            }),
        }
    }
}

impl Clone for TrainerEvent {
    fn clone(&self) -> (r: Self)
        ensures
            r == *self,
    {
        match self {
            TrainerEvent::Selected(active) => TrainerEvent::Selected(
                match active {
                    Some(word) => Some(word.clone()),
                    None => None,
                },
            ),
            TrainerEvent::Guessed { guess, correct } => (TrainerEvent::Guessed {
                guess: guess.clone(),
                correct: *correct,
            }),
        }
    }
}

/// Mathematical content of a [`Trainer`]: the word list, the selected index
/// (which may be stale, i.e. out of bounds), the score, and the sequence of
/// all events emitted so far.
pub ghost struct TrainerModel {
    pub words: Seq<WordModel>,
    pub selected: Option<int>,
    pub score: ScoreModel,
    pub events: Seq<EventModel>,
}

impl TrainerModel {
    /// The currently active word: the word at the selected index, provided an
    /// index is selected at all and lies within the word list. A stale or
    /// out-of-range index counts as no active word.
    pub open spec fn active(self) -> Option<WordModel> {
        match self.selected {
            Some(i) => if 0 <= i < self.words.len() {
                Some(self.words[i])
            } else {
                None
            },
            None => None,
        }
    }
}

/// One trainer operation, as a mathematical value: explicit selection, random
/// selection (carrying the index that the random source produced), or a guess.
pub ghost enum Op {
    Select(int),
    Random(int),
    Guess(Seq<char>),
}

/// The trainer's transition for an explicit selection: the index is taken
/// unconditionally (even out of range), and one selection-changed event is
/// emitted carrying the resulting active word, or absence.
pub open spec fn spec_select(m: TrainerModel, idx: int) -> TrainerModel {
    let next = TrainerModel { selected: Some(idx), ..m };
    TrainerModel { events: next.events.push(EventModel::Selected(next.active())), ..next }
}

/// The trainer's transition for a random selection that drew `idx`: on an
/// empty word list the selection is cleared and one selection-changed event
/// with absence is emitted; otherwise it selects `idx`.
pub open spec fn spec_random(m: TrainerModel, idx: int) -> TrainerModel {
    if m.words.len() == 0 {
        let next = TrainerModel { selected: None, ..m };
        TrainerModel { events: next.events.push(EventModel::Selected(None)), ..next }
    } else {
        spec_select(m, idx)
    }
}

/// The trainer's transition for a guess: the text is compared against the
/// active word's label (absence compares as incorrect), one guess-evaluated
/// event is emitted first, and then, on a correct guess only, the correct
/// counter grows by one, the selection is cleared and a selection-changed
/// event with absence follows; on an incorrect guess the incorrect counter
/// grows by one and the selection stays.
pub open spec fn spec_guess(m: TrainerModel, guess: Seq<char>) -> TrainerModel {
    let correct = match m.active() {
        Some(w) => w.word == guess,
        None => false,
    };
    let noted = TrainerModel {
        events: m.events.push((EventModel::Guessed { guess, correct })),
        ..m
    };
    if correct {
        TrainerModel {
            score: ScoreModel { correct: m.score.correct + 1, ..m.score },
            selected: None,
            events: noted.events.push(EventModel::Selected(None)),
            ..noted
        }
    } else {
        TrainerModel { score: ScoreModel { incorrect: m.score.incorrect + 1, ..m.score }, ..noted }
    }
}

/// The trainer's full transition relation, one operation at a time.
pub open spec fn spec_step(m: TrainerModel, op: Op) -> TrainerModel {
    match op {
        Op::Select(idx) => spec_select(m, idx),
        Op::Random(idx) => spec_random(m, idx),
        Op::Guess(guess) => spec_guess(m, guess),
    }
}

/// The trainer's transition relation over a whole sequence of operations.
pub open spec fn spec_run(m: TrainerModel, ops: Seq<Op>) -> TrainerModel
    decreases ops.len(),
{
    if ops.len() == 0 {
        m
    } else {
        spec_run(spec_step(m, ops[0]), ops.subrange(1, ops.len() as int))
    }
}

/// Law: across any sequence of selections, random selections and guesses, the
/// score counters never decrease. Only an explicit statistic reset (which is
/// not a trainer transition) lowers them, and it sets both to zero.
pub proof fn lemma_score_monotonic(m: TrainerModel, ops: Seq<Op>)
    ensures
        spec_run(m, ops).score.correct >= m.score.correct,
        spec_run(m, ops).score.incorrect >= m.score.incorrect,
    decreases ops.len(),
{
    if ops.len() > 0 {
        lemma_score_monotonic(spec_step(m, ops[0]), ops.subrange(1, ops.len() as int));
    }
}

/// Relies on rand::seq::index::sample: `sample(rng, len, 1)` draws exactly one
/// index uniformly at random from `0..len` (it panics only when the requested
/// amount exceeds `len`), and `IndexVec::index(0)` returns that index.
#[verifier::external_body]
fn random_index(len: usize) -> (r: usize)
    requires
        1 <= len,
    ensures
        r < len,
{
    rand::seq::index::sample(&mut rand::thread_rng(), len, 1).index(0)
}

/// The word trainer: holds a fixed list of words, tracks which one is active,
/// evaluates guesses against the active word's label, counts the outcomes,
/// and announces every state change on its notification bus.
///
/// No operation can fail: an empty word list, an out-of-range index and a
/// guess without an active word all resolve to a defined "absence" or
/// "incorrect" outcome.
pub struct Trainer<L: Listener<TrainerEvent>> {
    words: Vec<Word>,
    selected: Option<usize>,
    statistic: Statistic,
    observers: Observers<TrainerEvent, L>,
}

impl<L: Listener<TrainerEvent>> View for Trainer<L> {
    type V = TrainerModel;

    closed spec fn view(&self) -> TrainerModel {
        TrainerModel {
            words: self.words@.map_values(|w: Word| w@),
            selected: match self.selected {
                Some(i) => Some(i as int),
                None => None,
            },
            score: self.statistic@,
            events: self.observers@,
        }
    }
}

impl<L: Listener<TrainerEvent>> Default for Trainer<L> {
    /// A fresh trainer over an empty word list: nothing selected, nothing
    /// counted, nothing emitted.
    fn default() -> (r: Self)
        ensures
            r@.words == Seq::<WordModel>::empty(),
            r@.selected is None,
            r@.score.correct == 0,
            r@.score.incorrect == 0,
            r@.events == Seq::<EventModel>::empty(),
            r.listeners_model() == Seq::<L>::empty(),
    {
        let t = Trainer {
            words: Vec::new(),
            selected: None,
            statistic: Statistic::default(),
            observers: Observers::default(),
        };
        proof {
            assert(t@.words =~= Seq::<WordModel>::empty());
        }
        t
    }
}

impl<L: Listener<TrainerEvent>> Trainer<L> {
    /// The listeners registered with the trainer's bus, in registration order.
    pub closed spec fn listeners_model(&self) -> Seq<L> {
        self.observers.listeners_model()
    }

    /// How many listeners are registered with the trainer's bus.
    pub open spec fn listener_count(&self) -> nat {
        self.listeners_model().len()
    }

    /// Builds a trainer over the given word list, with no active selection.
    pub fn new(words: Vec<Word>) -> (r: Self)
        ensures
            r@.words == words@.map_values(|w: Word| w@),
            r@.selected is None,
            r@.score.correct == 0,
            r@.score.incorrect == 0,
            r@.events == Seq::<EventModel>::empty(),
            r.listeners_model() == Seq::<L>::empty(),
    {
        Trainer {
            words,
            selected: None,
            statistic: Statistic::default(),
            observers: Observers::default(),
        }
    }

    /// Rebuilds a trainer from the three persisted fields: word list, selected
    /// index and score. Listener registrations and the emission history are
    /// transient and start out empty.
    pub fn from_parts(words: Vec<Word>, selected: Option<usize>, statistic: Statistic) -> (r: Self)
        ensures
            r@.words == words@.map_values(|w: Word| w@),
            r@.selected == (match selected {
                Some(i) => Some(i as int),
                None => None::<int>,
            }),
            r@.score == statistic@,
            r@.events == Seq::<EventModel>::empty(),
            r.listeners_model() == Seq::<L>::empty(),
    {
        Trainer { words, selected, statistic, observers: Observers::default() }
    }

    /// The word list the trainer was built over.
    pub fn words(&self) -> (r: &Vec<Word>)
        ensures
            r@.map_values(|w: Word| w@) == self@.words,
    {
        &self.words
    }

    /// The selected index as it is stored, which may be out of range.
    pub fn selected_index(&self) -> (r: Option<usize>)
        ensures
            r == (match self@.selected {
                Some(i) => Some(i as usize),
                None => None::<usize>,
            }),
            self@.selected is Some <==> r is Some,
    {
        self.selected
    }

    /// The currently active word, or absence if no index is selected or the
    /// selected index is out of range. Never reads out of bounds, whatever
    /// index was selected.
    pub fn selected(&self) -> (r: Option<&Word>)
        ensures
            (match r {
                Some(w) => self@.active() == Some(w@),
                None => self@.active() is None,
            }),
    {
        match self.selected {
            Some(idx) => if idx < self.words.len() {
                Some(&self.words[idx])
            } else {
                None
            },
            None => None,
        }
    }

    /// Selects the word at `idx` unconditionally, even out of range: an
    /// out-of-range selection is observed as "nothing selected" rather than
    /// as an error. Emits one selection-changed event carrying the result,
    /// and returns the now-active word, if any.
    pub fn select(&mut self, idx: usize) -> (r: Option<&Word>)
        ensures
            final(self)@ == spec_step(old(self)@, Op::Select(idx as int)),
            final(self)@.words == old(self)@.words,
            final(self)@.score == old(self)@.score,
            final(self)@.selected == Some(idx as int),
            final(self)@.events == old(self)@.events.push(
                EventModel::Selected(final(self)@.active()),
            ),
            idx < old(self)@.words.len() ==> final(self)@.active() == Some(
                old(self)@.words[idx as int],
            ),
            idx >= old(self)@.words.len() ==> final(self)@.active() is None,
            final(self).listeners_model() == old(self).listeners_model(),
            (match r {
                Some(w) => final(self)@.active() == Some(w@),
                None => final(self)@.active() is None,
            }),
    {
        self.selected = Some(idx);
        let current: Option<Word> = match self.selected() {
            Some(w) => Some(w.clone()),
            None => None,
        };
        let event = TrainerEvent::Selected(current);
        self.observers.notify(&event);
        self.selected()
    }

    /// Selects a uniformly random word: on an empty word list it clears the
    /// selection instead and emits exactly one selection-changed event with
    /// absence; otherwise the result is always a member of the word list.
    /// Returns the now-active word, if any.
    pub fn random(&mut self) -> (r: Option<&Word>)
        ensures
            final(self)@.words == old(self)@.words,
            final(self)@.score == old(self)@.score,
            old(self)@.words.len() == 0 ==> final(self)@ == spec_step(
                old(self)@,
                Op::Random(0),
            ) && final(self)@.active() is None && final(self)@.events == old(self)@.events.push(
                EventModel::Selected(None),
            ),
            old(self)@.words.len() > 0 ==> (exists|i: int|
                0 <= i < old(self)@.words.len() && final(self)@ == #[trigger] spec_step(
                    old(self)@,
                    Op::Random(i),
                )),
            old(self)@.words.len() > 0 ==> final(self)@.active() is Some && final(self)@.events
                == old(self)@.events.push(EventModel::Selected(final(self)@.active())),
            old(self)@.words.len() > 0 ==> (exists|i: int|
                0 <= i < old(self)@.words.len() && final(self)@.active() == Some(
                    #[trigger] old(self)@.words[i],
                )),
            final(self).listeners_model() == old(self).listeners_model(),
            (match r {
                Some(w) => final(self)@.active() == Some(w@),
                None => final(self)@.active() is None,
            }),
    {
        if self.words.len() == 0 {
            self.selected = None;
            let event = TrainerEvent::Selected(None);
            self.observers.notify(&event);
            None
        } else {
            let idx = random_index(self.words.len());
            proof {
                assert(spec_step(self@, Op::Random(idx as int)) == spec_step(
                    self@,
                    Op::Select(idx as int),
                ));
            }
            self.select(idx)
        }
    }

    /// Evaluates `guess` against the active word's label by exact equality;
    /// with no active word the comparison is always incorrect. Emits the
    /// guess-evaluated event before any further state change. A correct guess
    /// counts one more correct guess, clears the selection and emits a second,
    /// selection-changed event with absence; an incorrect guess counts one
    /// more incorrect guess and leaves the selection as it was. Returns the
    /// comparison result.
    pub fn guess(&mut self, guess: &str) -> (r: bool)
        requires
            old(self)@.score.correct < usize::MAX,
            old(self)@.score.incorrect < usize::MAX,
        ensures
            final(self)@ == spec_step(old(self)@, Op::Guess(guess@)),
            final(self)@.words == old(self)@.words,
            r == (match old(self)@.active() {
                Some(w) => w.word == guess@,
                None => false,
            }),
            r ==> final(self)@.score.correct == old(self)@.score.correct + 1
                && final(self)@.score.incorrect == old(self)@.score.incorrect
                && final(self)@.selected is None && final(self)@.active() is None
                && final(self)@.events == old(self)@.events.push(
                (EventModel::Guessed { guess: guess@, correct: true }),
            ).push(EventModel::Selected(None)),
            !r ==> final(self)@.score.incorrect == old(self)@.score.incorrect + 1
                && final(self)@.score.correct == old(self)@.score.correct && final(self)@.selected
                == old(self)@.selected && final(self)@.active() == old(self)@.active()
                && final(self)@.events == old(self)@.events.push(
                (EventModel::Guessed { guess: guess@, correct: false }),
            ),
            final(self).listeners_model() == old(self).listeners_model(),
    {
        let g: String = guess.to_owned();
        let correct = match self.selected() {
            Some(w) => w.word == g,
            None => false,
        };
        let event = TrainerEvent::Guessed { guess: g, correct };
        self.observers.notify(&event);
        if correct {
            self.statistic.increment_correct();
            self.selected = None;
            let cleared = TrainerEvent::Selected(None);
            self.observers.notify(&cleared);
        } else {
            self.statistic.increment_incorrect();
        }
        correct
    }

    /// The score counted so far.
    pub fn statistic(&self) -> (r: &Statistic)
        ensures
            r@ == self@.score,
    {
        &self.statistic
    }

    /// Resets both score counters to zero. Emits nothing: a reset is not a
    /// trainer transition and is announced by nobody.
    pub fn reset_statistic(&mut self)
        ensures
            final(self)@.score.correct == 0,
            final(self)@.score.incorrect == 0,
            final(self)@.words == old(self)@.words,
            final(self)@.selected == old(self)@.selected,
            final(self)@.events == old(self)@.events,
            final(self).listeners_model() == old(self).listeners_model(),
    {
        self.statistic = Statistic::default();
    }
}

impl<L: Listener<TrainerEvent>> Clone for Trainer<L> {
    /// Clones the persistent state: word list, selection and score. Listener
    /// registrations and the emission history are transient and do not travel
    /// with the clone.
    fn clone(&self) -> (r: Self)
        ensures
            r@.words == self@.words,
            r@.selected == self@.selected,
            r@.score == self@.score,
            r@.events == Seq::<EventModel>::empty(),
            r.listeners_model() == Seq::<L>::empty(),
    {
        let words = self.words.clone();
        proof {
            assert(words@ =~= self.words@);
        }
        Trainer {
            words,
            selected: self.selected,
            statistic: self.statistic.clone(),
            observers: Observers::default(),
        }
    }
}

impl<L: Listener<TrainerEvent>> Observable<TrainerEvent, L> for Trainer<L> {
    /// Registers the listener with the trainer's notification bus, after
    /// every earlier registration, all of which are kept; the trainer's
    /// abstract state, its emission history included, is untouched.
    fn observe(&mut self, observer: L)
        ensures
            final(self).listeners_model() == old(self).listeners_model().push(observer),
            final(self).listener_count() == old(self).listener_count() + 1,
    {
        self.observers.observe(observer);
    }
}

} // verus!
