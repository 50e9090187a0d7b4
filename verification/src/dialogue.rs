//! A dialogue: a question put again and again until a reply settles it.

use vstd::prelude::*;
use crate::console::Terminal;

verus! {

/// What a line that was read amounts to.
#[derive(Debug, Clone, PartialEq, Eq)]
pub enum Reply<T> {
    /// It is the quit phrase.
    Quit,
    /// It encodes this value.
    Valid(T),
    /// It encodes no value.
    Invalid,
}

impl<T: DeepView> DeepView for Reply<T> {
    type V = Reply<T::V>;

    open spec fn deep_view(&self) -> Reply<T::V> {
        match *self {
            Reply::Quit => Reply::Quit,
            Reply::Valid(v) => Reply::Valid(v.deep_view()),
            Reply::Invalid => Reply::Invalid,
        }
    }
}

/// What to do once a reply has been looked at.
#[derive(Debug, Clone, PartialEq, Eq)]
pub enum Step<T> {
    /// The reply was the quit phrase: end the program with success.
    Quit,
    /// The reply settles the question with this value.
    Done(T),
    /// The reply settles nothing: write this text and read another line.
    Ask(String),
}

/// A `Step` as plain values.
pub ghost enum Move<V> {
    /// End the program with success.
    Quit,
    /// The question is settled with this value.
    Done(V),
    /// Write this text and read another line.
    Ask(Seq<char>),
}

impl<T> Step<T> {
    /// This step with its text as plain text and its value as it is.
    pub open spec fn as_move(&self) -> Move<T> {
        match *self {
            Step::Quit => Move::Quit,
            Step::Done(v) => Move::Done(v),
            Step::Ask(text) => Move::Ask(text@),
        }
    }
}

impl<T: DeepView> DeepView for Step<T> {
    type V = Move<T::V>;

    open spec fn deep_view(&self) -> Move<T::V> {
        match *self {
            Step::Quit => Move::Quit,
            Step::Done(v) => Move::Done(v.deep_view()),
            Step::Ask(text) => Move::Ask(text@),
        }
    }
}

/// How a dialogue on a scripted terminal ended.
#[derive(Debug, Clone, PartialEq, Eq)]
pub enum Outcome<T> {
    /// A reply was the quit phrase: the program is to end with success.
    Quit,
    /// A reply settled the question with this value.
    Value(T),
    /// The script ran out before any reply settled the question.
    Starved,
}

impl<T: DeepView> DeepView for Outcome<T> {
    type V = Outcome<T::V>;

    open spec fn deep_view(&self) -> Outcome<T::V> {
        match *self {
            Outcome::Quit => Outcome::Quit,
            Outcome::Value(v) => Outcome::Value(v.deep_view()),
            Outcome::Starved => Outcome::Starved,
        }
    }
}

/// How many of `lines`, from the first on, settle nothing under `step`: the
/// number of failed attempts before the reply that ends the dialogue.
pub open spec fn retries<V>(step: spec_fn(Seq<char>) -> Move<V>, lines: Seq<Seq<char>>) -> nat
    decreases lines.len(),
{
    if lines.len() > 0 && step(lines.first()) is Ask {
        1 + retries(step, lines.drop_first())
    } else {
        0
    }
}

/// The texts that `step` asks to write in answer to the first `k` of
/// `lines`, one after the other.
pub open spec fn asked<V>(step: spec_fn(Seq<char>) -> Move<V>, lines: Seq<Seq<char>>, k: nat) -> Seq<
    char,
>
    decreases k,
{
    if k == 0 {
        Seq::empty()
    } else {
        asked(step, lines, (k - 1) as nat) + step(lines[k - 1])->Ask_0
    }
}

/// The dialogue that writes `opening` and then takes line after line from
/// `term`, writing what `step` asks for after each line that settles
/// nothing, up to the first line that `step` answers with `Quit` or `Done`.
/// Gives how it ends and the terminal as it leaves it: that line is the last
/// one read, and nothing is written after it.
pub open spec fn dialogue<V>(
    opening: Seq<char>,
    step: spec_fn(Seq<char>) -> Move<V>,
    term: Terminal,
) -> (Outcome<V>, Terminal) {
    let k = retries(step, term.pending);
    let shown = term.shown + opening + asked(step, term.pending, k);
    if k < term.pending.len() {
        let end = match step(term.pending[k as int]) {
            Move::Done(v) => Outcome::Value(v),
            _ => Outcome::Quit,
        };
        (end, Terminal { pending: term.pending.skip(k as int + 1), shown })
    } else {
        (Outcome::Starved, Terminal { pending: Seq::empty(), shown })
    }
}

/// The number of failed attempts is the place of the first line that settles
/// the question: every line before it settles nothing, and it is the end of
/// the script where no line settles anything.
pub proof fn lemma_retries<V>(step: spec_fn(Seq<char>) -> Move<V>, lines: Seq<Seq<char>>, k: nat)
    requires
        k <= lines.len(),
        forall|i: int| 0 <= i < k ==> step(#[trigger] lines[i]) is Ask,
        k < lines.len() ==> !(step(lines[k as int]) is Ask),
    ensures
        retries(step, lines) == k,
    decreases k,
{
    if k > 0 {
        let rest = lines.drop_first();
        assert(step(lines[0]) is Ask);
        assert forall|i: int| 0 <= i < k - 1 implies step(#[trigger] rest[i]) is Ask by {
            assert(rest[i] == lines[i + 1]);
        }
        if k < lines.len() {
            assert(rest[k - 1] == lines[k as int]);
        }
        lemma_retries(step, rest, (k - 1) as nat);
    }
}

/// Every line before the place that `retries` gives settles nothing, and the
/// line at that place, where the script goes that far, settles the question.
pub proof fn lemma_retries_bound<V>(step: spec_fn(Seq<char>) -> Move<V>, lines: Seq<Seq<char>>)
    ensures
        retries(step, lines) <= lines.len(),
        forall|i: int| 0 <= i < retries(step, lines) ==> step(#[trigger] lines[i]) is Ask,
        retries(step, lines) < lines.len() ==> !(step(lines[retries(step, lines) as int]) is Ask),
    decreases lines.len(),
{
    if lines.len() > 0 && step(lines.first()) is Ask {
        let rest = lines.drop_first();
        lemma_retries_bound(step, rest);
        let k = retries(step, rest);
        assert forall|i: int| 0 <= i < k + 1 implies step(#[trigger] lines[i]) is Ask by {
            if i > 0 {
                assert(lines[i] == rest[i - 1]);
            }
        }
        if k + 1 < lines.len() {
            assert(lines[k as int + 1] == rest[k as int]);
        }
    }
}

/// How a dialogue ends, seen from the middle of it: where the first `k`
/// lines settled nothing and `now` is the terminal after the texts asked for
/// them were written, the dialogue ends as the line at `k` decides, with
/// that line read and nothing more written, or starved where there is no
/// such line.
pub proof fn lemma_dialogue_end<V>(
    opening: Seq<char>,
    step: spec_fn(Seq<char>) -> Move<V>,
    start: Terminal,
    k: nat,
    now: Terminal,
)
    requires
        k <= start.pending.len(),
        forall|i: int| 0 <= i < k ==> step(#[trigger] start.pending[i]) is Ask,
        now.pending == start.pending.skip(k as int),
        now.shown == start.shown + opening + asked(step, start.pending, k),
    ensures
        k == start.pending.len() ==> dialogue(opening, step, start) == (Outcome::<V>::Starved, now),
        k < start.pending.len() ==> match step(start.pending[k as int]) {
            Move::Quit => dialogue(opening, step, start) == (Outcome::<V>::Quit, now.skip(1)),
            Move::Done(v) => dialogue(opening, step, start) == (Outcome::Value(v), now.skip(1)),
            Move::Ask(_) => true,
        },
{
    if k == start.pending.len() {
        lemma_retries(step, start.pending, k);
        assert(now.pending =~= Seq::<Seq<char>>::empty());
    } else if !(step(start.pending[k as int]) is Ask) {
        lemma_retries(step, start.pending, k);
        assert(now.skip(1).pending =~= start.pending.skip(k as int + 1));
    }
}

} // verus!
