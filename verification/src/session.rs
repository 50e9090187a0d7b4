//! Whole questions, run on a scripted terminal.

use vstd::prelude::*;
use vstd::string::*;
use crate::console::Console;
use crate::dialogue::{asked, dialogue, lemma_dialogue_end, Move, Outcome, Reply, Step};
use crate::input::Input;
use crate::wording::{menu_text, question_text};
use crate::parse::Parse;

verus! {

/// Runs a dialogue on `console`: writes `opening`, then hands line after
/// line to `step` and writes what it asks for, until a line settles the
/// question or the script runs out. `model` is what `step` computes.
fn converse<T: DeepView, F: Fn(&str) -> Step<T>>(
    opening: &str,
    step: F,
    console: &mut Console,
    Ghost(model): Ghost<spec_fn(Seq<char>) -> Move<T::V>>,
) -> (r: Outcome<T>)
    requires
        forall|line: &str| call_requires(step, (line,)),
        forall|line: &str, s: Step<T>| #[trigger]
            call_ensures(step, (line,), s) ==> s.deep_view() == model(line@),
    ensures
        (r.deep_view(), final(console)@) == dialogue(opening@, model, old(console)@),
{
    let ghost start = console@;
    let ghost mut k: nat = 0;
    console.write(opening);
    loop
        invariant
            k <= start.pending.len(),
            forall|i: int| 0 <= i < k ==> model(#[trigger] start.pending[i]) is Ask,
            console@.pending == start.pending.skip(k as int),
            console@.shown == start.shown + opening@ + asked(model, start.pending, k),
            start == old(console)@,
            forall|line: &str| call_requires(step, (line,)),
            forall|line: &str, s: Step<T>| #[trigger]
                call_ensures(step, (line,), s) ==> s.deep_view() == model(line@),
        decreases start.pending.len() - k,
    {
        proof {
            lemma_dialogue_end(opening@, model, start, k, console@);
        }
        let line = match console.read_line() {
            Some(line) => line,
            None => {
                return Outcome::Starved;
            },
        };
        match step(line.as_str()) {
            Step::Quit => {
                return Outcome::Quit;
            },
            Step::Done(v) => {
                return Outcome::Value(v);
            },
            Step::Ask(text) => {
                console.write(text.as_str());
                proof {
                    k = k + 1;
                }
            },
        }
    }
}

impl Input {
    /// Similar to `wait`, except that it is over after the first reply,
    /// whatever it holds: a reply that does not parse to `T` gives `None`,
    /// and no error message is shown for it.
    pub fn read<T: Parse>(&self, console: &mut Console) -> (r: Outcome<Option<T>>)
        ensures
            (r.deep_view(), final(console)@) == self@.read::<T>(old(console)@),
    {
        console.write(self.prompt_text());
        match console.read_line() {
            None => Outcome::Starved,
            Some(line) => match self.get_data::<T>(line.as_str()) {
                Reply::Quit => Outcome::Quit,
                Reply::Valid(v) => Outcome::Value(Some(v)),
                Reply::Invalid => Outcome::Value(None),
            },
        }
    }

    /// Waits until the user responds with something that can be parsed to
    /// `T`, showing the prompt before each read and the error message, if
    /// one is set, after each reply that cannot be parsed. A reply that is
    /// the quit phrase ends it at once.
    pub fn wait<T: Parse>(&self, console: &mut Console) -> (r: Outcome<T>)
        ensures
            (r.deep_view(), final(console)@) == self@.wait::<T>(old(console)@),
    {
        let step = |line: &str| -> (s: Step<T>)
            ensures
                s.deep_view() == self@.wait_step::<T>(line@),
            { self.wait_step::<T>(line) };
        converse(self.prompt_text(), step, console, Ghost(self@.wait_steps::<T>()))
    }

    /// Presents a series of options to the user, from which they choose one
    /// by its number in the list, and gives the option chosen. The list is
    /// shown before the first prompt and again after each number that is
    /// out of bounds; a reply that is no number has the error message
    /// shown, if one is set. The prompt of this prompter is not used, and
    /// not changed.
    ///
    /// There must be an option to choose: with none, no reply could settle
    /// anything.
    pub fn wait_opts(&self, opts: &[String], p: &str, console: &mut Console) -> (r: Outcome<String>)
        requires
            opts.len() > 0,
        ensures
            (r.deep_view(), final(console)@) == self@.wait_opts(
                opts.deep_view(),
                p@,
                old(console)@,
            ),
    {
        let mut opening = menu_text(opts);
        opening.append(p);
        let step = |line: &str| -> (s: Step<usize>)
            ensures
                s.deep_view() == self@.wait_opts_step(opts.deep_view(), p@, line@),
            { self.wait_opts_step(opts, p, line) };
        let end = converse(
            opening.as_str(),
            step,
            console,
            Ghost(self@.wait_opts_steps(opts.deep_view(), p@)),
        );
        match end {
            Outcome::Quit => Outcome::Quit,
            Outcome::Value(at) => Outcome::Value(opts[at].clone()),
            Outcome::Starved => Outcome::Starved,
        }
    }

    /// Presents a simple yes/no question to the user and gives their
    /// choice: `true` for `y`, `false` for `n`, in either case. Any other
    /// reply has the question shown again, without an error message even
    /// where one is set. The prompt of this prompter is not used, and not
    /// changed.
    pub fn confirm(&self, p: &str, console: &mut Console) -> (r: Outcome<bool>)
        ensures
            (r.deep_view(), final(console)@) == self@.confirm(p@, old(console)@),
    {
        let opening = question_text(p);
        let step = |line: &str| -> (s: Step<bool>)
            ensures
                s.deep_view() == self@.confirm_step(p@, line@),
            { self.confirm_step(p, line) };
        converse(opening.as_str(), step, console, Ghost(self@.confirm_steps(p@)))
    }
}

} // verus!
