//! What a prompter is configured with, and what follows from it: the model
//! that the contracts of the prompter speak of.

use vstd::prelude::*;
use crate::console::Terminal;
use crate::dialogue::{dialogue, Move, Outcome, Reply};
use crate::parse::Parse;
use crate::text::trimmed;
use crate::wording::{bounds_notice, menu, question, verdict};

verus! {

/// What a prompter is configured with, as plain text.
pub ghost struct Settings {
    /// The text shown before each read.
    pub prompt: Seq<char>,
    /// The phrase that ends the program when it is entered, if one is set.
    pub quit: Option<Seq<char>>,
    /// The text shown after a reply that could not be read, if one is set.
    pub errmsg: Option<Seq<char>>,
}

impl Settings {
    /// The settings of a fresh prompter: an empty prompt, nothing else.
    pub open spec fn fresh() -> Settings {
        Settings { prompt: Seq::empty(), quit: None, errmsg: None }
    }

    /// These settings with the prompt replaced by `p`.
    pub open spec fn with_prompt(self, p: Seq<char>) -> Settings {
        Settings { prompt: p, ..self }
    }

    /// These settings with the quit phrase set to `q`.
    pub open spec fn with_quit(self, q: Seq<char>) -> Settings {
        Settings { quit: Some(q), ..self }
    }

    /// These settings with the error message set to `m`.
    pub open spec fn with_errmsg(self, m: Seq<char>) -> Settings {
        Settings { errmsg: Some(m), ..self }
    }

    /// Whether `line`, once trimmed, is the quit phrase.
    pub open spec fn quits(self, line: Seq<char>) -> bool {
        self.quit == Some(trimmed(line))
    }

    /// What the reply `line` amounts to where `parsed` is what its trimmed
    /// text gave when it was read as a value. The quit phrase comes first.
    pub open spec fn judge<V>(self, line: Seq<char>, parsed: Option<V>) -> Reply<V> {
        if self.quits(line) {
            Reply::Quit
        } else {
            match parsed {
                Some(v) => Reply::Valid(v),
                None => Reply::Invalid,
            }
        }
    }

    /// What the reply `line` amounts to where a `T` is asked for. The quit
    /// phrase comes first: a line that matches it is never read as a value.
    pub open spec fn reply<T: Parse>(self, line: Seq<char>) -> Reply<T::V> {
        self.judge(line, T::parse_spec(trimmed(line)))
    }

    /// What is shown after a reply that could not be read: the error
    /// message on a line of its own, or nothing where none is set.
    pub open spec fn complaint(self) -> Seq<char> {
        match self.errmsg {
            Some(m) => m + "\n"@,
            None => Seq::empty(),
        }
    }

    /// What a prompter that waits for a value makes of `response`: a reply
    /// that could not be read has the complaint shown and the prompt again.
    pub open spec fn settle<V>(self, response: Reply<V>) -> Move<V> {
        match response {
            Reply::Quit => Move::Quit,
            Reply::Valid(v) => Move::Done(v),
            Reply::Invalid => Move::Ask(self.complaint() + self.prompt),
        }
    }

    /// What a prompter that waits for a `T` makes of the reply `line`: a
    /// line that cannot be read has the complaint shown and the prompt
    /// again.
    pub open spec fn wait_step<T: Parse>(self, line: Seq<char>) -> Move<T::V> {
        self.settle(self.reply::<T>(line))
    }

    /// What a prompter that asks the yes/no question `p` makes of the reply
    /// `line`: anything but one of the four letters has the question shown
    /// again, and nothing else.
    pub open spec fn confirm_step(self, p: Seq<char>, line: Seq<char>) -> Move<bool> {
        match self.reply::<char>(line) {
            Reply::Quit => Move::Quit,
            Reply::Valid(c) => match verdict(c) {
                Some(b) => Move::Done(b),
                None => Move::Ask(question(p)),
            },
            Reply::Invalid => Move::Ask(question(p)),
        }
    }

    /// What a prompter that offers `opts` under the prompt `p` makes of the
    /// reply `line`: a number from 1 to the number of options picks the
    /// option at that place, counted from 0 in the result; another number
    /// has the bounds shown, then the list and the prompt again; a line
    /// that is no number has the complaint shown and the prompt again.
    pub open spec fn wait_opts_step(self, opts: Seq<Seq<char>>, p: Seq<char>, line: Seq<char>) -> Move<
        usize,
    > {
        match self.reply::<usize>(line) {
            Reply::Quit => Move::Quit,
            Reply::Valid(n) => if 1 <= n <= opts.len() {
                Move::Done((n - 1) as usize)
            } else {
                Move::Ask(bounds_notice(opts.len()) + menu(opts) + p)
            },
            Reply::Invalid => Move::Ask(self.complaint() + p),
        }
    }

    /// The steps of waiting for a `T`, as a function of the reply.
    pub open spec fn wait_steps<T: Parse>(self) -> spec_fn(Seq<char>) -> Move<T::V> {
        |line: Seq<char>| self.wait_step::<T>(line)
    }

    /// The steps of the yes/no question `p`, as a function of the reply.
    pub open spec fn confirm_steps(self, p: Seq<char>) -> spec_fn(Seq<char>) -> Move<bool> {
        |line: Seq<char>| self.confirm_step(p, line)
    }

    /// The steps of choosing among `opts` under the prompt `p`, as a
    /// function of the reply.
    pub open spec fn wait_opts_steps(self, opts: Seq<Seq<char>>, p: Seq<char>) -> spec_fn(
        Seq<char>,
    ) -> Move<usize> {
        |line: Seq<char>| self.wait_opts_step(opts, p, line)
    }

    /// Reading once on `term`: the prompt is shown, one line is read, and
    /// whatever it holds nothing more is shown or read. A line that cannot
    /// be read as a `T` gives `None`.
    pub open spec fn read<T: Parse>(self, term: Terminal) -> (Outcome<Option<T::V>>, Terminal) {
        let asking = term.write(self.prompt);
        if term.pending.len() == 0 {
            (Outcome::Starved, asking)
        } else {
            let end = match self.reply::<T>(term.pending[0]) {
                Reply::Quit => Outcome::Quit,
                Reply::Valid(v) => Outcome::Value(Some(v)),
                Reply::Invalid => Outcome::Value(None),
            };
            (end, asking.skip(1))
        }
    }

    /// Waiting for a `T` on `term`: the dialogue that opens with the prompt.
    pub open spec fn wait<T: Parse>(self, term: Terminal) -> (Outcome<T::V>, Terminal) {
        dialogue(self.prompt, self.wait_steps::<T>(), term)
    }

    /// Asking the yes/no question `p` on `term`: the dialogue that opens
    /// with the question.
    pub open spec fn confirm(self, p: Seq<char>, term: Terminal) -> (Outcome<bool>, Terminal) {
        dialogue(question(p), self.confirm_steps(p), term)
    }

    /// Choosing among `opts` under the prompt `p` on `term`: the dialogue
    /// that opens with the list and the prompt. It ends with the place of
    /// the option picked, counted from 0.
    pub open spec fn wait_opts_at(self, opts: Seq<Seq<char>>, p: Seq<char>, term: Terminal) -> (
        Outcome<usize>,
        Terminal,
    ) {
        dialogue(menu(opts) + p, self.wait_opts_steps(opts, p), term)
    }

    /// Choosing among `opts` under the prompt `p` on `term`, with the
    /// option picked as the result.
    pub open spec fn wait_opts(self, opts: Seq<Seq<char>>, p: Seq<char>, term: Terminal) -> (
        Outcome<Seq<char>>,
        Terminal,
    ) {
        let (end, after) = self.wait_opts_at(opts, p, term);
        let picked = match end {
            Outcome::Quit => Outcome::Quit,
            Outcome::Value(at) => Outcome::Value(opts[at as int]),
            Outcome::Starved => Outcome::Starved,
        };
        (picked, after)
    }
}

} // verus!
