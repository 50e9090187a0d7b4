//! What holds of every prompter, every reply and every terminal.

use vstd::prelude::*;
use crate::console::Terminal;
use crate::dialogue::{asked, lemma_dialogue_end, Move, Outcome, Reply};
use crate::settings::Settings;
use crate::wording::{menu, question};
use crate::parse::Parse;
use crate::number::{decimal_text, lemma_decimal_reads_back, lemma_unsigned_round_trip};
use crate::text::{all_space, is_space, is_trim, lemma_trimmed_padded, trimmed};

verus! {

/// `text` written `k` times over.
pub open spec fn repeat(text: Seq<char>, k: nat) -> Seq<char>
    decreases k,
{
    if k == 0 {
        Seq::empty()
    } else {
        repeat(text, (k - 1) as nat) + text
    }
}

/// A reply that is the quit phrase once trimmed ends the program, whatever
/// is asked for and in whichever way: it is never read as a value, not even
/// where text is asked for, and nothing is shown for it.
pub proof fn lemma_quit_ends_every_step<T: Parse>(
    cfg: Settings,
    opts: Seq<Seq<char>>,
    p: Seq<char>,
    line: Seq<char>,
)
    requires
        cfg.quit == Some(trimmed(line)),
    ensures
        cfg.reply::<T>(line) == Reply::<T::V>::Quit,
        cfg.wait_step::<T>(line) == Move::<T::V>::Quit,
        cfg.confirm_step(p, line) == Move::<bool>::Quit,
        cfg.wait_opts_step(opts, p, line) == Move::<usize>::Quit,
{
}

/// On a terminal whose next line is the quit phrase once trimmed, every way
/// of asking ends with `Quit`, whatever the prompt and whatever was shown
/// before: that line is read, and nothing is shown after the first prompt.
pub proof fn lemma_quit_ends_every_question<T: Parse>(
    cfg: Settings,
    opts: Seq<Seq<char>>,
    p: Seq<char>,
    term: Terminal,
)
    requires
        term.pending.len() > 0,
        cfg.quit == Some(trimmed(term.pending[0])),
    ensures
        cfg.read::<T>(term) == (Outcome::<Option<T::V>>::Quit, term.write(cfg.prompt).skip(1)),
        cfg.wait::<T>(term) == (Outcome::<T::V>::Quit, term.write(cfg.prompt).skip(1)),
        cfg.confirm(p, term) == (Outcome::<bool>::Quit, term.write(question(p)).skip(1)),
        cfg.wait_opts(opts, p, term) == (
            Outcome::<Seq<char>>::Quit,
            term.write(menu(opts) + p).skip(1),
        ),
{
    let line = term.pending[0];
    lemma_quit_ends_every_step::<T>(cfg, opts, p, line);
    assert(term.pending.skip(0) =~= term.pending);
    assert(term.shown + cfg.prompt + Seq::<char>::empty() =~= term.shown + cfg.prompt);
    assert(term.shown + question(p) + Seq::<char>::empty() =~= term.shown + question(p));
    assert(term.shown + (menu(opts) + p) + Seq::<char>::empty() =~= term.shown + (menu(opts) + p));
    lemma_dialogue_end(cfg.prompt, cfg.wait_steps::<T>(), term, 0, term.write(cfg.prompt));
    lemma_dialogue_end(question(p), cfg.confirm_steps(p), term, 0, term.write(question(p)));
    lemma_dialogue_end(
        menu(opts) + p,
        cfg.wait_opts_steps(opts, p),
        term,
        0,
        term.write(menu(opts) + p),
    );
}

/// A line that encodes a value once trimmed, and is not the quit phrase, is
/// read as that value, both by reading once and by waiting: one line is
/// read, and nothing is shown but the prompt.
pub proof fn lemma_valid_reply_is_read<T: Parse>(cfg: Settings, term: Terminal, v: T::V)
    requires
        term.pending.len() > 0,
        cfg.quit != Some(trimmed(term.pending[0])),
        T::parse_spec(trimmed(term.pending[0])) == Some(v),
    ensures
        cfg.reply::<T>(term.pending[0]) == Reply::Valid(v),
        cfg.read::<T>(term) == (Outcome::Value(Some(v)), term.write(cfg.prompt).skip(1)),
        cfg.wait::<T>(term) == (Outcome::Value(v), term.write(cfg.prompt).skip(1)),
{
    assert(term.pending.skip(0) =~= term.pending);
    assert(term.shown + cfg.prompt + Seq::<char>::empty() =~= term.shown + cfg.prompt);
    lemma_dialogue_end(cfg.prompt, cfg.wait_steps::<T>(), term, 0, term.write(cfg.prompt));
}

/// A line that encodes no value, and is not the quit phrase, ends reading
/// once with `None`: that line alone is read, there is no second attempt,
/// and nothing is shown but the prompt, whether an error message is set or
/// not.
pub proof fn lemma_read_is_over_after_one_line<T: Parse>(cfg: Settings, term: Terminal)
    requires
        term.pending.len() > 0,
        cfg.quit != Some(trimmed(term.pending[0])),
        T::parse_spec(trimmed(term.pending[0])) is None,
    ensures
        cfg.read::<T>(term) == (
            Outcome::<Option<T::V>>::Value(None),
            Terminal { pending: term.pending.skip(1), shown: term.shown + cfg.prompt },
        ),
{
}

/// While the lines encode no value, waiting answers each with the
/// complaint and the prompt.
proof fn lemma_wait_asked<T: Parse>(cfg: Settings, lines: Seq<Seq<char>>, k: nat)
    requires
        k <= lines.len(),
        forall|i: int| 0 <= i < k ==> cfg.reply::<T>(#[trigger] lines[i]) is Invalid,
    ensures
        asked(cfg.wait_steps::<T>(), lines, k) == repeat(cfg.complaint() + cfg.prompt, k),
    decreases k,
{
    if k > 0 {
        lemma_wait_asked::<T>(cfg, lines, (k - 1) as nat);
        assert(cfg.reply::<T>(lines[k - 1]) is Invalid);
    }
}

/// Waiting goes on until a line encodes a value or is the quit phrase: where
/// the first `k` lines do neither and the next one does, that one decides
/// how it ends, `k + 1` lines are read, and what is shown is the prompt,
/// and after each of the `k` failed attempts the error message on a line of
/// its own, if one is set, and the prompt again.
pub proof fn lemma_wait_retries_until_settled<T: Parse>(cfg: Settings, term: Terminal, k: nat)
    requires
        k < term.pending.len(),
        forall|i: int| 0 <= i < k ==> cfg.reply::<T>(#[trigger] term.pending[i]) is Invalid,
        !(cfg.reply::<T>(term.pending[k as int]) is Invalid),
    ensures
        cfg.wait::<T>(term) == (
            match cfg.reply::<T>(term.pending[k as int]) {
                Reply::Valid(v) => Outcome::Value(v),
                _ => Outcome::Quit,
            },
            Terminal {
                pending: term.pending.skip(k as int + 1),
                shown: term.shown + cfg.prompt + repeat(cfg.complaint() + cfg.prompt, k),
            },
        ),
{
    let step = cfg.wait_steps::<T>();
    lemma_wait_asked::<T>(cfg, term.pending, k);
    let now = Terminal {
        pending: term.pending.skip(k as int),
        shown: term.shown + cfg.prompt + asked(step, term.pending, k),
    };
    assert forall|i: int| 0 <= i < k implies step(#[trigger] term.pending[i]) is Ask by {
        assert(cfg.reply::<T>(term.pending[i]) is Invalid);
    }
    lemma_dialogue_end(cfg.prompt, step, term, k, now);
    assert(now.skip(1).pending =~= term.pending.skip(k as int + 1));
}

/// Where no line encodes a value or is the quit phrase, waiting uses up the
/// script, showing the complaint and the prompt again after every line.
pub proof fn lemma_wait_starves<T: Parse>(cfg: Settings, term: Terminal)
    requires
        forall|i: int|
            0 <= i < term.pending.len() ==> cfg.reply::<T>(#[trigger] term.pending[i]) is Invalid,
    ensures
        cfg.wait::<T>(term) == (
            Outcome::<T::V>::Starved,
            Terminal {
                pending: Seq::empty(),
                shown: term.shown + cfg.prompt + repeat(
                    cfg.complaint() + cfg.prompt,
                    term.pending.len(),
                ),
            },
        ),
{
    let step = cfg.wait_steps::<T>();
    let k = term.pending.len();
    lemma_wait_asked::<T>(cfg, term.pending, k);
    let now = Terminal {
        pending: term.pending.skip(k as int),
        shown: term.shown + cfg.prompt + asked(step, term.pending, k),
    };
    assert forall|i: int| 0 <= i < k implies step(#[trigger] term.pending[i]) is Ask by {
        assert(cfg.reply::<T>(term.pending[i]) is Invalid);
    }
    lemma_dialogue_end(cfg.prompt, step, term, k, now);
    assert(now.pending =~= Seq::<Seq<char>>::empty());
}

/// A prompter whose prompt was never set behaves as one whose prompt was
/// set to the empty text: the two are configured alike, so every question
/// put with them runs alike.
pub proof fn lemma_unset_prompt_is_empty<T: Parse>(term: Terminal)
    ensures
        Settings::fresh().with_prompt(Seq::empty()) == Settings::fresh(),
        Settings::fresh().with_prompt(Seq::empty()).read::<T>(term) == Settings::fresh().read::<T>(
            term,
        ),
        Settings::fresh().with_prompt(Seq::empty()).wait::<T>(term) == Settings::fresh().wait::<T>(
            term,
        ),
{
}

/// The error message plays no part in reading once: with it set to
/// whatever text, a reply amounts to the same, and the same is shown and
/// read.
pub proof fn lemma_error_message_is_not_read<T: Parse>(cfg: Settings, m: Seq<char>, term: Terminal)
    ensures
        forall|line: Seq<char>| #[trigger]
            cfg.with_errmsg(m).reply::<T>(line) == cfg.reply::<T>(line),
        cfg.with_errmsg(m).read::<T>(term) == cfg.read::<T>(term),
{
}

/// The error message plays no part in a yes/no question either: a reply
/// that is no answer has the question shown again and nothing else.
pub proof fn lemma_confirm_is_silent(cfg: Settings, m: Seq<char>, p: Seq<char>, term: Terminal)
    ensures
        forall|line: Seq<char>| #[trigger]
            cfg.with_errmsg(m).confirm_step(p, line) == cfg.confirm_step(p, line),
        cfg.with_errmsg(m).confirm(p, term) == cfg.confirm(p, term),
{
    assert(cfg.with_errmsg(m).confirm_steps(p) =~= cfg.confirm_steps(p));
}

/// A number written in base ten, with whatever whitespace around it, is
/// read as that number, unless it is the quit phrase.
pub proof fn lemma_written_number_is_read(
    cfg: Settings,
    n: usize,
    left: Seq<char>,
    right: Seq<char>,
)
    requires
        all_space(left, 0, left.len() as int),
        all_space(right, 0, right.len() as int),
        cfg.quit != Some(decimal_text(n as nat)),
    ensures
        cfg.reply::<usize>(left + decimal_text(n as nat) + right) == Reply::Valid(n),
{
    let text = decimal_text(n as nat);
    lemma_decimal_reads_back(n as nat);
    assert(!is_space(text.first()) && !is_space(text.last()));
    lemma_trimmed_padded(left, text, right);
    lemma_unsigned_round_trip(n as nat, usize::MAX as nat);
}

/// A single character that is not whitespace, with whatever whitespace
/// around it, is read as that character, unless it is the quit phrase.
pub proof fn lemma_written_char_is_read(cfg: Settings, c: char, left: Seq<char>, right: Seq<char>)
    requires
        all_space(left, 0, left.len() as int),
        all_space(right, 0, right.len() as int),
        !is_space(c),
        cfg.quit != Some(seq![c]),
    ensures
        cfg.reply::<char>(left + seq![c] + right) == Reply::Valid(c),
{
    lemma_trimmed_padded(left, seq![c], right);
}

/// Any text that neither starts nor ends with whitespace, with whatever
/// whitespace around it, is read as itself where text is asked for, unless
/// it is the quit phrase.
pub proof fn lemma_written_text_is_read(
    cfg: Settings,
    text: Seq<char>,
    left: Seq<char>,
    right: Seq<char>,
)
    requires
        all_space(left, 0, left.len() as int),
        all_space(right, 0, right.len() as int),
        is_trim(text),
        cfg.quit != Some(text),
    ensures
        cfg.reply::<String>(left + text + right) == Reply::<Seq<char>>::Valid(text),
{
    lemma_trimmed_padded(left, text, right);
}

} // verus!
