//! The texts that a prompter shows besides its prompt and error message.

use vstd::prelude::*;
use vstd::string::*;
use crate::number::{decimal, decimal_text};

verus! {

/// The prompt of the yes/no question `p`.
pub open spec fn question(p: Seq<char>) -> Seq<char> {
    p + " [y/n] "@
}

/// The answer that the letter `c` gives to a yes/no question, in either
/// case; `None` for any other character.
pub open spec fn verdict(c: char) -> Option<bool> {
    if c == 'y' || c == 'Y' {
        Some(true)
    } else if c == 'n' || c == 'N' {
        Some(false)
    } else {
        None
    }
}

/// The line that lists `item` under the number `number`.
pub open spec fn entry(number: nat, item: Seq<char>) -> Seq<char> {
    decimal_text(number) + ". "@ + item + "\n"@
}

/// The list of `opts`, one line each, numbered from 1.
pub open spec fn menu(opts: Seq<Seq<char>>) -> Seq<char>
    decreases opts.len(),
{
    if opts.len() == 0 {
        Seq::empty()
    } else {
        menu(opts.drop_last()) + entry(opts.len(), opts.last())
    }
}

/// The line that tells the user between which numbers to choose where
/// `count` options are offered.
pub open spec fn bounds_notice(count: nat) -> Seq<char> {
    "Please enter a number within the bounds 1..="@ + decimal_text(count) + "\n"@
}

/// The line that reports a failure of the terminal, described by `detail`,
/// after which the work goes on as if an empty line had been read.
pub open spec fn io_notice(detail: Seq<char>) -> Seq<char> {
    "IO Error: "@ + detail + "; Continuing...\n"@
}

/// Writes the line that reports a failure of the terminal, described by
/// `detail`.
pub fn io_notice_text(detail: &str) -> (r: String)
    ensures
        r@ == io_notice(detail@),
{
    let mut r = "IO Error: ".to_owned();
    r.append(detail);
    r.append("; Continuing...\n");
    r
}

/// Writes the prompt of the yes/no question `p`.
pub fn question_text(p: &str) -> (r: String)
    ensures
        r@ == question(p@),
{
    let mut r = p.to_owned();
    r.append(" [y/n] ");
    r
}

/// Decides what the letter `c` answers to a yes/no question.
pub fn verdict_of(c: char) -> (r: Option<bool>)
    ensures
        r == verdict(c),
{
    if c == 'y' || c == 'Y' {
        Some(true)
    } else if c == 'n' || c == 'N' {
        Some(false)
    } else {
        None
    }
}

/// Writes the list of `opts`, one line each, numbered from 1.
pub fn menu_text(opts: &[String]) -> (r: String)
    ensures
        r@ == menu(opts.deep_view()),
{
    let ghost all = opts.deep_view();
    let mut r = String::new();
    let mut i: usize = 0;
    while i < opts.len()
        invariant
            i <= opts.len() == all.len(),
            all == opts.deep_view(),
            r@ == menu(all.take(i as int)),
        decreases opts.len() - i,
    {
        let number = decimal(i + 1);
        r.append(number.as_str());
        r.append(". ");
        r.append(opts[i].as_str());
        r.append("\n");
        i += 1;
        proof {
            let shown = all.take(i as int);
            assert(shown.drop_last() =~= all.take(i - 1));
            assert(shown.last() == opts[i - 1]@);
        }
    }
    proof {
        assert(all.take(i as int) =~= all);
    }
    r
}

/// Writes the line that tells the user between which numbers to choose
/// where `count` options are offered.
pub fn bounds_text(count: usize) -> (r: String)
    ensures
        r@ == bounds_notice(count as nat),
{
    let mut r = "Please enter a number within the bounds 1..=".to_owned();
    r.append(decimal(count).as_str());
    r.append("\n");
    r
}

} // verus!
