//! Reading a value out of a trimmed line of text.

use vstd::prelude::*;
use vstd::string::*;
use crate::text::chars_of;

verus! {

/// A type whose values can be written as text and read back.
pub trait Parse: Sized + DeepView {
    /// What `text` stands for: the value that it encodes, as a plain value,
    /// or `None` where it encodes none.
    spec fn parse_spec(text: Seq<char>) -> Option<Self::V>;

    /// Reads a value from `text`, which is taken as it stands: surrounding
    /// whitespace is not skipped.
    fn parse(text: &str) -> (r: Option<Self>)
        ensures
            r.deep_view() == Self::parse_spec(text@),
    ;
}

/// Any text is a `String`: itself.
impl Parse for String {
    open spec fn parse_spec(text: Seq<char>) -> Option<Seq<char>> {
        Some(text)
    }

    fn parse(text: &str) -> (r: Option<String>) {
        Some(text.to_owned())
    }
}

/// A `char` is written as that one character.
impl Parse for char {
    open spec fn parse_spec(text: Seq<char>) -> Option<char> {
        if text.len() == 1 {
            Some(text[0])
        } else {
            None
        }
    }

    fn parse(text: &str) -> (r: Option<char>) {
        let chars = chars_of(text);
        if chars.len() == 1 {
            Some(chars[0])
        } else {
            None
        }
    }
}

/// A `bool` is written `true` or `false`.
impl Parse for bool {
    open spec fn parse_spec(text: Seq<char>) -> Option<bool> {
        if text == seq!['t', 'r', 'u', 'e'] {
            Some(true)
        } else if text == seq!['f', 'a', 'l', 's', 'e'] {
            Some(false)
        } else {
            None
        }
    }

    fn parse(text: &str) -> (r: Option<bool>) {
        let chars = chars_of(text);
        let n: usize = chars.len();
        if n == 4 && chars[0] == 't' && chars[1] == 'r' && chars[2] == 'u' && chars[3] == 'e' {
            assert(text@ =~= seq!['t', 'r', 'u', 'e']);
            Some(true)
        } else if n == 5 && chars[0] == 'f' && chars[1] == 'a' && chars[2] == 'l' && chars[3] == 's'
            && chars[4] == 'e' {
            assert(text@ =~= seq!['f', 'a', 'l', 's', 'e']);
            Some(false)
        } else {
            None
        }
    }
}

} // verus!
