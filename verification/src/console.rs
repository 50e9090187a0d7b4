//! A scripted terminal: the lines that will be typed, and what was shown.

use vstd::prelude::*;
use vstd::string::*;

verus! {

/// The state of a terminal, as plain text.
pub ghost struct Terminal {
    /// The lines that have not been read yet, the next one first.
    pub pending: Seq<Seq<char>>,
    /// Everything written so far.
    pub shown: Seq<char>,
}

impl Terminal {
    /// This terminal after `text` was written to it.
    pub open spec fn write(self, text: Seq<char>) -> Terminal {
        Terminal { shown: self.shown + text, ..self }
    }

    /// This terminal after its first `n` pending lines were read.
    pub open spec fn skip(self, n: int) -> Terminal {
        Terminal { pending: self.pending.skip(n), ..self }
    }
}

/// A terminal whose input is a script fixed in advance and whose output is
/// kept as text.
#[derive(Debug)]
pub struct Console {
    replies: Vec<String>,
    taken: usize,
    shown: String,
}

impl View for Console {
    type V = Terminal;

    closed spec fn view(&self) -> Terminal {
        Terminal {
            pending: if self.taken <= self.replies.len() {
                self.replies.deep_view().skip(self.taken as int)
            } else {
                Seq::empty()
            },
            shown: self.shown@,
        }
    }
}

impl Console {
    /// A terminal on which `replies` will be typed, line by line, and on
    /// which nothing has been shown yet.
    pub fn new(replies: Vec<String>) -> (r: Console)
        ensures
            r@.pending == replies.deep_view(),
            r@.shown == Seq::<char>::empty(),
    {
        let r = Console { replies, taken: 0, shown: String::new() };
        assert(r.replies.deep_view().skip(0) =~= r.replies.deep_view());
        r
    }

    /// Writes `text`, with nothing added to it.
    pub fn write(&mut self, text: &str)
        ensures
            final(self)@ == old(self)@.write(text@),
    {
        self.shown.append(text);
    }

    /// Reads the next line of the script; `None` once it is used up.
    pub fn read_line(&mut self) -> (line: Option<String>)
        ensures
            line is Some <==> old(self)@.pending.len() > 0,
            line matches Some(l) ==> l@ == old(self)@.pending[0],
            final(self)@ == if line is Some {
                old(self)@.skip(1)
            } else {
                old(self)@
            },
    {
        if self.taken < self.replies.len() {
            let line = self.replies[self.taken].clone();
            proof {
                let all = self.replies.deep_view();
                assert(all.skip(self.taken as int)[0] == all[self.taken as int]);
                assert(all.skip(self.taken as int).skip(1) =~= all.skip(self.taken + 1));
            }
            self.taken += 1;
            Some(line)
        } else {
            None
        }
    }

    /// Everything written so far.
    pub fn shown(&self) -> (text: &str)
        ensures
            text@ == self@.shown,
    {
        self.shown.as_str()
    }

    /// How many lines of the script have not been read yet.
    pub fn pending(&self) -> (n: usize)
        ensures
            n == self@.pending.len(),
    {
        if self.taken <= self.replies.len() {
            self.replies.len() - self.taken
        } else {
            0
        }
    }
}

} // verus!
