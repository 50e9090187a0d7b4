//! The prompter: what it is configured with, and what it makes of a reply.

use vstd::prelude::*;
use vstd::string::*;
use crate::dialogue::{Reply, Step};
use crate::parse::Parse;
use crate::settings::Settings;
use crate::text::trim;
use crate::wording::{bounds_text, menu_text, question_text, verdict_of};

verus! {

/// Handler for getting input from the user of a command-line program.
#[derive(Debug)]
pub struct Input {
    user_prompt: String,
    user_quit: Option<String>,
    user_errmsg: Option<String>,
}

impl View for Input {
    type V = Settings;

    closed spec fn view(&self) -> Settings {
        Settings {
            prompt: self.user_prompt@,
            quit: match self.user_quit {
                Some(q) => Some(q@),
                None => None,
            },
            errmsg: match self.user_errmsg {
                Some(m) => Some(m@),
                None => None,
            },
        }
    }
}

impl Clone for Input {
    /// A prompter configured as this one, and independent of it.
    fn clone(&self) -> (r: Input)
        ensures
            r@ == self@,
    {
        Input {
            user_prompt: self.user_prompt.clone(),
            user_quit: match &self.user_quit {
                Some(q) => Some(q.clone()),
                None => None,
            },
            user_errmsg: match &self.user_errmsg {
                Some(m) => Some(m.clone()),
                None => None,
            },
        }
    }
}

impl Default for Input {
    /// The prompter that `new` gives.
    fn default() -> (r: Input)
        ensures
            r@ == Settings::fresh(),
    {
        Input::new()
    }
}

impl Input {
    /// Creates a prompter with an empty prompt, no quit phrase and no error
    /// message.
    pub fn new() -> (r: Input)
        ensures
            r@ == Settings::fresh(),
    {
        Input { user_prompt: String::new(), user_quit: None, user_errmsg: None }
    }

    /// Sets the prompt that will be displayed to the user.
    pub fn prompt(&mut self, p: &str) -> (r: &mut Input)
        ensures
            r@ == old(self)@.with_prompt(p@),
            *final(self) == *final(r),
    {
        self.user_prompt = p.to_owned();
        self
    }

    /// Sets a phrase that, when entered, will end the program early.
    pub fn quit(self, q: &str) -> (r: Input)
        ensures
            r@ == self@.with_quit(q@),
    {
        let mut r = self;
        r.user_quit = Some(q.to_owned());
        r
    }

    /// Sets an error message that will be displayed to the user if they
    /// enter something invalid.
    pub fn err_msg(self, m: &str) -> (r: Input)
        ensures
            r@ == self@.with_errmsg(m@),
    {
        let mut r = self;
        r.user_errmsg = Some(m.to_owned());
        r
    }

    /// Whether `message`, once trimmed, is the quit phrase: the reply on
    /// which the program is to end with success, whatever was asked for.
    pub fn check_quit(&self, message: &str) -> (b: bool)
        ensures
            b == self@.quits(message@),
    {
        match &self.user_quit {
            Some(trigger) => *trigger == trim(message).to_owned(),
            None => false,
        }
    }

    /// Makes of the line `line` what it amounts to where a `T` is asked
    /// for: the quit phrase, a value, or neither. Whitespace at either end
    /// of the line, its terminator included, counts for nothing.
    pub fn get_data<T: Parse>(&self, line: &str) -> (r: Reply<T>)
        ensures
            r.deep_view() == self@.reply::<T>(line@),
    {
        self.judge(line, T::parse(trim(line)))
    }

    /// Makes of the line `line` what it amounts to, given in `parsed` what
    /// reading its trimmed text as a value gave: for a value of a type that
    /// is read elsewhere. The quit phrase comes first.
    pub fn judge<T>(&self, line: &str, parsed: Option<T>) -> (r: Reply<T>)
        ensures
            r == self@.judge(line@, parsed),
    {
        if self.check_quit(line) {
            Reply::Quit
        } else {
            match parsed {
                Some(v) => Reply::Valid(v),
                None => Reply::Invalid,
            }
        }
    }

    /// The text to show after `response`: the complaint where the reply
    /// could not be read, nothing otherwise.
    pub fn check_error<T>(&self, response: &Reply<T>) -> (notice: String)
        ensures
            notice@ == if response is Invalid {
                self@.complaint()
            } else {
                Seq::empty()
            },
    {
        match (response, &self.user_errmsg) {
            (Reply::Invalid, Some(msg)) => {
                let mut notice = msg.clone();
                notice.append("\n");
                notice
            },
            _ => String::new(),
        }
    }

    /// The prompt, as it is shown before each read.
    pub fn prompt_text(&self) -> (text: &str)
        ensures
            text@ == self@.prompt,
    {
        self.user_prompt.as_str()
    }

    /// The quit phrase, if one is set.
    pub fn quit_phrase(&self) -> (text: Option<&str>)
        ensures
            text.deep_view() == self@.quit,
    {
        match &self.user_quit {
            Some(q) => Some(q.as_str()),
            None => None,
        }
    }

    /// The error message, if one is set.
    pub fn error_message(&self) -> (text: Option<&str>)
        ensures
            text.deep_view() == self@.errmsg,
    {
        match &self.user_errmsg {
            Some(m) => Some(m.as_str()),
            None => None,
        }
    }

    /// One turn of waiting for a `T`: what to do with the reply `line`.
    pub fn wait_step<T: Parse>(&self, line: &str) -> (r: Step<T>)
        ensures
            r.deep_view() == self@.wait_step::<T>(line@),
    {
        self.settle(self.get_data::<T>(line))
    }

    /// One turn of waiting for a value, given what the reply amounts to: a
    /// value ends the wait, the quit phrase ends the program, and anything
    /// else has the error message shown, if one is set, and the prompt
    /// again.
    pub fn settle<T>(&self, response: Reply<T>) -> (r: Step<T>)
        ensures
            r.as_move() == self@.settle(response),
    {
        let mut text = self.check_error(&response);
        match response {
            Reply::Quit => Step::Quit,
            Reply::Valid(v) => Step::Done(v),
            Reply::Invalid => {
                text.append(self.user_prompt.as_str());
                Step::Ask(text)
            },
        }
    }

    /// One turn of the yes/no question `p`: what to do with the reply
    /// `line`.
    pub fn confirm_step(&self, p: &str, line: &str) -> (r: Step<bool>)
        ensures
            r.deep_view() == self@.confirm_step(p@, line@),
    {
        match self.get_data::<char>(line) {
            Reply::Quit => Step::Quit,
            Reply::Valid(c) => match verdict_of(c) {
                Some(b) => Step::Done(b),
                None => Step::Ask(question_text(p)),
            },
            Reply::Invalid => Step::Ask(question_text(p)),
        }
    }

    /// One turn of choosing among `opts` under the prompt `p`: what to do
    /// with the reply `line`. The place of the option picked is counted
    /// from 0.
    pub fn wait_opts_step(&self, opts: &[String], p: &str, line: &str) -> (r: Step<usize>)
        ensures
            r.deep_view() == self@.wait_opts_step(opts.deep_view(), p@, line@),
    {
        let response = self.get_data::<usize>(line);
        let mut text = self.check_error(&response);
        match response {
            Reply::Quit => Step::Quit,
            Reply::Valid(n) => if 1 <= n && n <= opts.len() {
                Step::Done(n - 1)
            } else {
                let mut text = bounds_text(opts.len());
                text.append(menu_text(opts).as_str());
                text.append(p);
                Step::Ask(text)
            },
            Reply::Invalid => {
                text.append(p);
                Step::Ask(text)
            },
        }
    }
}

} // verus!
