//! Getting input from the user of a command-line program, with the terminal
//! left to the caller.
//!
//! A prompter, [`Input`], is configured with a prompt, an optional quit
//! phrase and an optional error message. It decides what a line typed by the
//! user amounts to and what is to be shown next; it never touches the
//! terminal itself. A program either feeds it the lines one by one, through
//! the `*_step` methods, or runs a whole question on a [`Console`], a
//! terminal whose input is scripted.

pub mod console;
pub mod dialogue;
pub mod input;
pub mod laws;
pub mod number;
pub mod parse;
pub mod session;
pub mod settings;
pub mod text;
pub mod wording;

pub use console::Console;
pub use dialogue::{Outcome, Reply, Step};
pub use input::Input;
pub use parse::Parse;
