//! A small interactive command shell: each input line is trimmed, split into
//! words with shell-style quoting, parsed into a [`Command`] and answered with
//! a [`Reply`] that says what to print and whether the session ends.
use vstd::prelude::*;

pub mod command;
pub mod session;
pub mod words;

pub use command::{Command, EchoArgs, Reply, ShellError};
pub use session::{accept_line, respond, LineStep};

