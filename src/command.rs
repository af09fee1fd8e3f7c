//! The commands of the shell and what each of them answers.
use vstd::prelude::*;

verus! {

/// What the `echo` command takes: the text to be echoed.
#[derive(Debug)]
pub struct EchoArgs {
    pub text: String,
}

/// A parsed input line.
#[derive(Debug)]
pub enum Command {
    /// Print the text, then a newline.
    Echo(EchoArgs),
    /// Print `Pong`.
    Ping,
    /// Print `Exiting ...` and end the session.
    Quit,
}

/// What the shell answers to one line: the text to print, and whether the
/// session ends after it.
#[derive(Debug)]
pub struct Reply {
    pub output: String,
    pub quit: bool,
}

/// Why a line could not be turned into a command.
#[derive(Debug)]
pub enum ShellError {
    /// A quote is left open, or the line ends right after a backslash.
    InvalidQuoting,
    /// The words do not fit the command grammar; the usage text to show.
    Usage(String),
}

/// The text that `Command::execute` prints for `c`.
pub open spec fn output_of(c: Command) -> Seq<char> {
    match c {
        Command::Echo(a) => a.text@ + "\n"@,
        Command::Ping => "Pong\n"@,
        Command::Quit => "Exiting ...\n"@,
    }
}

/// Whether `c` ends the session.
pub open spec fn quits(c: Command) -> bool {
    c is Quit
}

/// The text shown for an error `e`.
pub open spec fn message_of(e: ShellError) -> Seq<char> {
    match e {
        ShellError::InvalidQuoting => "error: Invalid quoting"@,
        ShellError::Usage(m) => m@,
    }
}

impl Command {
    /// The reply to a successfully parsed command.
    pub fn execute(&self) -> (r: Reply)
        ensures
            r.output@ == output_of(*self),
            r.quit == quits(*self),
            self matches Command::Echo(a) ==> r.output@ == a.text@ + "\n"@ && !r.quit,
            self is Ping ==> r.output@ == "Pong\n"@ && !r.quit,
            self is Quit ==> r.output@ == "Exiting ...\n"@ && r.quit,
    {
        match self {
            Command::Echo(a) => Reply { output: a.text.clone().concat("\n"), quit: false },
            Command::Ping => Reply { output: String::from_str("Pong\n"), quit: false },
            Command::Quit => Reply { output: String::from_str("Exiting ...\n"), quit: true },
        }
    }
}

impl ShellError {
    /// The text shown to the user for this error.
    pub fn message(&self) -> (r: String)
        ensures
            r@ == message_of(*self),
    {
        match self {
            ShellError::InvalidQuoting => String::from_str("error: Invalid quoting"),
            ShellError::Usage(m) => m.clone(),
        }
    }
}

} // verus!
