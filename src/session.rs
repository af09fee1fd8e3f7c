//! One turn of the read-answer loop: what to do with a line that was read, and
//! what to answer once its words have been parsed.
use vstd::prelude::*;

use crate::command::{message_of, output_of, quits, Command, EchoArgs, Reply, ShellError};
use crate::words::{
    is_plain_word, is_white_space, lemma_trim_all_white_space, lemma_trim_padded, shlex_split_of,
    tokenize, trim_line, trim_spec,
};

verus! {

/// What the loop does with one read of the input.
#[derive(Debug)]
pub enum LineStep {
    /// The input has ended: the session ends, with nothing printed.
    Finish,
    /// The line holds nothing but whitespace: nothing is printed, read again.
    Skip,
    /// Print the reply; the session goes on unless it says to quit.
    Answer(Reply),
    /// Parse these words as a command, then answer with `respond`.
    Parse(Vec<String>),
}

/// Decides what to do with `line`, the text of one read, or `None` where the
/// input has ended. The line is trimmed first; a quoting error is answered at
/// once and does not end the session.
pub fn accept_line(line: Option<&str>) -> (r: LineStep)
    ensures
        match line {
            None => r is Finish,
            Some(l) => {
                let t = trim_spec(l@);
                if t.len() == 0 {
                    r is Skip
                } else {
                    match shlex_split_of(t) {
                        None => (r matches LineStep::Answer(a) && a.output@
                            == "error: Invalid quoting"@ && !a.quit),
                        Some(w) => (r matches LineStep::Parse(p) && p.deep_view() == w),
                    }
                }
            },
        },
        line matches Some(l) ==> ((forall|i: int| 0 <= i < l@.len() ==> is_white_space(
            #[trigger] l@[i],
        )) ==> r is Skip),
        line matches Some(l) ==> (is_plain_word(trim_spec(l@)) ==> (r matches LineStep::Parse(p)
            && p.deep_view() == seq![trim_spec(l@)])),
{
    match line {
        None => LineStep::Finish,
        Some(l) => {
            let t = trim_line(l);
            proof {
                if forall|i: int| 0 <= i < l@.len() ==> is_white_space(#[trigger] l@[i]) {
                    lemma_trim_all_white_space(l@);
                }
            }
            if t.is_empty() {
                LineStep::Skip
            } else {
                match tokenize(t) {
                    Ok(words) => LineStep::Parse(words),
                    Err(e) => LineStep::Answer(Reply { output: e.message(), quit: false }),
                }
            }
        },
    }
}

/// The answer to a parsed line: the command's own reply, or the error's text
/// with the session going on.
pub fn respond(parsed: Result<Command, ShellError>) -> (r: Reply)
    ensures
        parsed matches Ok(c) ==> r.output@ == output_of(c) && r.quit == quits(c),
        parsed matches Err(e) ==> r.output@ == message_of(e) && !r.quit,
{
    match parsed {
        Ok(c) => c.execute(),
        Err(e) => Reply { output: e.message(), quit: false },
    }
}

/// `ping`, alone on a line or padded with whitespace, trims to the single plain
/// word `ping` (which `accept_line` hands on as the one word to parse), and the
/// `Ping` command answers exactly `Pong` and a newline, without quitting.
pub proof fn lemma_padded_ping(pre: Seq<char>, post: Seq<char>)
    requires
        forall|i: int| 0 <= i < pre.len() ==> is_white_space(#[trigger] pre[i]),
        forall|i: int| 0 <= i < post.len() ==> is_white_space(#[trigger] post[i]),
    ensures
        trim_spec(pre + "ping"@ + post) == "ping"@,
        is_plain_word("ping"@),
        output_of(Command::Ping) == "Pong\n"@,
        !quits(Command::Ping),
{
    reveal_strlit("ping");
    lemma_trim_padded(pre, "ping"@, post);
}

/// A session of `echo` with some text, then `ping`, then `quit` prints exactly
/// three lines, the text, `Pong` and `Exiting ...`, and only the last command
/// ends it.
pub proof fn lemma_echo_ping_quit(args: EchoArgs)
    ensures
        ({
            let echo = Command::Echo(args);
            output_of(echo) + output_of(Command::Ping) + output_of(Command::Quit) == args.text@
                + "\n"@ + "Pong\n"@ + "Exiting ...\n"@
        }),
        !quits(Command::Echo(args)),
        !quits(Command::Ping),
        quits(Command::Quit),
{
}

} // verus!
