use mini_shell::words::tokenize;
use mini_shell::{accept_line, respond, Command, EchoArgs, LineStep, Reply, ShellError};

fn echo(text: &str) -> Command {
    Command::Echo(EchoArgs { text: text.to_string() })
}

fn parsed_words(step: LineStep) -> Vec<String> {
    match step {
        LineStep::Parse(words) => words,
        _ => panic!("expected words to parse"),
    }
}

fn answer(step: LineStep) -> Reply {
    match step {
        LineStep::Answer(reply) => reply,
        _ => panic!("expected an immediate answer"),
    }
}

#[test]
fn echo_short_flag_prints_text_and_newline() {
    let reply = echo("hello").execute();
    assert_eq!(reply.output, "hello\n");
    assert!(!reply.quit);
}

#[test]
fn echo_empty_text_prints_only_newline() {
    let reply = echo("").execute();
    assert_eq!(reply.output, "\n");
    assert!(!reply.quit);
}

#[test]
fn ping_answers_pong() {
    let reply = Command::Ping.execute();
    assert_eq!(reply.output, "Pong\n");
    assert!(!reply.quit);
}

#[test]
fn quit_says_exiting_and_ends() {
    let reply = Command::Quit.execute();
    assert_eq!(reply.output, "Exiting ...\n");
    assert!(reply.quit);
}

#[test]
fn padded_ping_line_is_one_word() {
    let words = parsed_words(accept_line(Some("   ping \t\n")));
    assert_eq!(words, vec!["ping".to_string()]);
    let reply = respond(Ok(Command::Ping));
    assert_eq!(reply.output, "Pong\n");
}

#[test]
fn bare_ping_line_is_one_word() {
    let words = parsed_words(accept_line(Some("ping\n")));
    assert_eq!(words, vec!["ping".to_string()]);
}

#[test]
fn quit_line_is_one_word() {
    let words = parsed_words(accept_line(Some("quit\n")));
    assert_eq!(words, vec!["quit".to_string()]);
    let reply = respond(Ok(Command::Quit));
    assert_eq!(reply.output, "Exiting ...\n");
    assert!(reply.quit);
}

#[test]
fn empty_line_is_skipped() {
    assert!(matches!(accept_line(Some("")), LineStep::Skip));
    assert!(matches!(accept_line(Some("\n")), LineStep::Skip));
}

#[test]
fn whitespace_line_is_skipped() {
    assert!(matches!(accept_line(Some("  \t \r\n")), LineStep::Skip));
    assert!(matches!(accept_line(Some("\u{3000}\u{a0} ")), LineStep::Skip));
}

#[test]
fn end_of_input_finishes() {
    assert!(matches!(accept_line(None), LineStep::Finish));
}

#[test]
fn unbalanced_quotes_answer_invalid_quoting() {
    let reply = answer(accept_line(Some("echo -t \"unterminated\n")));
    assert!(reply.output.contains("Invalid quoting"));
    assert_eq!(reply.output, "error: Invalid quoting");
    assert!(!reply.quit);
}

#[test]
fn trailing_backslash_is_invalid_quoting() {
    assert!(matches!(tokenize("echo -t abc\\"), Err(ShellError::InvalidQuoting)));
}

#[test]
fn quoted_text_is_one_word() {
    let words = parsed_words(accept_line(Some("echo -t \"hello world\"\n")));
    assert_eq!(words, vec!["echo".to_string(), "-t".to_string(), "hello world".to_string()]);
}

#[test]
fn single_quotes_and_escapes_are_resolved() {
    let words = tokenize("echo --text 'a  b' c\\ d").ok().unwrap();
    assert_eq!(words, vec!["echo".to_string(), "--text".to_string(), "a  b".to_string(), "c d".to_string()]);
}

#[test]
fn empty_line_tokenizes_to_nothing() {
    let words = tokenize("").ok().unwrap();
    assert!(words.is_empty());
}

#[test]
fn usage_error_shows_its_text_and_goes_on() {
    let usage = "error: unrecognized subcommand 'foo'\n";
    let reply = respond(Err(ShellError::Usage(usage.to_string())));
    assert_eq!(reply.output, usage);
    assert!(!reply.quit);
}

#[test]
fn quoting_error_message() {
    assert_eq!(ShellError::InvalidQuoting.message(), "error: Invalid quoting");
}

#[test]
fn echo_ping_quit_session() {
    let words = parsed_words(accept_line(Some("echo -t \"hello world\"\n")));
    assert_eq!(words[2], "hello world");
    let first = respond(Ok(echo(&words[2])));
    let second = respond(Ok(Command::Ping));
    let third = respond(Ok(Command::Quit));
    let all = format!("{}{}{}", first.output, second.output, third.output);
    assert_eq!(all, "hello world\nPong\nExiting ...\n");
    assert_eq!(all.lines().count(), 3);
    assert!(!first.quit);
    assert!(!second.quit);
    assert!(third.quit);
}
