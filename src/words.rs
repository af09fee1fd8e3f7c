//! Trimming and shell-style splitting of an input line.
use vstd::prelude::*;

use crate::command::ShellError;

verus! {

/// Unicode's `White_Space` property, as used by `str::trim`.
pub open spec fn is_white_space(c: char) -> bool {
    ('\u{9}' <= c && c <= '\u{d}') || c == ' ' || c == '\u{85}' || c == '\u{a0}' || c == '\u{1680}'
        || ('\u{2000}' <= c && c <= '\u{200a}') || c == '\u{2028}' || c == '\u{2029}'
        || c == '\u{202f}' || c == '\u{205f}' || c == '\u{3000}'
}

/// `s` without its leading whitespace.
pub open spec fn trim_start_spec(s: Seq<char>) -> Seq<char>
    decreases s.len(),
{
    if s.len() > 0 && is_white_space(s[0]) {
        trim_start_spec(s.drop_first())
    } else {
        s
    }
}

/// `s` without its trailing whitespace.
pub open spec fn trim_end_spec(s: Seq<char>) -> Seq<char>
    decreases s.len(),
{
    if s.len() > 0 && is_white_space(s.last()) {
        trim_end_spec(s.drop_last())
    } else {
        s
    }
}

/// `s` without whitespace at either end.
pub open spec fn trim_spec(s: Seq<char>) -> Seq<char> {
    trim_end_spec(trim_start_spec(s))
}

/// The words that shell-style splitting makes of `s`, or `None` where its
/// quoting is invalid.
pub uninterp spec fn shlex_split_of(s: Seq<char>) -> Option<Seq<Seq<char>>>;

/// A character that neither separates, quotes, escapes nor starts a comment.
pub open spec fn is_plain_word_char(c: char) -> bool {
    c != ' ' && c != '\t' && c != '\n' && c != '"' && c != '\'' && c != '\\' && c != '#'
}

/// A non-empty run of plain characters: a single word as it stands.
pub open spec fn is_plain_word(s: Seq<char>) -> bool {
    s.len() > 0 && forall|i: int| 0 <= i < s.len() ==> is_plain_word_char(#[trigger] s[i])
}

/// Relies on `str::trim`: leading and trailing Unicode whitespace removed.
#[verifier::external_body]
pub(crate) fn trim_line(s: &str) -> (r: &str)
    ensures
        r@ == trim_spec(s@),
{
    s.trim()
}

/// Relies on `shlex::split`: the words of `s` under POSIX-shell quoting, `None`
/// where a quote is left open or the input ends right after a backslash. A
/// non-empty run of plain characters is one word, itself.
#[verifier::external_body]
fn shlex_split(s: &str) -> (r: Option<Vec<String>>)
    ensures
        r.deep_view() == shlex_split_of(s@),
        is_plain_word(s@) ==> r.deep_view() == Some(seq![s@]),
{
    shlex::split(s)
}

/// Splits `line` into words with shell-style quoting; an invalid quoting is
/// an error.
pub fn tokenize(line: &str) -> (r: Result<Vec<String>, ShellError>)
    ensures
        shlex_split_of(line@) is None <==> r == Err::<Vec<String>, ShellError>(ShellError::InvalidQuoting),
        shlex_split_of(line@) is Some <==> r is Ok,
        r matches Ok(w) ==> shlex_split_of(line@) == Some(w.deep_view()),
        is_plain_word(line@) ==> (r matches Ok(w) && w.deep_view() == seq![line@]),
{
    match shlex_split(line) {
        Some(w) => Ok(w),
        None => Err(ShellError::InvalidQuoting),
    }
}

/// Whitespace alone trims to nothing.
pub proof fn lemma_trim_all_white_space(s: Seq<char>)
    requires
        forall|i: int| 0 <= i < s.len() ==> is_white_space(#[trigger] s[i]),
    ensures
        trim_start_spec(s).len() == 0,
        trim_spec(s).len() == 0,
    decreases s.len(),
{
    reveal_with_fuel(trim_end_spec, 1);
    if s.len() > 0 {
        assert forall|i: int| 0 <= i < s.drop_first().len() implies is_white_space(
            #[trigger] s.drop_first()[i],
        ) by {
            assert(s.drop_first()[i] == s[i + 1]);
        }
        lemma_trim_all_white_space(s.drop_first());
    }
}

/// Leading whitespace is dropped up to the first other character.
pub proof fn lemma_trim_start_skips(pre: Seq<char>, rest: Seq<char>)
    requires
        forall|i: int| 0 <= i < pre.len() ==> is_white_space(#[trigger] pre[i]),
        rest.len() > 0,
        !is_white_space(rest[0]),
    ensures
        trim_start_spec(pre + rest) == rest,
    decreases pre.len(),
{
    if pre.len() == 0 {
        assert(pre + rest =~= rest);
    } else {
        assert((pre + rest).drop_first() =~= pre.drop_first() + rest);
        assert forall|i: int| 0 <= i < pre.drop_first().len() implies is_white_space(
            #[trigger] pre.drop_first()[i],
        ) by {
            assert(pre.drop_first()[i] == pre[i + 1]);
        }
        lemma_trim_start_skips(pre.drop_first(), rest);
    }
}

/// Trailing whitespace is dropped back to the last other character.
pub proof fn lemma_trim_end_skips(rest: Seq<char>, post: Seq<char>)
    requires
        forall|i: int| 0 <= i < post.len() ==> is_white_space(#[trigger] post[i]),
        rest.len() > 0,
        !is_white_space(rest.last()),
    ensures
        trim_end_spec(rest + post) == rest,
    decreases post.len(),
{
    if post.len() == 0 {
        assert(rest + post =~= rest);
    } else {
        assert((rest + post).drop_last() =~= rest + post.drop_last());
        assert forall|i: int| 0 <= i < post.drop_last().len() implies is_white_space(
            #[trigger] post.drop_last()[i],
        ) by {
            assert(post.drop_last()[i] == post[i]);
        }
        lemma_trim_end_skips(rest, post.drop_last());
    }
}

/// A word padded with whitespace on both sides trims to the word.
pub proof fn lemma_trim_padded(pre: Seq<char>, word: Seq<char>, post: Seq<char>)
    requires
        forall|i: int| 0 <= i < pre.len() ==> is_white_space(#[trigger] pre[i]),
        forall|i: int| 0 <= i < post.len() ==> is_white_space(#[trigger] post[i]),
        word.len() > 0,
        !is_white_space(word[0]),
        !is_white_space(word.last()),
    ensures
        trim_spec(pre + word + post) == word,
{
    assert(pre + word + post =~= pre + (word + post));
    lemma_trim_start_skips(pre, word + post);
    lemma_trim_end_skips(word, post);
}

} // verus!
