//! Splitting and quoting POSIX words, by the `shell_words` crate.

use vstd::prelude::*;
use crate::text::{chars_of, strings, text_of, texts};

verus! {

/// What `shell_words::split` makes of a line: its words, or nothing when a
/// quote is left open.
pub uninterp spec fn shell_split(s: Seq<char>) -> Option<Seq<Seq<char>>>;

/// A character that a POSIX shell does not read as itself in a bare word.
pub open spec fn needs_quotes(c: char) -> bool {
    c == '\n' || c == '\'' || c == '|' || c == '&' || c == ';' || c == '<' || c == '>' || c == '('
        || c == ')' || c == '$' || c == '`' || c == '\\' || c == '"' || c == ' ' || c == '\t'
        || c == '*' || c == '?' || c == '[' || c == '#' || c == '~' || c == '=' || c == '%'
}

/// A text as it is written between single quotes: a single quote closes them,
/// stands behind a backslash and opens them again.
pub open spec fn between_quotes(s: Seq<char>) -> Seq<char>
    decreases s.len(),
{
    if s.len() == 0 {
        s
    } else {
        between_quotes(s.drop_last()) + if s.last() == '\'' {
            seq!['\'', '\\', '\'', '\'']
        } else {
            seq![s.last()]
        }
    }
}

/// A text as one word of a POSIX shell: in single quotes where it is empty or
/// holds a character that needs them, and as it is otherwise.
pub open spec fn shell_quote(s: Seq<char>) -> Seq<char> {
    if s.len() == 0 || exists|i: int| 0 <= i < s.len() && needs_quotes(#[trigger] s[i]) {
        seq!['\''] + between_quotes(s) + seq!['\'']
    } else {
        s
    }
}

/// The error of `shell_words::split`.
#[verifier::external_type_specification]
#[verifier::external_body]
pub struct ExParseError(shell_words::ParseError);

/// `shell_words::split` depends on the line alone: it returns the words, or an
/// error when a quote is left open.
pub assume_specification[ shell_words::split ](s: &str) -> (r: Result<
    Vec<String>,
    shell_words::ParseError,
>)
    ensures
        match r {
            Ok(v) => shell_split(s@) == Some(strings(v@)),
            Err(_) => shell_split(s@) is None,
        },
;

/// `shell_words::quote` writes a text as one word: in single quotes, each single
/// quote in it written `'\''`, where the text is empty or holds a special
/// character, and unchanged otherwise.
#[verifier::external_body]
fn quote_str(s: &str) -> (r: String)
    ensures
        r@ == shell_quote(s@),
{
    shell_words::quote(s).into_owned()
}

/// The words of a line as a POSIX shell separates them, quotes removed and
/// nothing expanded; `None` when a quote is left open.
pub fn split_words(s: &[char]) -> (r: Option<Vec<Vec<char>>>)
    ensures
        match r {
            Some(v) => shell_split(s@) == Some(texts(v@)),
            None => shell_split(s@) is None,
        },
{
    let line = text_of(s);
    match shell_words::split(line.as_str()) {
        Ok(words) => {
            let mut v: Vec<Vec<char>> = Vec::new();
            let mut i: usize = 0;
            while i < words.len()
                invariant
                    0 <= i <= words.len(),
                    v@.len() == i,
                    forall|j: int| 0 <= j < i ==> v@[j]@ == words@[j]@,
                decreases words.len() - i,
            {
                v.push(chars_of(words[i].as_str()));
                i += 1;
            }
            assert(texts(v@) =~= strings(words@));
            Some(v)
        },
        Err(_) => None,
    }
}

/// The text quoted so that a POSIX shell reads it back as one word.
pub fn quote_word(s: &[char]) -> (r: Vec<char>)
    ensures
        r@ == shell_quote(s@),
{
    let line = text_of(s);
    let quoted = quote_str(line.as_str());
    chars_of(quoted.as_str())
}

} // verus!
