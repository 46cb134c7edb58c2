//! Redirections at the start of a word.

use vstd::prelude::*;
use vstd::slice::slice_subrange;
use crate::text::{
    digit, from_index, index_from, is_digit, is_name_text, is_str, name_text, next_index, rest,
    skip_white, starts, starts_str, white, white_end, white_start,
};

verus! {

/// A redirection at the start of a word.
#[derive(Debug, Clone, Copy)]
pub struct ShellRedirectionPrefix {
    /// Where its operator ends.
    pub operator_end: usize,
    /// Whether it gives the command its standard input.
    pub redirects_stdin: bool,
}

/// Where the run of digits at position `i` ends.
pub open spec fn digits_end(s: Seq<char>, i: int) -> int
    decreases s.len() - i,
{
    if i < 0 || i >= s.len() || !is_digit(s[i]) {
        i
    } else {
        digits_end(s, i + 1)
    }
}

/// The descriptor at the start of a redirection: its length, and whether it is
/// the standard input, which is also meant where no descriptor stands. Nothing
/// for a brace that names no descriptor.
pub open spec fn descriptor(s: Seq<char>) -> Option<(int, bool)> {
    if s.len() == 0 {
        None
    } else if is_digit(s[0]) {
        let end = digits_end(s, 0);
        Some((end, s.subrange(0, end) == "0"@))
    } else if s[0] == '*' {
        Some((1, false))
    } else if s[0] == '{' {
        let close = next_index(s, 0, '}');
        if close < s.len() && close > 1 && is_name_text(s.subrange(1, close)) {
            Some((close + 1, false))
        } else {
            None
        }
    } else {
        Some((0, true))
    }
}

/// The length of the redirection operator at the start of a text.
pub open spec fn operator_len(s: Seq<char>) -> Option<int> {
    if starts(s, "<<<"@) || starts(s, "<<-"@) || starts(s, "&>>"@) {
        Some(3)
    } else if starts(s, "<>"@) || starts(s, "<&"@) || starts(s, "<<"@) || starts(s, ">>"@) || starts(
        s,
        ">&"@,
    ) || starts(s, ">|"@) || starts(s, "&>"@) {
        Some(2)
    } else if starts(s, "<"@) || starts(s, ">"@) {
        Some(1)
    } else {
        None
    }
}

/// The redirection that a word starts with, behind white space: where its
/// operator ends, and whether it gives the command its standard input.
pub open spec fn redirection(s: Seq<char>) -> Option<(int, bool)> {
    let leading = white_end(s, 0);
    let input = rest(s, leading);
    match descriptor(input) {
        None => None,
        Some((index, stdin)) => {
            let operator = rest(input, index);
            match operator_len(operator) {
                None => None,
                Some(n) => Some(
                    (leading + index + n, stdin && starts(operator, "<"@) && !starts(operator, "<>"@)),
                ),
            }
        },
    }
}

/// The end of a text without its trailing white space.
pub open spec fn trimmed_end_len(s: Seq<char>) -> int {
    white_start(s, s.len() as int)
}

/// Whether a word starts with a redirection of the standard input.
pub open spec fn redirects_stdin(s: Seq<char>) -> bool {
    redirection(s) is Some && (redirection(s)->0).1
}

/// Whether a word is a redirection whose target is the next word.
pub open spec fn consumes_next(s: Seq<char>) -> bool {
    redirection(s) is Some && (redirection(s)->0).0 == trimmed_end_len(s)
}

/// The descriptor at the start of a redirection.
fn read_descriptor(s: &[char]) -> (r: Option<(usize, bool)>)
    ensures
        match r {
            Some((n, stdin)) => descriptor(s@) == Some((n as int, stdin)) && n <= s.len(),
            None => descriptor(s@) is None,
        },
{
    if s.len() == 0 {
        return None;
    }
    if digit(s[0]) {
        let mut i: usize = 0;
        while i < s.len() && digit(s[i])
            invariant
                0 <= i <= s.len(),
                digits_end(s@, 0) == digits_end(s@, i as int),
            decreases s.len() - i,
        {
            i += 1;
        }
        return Some((i, is_str(slice_subrange(s, 0, i), "0")));
    }
    if s[0] == '*' {
        return Some((1, false));
    }
    if s[0] == '{' {
        let close = index_from(s, 0, '}');
        if close < s.len() && close > 1 && name_text(slice_subrange(s, 1, close)) {
            return Some((close + 1, false));
        }
        return None;
    }
    Some((0, true))
}

/// The length of the redirection operator at the start of a text.
fn read_operator(s: &[char]) -> (r: Option<usize>)
    ensures
        match r {
            Some(n) => operator_len(s@) == Some(n as int) && n <= s.len(),
            None => operator_len(s@) is None,
        },
{
    proof {
        reveal_strlit("<<<");
        reveal_strlit("<<-");
        reveal_strlit("&>>");
        reveal_strlit("<>");
        reveal_strlit("<&");
        reveal_strlit("<<");
        reveal_strlit(">>");
        reveal_strlit(">&");
        reveal_strlit(">|");
        reveal_strlit("&>");
        reveal_strlit("<");
        reveal_strlit(">");
    }
    if starts_str(s, "<<<") || starts_str(s, "<<-") || starts_str(s, "&>>") {
        Some(3)
    } else if starts_str(s, "<>") || starts_str(s, "<&") || starts_str(s, "<<") || starts_str(
        s,
        ">>",
    ) || starts_str(s, ">&") || starts_str(s, ">|") || starts_str(s, "&>") {
        Some(2)
    } else if starts_str(s, "<") || starts_str(s, ">") {
        Some(1)
    } else {
        None
    }
}

/// The redirection that a word starts with: an optional descriptor, an operator
/// and, in the same word or the next, its target.
pub fn shell_redirection_prefix(s: &[char]) -> (r: Option<ShellRedirectionPrefix>)
    ensures
        match r {
            Some(p) => redirection(s@) == Some((p.operator_end as int, p.redirects_stdin))
                && p.operator_end <= s.len(),
            None => redirection(s@) is None,
        },
{
    let leading = skip_white(s, 0);
    let input = from_index(s, leading);
    match read_descriptor(input) {
        None => None,
        Some((index, stdin)) => {
            let operator = from_index(input, index);
            match read_operator(operator) {
                None => None,
                Some(n) => Some(
                    ShellRedirectionPrefix {
                        operator_end: leading + index + n,
                        redirects_stdin: stdin && starts_str(operator, "<") && !starts_str(
                            operator,
                            "<>",
                        ),
                    },
                ),
            }
        },
    }
}

/// Whether a word starts with a redirection of the standard input.
pub fn starts_with_shell_stdin_redirection(s: &[char]) -> (r: bool)
    ensures
        r == redirects_stdin(s@),
{
    match shell_redirection_prefix(s) {
        Some(p) => p.redirects_stdin,
        None => false,
    }
}

/// The end of a text without its trailing white space.
pub fn trim_end_len(s: &[char]) -> (r: usize)
    ensures
        r == trimmed_end_len(s@),
        r <= s.len(),
{
    let mut j: usize = s.len();
    while j > 0 && white(s[j - 1])
        invariant
            0 <= j <= s.len(),
            white_start(s@, s@.len() as int) == white_start(s@, j as int),
        decreases j,
    {
        j -= 1;
    }
    j
}

/// Whether a word is a redirection whose target is the next word.
pub fn shell_redirection_consumes_next_word(s: &[char]) -> (r: bool)
    ensures
        r == consumes_next(s@),
{
    match shell_redirection_prefix(s) {
        Some(p) => p.operator_end == trim_end_len(s),
        None => false,
    }
}

} // verus!
