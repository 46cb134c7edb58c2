//! PowerShell call expressions: `& ( ... ) arguments`.

use vstd::prelude::*;
use vstd::slice::slice_subrange;
use crate::git::command::MAX_GIT_SEMANTIC_BYTES;
use crate::git::expansion::MAX_GIT_SEMANTIC_TOKENS;
use crate::shell::decode::{escape_powershell, powershell_escape};
use crate::shell::token::{at, get, onward};
use crate::text::{
    alnum, basename, byte_len, contains_text, copy_of, from_index, has_str, is_alnum, is_str,
    is_white, last_component, longer_than, lower_text, lowered, push_all, rest, skip_white,
    trim_start, trimmed_start, white, white_end,
};

verus! {

/// How deep the parentheses of an executable expression may nest.
pub const MAX_EXPRESSION_DEPTH: usize = 64;

/// Where the operand of a leading call operator starts: `&` with white space
/// behind it.
pub open spec fn call_operand(s: Seq<char>) -> Option<int> {
    let t = white_end(s, 0);
    if at(s, t) == Some('&') && t + 1 < s.len() && is_white(s[t + 1]) {
        Some(white_end(s, t + 1))
    } else {
        None
    }
}

/// Where the operand of a leading call operator starts.
pub fn find_call_operand(s: &[char]) -> (r: Option<usize>)
    ensures
        match r {
            Some(i) => call_operand(s@) == Some(i as int) && i <= s.len(),
            None => call_operand(s@) is None,
        },
{
    let t = skip_white(s, 0);
    if s.len() - t >= 2 && s[t] == '&' && white(s[t + 1]) {
        Some(skip_white(s, t + 1))
    } else {
        None
    }
}

/// A call whose program is computed by an expression in parentheses.
pub open spec fn is_call_expression(s: Seq<char>) -> bool {
    match call_operand(s) {
        None => false,
        Some(i) => at(s, i) == Some('(') || ((at(s, i) == Some('$') || at(s, i) == Some('@')) && at(
            s,
            i + 1,
        ) == Some('(')),
    }
}

/// Whether the program of a call is computed by an expression in parentheses.
pub fn powershell_call_expression(s: &[char]) -> (r: bool)
    ensures
        r == is_call_expression(s@),
{
    match find_call_operand(s) {
        None => false,
        Some(i) => {
            let c = get(s, i);
            c == Some('(') || ((c == Some('$') || c == Some('@')) && get(s, i + 1) == Some('('))
        },
    }
}

/// A call whose program is not a literal.
pub open spec fn is_dynamic_call(s: Seq<char>) -> bool {
    match call_operand(s) {
        None => false,
        Some(i) => at(s, i) == Some('$') || at(s, i) == Some('(') || (at(s, i) == Some('@') && at(
            s,
            i + 1,
        ) == Some('(')),
    }
}

/// Whether the program of a call is not a literal.
pub fn powershell_dynamic_call_operator(s: &[char]) -> (r: bool)
    ensures
        r == is_dynamic_call(s@),
{
    match find_call_operand(s) {
        None => false,
        Some(i) => {
            let c = get(s, i);
            c == Some('$') || c == Some('(') || (c == Some('@') && get(s, i + 1) == Some('('))
        },
    }
}

/// A statement that only evaluates an expression and runs nothing: it starts
/// with a string, a variable or a list, and holds no subexpression.
pub open spec fn is_inert_expression(s: Seq<char>) -> bool {
    let t = trimmed_start(s);
    t.len() > 0 && (t[0] == '"' || t[0] == '\'' || t[0] == '$' || t[0] == '@') && !contains_text(
        t,
        "$("@,
    ) && !contains_text(t, "@("@)
}

/// Whether a statement only evaluates an expression and runs nothing.
pub fn powershell_expression_statement_without_subexpression(s: &[char]) -> (r: bool)
    ensures
        r == is_inert_expression(s@),
{
    let t = trim_start(s);
    t.len() > 0 && (t[0] == '"' || t[0] == '\'' || t[0] == '$' || t[0] == '@') && !has_str(t, "$(")
        && !has_str(t, "@(")
}

/// The position behind the bracket that closes the group read at `i`, `depth`
/// brackets deep, with quotes and escapes as open there; -1 when it is not
/// closed or a bracket closes nothing.
pub open spec fn enclosed_end(
    s: Seq<char>,
    i: int,
    open: char,
    close: char,
    depth: int,
    single: bool,
    double: bool,
    escaped: bool,
) -> int
    decreases s.len() - i,
{
    if i < 0 || i >= s.len() {
        -1
    } else {
        let c = s[i];
        if escaped {
            enclosed_end(s, i + 1, open, close, depth, single, double, false)
        } else if c == '`' && !single {
            enclosed_end(s, i + 1, open, close, depth, single, double, true)
        } else if c == '\'' && !double {
            enclosed_end(s, i + 1, open, close, depth, !single, double, false)
        } else if c == '"' && !single {
            enclosed_end(s, i + 1, open, close, depth, single, !double, false)
        } else if single || double {
            enclosed_end(s, i + 1, open, close, depth, single, double, false)
        } else if c == open {
            enclosed_end(s, i + 1, open, close, depth + 1, single, double, false)
        } else if c == close {
            if depth <= 0 {
                -1
            } else if depth == 1 {
                i + 1
            } else {
                enclosed_end(s, i + 1, open, close, depth - 1, single, double, false)
            }
        } else {
            enclosed_end(s, i + 1, open, close, depth, single, double, false)
        }
    }
}

/// The position behind the bracket that closes the group that starts at `start`.
fn find_enclosed_end(s: &[char], start: usize, open: char, close: char) -> (r: Option<usize>)
    requires
        start <= s.len(),
        open != close,
    ensures
        match r {
            Some(e) => enclosed_end(s@, start as int, open, close, 0, false, false, false) == e
                && start < e <= s.len(),
            None => enclosed_end(s@, start as int, open, close, 0, false, false, false) == -1,
        },
{
    let mut i: usize = start;
    let mut depth: usize = 0;
    let mut single = false;
    let mut double = false;
    let mut escaped = false;
    while i < s.len()
        invariant
            start <= i <= s.len(),
            depth <= i - start,
            enclosed_end(s@, start as int, open, close, 0, false, false, false) == enclosed_end(
                s@,
                i as int,
                open,
                close,
                depth as int,
                single,
                double,
                escaped,
            ),
        decreases s.len() - i,
    {
        let c = s[i];
        if escaped {
            escaped = false;
        } else if c == '`' && !single {
            escaped = true;
        } else if c == '\'' && !double {
            single = !single;
        } else if c == '"' && !single {
            double = !double;
        } else if single || double {
        } else if c == open {
            depth += 1;
        } else if c == close {
            if depth == 0 {
                return None;
            }
            if depth == 1 {
                return Some(i + 1);
            }
            depth -= 1;
        }
        i += 1;
    }
    None
}

/// Where the text behind index brackets (`[1]`) starts, from `i` on; -1 when a
/// bracket is not closed.
pub open spec fn behind_indexes(s: Seq<char>, i: int) -> int
    decreases s.len() - i,
{
    if i < 0 || i >= s.len() || s[i] != '[' {
        i
    } else {
        let e = enclosed_end(s, i, '[', ']', 0, false, false, false);
        if e <= i || e > s.len() {
            -1
        } else {
            behind_indexes(s, onward(i, white_end(s, e), s.len() as int))
        }
    }
}

/// Where the text behind index brackets starts, from `start` on.
pub fn powershell_postfix_expression_tail(s: &[char], start: usize) -> (r: Option<usize>)
    requires
        start <= s.len(),
    ensures
        match r {
            Some(i) => behind_indexes(s@, start as int) == i && i <= s.len(),
            None => behind_indexes(s@, start as int) == -1,
        },
{
    let mut i: usize = start;
    while i < s.len() && s[i] == '['
        invariant
            start <= i <= s.len(),
            behind_indexes(s@, start as int) == behind_indexes(s@, i as int),
        decreases s.len() - i,
    {
        match find_enclosed_end(s, i, '[', ']') {
            None => {
                return None;
            },
            Some(e) => {
                i = skip_white(s, e);
            },
        }
    }
    Some(i)
}

/// The parts of a call expression: where its expression starts and ends, and
/// where its arguments start.
pub open spec fn call_parts(s: Seq<char>) -> Option<(int, int, int)> {
    match call_operand(s) {
        None => None,
        Some(i) => if !is_call_expression(s) {
            None
        } else {
            let open = if at(s, i) == Some('(') {
                i
            } else {
                i + 1
            };
            let e = enclosed_end(s, open, '(', ')', 0, false, false, false);
            if e <= open || e > s.len() {
                None
            } else {
                let t = behind_indexes(s, white_end(s, e));
                if t < 0 {
                    None
                } else {
                    Some((i, e, t))
                }
            }
        },
    }
}

/// The parts of a call expression.
pub fn powershell_call_expression_parts(s: &[char]) -> (r: Option<(usize, usize, usize)>)
    ensures
        match r {
            Some(p) => call_parts(s@) == Some((p.0 as int, p.1 as int, p.2 as int)) && p.0 < p.1
                <= s.len() && p.2 <= s.len(),
            None => call_parts(s@) is None,
        },
{
    if !powershell_call_expression(s) {
        return None;
    }
    match find_call_operand(s) {
        None => None,
        Some(i) => {
            let open = if s[i] == '(' {
                i
            } else {
                i + 1
            };
            match find_enclosed_end(s, open, '(', ')') {
                None => None,
                Some(e) => match powershell_postfix_expression_tail(s, skip_white(s, e)) {
                    None => None,
                    Some(t) => Some((i, e, t)),
                },
            }
        },
    }
}

/// The value of the single-quoted string read at `i`, behind `out`, and the
/// position behind it.
pub open spec fn single_quoted(s: Seq<char>, i: int, out: Seq<char>) -> Option<(Seq<char>, int)>
    decreases s.len() - i,
{
    if i < 0 || i >= s.len() {
        None
    } else if s[i] == '\'' {
        if at(s, i + 1) == Some('\'') {
            single_quoted(s, i + 2, out.push('\''))
        } else {
            Some((out, i + 1))
        }
    } else {
        single_quoted(s, i + 1, out.push(s[i]))
    }
}

/// The value of the double-quoted string read at `i`, behind `out`, and the
/// position behind it; nothing when it holds a variable.
pub open spec fn double_quoted(s: Seq<char>, i: int, out: Seq<char>) -> Option<(Seq<char>, int)>
    decreases s.len() - i,
{
    if i < 0 || i >= s.len() {
        None
    } else if s[i] == '"' {
        Some((out, i + 1))
    } else if s[i] == '$' {
        None
    } else if s[i] == '`' {
        match at(s, i + 1) {
            None => None,
            Some(c) => if c == '\n' {
                double_quoted(s, i + 2, out)
            } else if c == '\r' && at(s, i + 2) == Some('\n') {
                double_quoted(s, i + 3, out)
            } else {
                double_quoted(s, i + 2, out.push(powershell_escape(c)))
            },
        }
    } else {
        double_quoted(s, i + 1, out.push(s[i]))
    }
}

/// The value of the operand read at `i`, the position behind it and the number
/// of operands read: a string, or a sum in parentheses. `depth` parentheses are
/// open and `terms` operands have been read.
pub open spec fn operand(s: Seq<char>, i: int, depth: int, terms: int) -> Option<(Seq<char>, int, int)>
    decreases MAX_GIT_SEMANTIC_TOKENS + 1 - terms, 0int,
{
    let j = white_end(s, i);
    if terms < 0 || terms >= MAX_GIT_SEMANTIC_TOKENS || depth < 0 {
        None
    } else if at(s, j) == Some('\'') {
        match single_quoted(s, j + 1, Seq::empty()) {
            None => None,
            Some((v, k)) => Some((v, k, terms + 1)),
        }
    } else if at(s, j) == Some('"') {
        match double_quoted(s, j + 1, Seq::empty()) {
            None => None,
            Some((v, k)) => Some((v, k, terms + 1)),
        }
    } else if at(s, j) == Some('(') {
        match sum(s, j + 1, depth + 1, terms + 1) {
            None => None,
            Some((v, k, t)) => {
                let e = white_end(s, k);
                if at(s, e) == Some(')') {
                    Some((v, e + 1, t))
                } else {
                    None
                }
            },
        }
    } else {
        None
    }
}

/// The value of the operands added behind `value`, from position `i` on.
pub open spec fn sum_rest(s: Seq<char>, i: int, depth: int, terms: int, value: Seq<char>) -> Option<
    (Seq<char>, int, int),
>
    decreases MAX_GIT_SEMANTIC_TOKENS + 1 - terms, 1int,
{
    let j = white_end(s, i);
    if terms < 0 || terms > MAX_GIT_SEMANTIC_TOKENS {
        None
    } else if at(s, j) != Some('+') {
        Some((value, j, terms))
    } else {
        match operand(s, j + 1, depth, terms) {
            None => None,
            Some((v, k, t)) => if t <= terms || t > MAX_GIT_SEMANTIC_TOKENS || byte_len(value)
                + byte_len(v) > MAX_GIT_SEMANTIC_BYTES {
                None
            } else {
                sum_rest(s, k, depth, t, value + v)
            },
        }
    }
}

/// The value of the sum of strings read at `i`, the position behind it and the
/// number of operands read.
pub open spec fn sum(s: Seq<char>, i: int, depth: int, terms: int) -> Option<(Seq<char>, int, int)>
    decreases MAX_GIT_SEMANTIC_TOKENS + 1 - terms, 2int,
{
    if terms < 0 || terms > MAX_GIT_SEMANTIC_TOKENS || depth > MAX_EXPRESSION_DEPTH {
        None
    } else {
        match operand(s, i, depth, terms) {
            None => None,
            Some((v, k, t)) => if t <= terms || t > MAX_GIT_SEMANTIC_TOKENS {
                None
            } else {
                sum_rest(s, k, depth, t, v)
            },
        }
    }
}

/// The string that an expression of literals computes.
pub open spec fn static_value(s: Seq<char>) -> Option<Seq<char>> {
    if byte_len(s) > MAX_GIT_SEMANTIC_BYTES {
        None
    } else {
        match sum(s, white_end(s, 0), 0, 0) {
            None => None,
            Some((v, k, _t)) => if white_end(s, k) == s.len() {
                Some(v)
            } else {
                None
            },
        }
    }
}

/// The value of the single-quoted string whose text starts at `start`.
fn parse_single_quoted(s: &[char], start: usize) -> (r: Option<(Vec<char>, usize)>)
    requires
        start <= s.len(),
    ensures
        match r {
            Some(p) => single_quoted(s@, start as int, Seq::empty()) == Some((p.0@, p.1 as int))
                && start < p.1 <= s.len(),
            None => single_quoted(s@, start as int, Seq::empty()) is None,
        },
{
    let mut out: Vec<char> = Vec::new();
    let mut i: usize = start;
    assert(out@ =~= Seq::<char>::empty());
    while i < s.len()
        invariant
            start <= i <= s.len(),
            single_quoted(s@, start as int, Seq::empty()) == single_quoted(s@, i as int, out@),
        decreases s.len() - i,
    {
        if s[i] == '\'' {
            if get(s, i + 1) == Some('\'') {
                out.push('\'');
                i += 2;
            } else {
                return Some((out, i + 1));
            }
        } else {
            out.push(s[i]);
            i += 1;
        }
    }
    None
}

/// The value of the double-quoted string whose text starts at `start`.
fn parse_double_quoted(s: &[char], start: usize) -> (r: Option<(Vec<char>, usize)>)
    requires
        start <= s.len(),
    ensures
        match r {
            Some(p) => double_quoted(s@, start as int, Seq::empty()) == Some((p.0@, p.1 as int))
                && start < p.1 <= s.len(),
            None => double_quoted(s@, start as int, Seq::empty()) is None,
        },
{
    let mut out: Vec<char> = Vec::new();
    let mut i: usize = start;
    assert(out@ =~= Seq::<char>::empty());
    while i < s.len()
        invariant
            start <= i <= s.len(),
            double_quoted(s@, start as int, Seq::empty()) == double_quoted(s@, i as int, out@),
        decreases s.len() - i,
    {
        let c = s[i];
        if c == '"' {
            return Some((out, i + 1));
        } else if c == '$' {
            return None;
        } else if c == '`' {
            match get(s, i + 1) {
                None => {
                    return None;
                },
                Some(e) => {
                    if e == '\n' {
                        i += 2;
                    } else if e == '\r' && get(s, i + 2) == Some('\n') {
                        i += 3;
                    } else {
                        out.push(escape_powershell(e));
                        i += 2;
                    }
                },
            }
        } else {
            out.push(c);
            i += 1;
        }
    }
    None
}

/// Parses an operand: its value, the position behind it and the number of
/// operands read.
fn parse_primary(s: &[char], start: usize, depth: usize, terms: usize) -> (r: Option<
    (Vec<char>, usize, usize),
>)
    requires
        start <= s.len(),
        depth <= MAX_EXPRESSION_DEPTH + 1,
        terms <= MAX_GIT_SEMANTIC_TOKENS,
    ensures
        match r {
            Some(p) => operand(s@, start as int, depth as int, terms as int) == Some(
                (p.0@, p.1 as int, p.2 as int),
            ) && p.1 <= s.len() && terms < p.2 <= MAX_GIT_SEMANTIC_TOKENS,
            None => operand(s@, start as int, depth as int, terms as int) is None,
        },
    decreases MAX_GIT_SEMANTIC_TOKENS + 1 - terms, 0int,
{
    if terms >= MAX_GIT_SEMANTIC_TOKENS {
        return None;
    }
    let j = skip_white(s, start);
    match get(s, j) {
        Some('\'') => match parse_single_quoted(s, j + 1) {
            None => None,
            Some((v, k)) => Some((v, k, terms + 1)),
        },
        Some('"') => match parse_double_quoted(s, j + 1) {
            None => None,
            Some((v, k)) => Some((v, k, terms + 1)),
        },
        Some('(') => {
            if depth > MAX_EXPRESSION_DEPTH {
                assert(sum(s@, j + 1, depth + 1, terms + 1) is None);
                return None;
            }
            match parse_concatenation(s, j + 1, depth + 1, terms + 1) {
                None => None,
                Some((v, k, t)) => {
                    let e = skip_white(s, k);
                    if get(s, e) == Some(')') {
                        Some((v, e + 1, t))
                    } else {
                        None
                    }
                },
            }
        },
        _ => None,
    }
}

/// Parses a sum of strings.
fn parse_concatenation(s: &[char], start: usize, depth: usize, terms: usize) -> (r: Option<
    (Vec<char>, usize, usize),
>)
    requires
        start <= s.len(),
        depth <= MAX_EXPRESSION_DEPTH + 1,
        terms <= MAX_GIT_SEMANTIC_TOKENS,
    ensures
        match r {
            Some(p) => sum(s@, start as int, depth as int, terms as int) == Some(
                (p.0@, p.1 as int, p.2 as int),
            ) && p.1 <= s.len() && terms < p.2 <= MAX_GIT_SEMANTIC_TOKENS,
            None => sum(s@, start as int, depth as int, terms as int) is None,
        },
    decreases MAX_GIT_SEMANTIC_TOKENS + 1 - terms, 2int,
{
    if depth > MAX_EXPRESSION_DEPTH {
        return None;
    }
    let (first, end, read) = match parse_primary(s, start, depth, terms) {
        None => {
            return None;
        },
        Some(p) => p,
    };
    let mut value = first;
    let mut i: usize = end;
    let mut t: usize = read;
    assert(sum(s@, start as int, depth as int, terms as int) == sum_rest(
        s@,
        i as int,
        depth as int,
        t as int,
        value@,
    ));
    loop
        invariant
            i <= s.len(),
            depth <= MAX_EXPRESSION_DEPTH,
            terms < t <= MAX_GIT_SEMANTIC_TOKENS,
            sum(s@, start as int, depth as int, terms as int) == sum_rest(
                s@,
                i as int,
                depth as int,
                t as int,
                value@,
            ),
        decreases MAX_GIT_SEMANTIC_TOKENS - t,
    {
        let j = skip_white(s, i);
        if get(s, j) != Some('+') {
            return Some((value, j, t));
        }
        match parse_primary(s, j + 1, depth, t) {
            None => {
                return None;
            },
            Some((v, k, u)) => {
                if sum_exceeds(value.as_slice(), v.as_slice()) {
                    return None;
                }
                push_all(&mut value, v.as_slice());
                i = k;
                t = u;
            },
        }
    }
}

/// Whether two texts together have more bytes than are analysed.
fn sum_exceeds(a: &[char], b: &[char]) -> (r: bool)
    ensures
        r == (byte_len(a@) + byte_len(b@) > MAX_GIT_SEMANTIC_BYTES),
{
    let mut both = copy_of(a);
    push_all(&mut both, b);
    proof {
        byte_len_of_sum(a@, b@);
        assert(both@ == a@ + b@);
    }
    longer_than(both.as_slice(), MAX_GIT_SEMANTIC_BYTES)
}

/// The bytes of two texts add up.
proof fn byte_len_of_sum(a: Seq<char>, b: Seq<char>)
    ensures
        byte_len(a + b) == byte_len(a) + byte_len(b),
    decreases b.len(),
{
    if b.len() == 0 {
        assert(a + b =~= a);
    } else {
        byte_len_of_sum(a, b.drop_last());
        assert((a + b).drop_last() =~= a + b.drop_last());
        assert((a + b).last() == b.last());
    }
}

/// The string that an expression of literals computes.
fn parse_static_value(s: &[char]) -> (r: Option<Vec<char>>)
    ensures
        match r {
            Some(v) => static_value(s@) == Some(v@),
            None => static_value(s@) is None,
        },
{
    if longer_than(s, MAX_GIT_SEMANTIC_BYTES) {
        return None;
    }
    let i = skip_white(s, 0);
    match parse_concatenation(s, i, 0, 0) {
        None => None,
        Some((v, k, _t)) => {
            if skip_white(s, k) == s.len() {
                Some(v)
            } else {
                None
            }
        },
    }
}

/// The expression of a call without the `$` or `@` before its parentheses.
pub open spec fn call_body(s: Seq<char>, i: int, e: int) -> Seq<char> {
    if at(s, i) == Some('$') || at(s, i) == Some('@') {
        s.subrange(i + 1, e)
    } else {
        s.subrange(i, e)
    }
}

/// The program of a call expression, where it is made of literals, and where
/// the arguments start; nothing when the command is no complete call expression.
pub open spec fn static_call(s: Seq<char>) -> Option<(Option<Seq<char>>, int)> {
    match call_parts(s) {
        None => None,
        Some((i, e, t)) => Some((static_value(call_body(s, i, e)), t)),
    }
}

/// The program of a call expression, where it is made of literals, and where
/// the arguments start.
pub fn powershell_static_call_executable(s: &[char]) -> (r: Option<(Option<Vec<char>>, usize)>)
    ensures
        match r {
            Some(p) => p.1 <= s.len() && (match p.0 {
                Some(v) => static_call(s@) == Some((Some(v@), p.1 as int)),
                None => static_call(s@) == Some((None::<Seq<char>>, p.1 as int)),
            }),
            None => static_call(s@) is None,
        },
{
    match powershell_call_expression_parts(s) {
        None => None,
        Some((i, e, t)) => {
            let body = if s[i] == '$' || s[i] == '@' {
                slice_subrange(s, i + 1, e)
            } else {
                slice_subrange(s, i, e)
            };
            Some((parse_static_value(body), t))
        },
    }
}

/// The program that a call expression runs.
#[derive(Debug, Clone, Copy, PartialEq, Eq, Structural)]
pub enum PowerShellCallTarget {
    Git,
    GitBranch,
    NonGit,
    /// It depends on more than literals.
    Dynamic,
}

/// The program that a call expression runs.
pub open spec fn call_target(s: Seq<char>) -> PowerShellCallTarget {
    match static_call(s) {
        Some((Some(v), _t)) => {
            let name = lowered(basename(v));
            if name == "git"@ || name == "git.exe"@ {
                PowerShellCallTarget::Git
            } else if name == "git-branch"@ || name == "git-branch.exe"@ {
                PowerShellCallTarget::GitBranch
            } else {
                PowerShellCallTarget::NonGit
            }
        },
        _ => PowerShellCallTarget::Dynamic,
    }
}

/// The program that a call expression runs.
pub fn powershell_call_target(s: &[char]) -> (r: PowerShellCallTarget)
    ensures
        r == call_target(s@),
{
    match powershell_static_call_executable(s) {
        Some((Some(v), _t)) => {
            let name = lower_text(last_component(v.as_slice()));
            let n = name.as_slice();
            if is_str(n, "git") || is_str(n, "git.exe") {
                PowerShellCallTarget::Git
            } else if is_str(n, "git-branch") || is_str(n, "git-branch.exe") {
                PowerShellCallTarget::GitBranch
            } else {
                PowerShellCallTarget::NonGit
            }
        },
        _ => PowerShellCallTarget::Dynamic,
    }
}

/// Where the arguments of a call expression start.
pub open spec fn call_tail(s: Seq<char>) -> Option<Seq<char>> {
    match call_parts(s) {
        None => None,
        Some((_i, _e, t)) => Some(rest(s, t)),
    }
}

/// The arguments of a call expression.
pub fn powershell_call_expression_tail<'a>(s: &'a [char]) -> (r: Option<&'a [char]>)
    ensures
        match r {
            Some(t) => call_tail(s@) == Some(t@),
            None => call_tail(s@) is None,
        },
{
    match powershell_call_expression_parts(s) {
        None => None,
        Some((_i, _e, t)) => Some(from_index(s, t)),
    }
}

/// Where the variable that is assigned at `i` ends: a `$` and a name, a scoped
/// name, or members of it.
pub open spec fn variable_end(s: Seq<char>, i: int) -> int
    decreases s.len() - i,
{
    if 0 <= i < s.len() && (is_alnum(s[i]) || s[i] == '_' || s[i] == ':' || s[i] == '.') {
        variable_end(s, i + 1)
    } else {
        i
    }
}

/// The right-hand side of an assignment to a variable.
pub open spec fn assignment_value(s: Seq<char>) -> Option<Seq<char>> {
    let t = trimmed_start(s);
    let e = variable_end(t, 1);
    let o = white_end(t, e);
    if at(t, 0) == Some('$') && e > 1 && at(t, o) == Some('=') && at(t, o + 1) != Some('=') {
        Some(rest(t, white_end(t, o + 1)))
    } else {
        None
    }
}

/// The right-hand side of an assignment to a variable.
pub fn powershell_assignment_rhs<'a>(s: &'a [char]) -> (r: Option<&'a [char]>)
    ensures
        match r {
            Some(t) => assignment_value(s@) == Some(t@),
            None => assignment_value(s@) is None,
        },
{
    let t = trim_start(s);
    if get(t, 0) != Some('$') {
        return None;
    }
    let mut e: usize = 1;
    while e < t.len() && (alnum(t[e]) || t[e] == '_' || t[e] == ':' || t[e] == '.')
        invariant
            1 <= e <= t.len(),
            variable_end(t@, 1) == variable_end(t@, e as int),
        decreases t.len() - e,
    {
        e += 1;
    }
    let o = skip_white(t, e);
    if e > 1 && get(t, o) == Some('=') && get(t, o + 1) != Some('=') {
        Some(from_index(t, skip_white(t, o + 1)))
    } else {
        None
    }
}

} // verus!
