//! The command that POSIX control-flow words introduce.

use vstd::prelude::*;
use crate::shell::decode::{decode_posix, posix_decoded};
use crate::shell::token::{onward, tokenize_for_shell_dialect, tokens, NormalizeToken, ShellDialect};
use crate::text::{
    at_str, basename, from_index, is_str, is_white, last_component, occurs_at, rest, skip_white,
    white, white_end,
};
use vstd::slice::slice_subrange;

verus! {

/// How many declarations may stand one inside the other.
pub const MAX_STRUCTURAL_PREFIX_NESTING: usize = 64;

/// A reserved word behind which a command stands.
pub open spec fn is_prefix_word(s: Seq<char>) -> bool {
    s == "if"@ || s == "then"@ || s == "elif"@ || s == "else"@ || s == "while"@ || s == "until"@
        || s == "do"@ || s == "{"@ || s == "!"@ || s == "coproc"@
}

/// Whether a command stands behind the reserved word.
pub fn is_shell_command_prefix_reserved_word(s: &[char]) -> (r: bool)
    ensures
        r == is_prefix_word(s@),
{
    is_str(s, "if") || is_str(s, "then") || is_str(s, "elif") || is_str(s, "else") || is_str(
        s,
        "while",
    ) || is_str(s, "until") || is_str(s, "do") || is_str(s, "{") || is_str(s, "!") || is_str(
        s,
        "coproc",
    )
}

/// A token that is nothing but a line continuation.
pub open spec fn is_continuation(s: Seq<char>, t: NormalizeToken) -> bool {
    t.word() && (t.of(s) == "\\\n"@ || t.of(s) == "\\\r\n"@)
}

/// The first token from the `i`th on that is no line continuation; the number of
/// tokens when there is none.
pub open spec fn prefix_token(s: Seq<char>, toks: Seq<NormalizeToken>, i: int) -> int
    decreases toks.len() - i,
{
    if i < 0 || i >= toks.len() {
        toks.len() as int
    } else if is_continuation(s, toks[i]) {
        prefix_token(s, toks, i + 1)
    } else {
        i
    }
}

/// The first token from the `start`th on that is no line continuation.
pub fn next_posix_prefix_token(s: &[char], toks: &Vec<NormalizeToken>, start: usize) -> (r: usize)
    requires
        forall|k: int| 0 <= k < toks@.len() ==> (#[trigger] toks@[k]).fits(s@.len() as int),
    ensures
        r == prefix_token(s@, toks@, start as int),
        start <= toks.len() ==> start <= r,
        r <= toks.len(),
{
    let mut i: usize = start;
    while i < toks.len()
        invariant
            start <= i,
            start <= toks.len() ==> i <= toks.len(),
            forall|k: int| 0 <= k < toks@.len() ==> (#[trigger] toks@[k]).fits(s@.len() as int),
            prefix_token(s@, toks@, start as int) == prefix_token(s@, toks@, i as int),
        decreases toks.len() - i,
    {
        let t = toks[i];
        assert(toks@[i as int].fits(s@.len() as int));
        let raw = t.text(s);
        if t.is_word() && (is_str(raw, "\\\n") || is_str(raw, "\\\r\n")) {
            i += 1;
        } else {
            return i;
        }
    }
    toks.len()
}

/// Whether the `i`th token opens a compound command.
pub open spec fn opens_compound(s: Seq<char>, toks: Seq<NormalizeToken>, i: int) -> bool {
    0 <= i < toks.len() && {
        let raw = toks[i].of(s);
        if toks[i].word() {
            raw == "{"@ || raw == "if"@ || raw == "while"@ || raw == "until"@ || raw == "for"@
                || raw == "select"@ || raw == "case"@
        } else {
            raw == "("@
        }
    }
}

/// Whether the `i`th token opens a compound command.
pub fn posix_compound_command_opener(s: &[char], toks: &Vec<NormalizeToken>, i: usize) -> (r: bool)
    requires
        forall|k: int| 0 <= k < toks@.len() ==> (#[trigger] toks@[k]).fits(s@.len() as int),
    ensures
        r == opens_compound(s@, toks@, i as int),
{
    if i >= toks.len() {
        return false;
    }
    let t = toks[i];
    assert(toks@[i as int].fits(s@.len() as int));
    let raw = t.text(s);
    if t.is_word() {
        is_str(raw, "{") || is_str(raw, "if") || is_str(raw, "while") || is_str(raw, "until")
            || is_str(raw, "for") || is_str(raw, "select") || is_str(raw, "case")
    } else {
        is_str(raw, "(")
    }
}

/// Where the command of the compound that the `i`th token opens starts: behind
/// `{` and `(`, and at any other opener itself.
pub open spec fn compound_start(s: Seq<char>, toks: Seq<NormalizeToken>, i: int) -> Option<int> {
    if i < 0 || i >= toks.len() {
        None
    } else if toks[i].of(s) == "{"@ || toks[i].of(s) == "("@ {
        let b = prefix_token(s, toks, i + 1);
        if b < toks.len() {
            Some(toks[b].start as int)
        } else {
            None
        }
    } else {
        Some(toks[i].start as int)
    }
}

/// Where the command of the compound that the `i`th token opens starts.
pub fn posix_command_after_compound_opener(s: &[char], toks: &Vec<NormalizeToken>, i: usize) -> (r: Option<
    usize,
>)
    requires
        forall|k: int| 0 <= k < toks@.len() ==> (#[trigger] toks@[k]).fits(s@.len() as int),
    ensures
        match r {
            Some(o) => compound_start(s@, toks@, i as int) == Some(o as int) && o <= s.len(),
            None => compound_start(s@, toks@, i as int) is None,
        },
{
    if i >= toks.len() {
        return None;
    }
    let t = toks[i];
    assert(toks@[i as int].fits(s@.len() as int));
    let raw = t.text(s);
    if is_str(raw, "{") || is_str(raw, "(") {
        let b = next_posix_prefix_token(s, toks, i + 1);
        if b < toks.len() {
            assert(toks@[b as int].fits(s@.len() as int));
            Some(toks[b].start)
        } else {
            None
        }
    } else {
        Some(t.start)
    }
}

/// A program name of Git.
pub open spec fn is_git_name(s: Seq<char>) -> bool {
    s == "git"@ || s == "git.exe"@ || s == "git-branch"@ || s == "git-branch.exe"@
}

/// Where the first word from the `k`th token on that names Git starts.
pub open spec fn git_word_from(s: Seq<char>, toks: Seq<NormalizeToken>, k: int) -> Option<int>
    decreases toks.len() - k,
{
    if k < 0 || k >= toks.len() {
        None
    } else if toks[k].word() && is_git_name(basename(posix_decoded(toks[k].of(s)))) {
        Some(toks[k].start as int)
    } else {
        git_word_from(s, toks, k + 1)
    }
}

/// Where the first word that names Git starts.
pub fn first_literal_posix_git_token_offset(s: &[char]) -> (r: Option<usize>)
    ensures
        match r {
            Some(o) => git_word_from(s@, tokens(s@, ShellDialect::Posix), 0) == Some(o as int) && o
                <= s.len(),
            None => git_word_from(s@, tokens(s@, ShellDialect::Posix), 0) is None,
        },
{
    let toks = tokenize_for_shell_dialect(s, ShellDialect::Posix);
    let mut k: usize = 0;
    while k < toks.len()
        invariant
            0 <= k <= toks.len(),
            toks@ == tokens(s@, ShellDialect::Posix),
            forall|j: int| 0 <= j < toks@.len() ==> (#[trigger] toks@[j]).fits(s@.len() as int),
            git_word_from(s@, toks@, 0) == git_word_from(s@, toks@, k as int),
        decreases toks.len() - k,
    {
        let t = toks[k];
        assert(toks@[k as int].fits(s@.len() as int));
        if t.is_word() {
            let word = decode_posix(t.text(s));
            let name = last_component(word.as_slice());
            if is_str(name, "git") || is_str(name, "git.exe") || is_str(name, "git-branch")
                || is_str(name, "git-branch.exe") {
                return Some(t.start);
            }
        }
        k += 1;
    }
    None
}

/// Where the body of the function declared by the `f`th token starts.
pub open spec fn function_body(s: Seq<char>, toks: Seq<NormalizeToken>, f: int) -> Option<int> {
    let name = prefix_token(s, toks, f + 1);
    let opener = prefix_token(s, toks, name + 1);
    let following = prefix_token(s, toks, opener + 1);
    let behind = prefix_token(s, toks, following + 1);
    if name >= toks.len() || !toks[name].word() || opener >= toks.len() {
        None
    } else if toks[opener].of(s) == "("@ {
        if following >= toks.len() {
            None
        } else if toks[following].of(s) == ")"@ {
            if behind < toks.len() && opens_compound(s, toks, behind) {
                compound_start(s, toks, behind)
            } else {
                None
            }
        } else if opens_compound(s, toks, opener) {
            compound_start(s, toks, opener)
        } else {
            None
        }
    } else if opens_compound(s, toks, opener) {
        compound_start(s, toks, opener)
    } else {
        None
    }
}

/// Where the body of the function declared by the `f`th token starts.
pub fn command_after_posix_function_prefix(s: &[char], toks: &Vec<NormalizeToken>, f: usize) -> (r: Option<
    usize,
>)
    requires
        forall|k: int| 0 <= k < toks@.len() ==> (#[trigger] toks@[k]).fits(s@.len() as int),
    ensures
        match r {
            Some(o) => function_body(s@, toks@, f as int) == Some(o as int) && o <= s.len(),
            None => function_body(s@, toks@, f as int) is None,
        },
{
    if f >= toks.len() {
        return None;
    }
    let name = next_posix_prefix_token(s, toks, f + 1);
    if name >= toks.len() || !toks[name].is_word() {
        return None;
    }
    let mut opener = next_posix_prefix_token(s, toks, name + 1);
    if opener >= toks.len() {
        return None;
    }
    assert(toks@[opener as int].fits(s@.len() as int));
    if is_str(toks[opener].text(s), "(") {
        let following = next_posix_prefix_token(s, toks, opener + 1);
        if following >= toks.len() {
            return None;
        }
        assert(toks@[following as int].fits(s@.len() as int));
        if is_str(toks[following].text(s), ")") {
            opener = next_posix_prefix_token(s, toks, following + 1);
            if opener >= toks.len() {
                return None;
            }
        }
    }
    if !posix_compound_command_opener(s, toks, opener) {
        return None;
    }
    posix_command_after_compound_opener(s, toks, opener)
}

/// Where the command of the coprocess started by the `c`th token starts. A name
/// may stand before a compound command only.
pub open spec fn coproc_command(s: Seq<char>, toks: Seq<NormalizeToken>, c: int) -> Option<int> {
    let candidate = prefix_token(s, toks, c + 1);
    let opener = prefix_token(s, toks, candidate + 1);
    if candidate >= toks.len() {
        None
    } else if opens_compound(s, toks, candidate) {
        compound_start(s, toks, candidate)
    } else if !toks[candidate].word() {
        None
    } else if opens_compound(s, toks, opener) {
        compound_start(s, toks, opener)
    } else {
        Some(toks[candidate].start as int)
    }
}

/// Where the command of the coprocess started by the `c`th token starts.
pub fn command_after_posix_coproc_prefix(s: &[char], toks: &Vec<NormalizeToken>, c: usize) -> (r: Option<
    usize,
>)
    requires
        forall|k: int| 0 <= k < toks@.len() ==> (#[trigger] toks@[k]).fits(s@.len() as int),
    ensures
        match r {
            Some(o) => coproc_command(s@, toks@, c as int) == Some(o as int) && o <= s.len(),
            None => coproc_command(s@, toks@, c as int) is None,
        },
{
    if c >= toks.len() {
        return None;
    }
    let candidate = next_posix_prefix_token(s, toks, c + 1);
    if candidate >= toks.len() {
        return None;
    }
    if posix_compound_command_opener(s, toks, candidate) {
        return posix_command_after_compound_opener(s, toks, candidate);
    }
    if !toks[candidate].is_word() {
        return None;
    }
    let opener = next_posix_prefix_token(s, toks, candidate + 1);
    if posix_compound_command_opener(s, toks, opener) {
        return posix_command_after_compound_opener(s, toks, opener);
    }
    assert(toks@[candidate as int].fits(s@.len() as int));
    Some(toks[candidate].start)
}

/// The first position from `i` on behind white space and line continuations.
pub open spec fn probe_start(s: Seq<char>, i: int) -> int
    decreases s.len() - i,
{
    if i < 0 || i >= s.len() {
        s.len() as int
    } else {
        let j = white_end(s, i);
        if occurs_at(s, j, "\\\r\n"@) {
            probe_start(s, onward(i, j + 3, s.len() as int))
        } else if occurs_at(s, j, "\\\n"@) {
            probe_start(s, onward(i, j + 2, s.len() as int))
        } else {
            j
        }
    }
}

/// The first position from `i` on that holds white space.
pub open spec fn blank_from(s: Seq<char>, i: int) -> int
    decreases s.len() - i,
{
    if i < 0 || i >= s.len() {
        s.len() as int
    } else if is_white(s[i]) {
        i
    } else {
        blank_from(s, i + 1)
    }
}

/// Whether the first word of the command may introduce another one.
pub open spec fn introduces(s: Seq<char>) -> bool {
    let i = probe_start(s, 0);
    let word = s.subrange(i, blank_from(s, i));
    is_prefix_word(word) || word == "function"@
}

/// Whether the first word of the command may introduce another one.
fn may_introduce(s: &[char]) -> (r: bool)
    ensures
        r == introduces(s@),
{
    let mut i: usize = 0;
    proof {
        reveal_strlit("\\\r\n");
        reveal_strlit("\\\n");
    }
    loop
        invariant_except_break
            0 <= i <= s.len(),
            probe_start(s@, 0) == probe_start(s@, i as int),
            "\\\r\n"@.len() == 3,
            "\\\n"@.len() == 2,
        ensures
            0 <= i <= s.len(),
            probe_start(s@, 0) == i,
        decreases s.len() - i,
    {
        if i >= s.len() {
            break;
        }
        let j = skip_white(s, i);
        if at_str(s, j, "\\\r\n") {
            i = j + 3;
        } else if at_str(s, j, "\\\n") {
            i = j + 2;
        } else {
            i = j;
            break;
        }
    }
    let mut j: usize = i;
    while j < s.len() && !white(s[j])
        invariant
            i <= j <= s.len(),
            blank_from(s@, i as int) == blank_from(s@, j as int),
        decreases s.len() - j,
    {
        j += 1;
    }
    let word = slice_subrange(s, i, j);
    is_shell_command_prefix_reserved_word(word) || is_str(word, "function")
}

/// Where the command introduced by the words from the `i`th token on starts;
/// `stripped` tells whether a reserved word stood before them.
pub open spec fn introduced_from(
    s: Seq<char>,
    toks: Seq<NormalizeToken>,
    i: int,
    stripped: bool,
    depth: nat,
) -> int
    decreases MAX_STRUCTURAL_PREFIX_NESTING - depth, 0int, toks.len() - i,
{
    if depth >= MAX_STRUCTURAL_PREFIX_NESTING {
        0
    } else if i < 0 || i >= toks.len() {
        if stripped {
            s.len() as int
        } else {
            0
        }
    } else {
        let raw = toks[i].of(s);
        let body = if raw == "function"@ {
            function_body(s, toks, i)
        } else {
            coproc_command(s, toks, i)
        };
        let reserved = is_prefix_word(raw);
        let again = raw == "if"@ || raw == "while"@ || raw == "until"@ || raw == "{"@ || raw == "!"@;
        if !toks[i].word() {
            0
        } else if raw == "function"@ || raw == "coproc"@ {
            match body {
                None => 0,
                Some(o) => o + introduced(rest(s, o), depth + 1),
            }
        } else if (if stripped {
            again
        } else {
            reserved
        }) {
            introduced_from(
                s,
                toks,
                onward(i, prefix_token(s, toks, i + 1), toks.len() as int),
                true,
                depth,
            )
        } else if stripped && !reserved {
            toks[i].start as int
        } else {
            0
        }
    }
}

/// Where the command that the control-flow words of `s` introduce starts,
/// `depth` declarations deep.
pub open spec fn introduced(s: Seq<char>, depth: nat) -> int
    decreases MAX_STRUCTURAL_PREFIX_NESTING - depth, 1int, 0int,
{
    let toks = tokens(s, ShellDialect::Posix);
    if depth >= MAX_STRUCTURAL_PREFIX_NESTING {
        match git_word_from(s, toks, 0) {
            Some(o) => o,
            None => 0,
        }
    } else if !introduces(s) {
        0
    } else {
        introduced_from(s, toks, prefix_token(s, toks, 0), false, depth)
    }
}

/// Where the command that the control-flow words of `s` introduce starts.
fn find_introduced(s: &[char], depth: usize) -> (r: usize)
    requires
        depth <= MAX_STRUCTURAL_PREFIX_NESTING,
    ensures
        r == introduced(s@, depth as nat),
        r <= s.len(),
    decreases MAX_STRUCTURAL_PREFIX_NESTING - depth,
{
    if depth >= MAX_STRUCTURAL_PREFIX_NESTING {
        return match first_literal_posix_git_token_offset(s) {
            Some(o) => o,
            None => 0,
        };
    }
    if !may_introduce(s) {
        return 0;
    }
    let toks = tokenize_for_shell_dialect(s, ShellDialect::Posix);
    let mut stripped = false;
    let mut i = next_posix_prefix_token(s, &toks, 0);
    while i < toks.len()
        invariant
            i <= toks.len(),
            depth < MAX_STRUCTURAL_PREFIX_NESTING,
            toks@ == tokens(s@, ShellDialect::Posix),
            forall|j: int| 0 <= j < toks@.len() ==> (#[trigger] toks@[j]).fits(s@.len() as int),
            introduced(s@, depth as nat) == introduced_from(
                s@,
                toks@,
                i as int,
                stripped,
                depth as nat,
            ),
        decreases toks.len() - i,
    {
        let t = toks[i];
        assert(toks@[i as int].fits(s@.len() as int));
        if !t.is_word() {
            return 0;
        }
        let raw = t.text(s);
        let function = is_str(raw, "function");
        if function || is_str(raw, "coproc") {
            let body = if function {
                command_after_posix_function_prefix(s, &toks, i)
            } else {
                command_after_posix_coproc_prefix(s, &toks, i)
            };
            return match body {
                None => 0,
                Some(o) => o + find_introduced(from_index(s, o), depth + 1),
            };
        }
        let reserved = is_shell_command_prefix_reserved_word(raw);
        let again = is_str(raw, "if") || is_str(raw, "while") || is_str(raw, "until") || is_str(
            raw,
            "{",
        ) || is_str(raw, "!");
        let peel = if stripped {
            again
        } else {
            reserved
        };
        if peel {
            stripped = true;
            i = next_posix_prefix_token(s, &toks, i + 1);
        } else if stripped && !reserved {
            return t.start;
        } else {
            return 0;
        }
    }
    if stripped {
        s.len()
    } else {
        0
    }
}

/// Where the command that control-flow words introduce starts; other dialects
/// have none.
pub open spec fn command_offset(s: Seq<char>, dialect: ShellDialect) -> int {
    if dialect == ShellDialect::Posix {
        introduced(s, 0)
    } else {
        0
    }
}

/// The command that control-flow words introduce.
pub open spec fn introduced_command(s: Seq<char>, dialect: ShellDialect) -> Seq<char> {
    rest(s, command_offset(s, dialect))
}

/// The command that the control-flow words of a segment introduce, and the
/// position in the segment at which it starts.
///
/// Reserved words may stand before a command (`then git ...`, `do git ...`,
/// `{ git ...`), and so may the declaration of a function or a coprocess. Quoted
/// words, paths and the arguments of wrapping programs are no reserved words. A
/// second reserved word that the grammar does not allow (`then else ...`) leaves
/// the segment as it is.
pub fn command_after_posix_control_prefixes<'a>(s: &'a [char], dialect: ShellDialect) -> (r: (
    &'a [char],
    usize,
))
    ensures
        r.0@ == introduced_command(s@, dialect),
        r.1 == command_offset(s@, dialect),
        r.1 <= s.len(),
{
    let o: usize = if dialect == ShellDialect::Posix {
        find_introduced(s, 0)
    } else {
        0
    };
    (from_index(s, o), o)
}

} // verus!
