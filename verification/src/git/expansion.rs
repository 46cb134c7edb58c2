//! What a word may become when the shell expands it.

use vstd::prelude::*;
use vstd::slice::slice_subrange;
use crate::shell::decode::{decoded_next, ShellTokenDecoder, ShellTokenRole};
use crate::shell::token::{
    advance, at, get, onward, tokenize_for_shell_dialect, tokens, NormalizeToken, ShellDialect,
};
use crate::shell::parts::{parts_form, parts_may_form};
use crate::text::{
    alnum, basename, chars_of, contains_text, copy_of, digit, from_index, has_char, has_str,
    index_from, is_alnum, is_digit, is_str, last_component, lower_text, lowered, next_index, rest,
    same_nocase, same_nocase_text, texts, trim_leading, without_leading,
};

verus! {

/// How many words of a command are analysed.
pub const MAX_GIT_SEMANTIC_TOKENS: usize = 512;

/// A word of a command as the Git analysis sees it.
#[derive(Debug)]
pub struct GitSemanticWord {
    /// The word with quotes and escapes removed.
    pub decoded: Vec<char>,
    /// Whether the shell expands a part of it.
    pub dynamic: bool,
    /// Whether the expansion may make several words of it.
    pub may_split: bool,
}

/// The mathematical form of a [`GitSemanticWord`].
pub struct WordView {
    pub decoded: Seq<char>,
    pub dynamic: bool,
    pub may_split: bool,
}

impl View for GitSemanticWord {
    type V = WordView;

    open spec fn view(&self) -> WordView {
        WordView { decoded: self.decoded@, dynamic: self.dynamic, may_split: self.may_split }
    }
}

/// The views of a list of words.
pub open spec fn word_views(v: Seq<GitSemanticWord>) -> Seq<WordView> {
    Seq::new(v.len(), |i: int| v[i]@)
}

/// Whether the text behind a `{` can brace-expand: the group closes and holds a
/// comma or two dots.
pub open spec fn brace_expands(remainder: Seq<char>) -> bool {
    let close = next_index(remainder, 0, '}');
    close < remainder.len() && (remainder.subrange(0, close).contains(',') || contains_text(
        remainder.subrange(0, close),
        ".."@,
    ))
}

/// Whether the text behind a `{` can brace-expand.
pub fn posix_brace_remainder_may_expand(remainder: &[char]) -> (r: bool)
    ensures
        r == brace_expands(remainder@),
{
    let close = index_from(remainder, 0, '}');
    if close >= remainder.len() {
        return false;
    }
    let inner = slice_subrange(remainder, 0, close);
    has_char(inner, ',') || has_str(inner, "..")
}

/// Whether a POSIX shell expands a part of the word from position `i` on;
/// `splitting` asks for expansions that may make several words, which double
/// quotes prevent.
pub open spec fn posix_expands(s: Seq<char>, i: int, single: bool, double: bool, splitting: bool) -> bool
    decreases s.len() - i,
{
    if i < 0 || i >= s.len() {
        false
    } else {
        let c = s[i];
        let next = at(s, i + 1);
        let bare = !single && !double;
        if c == '\\' && !single {
            posix_expands(s, onward(i, i + 2, s.len() as int), single, double, splitting)
        } else if c == '\'' && !double {
            posix_expands(s, i + 1, !single, double, splitting)
        } else if c == '"' && !single {
            posix_expands(s, i + 1, single, !double, splitting)
        } else if splitting && bare && (c == '$' || c == '`') {
            true
        } else if !splitting && !single && c == '$' && next != Some('\'') && next != Some('"') {
            true
        } else if !splitting && !single && c == '`' {
            true
        } else if bare && (c == '*' || c == '?') {
            true
        } else if bare && c == '[' && rest(s, i + 1).contains(']') {
            true
        } else if bare && c == '{' && brace_expands(rest(s, i + 1)) {
            true
        } else if (c == '<' || c == '>') && next == Some('(') && !single && (!double || !splitting) {
            true
        } else {
            posix_expands(s, i + 1, single, double, splitting)
        }
    }
}

/// Whether PowerShell expands a part of the word from position `i` on.
pub open spec fn powershell_expands(s: Seq<char>, i: int, single: bool, double: bool, splitting: bool) -> bool
    decreases s.len() - i,
{
    if i < 0 || i >= s.len() {
        false
    } else {
        let c = s[i];
        if c == '`' && !single {
            powershell_expands(s, onward(i, i + 2, s.len() as int), single, double, splitting)
        } else if c == '\'' && !double {
            powershell_expands(s, i + 1, !single, double, splitting)
        } else if c == '"' && !single {
            powershell_expands(s, i + 1, single, !double, splitting)
        } else if c == '$' && !single && (!double || !splitting) {
            true
        } else if c == '@' && !single && (!double || !splitting) && at(s, i + 1) == Some('(') {
            true
        } else {
            powershell_expands(s, i + 1, single, double, splitting)
        }
    }
}

/// Whether Cmd replaces a variable in the word: the first `%` starts an argument
/// reference or is followed, beyond the next character, by another `%`; or two
/// `!` stand in it.
pub open spec fn cmd_expands(s: Seq<char>) -> bool {
    let p = next_index(s, 0, '%');
    let b = next_index(s, 0, '!');
    ||| p < s.len() && p + 1 < s.len() && (is_digit(s[p + 1]) || s[p + 1] == '*' || s[p + 1] == '~'
        || rest(s, p + 2).contains('%'))
    ||| b < s.len() && rest(s, b + 1).contains('!')
}

/// Whether an expansion of the Cmd word from position `i` on may make several
/// words: a `%` or `!` outside double quotes.
pub open spec fn cmd_splits(s: Seq<char>, i: int, single: bool, double: bool) -> bool
    decreases s.len() - i,
{
    if i < 0 || i >= s.len() {
        false
    } else if s[i] == '\'' && !double {
        cmd_splits(s, i + 1, !single, double)
    } else if s[i] == '"' && !single {
        cmd_splits(s, i + 1, single, !double)
    } else if (s[i] == '%' || s[i] == '!') && !double {
        true
    } else {
        cmd_splits(s, i + 1, single, double)
    }
}

/// Whether the shell expands a part of the word.
pub open spec fn expands(raw: Seq<char>, dialect: ShellDialect) -> bool {
    match dialect {
        ShellDialect::Posix | ShellDialect::Unknown => posix_expands(raw, 0, false, false, false),
        ShellDialect::PowerShell => powershell_expands(raw, 0, false, false, false),
        ShellDialect::Cmd => cmd_expands(raw),
    }
}

/// Whether an expansion in the word may make several words of it.
pub open spec fn expansion_splits(raw: Seq<char>, dialect: ShellDialect) -> bool {
    match dialect {
        ShellDialect::Posix | ShellDialect::Unknown => posix_expands(raw, 0, false, false, true),
        ShellDialect::PowerShell => powershell_expands(raw, 0, false, false, true),
        ShellDialect::Cmd => cmd_splits(raw, 0, false, false),
    }
}

/// Whether a POSIX shell expands a part of the word.
fn scan_posix(s: &[char], splitting: bool) -> (r: bool)
    ensures
        r == posix_expands(s@, 0, false, false, splitting),
{
    let mut i: usize = 0;
    let mut single = false;
    let mut double = false;
    while i < s.len()
        invariant
            0 <= i <= s.len(),
            posix_expands(s@, 0, false, false, splitting) == posix_expands(
                s@,
                i as int,
                single,
                double,
                splitting,
            ),
        decreases s.len() - i,
    {
        let c = s[i];
        let next = get(s, i + 1);
        let bare = !single && !double;
        if c == '\\' && !single {
            i = advance(i, 2, s.len());
        } else if c == '\'' && !double {
            single = !single;
            i += 1;
        } else if c == '"' && !single {
            double = !double;
            i += 1;
        } else if splitting && bare && (c == '$' || c == '`') {
            return true;
        } else if !splitting && !single && c == '$' && next != Some('\'') && next != Some('"') {
            return true;
        } else if !splitting && !single && c == '`' {
            return true;
        } else if bare && (c == '*' || c == '?') {
            return true;
        } else if bare && c == '[' && has_char(from_index(s, i + 1), ']') {
            return true;
        } else if bare && c == '{' && posix_brace_remainder_may_expand(from_index(s, i + 1)) {
            return true;
        } else if (c == '<' || c == '>') && next == Some('(') && !single && (!double || !splitting) {
            return true;
        } else {
            i += 1;
        }
    }
    false
}

/// Whether PowerShell expands a part of the word.
fn scan_powershell(s: &[char], splitting: bool) -> (r: bool)
    ensures
        r == powershell_expands(s@, 0, false, false, splitting),
{
    let mut i: usize = 0;
    let mut single = false;
    let mut double = false;
    while i < s.len()
        invariant
            0 <= i <= s.len(),
            powershell_expands(s@, 0, false, false, splitting) == powershell_expands(
                s@,
                i as int,
                single,
                double,
                splitting,
            ),
        decreases s.len() - i,
    {
        let c = s[i];
        if c == '`' && !single {
            i = advance(i, 2, s.len());
        } else if c == '\'' && !double {
            single = !single;
            i += 1;
        } else if c == '"' && !single {
            double = !double;
            i += 1;
        } else if c == '$' && !single && (!double || !splitting) {
            return true;
        } else if c == '@' && !single && (!double || !splitting) && get(s, i + 1) == Some('(') {
            return true;
        } else {
            i += 1;
        }
    }
    false
}

/// Whether the shell expands a part of the word.
pub fn git_token_has_active_expansion(raw: &[char], dialect: ShellDialect) -> (r: bool)
    ensures
        r == expands(raw@, dialect),
{
    match dialect {
        ShellDialect::Posix | ShellDialect::Unknown => scan_posix(raw, false),
        ShellDialect::PowerShell => scan_powershell(raw, false),
        ShellDialect::Cmd => {
            let p = index_from(raw, 0, '%');
            if raw.len() - p >= 2 && (digit(raw[p + 1]) || raw[p + 1] == '*' || raw[p + 1] == '~'
                || has_char(from_index(raw, p + 2), '%')) {
                return true;
            }
            let b = index_from(raw, 0, '!');
            b < raw.len() && has_char(from_index(raw, b + 1), '!')
        },
    }
}

/// Whether an expansion in the word may make several words of it.
pub fn git_token_expansion_may_split(raw: &[char], dialect: ShellDialect) -> (r: bool)
    ensures
        r == expansion_splits(raw@, dialect),
{
    match dialect {
        ShellDialect::Posix | ShellDialect::Unknown => scan_posix(raw, true),
        ShellDialect::PowerShell => scan_powershell(raw, true),
        ShellDialect::Cmd => {
            let mut i: usize = 0;
            let mut single = false;
            let mut double = false;
            while i < raw.len()
                invariant
                    0 <= i <= raw.len(),
                    dialect == ShellDialect::Cmd,
                    cmd_splits(raw@, 0, false, false) == cmd_splits(raw@, i as int, single, double),
                decreases raw.len() - i,
            {
                let c = raw[i];
                if c == '\'' && !double {
                    single = !single;
                } else if c == '"' && !single {
                    double = !double;
                } else if (c == '%' || c == '!') && !double {
                    return true;
                }
                i += 1;
            }
            false
        },
    }
}

/// Whether an expansion starts at position `i` of a decoded word.
pub open spec fn expansion_starts(s: Seq<char>, i: int, dialect: ShellDialect) -> bool {
    match dialect {
        ShellDialect::Posix | ShellDialect::Unknown => {
            ||| s[i] == '$' || s[i] == '`' || s[i] == '*' || s[i] == '?'
            ||| s[i] == '[' && rest(s, i + 1).contains(']')
            ||| s[i] == '{' && brace_expands(rest(s, i + 1))
        },
        ShellDialect::PowerShell => s[i] == '$' || (s[i] == '@' && at(s, i + 1) == Some('(')),
        ShellDialect::Cmd => s[i] == '%' || s[i] == '!',
    }
}

/// Where a bracketed group ends whose body is at `i`, `depth` brackets deep.
pub open spec fn bracket_end(s: Seq<char>, i: int, open: char, close: char, depth: int) -> int
    decreases s.len() - i,
{
    if i < 0 || i >= s.len() || depth <= 0 {
        i
    } else {
        bracket_end(
            s,
            i + 1,
            open,
            close,
            if s[i] == open {
                depth + 1
            } else if s[i] == close {
                depth - 1
            } else {
                depth
            },
        )
    }
}

/// A character of an unbraced parameter reference.
pub open spec fn is_parameter_char(c: char) -> bool {
    is_alnum(c) || c == '_' || c == ':' || c == '?' || c == '*' || c == '#' || c == '@' || c == '-'
}

/// Where an unbraced parameter reference ends.
pub open spec fn parameter_end(s: Seq<char>, i: int) -> int
    decreases s.len() - i,
{
    if i < 0 || i >= s.len() || !is_parameter_char(s[i]) {
        i
    } else {
        parameter_end(s, i + 1)
    }
}

/// The position behind the next `c` from `i` on.
pub open spec fn behind_next(s: Seq<char>, i: int, c: char) -> int {
    let j = next_index(s, i, c);
    if j < s.len() {
        j + 1
    } else {
        j
    }
}

/// Where the expansion that starts at position `i` of a decoded word ends.
pub open spec fn expansion_end(s: Seq<char>, i: int, dialect: ShellDialect) -> int {
    let c = s[i];
    match dialect {
        ShellDialect::Cmd => if c == '%' && i + 1 < s.len() && is_digit(s[i + 1]) {
            i + 2
        } else {
            behind_next(s, i + 1, c)
        },
        _ => if c == '$' {
            match at(s, i + 1) {
                Some('{') => bracket_end(s, i + 2, '{', '}', 1),
                Some('(') => bracket_end(s, i + 2, '(', ')', 1),
                _ => parameter_end(s, i + 1),
            }
        } else if c == '@' {
            bracket_end(s, i + 2, '(', ')', 1)
        } else if c == '`' {
            behind_next(s, i + 1, '`')
        } else if c == '[' {
            behind_next(s, i + 1, ']')
        } else if c == '{' {
            behind_next(s, i + 1, '}')
        } else {
            i + 1
        },
    }
}

/// The literal parts of a decoded word from position `i` on, behind `done` and
/// the part `cur` that is being read.
pub open spec fn fragments_from(
    s: Seq<char>,
    i: int,
    dialect: ShellDialect,
    cur: Seq<char>,
    done: Seq<Seq<char>>,
) -> Seq<Seq<char>>
    decreases s.len() - i,
{
    if i < 0 || i >= s.len() {
        done.push(cur)
    } else if expansion_starts(s, i, dialect) {
        fragments_from(
            s,
            onward(i, expansion_end(s, i, dialect), s.len() as int),
            dialect,
            Seq::empty(),
            done.push(cur),
        )
    } else {
        fragments_from(s, i + 1, dialect, cur.push(s[i]), done)
    }
}

/// The literal parts of a decoded word, before, between and behind its
/// expansions.
pub open spec fn fragments(s: Seq<char>, dialect: ShellDialect) -> Seq<Seq<char>> {
    fragments_from(s, 0, dialect, Seq::empty(), Seq::empty())
}

/// Where a bracketed group ends whose body is at `start`.
pub fn skip_brackets(s: &[char], start: usize, open: char, close: char) -> (r: usize)
    requires
        1 <= start <= s.len(),
    ensures
        r == bracket_end(s@, start as int, open, close, 1),
        start <= r <= s.len(),
{
    let mut i: usize = start;
    let mut depth: usize = 1;
    while i < s.len() && depth > 0
        invariant
            1 <= start <= i <= s.len(),
            depth <= i - start + 1,
            bracket_end(s@, start as int, open, close, 1) == bracket_end(
                s@,
                i as int,
                open,
                close,
                depth as int,
            ),
        decreases s.len() - i,
    {
        if s[i] == open {
            depth += 1;
        } else if s[i] == close {
            depth -= 1;
        }
        i += 1;
    }
    i
}

/// Where an unbraced parameter reference ends.
fn skip_parameter(s: &[char], start: usize) -> (r: usize)
    requires
        start <= s.len(),
    ensures
        r == parameter_end(s@, start as int),
        start <= r <= s.len(),
{
    let mut i: usize = start;
    while i < s.len() && (alnum(s[i]) || s[i] == '_' || s[i] == ':' || s[i] == '?' || s[i] == '*'
        || s[i] == '#' || s[i] == '@' || s[i] == '-')
        invariant
            start <= i <= s.len(),
            parameter_end(s@, start as int) == parameter_end(s@, i as int),
        decreases s.len() - i,
    {
        i += 1;
    }
    i
}

/// The position behind the next `c` from `i` on.
fn skip_behind(s: &[char], i: usize, c: char) -> (r: usize)
    requires
        i <= s.len(),
    ensures
        r == behind_next(s@, i as int, c),
        i <= r <= s.len(),
{
    let j = index_from(s, i, c);
    if j < s.len() {
        j + 1
    } else {
        j
    }
}

/// Where the expansion that starts at position `i` of a decoded word ends.
fn skip_expansion(s: &[char], i: usize, dialect: ShellDialect) -> (r: usize)
    requires
        i < s.len(),
        expansion_starts(s@, i as int, dialect),
    ensures
        r == expansion_end(s@, i as int, dialect),
        i < r <= s.len(),
{
    let c = s[i];
    if dialect == ShellDialect::Cmd {
        return if c == '%' && i + 1 < s.len() && digit(s[i + 1]) {
            i + 2
        } else {
            skip_behind(s, i + 1, c)
        };
    }
    if c == '$' {
        match get(s, i + 1) {
            Some('{') => skip_brackets(s, i + 2, '{', '}'),
            Some('(') => skip_brackets(s, i + 2, '(', ')'),
            _ => skip_parameter(s, i + 1),
        }
    } else if c == '@' {
        skip_brackets(s, i + 2, '(', ')')
    } else if c == '`' {
        skip_behind(s, i + 1, '`')
    } else if c == '[' {
        skip_behind(s, i + 1, ']')
    } else if c == '{' {
        skip_behind(s, i + 1, '}')
    } else {
        i + 1
    }
}

/// Whether an expansion starts at position `i` of a decoded word.
fn starts_expansion(s: &[char], i: usize, dialect: ShellDialect) -> (r: bool)
    requires
        i < s.len(),
    ensures
        r == expansion_starts(s@, i as int, dialect),
{
    let c = s[i];
    match dialect {
        ShellDialect::Posix | ShellDialect::Unknown => {
            c == '$' || c == '`' || c == '*' || c == '?' || (c == '[' && has_char(
                from_index(s, i + 1),
                ']',
            )) || (c == '{' && posix_brace_remainder_may_expand(from_index(s, i + 1)))
        },
        ShellDialect::PowerShell => c == '$' || (c == '@' && get(s, i + 1) == Some('(')),
        ShellDialect::Cmd => c == '%' || c == '!',
    }
}

/// The literal parts of a decoded word, before, between and behind its
/// expansions.
pub fn git_dynamic_fragments(s: &[char], dialect: ShellDialect) -> (r: Vec<Vec<char>>)
    ensures
        texts(r@) == fragments(s@, dialect),
        r@.len() >= 1,
{
    let mut done: Vec<Vec<char>> = Vec::new();
    let mut cur: Vec<char> = Vec::new();
    let mut i: usize = 0;
    assert(texts(done@) =~= Seq::<Seq<char>>::empty());
    while i < s.len()
        invariant
            0 <= i <= s.len(),
            fragments(s@, dialect) == fragments_from(s@, i as int, dialect, cur@, texts(done@)),
        decreases s.len() - i,
    {
        if starts_expansion(s, i, dialect) {
            let ghost before = done@;
            let ghost part = cur@;
            i = skip_expansion(s, i, dialect);
            done.push(cur);
            assert(texts(done@) =~= texts(before).push(part));
            cur = Vec::new();
            assert(cur@ =~= Seq::<char>::empty());
        } else {
            cur.push(s[i]);
            i += 1;
        }
    }
    let ghost before = done@;
    let ghost part = cur@;
    done.push(cur);
    assert(texts(done@) =~= texts(before).push(part));
    done
}

/// Whether a word may become `candidate` when the shell expands it.
pub open spec fn word_may_equal(word: WordView, dialect: ShellDialect, candidate: Seq<char>, nocase: bool) -> bool {
    if !word.dynamic {
        if nocase {
            same_nocase(word.decoded, candidate)
        } else {
            word.decoded == candidate
        }
    } else if nocase {
        parts_may_form(fragments(lowered(word.decoded), dialect), lowered(candidate))
    } else {
        parts_may_form(fragments(word.decoded, dialect), candidate)
    }
}

/// Whether a word may become the literal when the shell expands it.
pub fn git_symbolic_word_may_equal(
    word: &GitSemanticWord,
    dialect: ShellDialect,
    candidate: &str,
    nocase: bool,
) -> (r: bool)
    ensures
        r == word_may_equal(word@, dialect, candidate@, nocase),
{
    let lit = chars_of(candidate);
    if !word.dynamic {
        return if nocase {
            same_nocase_text(word.decoded.as_slice(), lit.as_slice())
        } else {
            is_str(word.decoded.as_slice(), candidate)
        };
    }
    if nocase {
        let low = lower_text(word.decoded.as_slice());
        let parts = git_dynamic_fragments(low.as_slice(), dialect);
        let want = lower_text(lit.as_slice());
        parts_form(&parts, want.as_slice())
    } else {
        let parts = git_dynamic_fragments(word.decoded.as_slice(), dialect);
        parts_form(&parts, lit.as_slice())
    }
}

/// Whether a word has no literal part at all: it may become anything.
pub open spec fn word_unbounded(word: WordView, dialect: ShellDialect) -> bool {
    word.dynamic && forall|i: int|
        0 <= i < fragments(word.decoded, dialect).len() ==> (#[trigger] fragments(
            word.decoded,
            dialect,
        )[i]).len() == 0
}

/// Whether a word has no literal part at all.
pub fn git_semantic_word_is_unbounded(word: &GitSemanticWord, dialect: ShellDialect) -> (r: bool)
    ensures
        r == word_unbounded(word@, dialect),
{
    if !word.dynamic {
        return false;
    }
    let parts = git_dynamic_fragments(word.decoded.as_slice(), dialect);
    let mut i: usize = 0;
    while i < parts.len()
        invariant
            0 <= i <= parts.len(),
            texts(parts@) == fragments(word.decoded@, dialect),
            forall|j: int| 0 <= j < i ==> parts@[j]@.len() == 0,
        decreases parts.len() - i,
    {
        if parts[i].len() != 0 {
            assert(fragments(word@.decoded, dialect)[i as int].len() != 0);
            return false;
        }
        i += 1;
    }
    assert forall|j: int| 0 <= j < fragments(word.decoded@, dialect).len() implies (
    #[trigger] fragments(word.decoded@, dialect)[j]).len() == 0 by {
        assert(texts(parts@)[j] == parts@[j]@);
    }
    true
}

/// The part of an executable word that names the program: the last path
/// component, expanded only where an expansion stands in it.
pub open spec fn program_name(word: WordView, dialect: ShellDialect) -> WordView {
    let whole = if dialect == ShellDialect::Cmd {
        without_leading(word.decoded, '@')
    } else {
        word.decoded
    };
    let name = basename(whole);
    WordView {
        decoded: name,
        dynamic: word.dynamic && fragments(name, dialect).len() > 1,
        may_split: word.may_split,
    }
}

/// The part of an executable word that names the program.
pub fn git_semantic_executable_basename(word: &GitSemanticWord, dialect: ShellDialect) -> (r: GitSemanticWord)
    ensures
        r@ == program_name(word@, dialect),
{
    let whole = if dialect == ShellDialect::Cmd {
        trim_leading(word.decoded.as_slice(), '@')
    } else {
        word.decoded.as_slice()
    };
    let name = last_component(whole);
    let dynamic = if word.dynamic {
        let parts = git_dynamic_fragments(name, dialect);
        assert(texts(parts@).len() == parts@.len());
        parts.len() > 1
    } else {
        false
    };
    GitSemanticWord { decoded: copy_of(name), dynamic, may_split: word.may_split }
}

/// Whether an executable word may name the program `candidate`.
pub open spec fn program_may_equal(word: WordView, dialect: ShellDialect, candidate: Seq<char>) -> bool {
    word_may_equal(program_name(word, dialect), dialect, candidate, true)
}

/// Whether an executable word may name the program `candidate`.
pub fn git_semantic_executable_may_equal(
    word: &GitSemanticWord,
    dialect: ShellDialect,
    candidate: &str,
) -> (r: bool)
    ensures
        r == program_may_equal(word@, dialect, candidate@),
{
    let name = git_semantic_executable_basename(word, dialect);
    git_symbolic_word_may_equal(&name, dialect, candidate, true)
}

/// Whether the program name of an executable word has no literal part at all.
pub open spec fn program_unbounded(word: WordView, dialect: ShellDialect) -> bool {
    word_unbounded(program_name(word, dialect), dialect)
}

/// Whether the program name of an executable word has no literal part at all.
pub fn git_semantic_executable_is_unbounded(word: &GitSemanticWord, dialect: ShellDialect) -> (r: bool)
    ensures
        r == program_unbounded(word@, dialect),
{
    let name = git_semantic_executable_basename(word, dialect);
    git_semantic_word_is_unbounded(&name, dialect)
}

/// Whether an executable word may name Git itself.
pub open spec fn may_be_git(word: WordView, dialect: ShellDialect) -> bool {
    program_may_equal(word, dialect, "git"@) || program_may_equal(word, dialect, "git.exe"@)
}

/// Whether an executable word may name `git-branch`.
pub open spec fn may_be_git_branch(word: WordView, dialect: ShellDialect) -> bool {
    program_may_equal(word, dialect, "git-branch"@) || program_may_equal(
        word,
        dialect,
        "git-branch.exe"@,
    )
}

/// Whether an executable word may name Git itself.
pub fn names_git(word: &GitSemanticWord, dialect: ShellDialect) -> (r: bool)
    ensures
        r == may_be_git(word@, dialect),
{
    git_semantic_executable_may_equal(word, dialect, "git") || git_semantic_executable_may_equal(
        word,
        dialect,
        "git.exe",
    )
}

/// Whether an executable word may name `git-branch`.
pub fn names_git_branch(word: &GitSemanticWord, dialect: ShellDialect) -> (r: bool)
    ensures
        r == may_be_git_branch(word@, dialect),
{
    git_semantic_executable_may_equal(word, dialect, "git-branch")
        || git_semantic_executable_may_equal(word, dialect, "git-branch.exe")
}

/// A command decoded into words.
#[derive(Debug)]
pub struct DecodedGitWords {
    pub words: Vec<GitSemanticWord>,
    /// Whether the command has more words than are analysed.
    pub over_limit: bool,
}

/// Whether a separator is among the tokens.
pub open spec fn has_separator(toks: Seq<NormalizeToken>) -> bool {
    exists|k: int| 0 <= k < toks.len() && !(#[trigger] toks[k]).word()
}

/// Whether a separator is among the tokens.
pub fn any_separator(toks: &Vec<NormalizeToken>) -> (r: bool)
    ensures
        r == has_separator(toks@),
{
    let mut k: usize = 0;
    while k < toks.len()
        invariant
            0 <= k <= toks.len(),
            forall|j: int| 0 <= j < k ==> (#[trigger] toks@[j]).word(),
        decreases toks.len() - k,
    {
        if !toks[k].is_word() {
            assert(!toks@[k as int].word());
            return true;
        }
        k += 1;
    }
    false
}

/// The decoded words of the tokens from the `k`th on, behind `out`; `left` words
/// are still analysed, and `literal` tells whether decoding has ended.
pub open spec fn semantic_words_from(
    s: Seq<char>,
    toks: Seq<NormalizeToken>,
    k: int,
    dialect: ShellDialect,
    left: nat,
    literal: bool,
    out: Seq<WordView>,
) -> Seq<WordView>
    decreases toks.len() - k,
{
    if k < 0 || k >= toks.len() || left == 0 {
        out
    } else {
        let raw = toks[k].of(s);
        match decoded_next(raw, dialect, ShellTokenRole::Syntax, literal) {
            None => semantic_words_from(s, toks, k + 1, dialect, (left - 1) as nat, true, out),
            Some(d) => {
                let dynamic = !literal && expands(raw, dialect);
                semantic_words_from(
                    s,
                    toks,
                    k + 1,
                    dialect,
                    (left - 1) as nat,
                    literal,
                    out.push(
                        WordView {
                            decoded: d,
                            dynamic,
                            may_split: dynamic && expansion_splits(raw, dialect),
                        },
                    ),
                )
            },
        }
    }
}

/// The decoded words of a single command; nothing when it is more than one.
pub open spec fn semantic_words(s: Seq<char>, dialect: ShellDialect) -> Option<Seq<WordView>> {
    let toks = tokens(s, dialect);
    if has_separator(toks) {
        None
    } else {
        Some(
            semantic_words_from(
                s,
                toks,
                0,
                dialect,
                MAX_GIT_SEMANTIC_TOKENS as nat,
                false,
                Seq::empty(),
            ),
        )
    }
}

/// Whether a command has more words than are analysed.
pub open spec fn too_many_words(s: Seq<char>, dialect: ShellDialect) -> bool {
    tokens(s, dialect).len() > MAX_GIT_SEMANTIC_TOKENS
}

/// The decoded words of a single command; nothing when it is more than one.
pub fn decode_git_semantic_words(s: &[char], dialect: ShellDialect) -> (r: Option<DecodedGitWords>)
    ensures
        match r {
            Some(d) => semantic_words(s@, dialect) == Some(word_views(d.words@)) && d.over_limit
                == too_many_words(s@, dialect),
            None => semantic_words(s@, dialect) is None,
        },
{
    let toks = tokenize_for_shell_dialect(s, dialect);
    if any_separator(&toks) {
        return None;
    }
    let over_limit = toks.len() > MAX_GIT_SEMANTIC_TOKENS;
    let mut decoder = ShellTokenDecoder::new(dialect);
    let mut words: Vec<GitSemanticWord> = Vec::new();
    let mut k: usize = 0;
    assert(word_views(words@) =~= Seq::<WordView>::empty());
    while k < toks.len() && k < MAX_GIT_SEMANTIC_TOKENS
        invariant
            0 <= k <= toks.len(),
            k <= MAX_GIT_SEMANTIC_TOKENS,
            toks@ == tokens(s@, dialect),
            decoder.dialect == dialect,
            forall|j: int| 0 <= j < toks@.len() ==> (#[trigger] toks@[j]).fits(s@.len() as int),
            semantic_words_from(
                s@,
                toks@,
                0,
                dialect,
                MAX_GIT_SEMANTIC_TOKENS as nat,
                false,
                Seq::empty(),
            ) == semantic_words_from(
                s@,
                toks@,
                k as int,
                dialect,
                (MAX_GIT_SEMANTIC_TOKENS - k) as nat,
                decoder.literal,
                word_views(words@),
            ),
        decreases toks.len() - k,
    {
        let t = toks[k];
        assert(toks@[k as int].fits(s@.len() as int));
        let raw = t.text(s);
        let literal = decoder.literal;
        if let Some(decoded) = decoder.decode(raw, ShellTokenRole::Syntax) {
            let dynamic = !literal && git_token_has_active_expansion(raw, dialect);
            let may_split = dynamic && git_token_expansion_may_split(raw, dialect);
            let ghost before = words@;
            let word = GitSemanticWord { decoded, dynamic, may_split };
            let ghost view = word@;
            words.push(word);
            assert(word_views(words@) =~= word_views(before).push(view));
        }
        k += 1;
    }
    Some(DecodedGitWords { words, over_limit })
}

} // verus!
