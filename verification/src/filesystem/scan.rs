//! Which commands need a look at all.

use vstd::prelude::*;
use crate::filesystem::executable::{rm_certainty, text_certainty, RmExecutableCertainty};
use crate::filesystem::powershell::{
    find_first_word, first_word_from, powershell_remove_item_alias, removes_items,
};
use crate::shell::decode::{decoded_next, ShellTokenDecoder, ShellTokenRole};
use crate::shell::segments::{segments, split_command_segments_in_dialect, Segment};
use crate::shell::token::{at, get, tokenize_for_shell_dialect, tokens, ShellDialect};
use crate::text::{
    alnum, ascii_white, basename, chars_of, has_char, is_alnum, is_ascii_white, is_str,
    last_component, same_nocase, same_nocase_text, starts, starts_str, trim_start, trimmed_start,
};

verus! {

/// The first word of a simple command.
pub open spec fn head_word(s: Seq<char>, dialect: ShellDialect) -> Option<Seq<char>> {
    let toks = tokens(s, dialect);
    let i = first_word_from(toks, 0);
    if i < toks.len() {
        Some(toks[i].of(s))
    } else {
        None
    }
}

/// The first word of a simple command, as its dialect decodes it.
pub open spec fn head_program(s: Seq<char>, dialect: ShellDialect) -> Option<Seq<char>> {
    match head_word(s, dialect) {
        None => None,
        Some(raw) => decoded_next(raw, dialect, ShellTokenRole::Syntax, false),
    }
}

/// Whether the syntax of a POSIX command can hide that its program is `rm`.
pub open spec fn posix_hides_rm(s: Seq<char>) -> bool {
    (s.contains('$') || s.contains('`') || s.contains('\'') || s.contains('"') || s.contains('\\')
        || s.contains('*') || s.contains('?') || s.contains('[') || s.contains('{'))
        && match head_word(s, ShellDialect::Posix) {
        None => false,
        Some(raw) => rm_certainty(raw, ShellDialect::Posix) == RmExecutableCertainty::MayBeRm || {
            let program = head_program(s, ShellDialect::Posix);
            program is Some && basename(program->0) == "rm"@
        },
    }
}

/// Whether the syntax of a PowerShell command can hide that its program removes
/// items.
pub open spec fn powershell_hides_rm(s: Seq<char>) -> bool {
    let t = trimmed_start(s);
    let program = head_program(t, ShellDialect::PowerShell);
    starts(t, "&"@) || (program is Some && removes_items(program->0))
}

/// Whether the syntax of a Cmd command can hide that its program is `rm`.
pub open spec fn cmd_hides_rm(s: Seq<char>) -> bool {
    let program = head_program(s, ShellDialect::Cmd);
    program is Some && rm_certainty(program->0, ShellDialect::Cmd) != RmExecutableCertainty::Other
}

/// Whether the syntax of one of the simple commands from the `i`th on can hide a
/// removal.
pub open spec fn any_hides_rm(s: Seq<char>, segs: Seq<Segment>, i: int, dialect: ShellDialect) -> bool
    decreases segs.len() - i,
{
    if i < 0 || i >= segs.len() {
        false
    } else {
        let text = segs[i].of(s);
        (match dialect {
            ShellDialect::PowerShell => powershell_hides_rm(text),
            ShellDialect::Cmd => cmd_hides_rm(text),
            _ => posix_hides_rm(text),
        }) || any_hides_rm(s, segs, i + 1, dialect)
    }
}

/// Whether the syntax of a proven dialect can hide a removal.
pub open spec fn rm_scan_in(s: Seq<char>, dialect: ShellDialect) -> bool {
    let any = any_hides_rm(s, segments(s, dialect), 0, dialect);
    match dialect {
        ShellDialect::PowerShell => s.contains('&') || ((s.contains('`') || s.contains('@')
            || s.contains('$') || s.contains('(')) && any),
        ShellDialect::Cmd => (s.contains('^') || s.contains('%') || s.contains('!')) && any,
        _ => any,
    }
}

/// Whether shell syntax can hide a removal, in any dialect where none is proven.
pub open spec fn rm_scan(s: Seq<char>, dialect: ShellDialect) -> bool {
    if dialect == ShellDialect::Unknown {
        rm_scan_in(s, ShellDialect::Posix) || rm_scan_in(s, ShellDialect::PowerShell) || rm_scan_in(
            s,
            ShellDialect::Cmd,
        )
    } else {
        rm_scan_in(s, dialect)
    }
}

/// Where the white space at position `i` ends.
pub open spec fn ascii_white_end(s: Seq<char>, i: int) -> int
    decreases s.len() - i,
{
    if i < 0 || i >= s.len() || !is_ascii_white(s[i]) {
        i
    } else {
        ascii_white_end(s, i + 1)
    }
}

/// Whether an empty pair of parentheses stands at position `i`.
pub open spec fn empty_parens_at(s: Seq<char>, i: int) -> bool {
    at(s, i) == Some('(') && at(s, ascii_white_end(s, i + 1)) == Some(')')
}

/// Whether a command holds an empty pair of parentheses, as the definition of a
/// function does.
pub open spec fn has_empty_parens(s: Seq<char>) -> bool {
    exists|i: int| 0 <= i < s.len() && #[trigger] empty_parens_at(s, i)
}

/// Whether a command needs a look though it holds no keyword.
pub open spec fn filesystem_scan(s: Seq<char>, dialect: ShellDialect) -> bool {
    rm_scan(s, dialect) || (dialect == ShellDialect::Cmd && s.contains('>') && (s.contains('%')
        || s.contains('!') || s.contains('^'))) || has_empty_parens(s)
}

/// The first word of a simple command, as its dialect decodes it.
fn find_head_program(s: &[char], dialect: ShellDialect) -> (r: Option<Vec<char>>)
    ensures
        match r {
            Some(v) => head_program(s@, dialect) == Some(v@),
            None => head_program(s@, dialect) is None,
        },
{
    let toks = tokenize_for_shell_dialect(s, dialect);
    let i = find_first_word(&toks);
    if i >= toks.len() {
        return None;
    }
    assert(toks@[i as int].fits(s@.len() as int));
    let head = toks[i];
    let mut decoder = ShellTokenDecoder::new(dialect);
    decoder.decode(head.text(s), ShellTokenRole::Syntax)
}

/// Whether the syntax of a POSIX command can hide that its program is `rm`.
fn posix_segment_requires_rm_semantic_scan(s: &[char]) -> (r: bool)
    ensures
        r == posix_hides_rm(s@),
{
    if !(has_char(s, '$') || has_char(s, '`') || has_char(s, '\'') || has_char(s, '"') || has_char(
        s,
        '\\',
    ) || has_char(s, '*') || has_char(s, '?') || has_char(s, '[') || has_char(s, '{')) {
        return false;
    }
    let toks = tokenize_for_shell_dialect(s, ShellDialect::Posix);
    let i = find_first_word(&toks);
    if i >= toks.len() {
        return false;
    }
    assert(toks@[i as int].fits(s@.len() as int));
    let head = toks[i];
    if text_certainty(head.text(s), ShellDialect::Posix) == RmExecutableCertainty::MayBeRm {
        return true;
    }
    match find_head_program(s, ShellDialect::Posix) {
        Some(program) => is_str(last_component(program.as_slice()), "rm"),
        None => false,
    }
}

/// Whether the syntax of a PowerShell command can hide that its program removes
/// items.
fn powershell_segment_requires_rm_semantic_scan(s: &[char]) -> (r: bool)
    ensures
        r == powershell_hides_rm(s@),
{
    let t = trim_start(s);
    if starts_str(t, "&") {
        return true;
    }
    match find_head_program(t, ShellDialect::PowerShell) {
        Some(program) => powershell_remove_item_alias(program.as_slice()),
        None => false,
    }
}

/// Whether the syntax of a Cmd command can hide that its program is `rm`.
fn cmd_segment_requires_rm_semantic_scan(s: &[char]) -> (r: bool)
    ensures
        r == cmd_hides_rm(s@),
{
    match find_head_program(s, ShellDialect::Cmd) {
        Some(program) => text_certainty(program.as_slice(), ShellDialect::Cmd)
            != RmExecutableCertainty::Other,
        None => false,
    }
}

/// Whether the syntax of one of the simple commands can hide a removal.
fn some_hides_rm(s: &[char], dialect: ShellDialect) -> (r: bool)
    ensures
        r == any_hides_rm(s@, segments(s@, dialect), 0, dialect),
{
    let segs = split_command_segments_in_dialect(s, dialect);
    let mut i: usize = 0;
    while i < segs.len()
        invariant
            0 <= i <= segs.len(),
            segs@ == segments(s@, dialect),
            forall|k: int| 0 <= k < segs@.len() ==> (#[trigger] segs@[k]).fits(s@.len() as int),
            any_hides_rm(s@, segs@, 0, dialect) == any_hides_rm(s@, segs@, i as int, dialect),
        decreases segs.len() - i,
    {
        let seg = segs[i];
        assert(segs@[i as int].fits(s@.len() as int));
        let text = seg.text(s);
        if match dialect {
            ShellDialect::PowerShell => powershell_segment_requires_rm_semantic_scan(text),
            ShellDialect::Cmd => cmd_segment_requires_rm_semantic_scan(text),
            _ => posix_segment_requires_rm_semantic_scan(text),
        } {
            return true;
        }
        i += 1;
    }
    false
}

/// Whether the syntax of a proven dialect can hide a removal.
fn scan_in(s: &[char], dialect: ShellDialect) -> (r: bool)
    ensures
        r == rm_scan_in(s@, dialect),
{
    match dialect {
        ShellDialect::PowerShell => {
            if has_char(s, '&') {
                return true;
            }
            if !(has_char(s, '`') || has_char(s, '@') || has_char(s, '$') || has_char(s, '(')) {
                return false;
            }
        },
        ShellDialect::Cmd => {
            if !(has_char(s, '^') || has_char(s, '%') || has_char(s, '!')) {
                return false;
            }
        },
        _ => {},
    }
    some_hides_rm(s, dialect)
}

/// Whether shell syntax can hide a removal from a search for its name. This
/// selects candidates only.
pub fn rm_semantic_scan_required(command: &str, dialect: ShellDialect) -> (r: bool)
    ensures
        r == rm_scan(command@, dialect),
{
    let chars = chars_of(command);
    let s = chars.as_slice();
    if dialect == ShellDialect::Unknown {
        scan_in(s, ShellDialect::Posix) || scan_in(s, ShellDialect::PowerShell) || scan_in(
            s,
            ShellDialect::Cmd,
        )
    } else {
        scan_in(s, dialect)
    }
}

/// Whether a command needs a look though it holds no keyword.
pub fn filesystem_semantic_scan_required(command: &str, dialect: ShellDialect) -> (r: bool)
    ensures
        r == filesystem_scan(command@, dialect),
{
    let chars = chars_of(command);
    let s = chars.as_slice();
    rm_semantic_scan_required(command, dialect) || (dialect == ShellDialect::Cmd && has_char(s, '>')
        && (has_char(s, '%') || has_char(s, '!') || has_char(s, '^')))
        || command_contains_empty_paren_pair(command)
}

/// Whether a command holds an empty pair of parentheses, with nothing but white
/// space between them: the one part of a function's definition that no keyword
/// shows.
pub fn command_contains_empty_paren_pair(command: &str) -> (r: bool)
    ensures
        r == has_empty_parens(command@),
{
    let s = chars_of(command);
    let mut i: usize = 0;
    while i < s.len()
        invariant
            0 <= i <= s.len(),
            s@ == command@,
            forall|j: int| 0 <= j < i ==> !(#[trigger] empty_parens_at(s@, j)),
        decreases s.len() - i,
    {
        if s[i] == '(' {
            let ghost from = i + 1;
            let mut j: usize = i + 1;
            while j < s.len() && ascii_white(s[j])
                invariant
                    from <= j <= s.len(),
                    ascii_white_end(s@, from as int) == ascii_white_end(s@, j as int),
                decreases s.len() - j,
            {
                j += 1;
            }
            if get(s.as_slice(), j) == Some(')') {
                assert(empty_parens_at(s@, i as int));
                return true;
            }
        }
        i += 1;
    }
    false
}

/// A character of a word in patterns.
pub open spec fn is_word_char(c: char) -> bool {
    is_alnum(c) || c == '_'
}

/// Whether a word stands at position `i`, in capital or small letters, with no
/// word character next to it.
pub open spec fn word_at(s: Seq<char>, i: int, word: Seq<char>) -> bool {
    &&& 0 <= i
    &&& i + word.len() <= s.len()
    &&& same_nocase(s.subrange(i, i + word.len()), word)
    &&& i == 0 || !is_word_char(s[i - 1])
    &&& i + word.len() == s.len() || !is_word_char(s[i + word.len()])
}

/// Whether a command holds a word.
pub open spec fn has_command_word(s: Seq<char>, word: Seq<char>) -> bool {
    exists|i: int| #[trigger] word_at(s, i, word)
}

/// Whether a command holds a word that the rules on files look for.
pub open spec fn keyword_candidate(s: Seq<char>) -> bool {
    s.contains('>') || has_command_word(s, "rm"@) || has_command_word(s, "find"@)
        || has_command_word(s, "unlink"@) || has_command_word(s, "truncate"@) || has_command_word(
        s,
        "shred"@,
    ) || has_command_word(s, "tar"@) || has_command_word(s, "dd"@) || has_command_word(s, "mv"@)
        || has_command_word(s, "cp"@) || has_command_word(s, "ln"@) || has_command_word(s, "rsync"@)
}

/// Whether a command holds a word.
fn contains_ascii_command_word(s: &[char], word: &str) -> (r: bool)
    ensures
        r == has_command_word(s@, word@),
{
    let w = chars_of(word);
    let n = w.len();
    if s.len() < n {
        return false;
    }
    let mut i: usize = 0;
    loop
        invariant
            w@ == word@,
            n == w.len(),
            n <= s.len(),
            0 <= i <= s.len() - n,
            forall|j: int| 0 <= j < i ==> !(#[trigger] word_at(s@, j, word@)),
        decreases s.len() - i,
    {
        if same_nocase_text(vstd::slice::slice_subrange(s, i, i + n), w.as_slice()) && (i == 0 || !(
        alnum(s[i - 1]) || s[i - 1] == '_')) && (i + n == s.len() || !(alnum(s[i + n]) || s[i + n]
            == '_')) {
            assert(word_at(s@, i as int, word@));
            return true;
        }
        assert(!word_at(s@, i as int, word@));
        if i >= s.len() - n {
            return false;
        }
        i += 1;
    }
}

/// Whether a command holds a word that the rules on files look for. A keyword
/// that is part of a longer word does not count.
pub fn filesystem_keyword_candidate(command: &str) -> (r: bool)
    ensures
        r == keyword_candidate(command@),
{
    let chars = chars_of(command);
    let s = chars.as_slice();
    has_char(s, '>') || contains_ascii_command_word(s, "rm") || contains_ascii_command_word(s, "find")
        || contains_ascii_command_word(s, "unlink") || contains_ascii_command_word(s, "truncate")
        || contains_ascii_command_word(s, "shred") || contains_ascii_command_word(s, "tar")
        || contains_ascii_command_word(s, "dd") || contains_ascii_command_word(s, "mv")
        || contains_ascii_command_word(s, "cp") || contains_ascii_command_word(s, "ln")
        || contains_ascii_command_word(s, "rsync")
}

} // verus!
