//! Whether a command runs Git, and the Git command that it runs.

use vstd::prelude::*;
use crate::git::command::{
    contains_git_ascii_case_insensitive, frontend_bail_may_execute_git, git_program_from,
    is_launcher, launcher, mentions_git, semantic_git_executable_index, wrapper_may_run_git,
};
use crate::git::control::{command_after_posix_control_prefixes, introduced_command};
use crate::git::expansion::{
    decode_git_semantic_words, expands, git_token_has_active_expansion, semantic_words,
    too_many_words,
};
use crate::git::powershell::{
    assignment_value, call_operand, find_call_operand, is_dynamic_call, is_inert_expression,
    powershell_assignment_rhs, powershell_dynamic_call_operator,
    powershell_expression_statement_without_subexpression,
};
use crate::git::substitution::{
    posix_substitution_view, resolution, resolve_literal_printf_substitutions, substitution_view,
    Resolution,
};
use crate::git::symbolic::{
    symbolic_posix_words, symbols, symbols_of, SymbolView, SymbolicPosixWord,
};
use crate::shell::token::{tokenize_for_shell_dialect, tokens, NormalizeToken, ShellDialect};
use crate::shell::words::shell_split;
use crate::shell::wrappers::{
    env_assignment, frontend_named, is_env_assignment, is_posix_execution_frontend_basename,
    strip_wrapper_prefixes, without_wrappers,
};
use crate::text::{
    basename, chars_of, contains_text, from_index, has_char, has_str, last_component, rest, trim,
    trimmed,
};

verus! {

/// Whether a word among the tokens from the `k`th on is expanded by the shell.
pub open spec fn any_expansion(
    s: Seq<char>,
    toks: Seq<NormalizeToken>,
    k: int,
    dialect: ShellDialect,
) -> bool
    decreases toks.len() - k,
{
    if k < 0 || k >= toks.len() {
        false
    } else if toks[k].word() && expands(toks[k].of(s), dialect) {
        true
    } else {
        any_expansion(s, toks, k + 1, dialect)
    }
}

/// Whether the syntax of a proven dialect can hide Git from a search for its
/// name: escapes, computed calls, or words that the shell expands.
pub open spec fn can_hide_git_in(s: Seq<char>, dialect: ShellDialect) -> bool {
    let hidden = match dialect {
        ShellDialect::Posix => contains_text(s, "$'"@) || contains_text(s, "$\""@),
        ShellDialect::PowerShell => s.contains('`') || is_dynamic_call(s),
        ShellDialect::Cmd => s.contains('^'),
        ShellDialect::Unknown => true,
    };
    hidden || any_expansion(s, tokens(s, dialect), 0, dialect)
}

/// Whether shell syntax can hide Git from a search for its name, in any dialect
/// where none is proven.
pub open spec fn can_hide_git(s: Seq<char>, dialect: ShellDialect) -> bool {
    if dialect == ShellDialect::Unknown {
        can_hide_git_in(s, ShellDialect::Posix) || can_hide_git_in(s, ShellDialect::PowerShell)
            || can_hide_git_in(s, ShellDialect::Cmd)
    } else {
        can_hide_git_in(s, dialect)
    }
}

/// Whether the syntax of a proven dialect can hide Git.
fn hides_git_in(s: &[char], dialect: ShellDialect) -> (r: bool)
    ensures
        r == can_hide_git_in(s@, dialect),
{
    let hidden = match dialect {
        ShellDialect::Posix => has_str(s, "$'") || has_str(s, "$\""),
        ShellDialect::PowerShell => has_char(s, '`') || powershell_dynamic_call_operator(s),
        ShellDialect::Cmd => has_char(s, '^'),
        ShellDialect::Unknown => true,
    };
    if hidden {
        return true;
    }
    let toks = tokenize_for_shell_dialect(s, dialect);
    let mut k: usize = 0;
    while k < toks.len()
        invariant
            0 <= k <= toks.len(),
            toks@ == tokens(s@, dialect),
            forall|j: int| 0 <= j < toks@.len() ==> (#[trigger] toks@[j]).fits(s@.len() as int),
            can_hide_git_in(s@, dialect) == any_expansion(s@, toks@, k as int, dialect),
        decreases toks.len() - k,
    {
        let t = toks[k];
        assert(toks@[k as int].fits(s@.len() as int));
        if t.is_word() && git_token_has_active_expansion(t.text(s), dialect) {
            return true;
        }
        k += 1;
    }
    false
}

/// Whether shell syntax can hide Git from a search for its name.
pub fn scan_required(s: &[char], dialect: ShellDialect) -> (r: bool)
    ensures
        r == can_hide_git(s@, dialect),
{
    if dialect == ShellDialect::Unknown {
        hides_git_in(s, ShellDialect::Posix) || hides_git_in(s, ShellDialect::PowerShell)
            || hides_git_in(s, ShellDialect::Cmd)
    } else {
        hides_git_in(s, dialect)
    }
}

/// Whether shell syntax can hide a Git program, subcommand or option from a
/// search for its name. This selects candidates only.
pub fn git_semantic_scan_required(command: &str, dialect: ShellDialect) -> (r: bool)
    ensures
        r == can_hide_git(command@, dialect),
{
    let s = chars_of(command);
    scan_required(s.as_slice(), dialect)
}

/// The statement that a command is, behind a PowerShell assignment.
pub open spec fn statement(s: Seq<char>, dialect: ShellDialect) -> Seq<char> {
    let t = introduced_command(trimmed(s), dialect);
    if dialect == ShellDialect::PowerShell {
        match assignment_value(t) {
            Some(v) => v,
            None => t,
        }
    } else {
        t
    }
}

/// The statement that a command is, behind a PowerShell assignment.
pub fn find_statement<'a>(s: &'a [char], dialect: ShellDialect) -> (r: &'a [char])
    ensures
        r@ == statement(s@, dialect),
{
    let (t, _o) = command_after_posix_control_prefixes(trim(s), dialect);
    if dialect == ShellDialect::PowerShell {
        match powershell_assignment_rhs(t) {
            Some(v) => v,
            None => t,
        }
    } else {
        t
    }
}

/// A command behind its call operator.
pub open spec fn behind_call(s: Seq<char>) -> Seq<char> {
    if s.len() > 0 && s[0] == '&' && call_operand(s) is Some {
        rest(s, call_operand(s)->0)
    } else {
        s
    }
}

/// A command behind its call operator.
pub fn skip_call<'a>(s: &'a [char]) -> (r: &'a [char])
    ensures
        r@ == behind_call(s@),
{
    if s.len() > 0 && s[0] == '&' {
        match find_call_operand(s) {
            Some(i) => from_index(s, i),
            None => s,
        }
    } else {
        s
    }
}

/// The command that the Git analysis reads: behind control-flow words, an
/// assignment, a call operator and wrapping programs, as the dialect has them.
pub open spec fn git_command(s: Seq<char>, dialect: ShellDialect) -> Seq<char> {
    let t = statement(s, dialect);
    match dialect {
        ShellDialect::PowerShell => behind_call(t),
        ShellDialect::Posix => without_wrappers(t),
        _ => t,
    }
}

/// The command that the Git analysis reads.
pub fn git_semantic_command<'a>(s: &'a [char], dialect: ShellDialect) -> (r: &'a [char])
    ensures
        r@ == git_command(s@, dialect),
{
    let t = find_statement(s, dialect);
    match dialect {
        ShellDialect::PowerShell => skip_call(t),
        ShellDialect::Posix => strip_wrapper_prefixes(t),
        _ => t,
    }
}

/// A word with marks that may name Git.
pub open spec fn symbol_may_be_git(word: SymbolView) -> bool {
    let p = word.program();
    p.could_be("git"@) || p.could_be("git.exe"@) || p.could_be("git-branch"@) || p.could_be(
        "git-branch.exe"@,
    )
}

/// Whether the words with marks from the `i`th on may run Git; `scanning` tells
/// whether a wrapping program stood before them.
pub open spec fn symbols_may_run_git(words: Seq<SymbolView>, i: int, scanning: bool) -> bool
    decreases words.len() - i,
{
    if i < 0 || i >= words.len() {
        false
    } else {
        let literal = words[i].literal();
        if !scanning && literal is Some && (env_assignment(literal->0) || is_launcher(literal->0)) {
            symbols_may_run_git(words, i + 1, scanning)
        } else if symbol_may_be_git(words[i]) {
            true
        } else if scanning {
            symbols_may_run_git(words, i + 1, true)
        } else if literal is Some && frontend_named(basename(literal->0)) is Some {
            symbols_may_run_git(words, i + 1, true)
        } else {
            false
        }
    }
}

/// Whether a POSIX command with unknown substitutions may run Git.
pub open spec fn symbolic_may_run_git(s: Seq<char>) -> bool {
    match substitution_view(without_wrappers(s)) {
        None => true,
        Some((out, _dynamic)) => match shell_split(out) {
            None => true,
            Some(words) => symbols_may_run_git(symbols_of(words), 0, false),
        },
    }
}

/// Whether a word with marks may name Git.
fn symbol_names_git(word: &SymbolicPosixWord) -> (r: bool)
    ensures
        r == symbol_may_be_git(word@),
{
    let p = word.basename();
    p.may_equal("git") || p.may_equal("git.exe") || p.may_equal("git-branch") || p.may_equal(
        "git-branch.exe",
    )
}

/// Whether a POSIX command with unknown substitutions may run Git.
pub fn symbolic_posix_may_execute_git(s: &[char]) -> (r: bool)
    ensures
        r == symbolic_may_run_git(s@),
{
    let view = match posix_substitution_view(strip_wrapper_prefixes(s)) {
        None => {
            return true;
        },
        Some(v) => v,
    };
    let words = match symbolic_posix_words(&view) {
        None => {
            return true;
        },
        Some(w) => w,
    };
    let ghost views = symbols(words@);
    let mut scanning = false;
    let mut i: usize = 0;
    while i < words.len()
        invariant
            0 <= i <= words.len(),
            views == symbols(words@),
            symbolic_may_run_git(s@) == symbols_may_run_git(views, i as int, scanning),
        decreases words.len() - i,
    {
        let word = &words[i];
        assert(views[i as int] == word@);
        let dynamic = word.is_dynamic();
        if !scanning && !dynamic && (is_env_assignment(word.text.as_slice()) || launcher(
            word.text.as_slice(),
        )) {
            i += 1;
            continue ;
        }
        if symbol_names_git(word) {
            return true;
        }
        if !scanning {
            if !dynamic && is_posix_execution_frontend_basename(
                last_component(word.text.as_slice()),
            ) {
                scanning = true;
            } else {
                return false;
            }
        }
        i += 1;
    }
    false
}

/// Whether a command without unknown substitutions runs Git.
pub open spec fn plainly_runs_git(s: Seq<char>, dialect: ShellDialect) -> bool {
    let t = statement(s, dialect);
    if dialect == ShellDialect::PowerShell && is_inert_expression(t) {
        false
    } else {
        let u = behind_call(t);
        let c = if dialect == ShellDialect::Posix {
            without_wrappers(u)
        } else {
            u
        };
        match semantic_words(c, dialect) {
            None => true,
            Some(words) => if too_many_words(c, dialect) {
                mentions_git(c) || can_hide_git(c, dialect)
            } else {
                git_program_from(words, 0, dialect) is Some || (dialect == ShellDialect::Posix
                    && wrapper_may_run_git(words, dialect))
            },
        }
    }
}

/// Whether a command runs Git, or may run it as far as is known. Every command
/// of no proven dialect may.
pub open spec fn runs_git(s: Seq<char>, dialect: ShellDialect) -> bool {
    if dialect == ShellDialect::Unknown {
        true
    } else if dialect == ShellDialect::Posix {
        match resolution(s) {
            None => symbolic_may_run_git(s),
            Some(None) => plainly_runs_git(s, dialect),
            Some(Some(t)) => plainly_runs_git(t, dialect),
        }
    } else {
        plainly_runs_git(s, dialect)
    }
}

/// Whether a command without unknown substitutions runs Git.
fn executes_git(s: &[char], dialect: ShellDialect) -> (r: bool)
    ensures
        r == plainly_runs_git(s@, dialect),
{
    let t = find_statement(s, dialect);
    if dialect == ShellDialect::PowerShell && powershell_expression_statement_without_subexpression(
        t,
    ) {
        return false;
    }
    let u = skip_call(t);
    let c = if dialect == ShellDialect::Posix {
        strip_wrapper_prefixes(u)
    } else {
        u
    };
    match decode_git_semantic_words(c, dialect) {
        None => true,
        Some(decoded) => {
            if decoded.over_limit {
                return contains_git_ascii_case_insensitive(c) || scan_required(c, dialect);
            }
            semantic_git_executable_index(&decoded.words, dialect).is_some() || (dialect
                == ShellDialect::Posix && frontend_bail_may_execute_git(&decoded.words, dialect))
        },
    }
}

/// Whether a command runs Git, or may run it as far as is known.
pub fn text_executes_git(s: &[char], dialect: ShellDialect) -> (r: bool)
    ensures
        r == runs_git(s@, dialect),
{
    if dialect == ShellDialect::Unknown {
        return true;
    }
    if dialect == ShellDialect::Posix {
        match resolve_literal_printf_substitutions(s) {
            Resolution::Open => symbolic_posix_may_execute_git(s),
            Resolution::Unchanged => executes_git(s, dialect),
            Resolution::Resolved(t) => executes_git(t.as_slice(), dialect),
        }
    } else {
        executes_git(s, dialect)
    }
}

/// Whether a command of a proven dialect runs Git as its program. Text that is
/// only an argument of another program is not Git.
pub fn command_executes_git_in_dialect(command: &str, dialect: ShellDialect) -> (r: bool)
    ensures
        r == runs_git(command@, dialect),
{
    let s = chars_of(command);
    text_executes_git(s.as_slice(), dialect)
}

} // verus!
