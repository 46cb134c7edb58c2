//! The text of a Git command that patterns are matched against.

use vstd::prelude::*;
use crate::git::branch::{append_decoded, behind_ampersand, branch_tokens, decoded_from, raw_words};
use crate::git::command::{
    decoded_words_execute_git, git_program_from, semantic_git_executable_index, words_run_git,
};
use crate::git::control::{command_after_posix_control_prefixes, introduced_command};
use crate::git::expansion::{
    decode_git_semantic_words, may_be_git_branch, names_git_branch, semantic_words, too_many_words,
    word_views, GitSemanticWord, WordView,
};
use crate::git::powershell::{
    call_tail, call_target, is_call_expression, powershell_call_expression,
    powershell_call_expression_tail, powershell_call_target, PowerShellCallTarget,
};
use crate::git::semantic::{git_command, git_semantic_command};
use crate::git::substitution::{resolution, resolve_literal_printf_substitutions, Resolution};
use crate::shell::token::ShellDialect;
use crate::shell::words::{quote_word, shell_quote};
use crate::shell::wrappers::{normalize_text, normalized, strip_wrapper_prefixes, without_wrappers};
use crate::text::{
    chars_of, copy_of, from_index, join, joined, push_all, text_of, texts, trim, trim_start,
    trimmed,
};

verus! {

/// The decoded texts of the words of a command.
pub open spec fn decoded_texts(words: Seq<WordView>) -> Seq<Seq<char>> {
    Seq::new(words.len(), |i: int| words[i].decoded)
}

/// The Git command that a PowerShell call expression with the given tail stands
/// for.
pub open spec fn called_git(s: Seq<char>, tail: Seq<char>) -> Seq<char> {
    if call_target(s) == PowerShellCallTarget::GitBranch {
        "git branch "@ + tail
    } else {
        "git "@ + tail
    }
}

/// The words of a simple command with their quotes and escapes taken away, and
/// one space between them. `resolved` tells that known substitutions stood in it.
pub open spec fn simple_view(t: Seq<char>, dialect: ShellDialect, resolved: bool) -> Option<Seq<char>> {
    let u = behind_ampersand(t);
    match raw_words(u, dialect) {
        None => None,
        Some(raw) => {
            let words = decoded_from(raw, 0, dialect, false, Seq::empty());
            if words.len() == 0 {
                None
            } else if resolved && !words_run_git(words, 0) {
                Some("__dcg_non_git_command__"@)
            } else {
                let c = if dialect == ShellDialect::Posix {
                    without_wrappers(u)
                } else {
                    u
                };
                Some(normalized(joined(named_words(c, dialect, words))))
            }
        },
    }
}

/// The words of a command, with `git` for a program that an expansion computes
/// and that may be Git.
pub open spec fn named_words(c: Seq<char>, dialect: ShellDialect, words: Seq<Seq<char>>) -> Seq<
    Seq<char>,
> {
    match semantic_words(c, dialect) {
        None => words,
        Some(semantic) => match git_program_from(semantic, 0, dialect) {
            Some(k) => if !too_many_words(c, dialect) && semantic[k].dynamic {
                decoded_texts(semantic).update(k, "git"@)
            } else {
                words
            },
            None => words,
        },
    }
}

/// The text that patterns are matched against, of a command whose known
/// substitutions are replaced.
pub open spec fn settled_view(s: Seq<char>, dialect: ShellDialect, resolved: bool) -> Option<Seq<char>> {
    if dialect == ShellDialect::Unknown {
        Some(s)
    } else {
        let t = introduced_command(trimmed(s), dialect);
        if dialect == ShellDialect::PowerShell && is_call_expression(t) {
            match call_tail(t) {
                None => None,
                Some(tail) => if call_target(t) == PowerShellCallTarget::NonGit {
                    Some(normalized("__dcg_non_git_command__"@))
                } else {
                    Some(normalized(called_git(t, tail)))
                },
            }
        } else {
            simple_view(t, dialect, resolved)
        }
    }
}

/// The text that patterns are matched against.
pub open spec fn syntax_view(s: Seq<char>, dialect: ShellDialect) -> Option<Seq<char>> {
    if dialect == ShellDialect::Posix || dialect == ShellDialect::Unknown {
        match resolution(s) {
            Some(Some(t)) => settled_view(t, ShellDialect::Posix, true),
            _ => settled_view(s, dialect, false),
        }
    } else {
        settled_view(s, dialect, false)
    }
}

/// The Git command that a PowerShell call expression with the given tail stands
/// for.
fn make_called_git(s: &[char], tail: &[char]) -> (r: Vec<char>)
    ensures
        r@ == called_git(s@, tail@),
{
    let mut c = if powershell_call_target(s) == PowerShellCallTarget::GitBranch {
        chars_of("git branch ")
    } else {
        chars_of("git ")
    };
    push_all(&mut c, tail);
    c
}

/// The decoded texts of the words of a command, with `git` for the `program`th.
fn texts_with_git(words: &Vec<GitSemanticWord>, program: usize) -> (r: Vec<Vec<char>>)
    requires
        program < words.len(),
    ensures
        texts(r@) == decoded_texts(word_views(words@)).update(program as int, "git"@),
{
    let mut v: Vec<Vec<char>> = Vec::new();
    let mut i: usize = 0;
    while i < words.len()
        invariant
            0 <= i <= words.len(),
            program < words.len(),
            v@.len() == i,
            forall|k: int|
                0 <= k < i ==> (#[trigger] v@[k])@ == (if k == program {
                    "git"@
                } else {
                    words@[k].decoded@
                }),
        decreases words.len() - i,
    {
        if i == program {
            v.push(chars_of("git"));
        } else {
            v.push(copy_of(words[i].decoded.as_slice()));
        }
        i += 1;
    }
    assert(texts(v@) =~= decoded_texts(word_views(words@)).update(program as int, "git"@));
    v
}

/// The words of a command, with `git` for a program that an expansion computes
/// and that may be Git.
fn name_words(c: &[char], dialect: ShellDialect, words: Vec<Vec<char>>) -> (r: Vec<Vec<char>>)
    ensures
        texts(r@) == named_words(c@, dialect, texts(words@)),
{
    match decode_git_semantic_words(c, dialect) {
        None => words,
        Some(semantic) => {
            if semantic.over_limit {
                return words;
            }
            match semantic_git_executable_index(&semantic.words, dialect) {
                None => words,
                Some(k) => {
                    assert(word_views(semantic.words@)[k as int] == semantic.words@[k as int]@);
                    if semantic.words[k].dynamic {
                        texts_with_git(&semantic.words, k)
                    } else {
                        words
                    }
                },
            }
        },
    }
}

/// The words of a simple command with their quotes and escapes taken away.
fn view_simple(t: &[char], dialect: ShellDialect, resolved: bool) -> (r: Option<Vec<char>>)
    requires
        dialect != ShellDialect::Unknown,
    ensures
        match r {
            Some(v) => simple_view(t@, dialect, resolved) == Some(v@),
            None => simple_view(t@, dialect, resolved) is None,
        },
{
    let mut u = t;
    if t.len() > 0 && t[0] == '&' {
        let behind = trim_start(from_index(t, 1));
        if behind.len() > 0 {
            u = behind;
        }
    }
    let raw = match branch_tokens(u, dialect) {
        None => {
            return None;
        },
        Some(v) => v,
    };
    let mut words: Vec<Vec<char>> = Vec::new();
    assert(texts(words@) =~= Seq::<Seq<char>>::empty());
    append_decoded(&raw, 0, dialect, false, &mut words);
    if words.len() == 0 {
        return None;
    }
    if resolved && !decoded_words_execute_git(&words) {
        return Some(chars_of("__dcg_non_git_command__"));
    }
    let c = if dialect == ShellDialect::Posix {
        strip_wrapper_prefixes(u)
    } else {
        u
    };
    let named = name_words(c, dialect, words);
    let text = join(&named);
    Some(normalize_text(text.as_slice()))
}

/// The text that patterns are matched against, of a command whose known
/// substitutions are replaced.
fn view_settled(s: &[char], dialect: ShellDialect, resolved: bool) -> (r: Option<Vec<char>>)
    ensures
        match r {
            Some(v) => settled_view(s@, dialect, resolved) == Some(v@),
            None => settled_view(s@, dialect, resolved) is None,
        },
{
    if dialect == ShellDialect::Unknown {
        return Some(copy_of(s));
    }
    let (t, _offset) = command_after_posix_control_prefixes(trim(s), dialect);
    if dialect == ShellDialect::PowerShell && powershell_call_expression(t) {
        return match powershell_call_expression_tail(t) {
            None => None,
            Some(tail) => {
                let c = if powershell_call_target(t) == PowerShellCallTarget::NonGit {
                    chars_of("__dcg_non_git_command__")
                } else {
                    make_called_git(t, tail)
                };
                Some(normalize_text(c.as_slice()))
            },
        };
    }
    view_simple(t, dialect, resolved)
}

/// The text that patterns are matched against, over texts.
pub fn text_syntax_view(s: &[char], dialect: ShellDialect) -> (r: Option<Vec<char>>)
    ensures
        match r {
            Some(v) => syntax_view(s@, dialect) == Some(v@),
            None => syntax_view(s@, dialect) is None,
        },
{
    if dialect == ShellDialect::Posix || dialect == ShellDialect::Unknown {
        match resolve_literal_printf_substitutions(s) {
            Resolution::Resolved(t) => view_settled(t.as_slice(), ShellDialect::Posix, true),
            _ => view_settled(s, dialect, false),
        }
    } else {
        view_settled(s, dialect, false)
    }
}

/// The text of a Git command that patterns are matched against, so that quotes
/// and escapes of a proven dialect hide nothing. Positions in it say nothing
/// about positions in the command.
pub fn syntax_view_in_dialect(command: &str, dialect: ShellDialect) -> (r: Option<String>)
    ensures
        match r {
            Some(v) => syntax_view(command@, dialect) == Some(v@),
            None => syntax_view(command@, dialect) is None,
        },
{
    let s = chars_of(command);
    match text_syntax_view(s.as_slice(), dialect) {
        None => None,
        Some(v) => Some(text_of(v.as_slice())),
    }
}

/// Where the text that patterns are matched against comes from.
pub enum PatternSource {
    /// The masked command.
    Masked,
    /// There is none.
    Missing,
    /// A rebuilt command of this dialect.
    Rebuilt(Seq<char>, ShellDialect),
}

/// The quoted texts of the words from the `i`th on, with a space before each,
/// behind `out`.
pub open spec fn quoted_from(words: Seq<WordView>, i: int, out: Seq<char>) -> Seq<char>
    decreases words.len() - i,
{
    if i < 0 || i >= words.len() {
        out
    } else {
        quoted_from(words, i + 1, out.push(' ') + shell_quote(words[i].decoded))
    }
}

/// Whether a word from the `i`th on is expanded by the shell.
pub open spec fn dynamic_from(words: Seq<WordView>, i: int) -> bool {
    exists|k: int| i <= k < words.len() && (#[trigger] words[k]).dynamic
}

/// Where the text that patterns are matched against comes from. A Git command
/// whose arguments are all literal is rebuilt from its words; a word that is
/// expanded keeps the masked command.
pub open spec fn pattern_source(s: Seq<char>, dialect: ShellDialect) -> PatternSource {
    if dialect == ShellDialect::Unknown {
        PatternSource::Masked
    } else if dialect == ShellDialect::PowerShell && is_call_expression(s) {
        match call_tail(s) {
            None => PatternSource::Missing,
            Some(tail) => if call_target(s) == PowerShellCallTarget::NonGit {
                PatternSource::Masked
            } else {
                PatternSource::Rebuilt(called_git(s, tail), ShellDialect::PowerShell)
            },
        }
    } else {
        let c = git_command(s, dialect);
        match semantic_words(c, dialect) {
            None => PatternSource::Masked,
            Some(words) => match git_program_from(words, 0, dialect) {
                None => PatternSource::Masked,
                Some(k) => if too_many_words(c, dialect) || dynamic_from(words, k + 1) {
                    PatternSource::Masked
                } else {
                    PatternSource::Rebuilt(
                        quoted_from(
                            words,
                            k + 1,
                            if may_be_git_branch(words[k], dialect) {
                                "git branch"@
                            } else {
                                "git"@
                            },
                        ),
                        ShellDialect::Posix,
                    )
                },
            },
        }
    }
}

/// A command that stands for another in pattern matching.
pub struct RebuiltCommand {
    /// Its text.
    pub text: Vec<char>,
    /// Its dialect.
    pub dialect: ShellDialect,
}

/// The rebuilt command, or none with whether the masked command takes its place.
fn rebuild(s: &[char], dialect: ShellDialect) -> (r: (Option<RebuiltCommand>, bool))
    ensures
        match r {
            (Some(c), masked) => !masked && pattern_source(s@, dialect) == PatternSource::Rebuilt(
                c.text@,
                c.dialect,
            ),
            (None, masked) => pattern_source(s@, dialect) == (if masked {
                PatternSource::Masked
            } else {
                PatternSource::Missing
            }),
        },
{
    if dialect == ShellDialect::Unknown {
        return (None, true);
    }
    if dialect == ShellDialect::PowerShell && powershell_call_expression(s) {
        return match powershell_call_expression_tail(s) {
            None => (None, false),
            Some(tail) => {
                if powershell_call_target(s) == PowerShellCallTarget::NonGit {
                    (None, true)
                } else {
                    (
                        Some(
                            RebuiltCommand {
                                text: make_called_git(s, tail),
                                dialect: ShellDialect::PowerShell,
                            },
                        ),
                        false,
                    )
                }
            },
        };
    }
    let c = git_semantic_command(s, dialect);
    let decoded = match decode_git_semantic_words(c, dialect) {
        None => {
            return (None, true);
        },
        Some(d) => d,
    };
    if decoded.over_limit {
        return (None, true);
    }
    let words = decoded.words;
    let ghost views = word_views(words@);
    let k = match semantic_git_executable_index(&words, dialect) {
        None => {
            return (None, true);
        },
        Some(k) => k,
    };
    assert(views[k as int] == words@[k as int]@);
    let mut text = if names_git_branch(&words[k], dialect) {
        chars_of("git branch")
    } else {
        chars_of("git")
    };
    let ghost start = text@;
    let mut i: usize = k + 1;
    while i < words.len()
        invariant
            k < i <= words.len(),
            views == word_views(words@),
            views.len() == words@.len(),
            dialect != ShellDialect::Unknown,
            !(dialect == ShellDialect::PowerShell && is_call_expression(s@)),
            semantic_words(git_command(s@, dialect), dialect) == Some(views),
            git_program_from(views, 0, dialect) == Some(k as int),
            forall|j: int| k < j < i ==> !(#[trigger] views[j]).dynamic,
            quoted_from(views, k + 1, start) == quoted_from(views, i as int, text@),
        decreases words.len() - i,
    {
        assert(views[i as int] == words@[i as int]@);
        if words[i].dynamic {
            return (None, true);
        }
        let quoted = quote_word(words[i].decoded.as_slice());
        text.push(' ');
        push_all(&mut text, quoted.as_slice());
        i += 1;
    }
    (Some(RebuiltCommand { text, dialect: ShellDialect::Posix }), false)
}

/// The Git command whose arguments are to be masked before patterns are matched
/// against it, where the command is rebuilt from its words.
pub fn rebuilt_git_command(command: &str, dialect: ShellDialect) -> (r: Option<String>)
    ensures
        match r {
            Some(v) => pattern_source(command@, dialect) is Rebuilt && pattern_source(
                command@,
                dialect,
            )->Rebuilt_0 == v@,
            None => !(pattern_source(command@, dialect) is Rebuilt),
        },
{
    let s = chars_of(command);
    match rebuild(s.as_slice(), dialect) {
        (Some(c), _masked) => Some(text_of(c.text.as_slice())),
        (None, _masked) => None,
    }
}

/// The text of a Git command that patterns are matched against, with arguments
/// that are only data masked: `masked_command` is the command with such arguments
/// masked, and `masked_rebuilt` is the rebuilt command with them masked, where
/// there is one.
pub fn syntax_view_for_pattern_matching(
    command: &str,
    masked_command: &str,
    masked_rebuilt: &str,
    dialect: ShellDialect,
) -> (r: Option<String>)
    ensures
        ({
            let view = match pattern_source(command@, dialect) {
                PatternSource::Masked => syntax_view(masked_command@, dialect),
                PatternSource::Missing => None,
                PatternSource::Rebuilt(_text, d) => syntax_view(masked_rebuilt@, d),
            };
            match r {
                Some(v) => view == Some(v@),
                None => view is None,
            }
        }),
{
    let s = chars_of(command);
    match rebuild(s.as_slice(), dialect) {
        (Some(c), _masked) => syntax_view_in_dialect(masked_rebuilt, c.dialect),
        (None, masked) => {
            if masked {
                syntax_view_in_dialect(masked_command, dialect)
            } else {
                None
            }
        },
    }
}

} // verus!
