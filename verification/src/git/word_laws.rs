//! The words that the Git analysis treats in a way of its own.

use vstd::prelude::*;
use crate::filesystem::plain::{plain_words_are_one_command, plain_words_are_tokens};
use crate::git::alias::{segment_alias, AliasView};
use crate::git::branch::dynamic_word_may_mutate;
use crate::git::branch_laws::{clusters_are_read_letter_by_letter, is_mutating_letter};
use crate::git::command::{is_dispatchable, is_launcher, mentions_git};
use crate::git::control::{is_git_name, is_prefix_word};
use crate::git::cross::{
    config_key_from, is_config_change, is_config_read, is_control_word, visible_alias,
};
use crate::git::expansion::{has_separator, too_many_words, word_may_equal, WordView};
use crate::git::options::{argument_step, BranchMutationState, OptionStep, ValueWord};
use crate::git::plain::{
    are_plain_words, plain_git_command, plain_text_bytes, spaced, spaced_is_plain,
};
use crate::git::symbolic::{option_may_mutate, SymbolView};
use crate::shell::token::{tokens, ShellDialect};
use crate::text::{byte_len, is_alnum, lowered, same_nocase, starts};

verus! {

/// An option of `git branch` of one letter that deletes or forces, or one of the
/// spellings of `--delete` and `--force` that Git takes for these and no other.
pub open spec fn is_mutating_spelling(o: Seq<char>) -> bool {
    o == "-d"@ || o == "-D"@ || o == "-f"@ || o == "-M"@ || o == "-C"@ || o == "--d"@
        || o == "--de"@
        || o == "--del"@ || o == "--dele"@ || o == "--delet"@ || o == "--delete"@ || o == "--forc"@
        || o == "--force"@
}

/// A word that the shell expands may delete or force where it may become more than
/// one word, or where it may become one of the spellings of an option that does.
pub proof fn expanded_words_may_become_mutating_options(word: WordView, dialect: ShellDialect)
    ensures
        dynamic_word_may_mutate(word, dialect) <==> word.may_split || exists|o: Seq<char>|
            #[trigger] is_mutating_spelling(o) && word_may_equal(word, dialect, o, false),
{
    assert(is_mutating_spelling("-d"@) && is_mutating_spelling("-D"@) && is_mutating_spelling("-f"@)
        && is_mutating_spelling("-M"@) && is_mutating_spelling("-C"@) && is_mutating_spelling("--d"@)
        && is_mutating_spelling("--de"@) && is_mutating_spelling("--del"@) && is_mutating_spelling(
        "--dele"@,
    ) && is_mutating_spelling("--delet"@) && is_mutating_spelling("--delete"@)
        && is_mutating_spelling("--forc"@) && is_mutating_spelling("--force"@));
}

/// The letters among these spellings delete or force, whatever else is done.
pub proof fn mutating_letters_mutate(c: char, m: BranchMutationState)
    requires
        is_mutating_letter(c),
    ensures
        argument_step("-"@ + seq![c], m) matches OptionStep::Next(n, v) && v == ValueWord::Absent
            && n.mutates(),
{
    let l = seq![c];
    assert(l[0] == c);
    assert(l.contains(c));
    clusters_are_read_letter_by_letter(l, 'u', Seq::empty(), m);
}

/// The words behind which a command of the POSIX shell stands.
pub proof fn commands_stand_behind_these_words(w: Seq<char>)
    ensures
        is_prefix_word(w) <==> w == "if"@ || w == "then"@ || w == "elif"@ || w == "else"@ || w
            == "while"@ || w == "until"@ || w == "do"@ || w == "{"@ || w == "!"@ || w == "coproc"@,
        is_launcher(w) <==> w == "exec"@ || w == "time"@ || w == "nohup"@ || w == "!"@,
        is_git_name(w) <==> w == "git"@ || w == "git.exe"@ || w == "git-branch"@ || w
            == "git-branch.exe"@,
{
}

/// The words of control flow, behind which a line may do one thing or another. In
/// PowerShell and Cmd they are written in letters of either case, and of a dialect
/// that is not known they are those of all.
pub proof fn lines_branch_at_these_words(w: Seq<char>)
    ensures
        is_control_word(w, ShellDialect::Posix) <==> w == "if"@ || w == "then"@ || w == "elif"@ || w
            == "else"@ || w == "fi"@ || w == "for"@ || w == "while"@ || w == "until"@ || w == "do"@
            || w == "done"@ || w == "case"@ || w == "esac"@ || w == "select"@ || w == "coproc"@ || w
            == "function"@ || w == "{"@ || w == "}"@,
        is_control_word(w, ShellDialect::PowerShell) <==> ({
            let l = lowered(w);
            l == "if"@ || l == "elseif"@ || l == "else"@ || l == "switch"@ || l == "foreach"@ || l
                == "for"@ || l == "while"@ || l == "do"@ || l == "until"@ || l == "try"@ || l
                == "catch"@ || l == "finally"@ || l == "trap"@ || l == "function"@ || l == "filter"@
                || l == "begin"@ || l == "process"@ || l == "end"@ || l == "{"@ || l == "}"@
        }),
        is_control_word(w, ShellDialect::Cmd) <==> lowered(w) == "if"@ || lowered(w) == "else"@
            || lowered(w) == "for"@,
        is_control_word(w, ShellDialect::Unknown) <==> is_control_word(w, ShellDialect::Posix)
            || is_control_word(w, ShellDialect::PowerShell)
                || is_control_word(w, ShellDialect::Cmd),
{
}

/// A name that Git could run is of letters, digits, dots, underscores, plus signs
/// and dashes.
pub proof fn runnable_names_are_of_these_characters(w: Seq<char>)
    ensures
        is_dispatchable(w) <==> w.len() > 0 && forall|i: int|
            0 <= i < w.len() ==> ('a' <= #[trigger] w[i] <= 'z' || 'A' <= w[i] <= 'Z' || '0' <= w[i]
                <= '9' || w[i] == '.' || w[i] == '_' || w[i] == '+' || w[i] == '-'),
{
    if is_dispatchable(w) {
        assert forall|i: int| 0 <= i < w.len() implies ('a' <= #[trigger] w[i] <= 'z' || 'A' <= w[i]
            <= 'Z' || '0' <= w[i] <= '9' || w[i] == '.' || w[i] == '_' || w[i] == '+' || w[i]
            == '-') by {
            assert(is_alnum(w[i]) || w[i] == '.' || w[i] == '_' || w[i] == '+' || w[i] == '-');
        }
    }
}

/// An option of `git config` that stands alone.
pub open spec fn is_config_option(w: Seq<char>) -> bool {
    w == "--global"@ || w == "--system"@ || w == "--local"@ || w == "--worktree"@ || w
        == "--replace-all"@ || w == "--add"@ || w == "--fixed-value"@ || w == "--includes"@ || w
        == "--no-includes"@
}

/// An option of `git config` whose value is the next word.
pub open spec fn takes_config_value(w: Seq<char>) -> bool {
    w == "--file"@ || w == "-f"@ || w == "--blob"@ || w == "--type"@ || w == "--default"@
}

/// An option of `git config` that removes a setting.
pub open spec fn removes_setting(w: Seq<char>) -> bool {
    w == "--unset"@ || w == "--unset-all"@
}

/// The words from the `i`th to the `at`th are options of `git config` with their
/// values.
pub open spec fn are_config_options(words: Seq<WordView>, i: int, at: int) -> bool
    decreases at - i,
{
    if i < 0 || i >= at {
        i == at
    } else if is_config_option(words[i].decoded) || removes_setting(words[i].decoded) {
        !words[i].dynamic && are_config_options(words, i + 1, at)
    } else {
        !words[i].dynamic && takes_config_value(words[i].decoded) && i + 2 <= at
            && are_config_options(words, i + 2, at)
    }
}

/// Whether one of the words from the `i`th to the `at`th removes a setting.
pub open spec fn some_removes(words: Seq<WordView>, i: int, at: int) -> bool
    decreases at - i,
{
    if i < 0 || i >= at {
        false
    } else if takes_config_value(words[i].decoded) {
        i + 2 <= at && some_removes(words, i + 2, at)
    } else {
        removes_setting(words[i].decoded) || some_removes(words, i + 1, at)
    }
}

/// The lists of options of `git config` have nothing in common.
#[verifier::rlimit(40)]
proof fn config_lists_are_apart(w: Seq<char>)
    ensures
        takes_config_value(w) ==> !is_config_option(w) && !removes_setting(w),
        removes_setting(w) ==> !is_config_option(w),
{
    reveal_strlit("--global");
    reveal_strlit("--system");
    reveal_strlit("--local");
    reveal_strlit("--worktree");
    reveal_strlit("--replace-all");
    reveal_strlit("--add");
    reveal_strlit("--fixed-value");
    reveal_strlit("--includes");
    reveal_strlit("--no-includes");
    reveal_strlit("--file");
    reveal_strlit("-f");
    reveal_strlit("--blob");
    reveal_strlit("--type");
    reveal_strlit("--default");
    reveal_strlit("--unset");
    reveal_strlit("--unset-all");
    if w.len() > 2 && (takes_config_value(w) || removes_setting(w)) {
        assert(w[2] != ' ' && w[3] != ' ');
    }
}

/// Behind its options `git config` comes to the key, which is removed where one of
/// them says so.
#[verifier::rlimit(40)]
pub proof fn config_options_lead_to_the_key(words: Seq<WordView>, i: int, at: int, unset: bool)
    requires
        0 <= i <= at < words.len(),
        are_config_options(words, i, at),
        !words[at].dynamic,
        words[at].decoded.len() > 0,
        words[at].decoded[0] != '-',
    ensures
        config_key_from(words, i, unset) == Some((at, unset || some_removes(words, i, at))),
    decreases at - i,
{
    let w = words[i].decoded;
    config_lists_are_apart(w);
    if i < at {
        if is_config_option(w) || removes_setting(w) {
            config_options_lead_to_the_key(words, i + 1, at, unset || removes_setting(w));
        } else {
            config_options_lead_to_the_key(words, i + 2, at, unset);
        }
    } else {
        reveal_strlit("-");
        reveal_strlit("--global");
        reveal_strlit("--system");
        reveal_strlit("--local");
        reveal_strlit("--worktree");
        reveal_strlit("--replace-all");
        reveal_strlit("--add");
        reveal_strlit("--fixed-value");
        reveal_strlit("--includes");
        reveal_strlit("--no-includes");
        reveal_strlit("--file");
        reveal_strlit("-f");
        reveal_strlit("--blob");
        reveal_strlit("--type");
        reveal_strlit("--default");
        reveal_strlit("--unset");
        reveal_strlit("--unset-all");
        assert(starts(w, "-"@) ==> w.subrange(0, 1)[0] == '-');
    }
}

/// The subcommands of `git config` that only read, and the words with which it
/// changes a setting.
pub proof fn config_reads_and_changes_by_these_words(w: Seq<char>)
    ensures
        is_config_read(w) <==> w == "get"@ || w == "get-all"@ || w == "get-regexp"@ || w == "list"@
            || w == "show-origin"@ || w == "show-scope"@,
        is_config_change(w) <==> w == "set"@ || w == "unset"@ || w == "--unset"@ || w
            == "--unset-all"@ || w == "--add"@ || w == "--replace-all"@,
{
}

/// A word of which parts are not known may delete or force where it could be one of
/// these options of `git branch`.
pub proof fn partly_known_words_may_be_mutating_options(word: SymbolView)
    ensures
        option_may_mutate(word) <==> word.could_be("-d"@) || word.could_be("-D"@) || word.could_be(
            "-f"@,
        ) || word.could_be("-M"@) || word.could_be("-C"@) || word.could_be("--delete"@)
            || word.could_be("--force"@),
{
}

/// A line of more than 64 kibibytes in which Git is mentioned is not verified.
pub proof fn long_lines_are_not_verified(a: Seq<char>, g: Seq<char>, b: Seq<char>, dialect: ShellDialect)
    requires
        byte_len(a + g + b) > 65536,
        lowered(g) == "git"@,
        dialect == ShellDialect::Posix || dialect == ShellDialect::Cmd,
    ensures
        visible_alias(a + g + b, dialect) == AliasView::Unverified,
{
    let s = a + g + b;
    let i = a.len() as int;
    reveal_strlit("git");
    assert(lowered(g).len() == g.len());
    assert(s.subrange(i, i + 3) =~= g);
    assert(lowered("git"@) =~= "git"@);
    assert(same_nocase(s.subrange(i, i + 3), "git"@));
    assert(mentions_git(s));
}

/// A plain Git command of more than 512 words is not verified.
pub proof fn long_commands_are_not_verified(words: Seq<Seq<char>>)
    requires
        are_plain_words(words),
        words.len() > 512,
        words[0] == "git"@,
        spaced(words, 0).len() <= 65536,
    ensures
        visible_alias(spaced(words, 0), ShellDialect::Posix) == AliasView::Unverified,
{
    let c = spaced(words, 0);
    plain_git_command(words);
    spaced_is_plain(words, 0);
    plain_text_bytes(c);
    plain_words_are_tokens(words, ShellDialect::Posix);
    plain_words_are_one_command(words, ShellDialect::Posix);
    let toks = tokens(c, ShellDialect::Posix);
    assert forall|m: int| 0 <= m < toks.len() implies (#[trigger] toks[m]).word() by {
        assert(toks[m].word());
    }
    assert(!has_separator(toks));
    assert(too_many_words(c, ShellDialect::Posix));
    assert(segment_alias(c, ShellDialect::Posix) == AliasView::Unverified);
}

} // verus!
