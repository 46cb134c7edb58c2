//! What Git's own options and subcommands do, each by its name.

use vstd::prelude::*;
use crate::git::alias::{
    alias_result, any_dynamic, decoded_texts, globals_from, leading_from, words_alias, AliasView,
    GlobalsView, MAX_GIT_ALIAS_DEPTH,
};
use crate::git::bindings::{
    bound_at, environment_definitions, last_definition, with_config, with_config_env, BindingView,
    DefinitionView,
};
use crate::git::branch::{
    arguments_may_mutate, branch_alias, branch_arguments, branch_decision, branch_globals,
    decoded_from, env_aliases, literal_views, program_from, raw_decision, with_alias,
    with_env_alias,
};
use crate::git::command::{
    global_option, is_git_builtin, is_launcher, without_exe, GlobalOption, MAX_GIT_SEMANTIC_BYTES,
};
use crate::git::cross::{own_alias_from, visible_alias};
use crate::git::expansion::{may_be_git, MAX_GIT_SEMANTIC_TOKENS, WordView};
use crate::git::options::{no_mutation, BranchCommandDecision};
use crate::git::plain::{
    are_plain_words, git_is_only_a_program, is_plain, is_plain_word, plain_arguments_decide_behind,
    plain_git_command_is_one_segment, plain_git_command_is_settled, plain_git_words_decide,
    plain_text_bytes, plain_word_is_itself, spaced, spaced_is_plain,
};
use crate::shell::decode::{decoded_next, ShellTokenRole};
use crate::shell::segments::segments;
use crate::shell::token::ShellDialect;
use crate::shell::words::shell_split;
use crate::text::{
    basename, basename_start, lower, lowered, next_index, next_index_is_first, rest, same_nocase,
    starts,
};
use crate::shell::wrappers::env_assignment;

verus! {

/// A subcommand of Git, by its name.
pub open spec fn is_subcommand(name: Seq<char>) -> bool {
    name == "add"@ || name == "am"@ || name == "annotate"@ || name == "apply"@
        || name == "archive"@ || name == "archimport"@ || name == "backfill"@
        || name == "bisect"@ || name == "blame"@ || name == "branch"@ || name == "bugreport"@
        || name == "bundle"@ || name == "cat-file"@ || name == "check-attr"@
        || name == "check-ignore"@ || name == "check-mailmap"@ || name == "check-ref-format"@
        || name == "checkout"@ || name == "checkout-index"@ || name == "cherry"@
        || name == "cherry-pick"@ || name == "citool"@ || name == "clean"@ || name == "clone"@
        || name == "column"@ || name == "commit"@ || name == "commit-graph"@
        || name == "commit-tree"@ || name == "config"@ || name == "count-objects"@
        || name == "credential"@ || name == "credential-cache"@ || name == "credential-store"@
        || name == "cvsimport"@ || name == "cvsexportcommit"@ || name == "cvsserver"@
        || name == "daemon"@ || name == "describe"@ || name == "diagnose"@ || name == "diff"@
        || name == "diff-files"@ || name == "diff-index"@ || name == "diff-pairs"@
        || name == "diff-tree"@ || name == "difftool"@ || name == "fast-export"@
        || name == "fast-import"@ || name == "fetch"@ || name == "fetch-pack"@
        || name == "filter-branch"@ || name == "fmt-merge-msg"@ || name == "for-each-ref"@
        || name == "for-each-repo"@ || name == "format-patch"@ || name == "fsck"@
        || name == "gc"@ || name == "get-tar-commit-id"@ || name == "gitk"@ || name == "gitweb"@
        || name == "grep"@ || name == "gui"@ || name == "hash-object"@ || name == "help"@
        || name == "history"@ || name == "hook"@ || name == "http-backend"@
        || name == "imap-send"@ || name == "index-pack"@ || name == "init"@
        || name == "instaweb"@ || name == "interpret-trailers"@ || name == "last-modified"@
        || name == "log"@ || name == "ls-files"@ || name == "ls-remote"@ || name == "ls-tree"@
        || name == "mailinfo"@ || name == "mailsplit"@ || name == "maintenance"@
        || name == "merge"@ || name == "merge-base"@ || name == "merge-file"@
        || name == "merge-index"@ || name == "merge-one-file"@ || name == "merge-tree"@
        || name == "mergetool"@ || name == "mktag"@ || name == "mktree"@
        || name == "multi-pack-index"@ || name == "mv"@ || name == "name-rev"@
        || name == "notes"@ || name == "p4"@ || name == "pack-objects"@
        || name == "pack-redundant"@ || name == "pack-refs"@ || name == "patch-id"@
        || name == "prune"@ || name == "prune-packed"@ || name == "pull"@ || name == "push"@
        || name == "quiltimport"@ || name == "range-diff"@ || name == "read-tree"@
        || name == "rebase"@ || name == "reflog"@ || name == "refs"@ || name == "remote"@
        || name == "repack"@ || name == "replace"@ || name == "replay"@ || name == "repo"@
        || name == "request-pull"@ || name == "rerere"@ || name == "reset"@
        || name == "restore"@ || name == "rev-list"@ || name == "rev-parse"@
        || name == "revert"@ || name == "rm"@ || name == "scalar"@ || name == "send-email"@
        || name == "send-pack"@ || name == "sh-i18n"@ || name == "sh-setup"@
        || name == "shortlog"@ || name == "show"@ || name == "show-branch"@
        || name == "show-index"@ || name == "show-ref"@ || name == "sparse-checkout"@
        || name == "stash"@ || name == "status"@ || name == "stripspace"@
        || name == "submodule"@ || name == "svn"@ || name == "switch"@
        || name == "symbolic-ref"@ || name == "tag"@ || name == "unpack-file"@
        || name == "unpack-objects"@ || name == "update-index"@ || name == "update-ref"@
        || name == "update-server-info"@ || name == "var"@ || name == "verify-commit"@
        || name == "verify-pack"@ || name == "verify-tag"@ || name == "version"@
        || name == "whatchanged"@ || name == "worktree"@ || name == "write-tree"@
}

/// An option of Git without a value, by its name.
pub open spec fn is_git_flag(s: Seq<char>) -> bool {
    s == "-p"@ || s == "--paginate"@ || s == "-P"@ || s == "--no-pager"@ || s == "--bare"@
        || s == "--no-replace-objects"@ || s == "--literal-pathspecs"@
        || s == "--no-literal-pathspecs"@ || s == "--glob-pathspecs"@
        || s == "--noglob-pathspecs"@ || s == "--icase-pathspecs"@
        || s == "--no-optional-locks"@ || s == "--no-lazy-fetch"@ || s == "--no-advice"@
}

/// An option of Git whose value is the next word, by its name.
pub open spec fn takes_git_value(s: Seq<char>) -> bool {
    s == "-C"@ || s == "--git-dir"@ || s == "--work-tree"@ || s == "--namespace"@
        || s == "--super-prefix"@ || s == "--shallow-file"@ || s == "--attr-source"@
}

/// An option of Git with its value attached: `-C` with a directory, or a long
/// option with `=`.
pub open spec fn has_git_value(s: Seq<char>) -> bool {
    ||| exists|v: Seq<char>| v.len() > 0 && s == #[trigger] ("-C"@ + v)
    ||| exists|v: Seq<char>| s == #[trigger] ("--exec-path="@ + v)
    ||| exists|v: Seq<char>| s == #[trigger] ("--git-dir="@ + v)
    ||| exists|v: Seq<char>| s == #[trigger] ("--work-tree="@ + v)
    ||| exists|v: Seq<char>| s == #[trigger] ("--namespace="@ + v)
    ||| exists|v: Seq<char>| s == #[trigger] ("--super-prefix="@ + v)
    ||| exists|v: Seq<char>| s == #[trigger] ("--attr-source="@ + v)
}

/// A word with which Git prints something about itself and does nothing else.
pub open spec fn is_git_query(s: Seq<char>) -> bool {
    ||| s == "-v"@ || s == "--version"@ || s == "-h"@ || s == "--help"@ || s == "--exec-path"@
        || s == "--html-path"@ || s == "--man-path"@ || s == "--info-path"@ || s == "help"@
    ||| exists|v: Seq<char>| s == #[trigger] ("--list-cmds="@ + v)
}

/// A setting for one command: `-c` or `--config-env`.
pub open spec fn takes_setting(s: Seq<char>) -> bool {
    s == "-c"@ || s == "--config-env"@
}

/// A setting for one command, attached.
pub open spec fn has_setting(s: Seq<char>) -> bool {
    ||| exists|v: Seq<char>| v.len() > 0 && s == #[trigger] ("-c"@ + v)
    ||| exists|v: Seq<char>| s == #[trigger] ("--config-env="@ + v)
}

/// Git's own subcommands are the listed ones and no others.
pub proof fn subcommands_are_the_listed_ones(name: Seq<char>)
    ensures
        is_git_builtin(name) <==> is_subcommand(name),
{
}

/// A text begins with another where it is that one and something behind it.
proof fn begins_where_something_follows(s: Seq<char>, p: Seq<char>)
    ensures
        starts(s, p) ==> s == p + s.subrange(p.len() as int, s.len() as int),
        forall|v: Seq<char>| s == #[trigger] (p + v) ==> starts(s, p),
{
    if starts(s, p) {
        assert(s =~= p + s.subrange(p.len() as int, s.len() as int));
    }
    assert forall|v: Seq<char>| s == #[trigger] (p + v) implies starts(s, p) by {
        assert(s.subrange(0, p.len() as int) =~= p);
    }
}

/// The words between `git` and the subcommand are what their names say, each by
/// the lists above. Where two lists could claim a word, a query comes first, then
/// options by their whole name, then `-c` before any other attached value.
#[verifier::rlimit(60)]
pub proof fn git_options_are_the_listed_ones(s: Seq<char>)
    ensures
        global_option(s) == GlobalOption::Information <==> is_git_query(s),
        global_option(s) == GlobalOption::Flag <==> is_git_flag(s),
        global_option(s) == GlobalOption::TakesNext <==> takes_git_value(s),
        global_option(s) == GlobalOption::Config <==> s == "-c"@,
        global_option(s) == GlobalOption::ConfigEnv <==> s == "--config-env"@,
        global_option(s) == GlobalOption::Attached <==> has_git_value(s),
        global_option(s) == GlobalOption::AttachedConfig || global_option(s)
            == GlobalOption::AttachedConfigEnv <==> has_setting(s),
        global_option(s) == GlobalOption::Terminator <==> s == "--"@,
        global_option(s) == GlobalOption::Unknown <==> s.len() > 0 && s[0] == '-' && !is_git_query(
            s,
        ) && !is_git_flag(s) && !takes_git_value(s) && !has_git_value(s) && !takes_setting(s)
            && !has_setting(s) && s != "--"@,
        global_option(s) == GlobalOption::Subcommand <==> !(s.len() > 0 && s[0] == '-') && s
            != "help"@,
{
    reveal_strlit("-");
    reveal_strlit("--");
    reveal_strlit("--attr-source");
    reveal_strlit("--attr-source=");
    reveal_strlit("--bare");
    reveal_strlit("--config-env");
    reveal_strlit("--config-env=");
    reveal_strlit("--exec-path");
    reveal_strlit("--exec-path=");
    reveal_strlit("--git-dir");
    reveal_strlit("--git-dir=");
    reveal_strlit("--glob-pathspecs");
    reveal_strlit("--help");
    reveal_strlit("--html-path");
    reveal_strlit("--icase-pathspecs");
    reveal_strlit("--info-path");
    reveal_strlit("--list-cmds=");
    reveal_strlit("--literal-pathspecs");
    reveal_strlit("--man-path");
    reveal_strlit("--namespace");
    reveal_strlit("--namespace=");
    reveal_strlit("--no-advice");
    reveal_strlit("--no-lazy-fetch");
    reveal_strlit("--no-literal-pathspecs");
    reveal_strlit("--no-optional-locks");
    reveal_strlit("--no-pager");
    reveal_strlit("--no-replace-objects");
    reveal_strlit("--noglob-pathspecs");
    reveal_strlit("--paginate");
    reveal_strlit("--shallow-file");
    reveal_strlit("--super-prefix");
    reveal_strlit("--super-prefix=");
    reveal_strlit("--version");
    reveal_strlit("--work-tree");
    reveal_strlit("--work-tree=");
    reveal_strlit("-C");
    reveal_strlit("-P");
    reveal_strlit("-c");
    reveal_strlit("-h");
    reveal_strlit("-p");
    reveal_strlit("-v");
    reveal_strlit("help");
    begins_where_something_follows(s, "--list-cmds="@);
    begins_where_something_follows(s, "-c"@);
    begins_where_something_follows(s, "-C"@);
    begins_where_something_follows(s, "--config-env="@);
    begins_where_something_follows(s, "-"@);
    begins_where_something_follows(s, "--exec-path="@);
    begins_where_something_follows(s, "--git-dir="@);
    begins_where_something_follows(s, "--work-tree="@);
    begins_where_something_follows(s, "--namespace="@);
    begins_where_something_follows(s, "--super-prefix="@);
    begins_where_something_follows(s, "--attr-source="@);
    prefix_letters(s);
    lists_are_apart(s);
    let c = s.subrange(2, s.len() as int);
    if s.len() >= 2 {
        assert(starts(s, "-C"@) && s != "-C"@ ==> c.len() > 0) by {
            if c.len() == 0 {
                assert(s =~= s.subrange(0, 2));
            }
        }
        assert(starts(s, "-c"@) && s != "-c"@ ==> c.len() > 0) by {
            if c.len() == 0 {
                assert(s =~= s.subrange(0, 2));
            }
        }
    }
    assert forall|v: Seq<char>| v.len() > 0 && s == #[trigger] ("-C"@ + v) implies s != "-C"@ by {
        assert(s.len() > 2);
    }
    assert forall|v: Seq<char>| v.len() > 0 && s == #[trigger] ("-c"@ + v) implies s != "-c"@ by {
        assert(s.len() > 2);
    }
}

/// The lists of whole names have nothing in common.
#[verifier::rlimit(60)]
proof fn lists_are_apart(s: Seq<char>)
    ensures
        is_git_flag(s) ==> !is_git_query(s),
        takes_git_value(s) ==> !is_git_query(s) && !is_git_flag(s) && !takes_setting(s),
        takes_setting(s) ==> !is_git_query(s) && !is_git_flag(s),
        "-c"@.len() == 2,
        "--config-env"@.len() == 12,
        s == "--"@ ==> !is_git_query(s) && !is_git_flag(s) && !takes_setting(s) && !takes_git_value(
            s,
        ),
{
    reveal_strlit("-");
    reveal_strlit("--");
    reveal_strlit("--attr-source");
    reveal_strlit("--attr-source=");
    reveal_strlit("--bare");
    reveal_strlit("--config-env");
    reveal_strlit("--config-env=");
    reveal_strlit("--exec-path");
    reveal_strlit("--exec-path=");
    reveal_strlit("--git-dir");
    reveal_strlit("--git-dir=");
    reveal_strlit("--glob-pathspecs");
    reveal_strlit("--help");
    reveal_strlit("--html-path");
    reveal_strlit("--icase-pathspecs");
    reveal_strlit("--info-path");
    reveal_strlit("--list-cmds=");
    reveal_strlit("--literal-pathspecs");
    reveal_strlit("--man-path");
    reveal_strlit("--namespace");
    reveal_strlit("--namespace=");
    reveal_strlit("--no-advice");
    reveal_strlit("--no-lazy-fetch");
    reveal_strlit("--no-literal-pathspecs");
    reveal_strlit("--no-optional-locks");
    reveal_strlit("--no-pager");
    reveal_strlit("--no-replace-objects");
    reveal_strlit("--noglob-pathspecs");
    reveal_strlit("--paginate");
    reveal_strlit("--shallow-file");
    reveal_strlit("--super-prefix");
    reveal_strlit("--super-prefix=");
    reveal_strlit("--version");
    reveal_strlit("--work-tree");
    reveal_strlit("--work-tree=");
    reveal_strlit("-C");
    reveal_strlit("-P");
    reveal_strlit("-c");
    reveal_strlit("-h");
    reveal_strlit("-p");
    reveal_strlit("-v");
    reveal_strlit("help");
    prefix_letters(s);
    begins_where_something_follows(s, "--list-cmds="@);
    if is_git_flag(s) || takes_git_value(s) || takes_setting(s) || s == "--"@ {
        assert(!starts(s, "--list-cmds="@));
        assert(s[0] == '-');
        assert(s != "help"@);
        if s.len() == 2 {
            assert(s[1] != ' ');
            assert(s[1] != 'v' && s[1] != 'h');
        } else {
            assert(s[2] != ' ' && s[3] != ' ' && s[5] != ' ');
        }
    }
}

/// The letters with which prefixes of options begin.
#[verifier::rlimit(40)]
proof fn prefix_letters(s: Seq<char>)
    ensures
        starts(s, "-"@) ==> s.len() > 0 && s[0] == '-',
        s.len() > 0 && s[0] == '-' ==> starts(s, "-"@),
        starts(s, "-c"@) ==> s.len() >= 2 && s[0] == '-' && s[1] == 'c',
        starts(s, "-C"@) ==> s.len() >= 2 && s[0] == '-' && s[1] == 'C',
        starts(s, "--list-cmds="@) ==> s.len() >= 12 && s[0] == '-' && s[1] == '-' && s[2] == 'l'
            && s[4] == 's',
        starts(s, "--config-env="@) ==> s.len() >= 13 && s[0] == '-' && s[1] == '-' && s[2] == 'c',
        starts(s, "--exec-path="@) ==> s.len() >= 12 && s[0] == '-' && s[1] == '-' && s[2] == 'e',
        starts(s, "--git-dir="@) ==> s.len() >= 10 && s[0] == '-' && s[1] == '-' && s[2] == 'g'
            && s[3] == 'i',
        starts(s, "--work-tree="@) ==> s.len() >= 12 && s[0] == '-' && s[1] == '-' && s[2] == 'w',
        starts(s, "--namespace="@) ==> s.len() >= 12 && s[0] == '-' && s[1] == '-' && s[2] == 'n'
            && s[3] == 'a',
        starts(s, "--super-prefix="@) ==> s.len() >= 15 && s[0] == '-' && s[1] == '-' && s[2] == 's'
            && s[3] == 'u',
        starts(s, "--attr-source="@) ==> s.len() >= 14 && s[0] == '-' && s[1] == '-' && s[2] == 'a',
{
    reveal_strlit("-");
    reveal_strlit("-c");
    reveal_strlit("-C");
    reveal_strlit("--list-cmds=");
    reveal_strlit("--config-env=");
    reveal_strlit("--exec-path=");
    reveal_strlit("--git-dir=");
    reveal_strlit("--work-tree=");
    reveal_strlit("--namespace=");
    reveal_strlit("--super-prefix=");
    reveal_strlit("--attr-source=");
    if s.len() > 0 && s[0] == '-' {
        assert(s.subrange(0, 1) =~= "-"@);
    }
    assert(forall|n: int, k: int| 0 <= k < n <= s.len() ==> #[trigger] s.subrange(0, n)[k] == s[k]);
    assert(starts(s, "-"@) ==> s.subrange(0, 1)[0] == '-');
    assert(starts(s, "-c"@) ==> s.subrange(0, 2)[0] == '-' && s.subrange(0, 2)[1] == 'c');
    assert(starts(s, "-C"@) ==> s.subrange(0, 2)[0] == '-' && s.subrange(0, 2)[1] == 'C');
    assert(starts(s, "--list-cmds="@) ==> s.subrange(0, 12)[0] == '-' && s.subrange(0, 12)[1] == '-'
        && s.subrange(0, 12)[2] == 'l' && s.subrange(0, 12)[4] == 's');
    assert(starts(s, "--config-env="@) ==> s.subrange(0, 13)[0] == '-' && s.subrange(0, 13)[1]
        == '-' && s.subrange(0, 13)[2] == 'c');
    assert(starts(s, "--exec-path="@) ==> s.subrange(0, 12)[0] == '-' && s.subrange(0, 12)[1] == '-'
        && s.subrange(0, 12)[2] == 'e');
    assert(starts(s, "--git-dir="@) ==> s.subrange(0, 10)[0] == '-' && s.subrange(0, 10)[1] == '-'
        && s.subrange(0, 10)[2] == 'g' && s.subrange(0, 10)[3] == 'i');
    assert(starts(s, "--work-tree="@) ==> s.subrange(0, 12)[0] == '-' && s.subrange(0, 12)[1] == '-'
        && s.subrange(0, 12)[2] == 'w');
    assert(starts(s, "--namespace="@) ==> s.subrange(0, 12)[0] == '-' && s.subrange(0, 12)[1] == '-'
        && s.subrange(0, 12)[2] == 'n' && s.subrange(0, 12)[3] == 'a');
    assert(starts(s, "--super-prefix="@) ==> s.subrange(0, 15)[0] == '-' && s.subrange(0, 15)[1]
        == '-' && s.subrange(0, 15)[2] == 's' && s.subrange(0, 15)[3] == 'u');
    assert(starts(s, "--attr-source="@) ==> s.subrange(0, 14)[0] == '-' && s.subrange(0, 14)[1]
        == '-' && s.subrange(0, 14)[2] == 'a');
}

/// The words from the `i`th to the `at`th are options of Git with their values;
/// settings for one command are among them only where that is allowed.
pub open spec fn are_git_options(words: Seq<Seq<char>>, i: int, at: int, settings: bool) -> bool
    decreases at - i,
{
    if i < 0 || i >= at {
        i == at
    } else if is_git_flag(words[i]) || has_git_value(words[i]) || (settings && has_setting(
        words[i],
    )) {
        are_git_options(words, i + 1, at, settings)
    } else {
        (takes_git_value(words[i]) || (settings && takes_setting(words[i]))) && i + 2 <= at
            && are_git_options(words, i + 2, at, settings)
    }
}

/// The alias analysis passes over options of Git that set nothing.
proof fn options_lead_to_the_subcommand(
    words: Seq<Seq<char>>,
    i: int,
    at: int,
    env: Seq<BindingView>,
    defs: Seq<DefinitionView>,
)
    requires
        0 <= i <= at < words.len(),
        are_git_options(words, i, at, false),
    ensures
        globals_from(literal_views(words), i, ShellDialect::Posix, env, defs) == globals_from(
            literal_views(words),
            at,
            ShellDialect::Posix,
            env,
            defs,
        ),
    decreases at - i,
{
    if i < at {
        git_options_are_the_listed_ones(words[i]);
        assert(literal_views(words)[i].decoded == words[i]);
        if is_git_flag(words[i]) || has_git_value(words[i]) {
            options_lead_to_the_subcommand(words, i + 1, at, env, defs);
        } else {
            assert(!literal_views(words)[i + 1].dynamic);
            options_lead_to_the_subcommand(words, i + 2, at, env, defs);
        }
    }
}

/// Whatever options of Git set, they lead to the subcommand or to no alias.
#[verifier::rlimit(40)]
proof fn settings_lead_to_the_subcommand(
    words: Seq<Seq<char>>,
    i: int,
    at: int,
    env: Seq<BindingView>,
    defs: Seq<DefinitionView>,
)
    requires
        0 <= i <= at < words.len(),
        are_git_options(words, i, at, true),
        words[at].len() > 0,
        words[at][0] != '-',
    ensures
        match globals_from(literal_views(words), i, ShellDialect::Posix, env, defs) {
            GlobalsView::Decided(d) => d == AliasView::NoMatch,
            GlobalsView::Subcommand(k, _) => k == at,
        },
    decreases at - i,
{
    git_options_are_the_listed_ones(words[i]);
    let views = literal_views(words);
    assert(views[i].decoded == words[i]);
    if i < at {
        if i + 1 < at {
            assert(!views[i + 1].dynamic);
        }
        let w = words[i];
        if is_git_flag(w) || has_git_value(w) {
            settings_lead_to_the_subcommand(words, i + 1, at, env, defs);
        } else if has_setting(w) {
            if global_option(w) == GlobalOption::AttachedConfig {
                settings_lead_to_the_subcommand(
                    words,
                    i + 1,
                    at,
                    env,
                    with_config(defs, rest(w, "-c"@.len() as int), false, ShellDialect::Posix),
                );
            } else {
                let value = WordView {
                    decoded: rest(w, "--config-env="@.len() as int),
                    dynamic: false,
                    may_split: false,
                };
                if let Some(more) = with_config_env(defs, env, value, ShellDialect::Posix) {
                    settings_lead_to_the_subcommand(words, i + 1, at, env, more);
                }
            }
        } else if takes_git_value(w) {
            settings_lead_to_the_subcommand(words, i + 2, at, env, defs);
        } else if w == "-c"@ {
            let more = with_config(
                defs,
                views[i + 1].decoded,
                views[i + 1].dynamic,
                ShellDialect::Posix,
            );
            settings_lead_to_the_subcommand(words, i + 2, at, env, more);
        } else {
            let value = WordView { may_split: false, ..views[i + 1] };
            if let Some(more) = with_config_env(defs, env, value, ShellDialect::Posix) {
                settings_lead_to_the_subcommand(words, i + 2, at, env, more);
            }
        }
    }
}

/// The branch analysis passes over options of Git.
#[verifier::rlimit(40)]
proof fn options_lead_to_branch(
    words: Seq<Seq<char>>,
    i: int,
    at: int,
    settings: bool,
    env: Seq<BindingView>,
    aliases: Seq<BindingView>,
)
    requires
        0 <= i <= at < words.len(),
        are_plain_words(words),
        are_git_options(words, i, at, settings),
    ensures
        settings && words[at] == "branch"@ ==> branch_globals(
            words,
            i,
            ShellDialect::Posix,
            false,
            env,
            aliases,
        ) == branch_arguments(words, at + 1, ShellDialect::Posix, false, no_mutation()),
        !settings ==> branch_globals(words, i, ShellDialect::Posix, false, env, aliases)
            == branch_globals(words, at, ShellDialect::Posix, false, env, aliases),
    decreases at - i,
{
    git_options_are_the_listed_ones(words[i]);
    assert(is_plain_word(words[i]));
    plain_word_is_itself(words[i]);
    assert(decoded_next(words[i], ShellDialect::Posix, ShellTokenRole::Syntax, false) == Some(
        words[i],
    ));
    if i < at {
        reveal_strlit("branch");
        option_is_not_a_name(words[i]);
        if i + 1 < words.len() {
            assert(is_plain_word(words[i + 1]));
            plain_word_is_itself(words[i + 1]);
            assert(decoded_next(words[i + 1], ShellDialect::Posix, ShellTokenRole::Syntax, false)
                == Some(words[i + 1]));
        }
        let w = words[i];
        if is_git_flag(w) || has_git_value(w) {
            options_lead_to_branch(words, i + 1, at, settings, env, aliases);
        } else if takes_git_value(w) {
            options_lead_to_branch(words, i + 2, at, settings, env, aliases);
        } else if has_setting(w) {
            let more = if global_option(w) == GlobalOption::AttachedConfig {
                with_alias(aliases, rest(w, "-c"@.len() as int))
            } else {
                with_env_alias(aliases, env, rest(w, "--config-env="@.len() as int))
            };
            options_lead_to_branch(words, i + 1, at, settings, env, more);
        } else {
            let more = if w == "-c"@ {
                with_alias(aliases, words[i + 1])
            } else {
                with_env_alias(aliases, env, words[i + 1])
            };
            options_lead_to_branch(words, i + 2, at, settings, env, more);
        }
    }
}

/// An option of Git begins with a dash.
proof fn option_is_not_a_name(s: Seq<char>)
    ensures
        is_git_flag(s) || takes_git_value(s) || has_git_value(s) || takes_setting(s) || has_setting(
            s,
        ) ==> s.len() > 0 && s[0] == '-' && s != "branch"@,
{
    reveal_strlit("branch");
    git_options_are_the_listed_ones(s);
}

/// The words of a command that runs Git.
pub open spec fn git_words(
    globals: Seq<Seq<char>>,
    name: Seq<char>,
    args: Seq<Seq<char>>,
) -> Seq<Seq<char>> {
    seq!["git"@] + globals + seq![name] + args
}

/// A command of Git in plain words that the analysis reads whole.
pub open spec fn is_plain_git_command(
    globals: Seq<Seq<char>>,
    name: Seq<char>,
    args: Seq<Seq<char>>,
) -> bool {
    &&& are_plain_words(git_words(globals, name, args))
    &&& git_words(globals, name, args).len() <= MAX_GIT_SEMANTIC_TOKENS
    &&& spaced(git_words(globals, name, args), 0).len() <= MAX_GIT_SEMANTIC_BYTES
    &&& name[0] != '-'
}

/// What the words of a plain Git command do through aliases is what the command
/// does.
proof fn plain_git_words_alias(words: Seq<Seq<char>>)
    requires
        are_plain_words(words),
        0 < words.len() <= MAX_GIT_SEMANTIC_TOKENS,
        words[0] == "git"@,
        spaced(words, 0).len() <= MAX_GIT_SEMANTIC_BYTES,
    ensures
        visible_alias(spaced(words, 0), ShellDialect::Posix) == words_alias(
            spaced(words, 0),
            literal_views(words),
            ShellDialect::Posix,
        ),
{
    let c = spaced(words, 0);
    let segs = segments(c, ShellDialect::Posix);
    plain_git_command_is_one_segment(words);
    spaced_is_plain(words, 0);
    plain_text_bytes(c);
    let d = words_alias(c, literal_views(words), ShellDialect::Posix);
    assert(own_alias_from(c, segs, 1, ShellDialect::Posix, AliasView::NoMatch)
        == AliasView::NoMatch);
    assert(own_alias_from(c, segs, 1, ShellDialect::Posix, d) == d);
}

/// The words of a plain Git command begin with `git`, which sets nothing.
proof fn git_leads(words: Seq<Seq<char>>)
    requires
        words.len() > 0,
        words[0] == "git"@,
    ensures
        leading_from(literal_views(words), 0, ShellDialect::Posix, Seq::empty()) == (
            Seq::<BindingView>::empty(),
            0int,
        ),
        may_be_git(literal_views(words)[0], ShellDialect::Posix),
        environment_definitions(Seq::empty(), ShellDialect::Posix) == Seq::<DefinitionView>::empty(),
{
    git_is_only_a_program();
    assert(literal_views(words)[0].decoded == "git"@);
    assert(lowered("git"@) == lowered("git"@));
}

/// `git` with a subcommand of its own invokes no alias, whatever options stand
/// before the subcommand and whatever arguments behind it. With any other name it
/// may run an alias or a helper program that nobody has verified, where the name
/// could be one of theirs.
#[verifier::rlimit(40)]
pub proof fn git_runs_its_own_subcommands_only(
    globals: Seq<Seq<char>>,
    name: Seq<char>,
    args: Seq<Seq<char>>,
)
    requires
        is_plain_git_command(globals, name, args),
    ensures
        is_subcommand(name) && are_git_options(globals, 0, globals.len() as int, true)
            ==> visible_alias(spaced(git_words(globals, name, args), 0), ShellDialect::Posix)
            == AliasView::NoMatch,
        !is_subcommand(name) && are_git_options(globals, 0, globals.len() as int, false)
            ==> visible_alias(spaced(git_words(globals, name, args), 0), ShellDialect::Posix) == (
        if name.contains('/') || name.contains('=') {
            AliasView::NoMatch
        } else {
            AliasView::Unverified
        }),
{
    let words = git_words(globals, name, args);
    let at = 1 + globals.len() as int;
    let views = literal_views(words);
    let none = Seq::<BindingView>::empty();
    let defs = Seq::<DefinitionView>::empty();
    assert(words[0] == "git"@);
    assert(words[at] == name);
    assert(is_plain_word(words[at]));
    plain_git_words_alias(words);
    git_leads(words);
    git_options_are_the_listed_ones(name);
    subcommands_are_the_listed_ones(name);
    assert(views[at].decoded == name && !views[at].dynamic);
    assert(!any_dynamic(views, at + 1));
    if is_subcommand(name) && are_git_options(globals, 0, globals.len() as int, true) {
        options_stand_behind_git(globals, name, args, 0, true);
        settings_lead_to_the_subcommand(words, 1, at, none, defs);
    }
    if !is_subcommand(name) && are_git_options(globals, 0, globals.len() as int, false) {
        options_stand_behind_git(globals, name, args, 0, false);
        options_lead_to_the_subcommand(words, 1, at, none, defs);
        assert(globals_from(views, at, ShellDialect::Posix, none, defs) == GlobalsView::Subcommand(
            at,
            defs,
        ));
        assert(last_definition(defs, 0, name) is None);
        if name.contains('/') || name.contains('=') {
            let c = if name.contains('/') { '/' } else { '=' };
            let j = choose|j: int| 0 <= j < name.len() && name[j] == c;
            assert(name[j] == c);
        } else {
            assert forall|j: int| 0 <= j < name.len() implies is_plain(#[trigger] name[j]) && name[j]
                != '/' && name[j] != '=' by {
                assert(is_plain(words[at][j]));
            }
        }
    }
}

/// Options stand behind `git` as they stand alone.
proof fn options_stand_behind_git(
    globals: Seq<Seq<char>>,
    name: Seq<char>,
    args: Seq<Seq<char>>,
    i: int,
    settings: bool,
)
    requires
        0 <= i <= globals.len(),
        are_git_options(globals, i, globals.len() as int, settings),
    ensures
        are_git_options(
            git_words(globals, name, args),
            i + 1,
            globals.len() as int + 1,
            settings,
        ),
    decreases globals.len() - i,
{
    let words = git_words(globals, name, args);
    if i < globals.len() {
        assert(words[i + 1] == globals[i]);
        if is_git_flag(globals[i]) || has_git_value(globals[i]) || (settings && has_setting(
            globals[i],
        )) {
            options_stand_behind_git(globals, name, args, i + 1, settings);
        } else {
            options_stand_behind_git(globals, name, args, i + 2, settings);
        }
    }
}

/// What is decided of a plain Git command is decided behind `git`.
proof fn plain_git_globals_decide(words: Seq<Seq<char>>)
    requires
        are_plain_words(words),
        0 < words.len() <= MAX_GIT_SEMANTIC_TOKENS,
        words[0] == "git"@,
        spaced(words, 0).len() <= usize::MAX,
    ensures
        branch_decision(spaced(words, 0), ShellDialect::Posix) == branch_globals(
            words,
            1,
            ShellDialect::Posix,
            false,
            Seq::empty(),
            Seq::empty(),
        ),
{
    let none = Seq::<BindingView>::empty();
    plain_git_command_is_settled(words);
    plain_git_words_decide(words);
    git_is_only_a_program();
    assert(is_plain_word(words[0]));
    plain_word_is_itself(words[0]);
    assert(decoded_next(words[0], ShellDialect::Posix, ShellTokenRole::Syntax, false) == Some(
        words[0],
    ));
    assert(program_from(words, 0, ShellDialect::Posix, false, none) == Some(
        (0int, words[0], false, none),
    ));
    assert(env_aliases(none) == none);
    assert(lowered("git"@) == lowered("git"@));
}

/// The words of a Git command with plain parts are plain.
proof fn plain_git_words(globals: Seq<Seq<char>>, name: Seq<char>, args: Seq<Seq<char>>)
    requires
        are_plain_words(globals),
        are_plain_words(args),
        is_plain_word(name) || name == "branch"@,
    ensures
        are_plain_words(git_words(globals, name, args)),
{
    let words = git_words(globals, name, args);
    let at = 1 + globals.len() as int;
    git_is_only_a_program();
    reveal_strlit("branch");
    assert(is_plain_word("branch"@));
    assert forall|k: int| 0 <= k < words.len() implies is_plain_word(#[trigger] words[k]) by {
        if 1 <= k < at {
            assert(words[k] == globals[k - 1]);
        } else if k > at {
            assert(words[k] == args[k - at - 1]);
        }
    }
}

/// Behind its options and settings Git comes to `branch`.
proof fn options_come_to_branch(globals: Seq<Seq<char>>, args: Seq<Seq<char>>)
    requires
        are_plain_words(git_words(globals, "branch"@, args)),
        are_git_options(globals, 0, globals.len() as int, true),
    ensures
        branch_globals(
            git_words(globals, "branch"@, args),
            1,
            ShellDialect::Posix,
            false,
            Seq::empty(),
            Seq::empty(),
        ) == branch_arguments(
            git_words(globals, "branch"@, args),
            globals.len() as int + 2,
            ShellDialect::Posix,
            false,
            no_mutation(),
        ),
{
    let words = git_words(globals, "branch"@, args);
    let at = 1 + globals.len() as int;
    assert(words[at] == "branch"@);
    options_stand_behind_git(globals, "branch"@, args, 0, true);
    options_lead_to_branch(words, 1, at, true, Seq::empty(), Seq::empty());
}

/// A command that comes to `branch` is decided by what stands behind it.
proof fn branch_behind_options_is_decided(
    words: Seq<Seq<char>>,
    at: int,
    args: Seq<Seq<char>>,
)
    requires
        are_plain_words(words),
        0 < words.len() <= MAX_GIT_SEMANTIC_TOKENS,
        words[0] == "git"@,
        spaced(words, 0).len() <= usize::MAX,
        0 <= at,
        words.len() == args.len() + at,
        forall|k: int| 0 <= k < args.len() ==> words[k + at] == #[trigger] args[k],
        branch_globals(words, 1, ShellDialect::Posix, false, Seq::empty(), Seq::empty())
            == branch_arguments(words, at, ShellDialect::Posix, false, no_mutation()),
    ensures
        branch_decision(spaced(words, 0), ShellDialect::Posix) == if arguments_may_mutate(
            literal_views(args),
            0,
            ShellDialect::Posix,
            no_mutation(),
        ) {
            BranchCommandDecision::Destructive
        } else {
            BranchCommandDecision::NonDestructive
        },
{
    plain_git_globals_decide(words);
    plain_arguments_decide_behind(words, at, args, 0, no_mutation());
}

/// Options and settings of Git before `branch` do not change what is decided of
/// its arguments.
pub proof fn git_options_do_not_hide_branch(globals: Seq<Seq<char>>, args: Seq<Seq<char>>)
    requires
        are_plain_words(globals),
        are_plain_words(args),
        globals.len() + args.len() + 2 <= MAX_GIT_SEMANTIC_TOKENS,
        spaced(git_words(globals, "branch"@, args), 0).len() <= MAX_GIT_SEMANTIC_BYTES,
        are_git_options(globals, 0, globals.len() as int, true),
    ensures
        branch_decision(spaced(git_words(globals, "branch"@, args), 0), ShellDialect::Posix)
            == if arguments_may_mutate(literal_views(args), 0, ShellDialect::Posix, no_mutation()) {
            BranchCommandDecision::Destructive
        } else {
            BranchCommandDecision::NonDestructive
        },
{
    let words = git_words(globals, "branch"@, args);
    let at = 1 + globals.len() as int;
    plain_git_words(globals, "branch"@, args);
    options_come_to_branch(globals, args);
    assert(words[0] == "git"@);
    assert forall|k: int| 0 <= k < args.len() implies words[k + (at + 1)] == #[trigger] args[k] by {}
    branch_behind_options_is_decided(words, at + 1, args);
}

/// Plain words decode to themselves.
proof fn plain_words_decode(words: Seq<Seq<char>>, i: int)
    requires
        are_plain_words(words),
        0 <= i <= words.len(),
    ensures
        decoded_from(words, i, ShellDialect::Posix, false, Seq::empty()) == words.subrange(
            i,
            words.len() as int,
        ),
{
    plain_words_decode_behind(words, i, i);
    assert(words.subrange(i, i) =~= Seq::empty());
}

/// Plain words decode to themselves, behind those from `at` on.
proof fn plain_words_decode_behind(words: Seq<Seq<char>>, at: int, i: int)
    requires
        are_plain_words(words),
        0 <= at <= i <= words.len(),
    ensures
        decoded_from(words, i, ShellDialect::Posix, false, words.subrange(at, i)) == words.subrange(
            at,
            words.len() as int,
        ),
    decreases words.len() - i,
{
    if i < words.len() {
        assert(is_plain_word(words[i]));
        plain_word_is_itself(words[i]);
        assert(decoded_next(words[i], ShellDialect::Posix, ShellTokenRole::Syntax, false) == Some(
            words[i],
        ));
        assert(words.subrange(at, i).push(words[i]) =~= words.subrange(at, i + 1));
        plain_words_decode_behind(words, at, i + 1);
    }
}

/// A subcommand of Git other than `branch` is no branch command, whatever its
/// arguments. With a name that Git does not have, arguments that would delete or
/// force behind `branch` are taken to do so, since the name may be an alias of it.
#[verifier::rlimit(40)]
pub proof fn other_subcommands_are_no_branch_commands(
    globals: Seq<Seq<char>>,
    name: Seq<char>,
    args: Seq<Seq<char>>,
)
    requires
        is_plain_git_command(globals, name, args),
        are_git_options(globals, 0, globals.len() as int, false),
        name != "branch"@,
        name != "help"@,
        !same_nocase(name, "git-branch"@),
    ensures
        branch_decision(spaced(git_words(globals, name, args), 0), ShellDialect::Posix) == (
        if !is_subcommand(name) && arguments_may_mutate(
            literal_views(args),
            0,
            ShellDialect::Posix,
            no_mutation(),
        ) {
            BranchCommandDecision::Destructive
        } else {
            BranchCommandDecision::NotBranch
        }),
{
    let words = git_words(globals, name, args);
    let at = 1 + globals.len() as int;
    let none = Seq::<BindingView>::empty();
    assert(words[0] == "git"@);
    assert(words[at] == name);
    assert(is_plain_word(words[at]));
    plain_git_globals_decide(words);
    options_stand_behind_git(globals, name, args, 0, false);
    options_lead_to_branch(words, 1, at, false, none, none);
    git_options_are_the_listed_ones(name);
    subcommands_are_the_listed_ones(name);
    plain_word_is_itself(name);
    assert(decoded_next(name, ShellDialect::Posix, ShellTokenRole::Syntax, false) == Some(name));
    assert(!Seq::<Seq<char>>::empty().contains(name));
    assert(seq![name][0] == name);
    assert(branch_alias(name, none) is None);
    assert(bound_at(none, 0, name) == 0);
    plain_words_decode(words, at + 1);
    assert(words.subrange(at + 1, words.len() as int) =~= args);
}

/// A setting for one command that defines an alias: `alias.` in letters of either
/// case, the name, `=` and the value.
pub open spec fn alias_setting(key: Seq<char>, name: Seq<char>, value: Seq<char>) -> Seq<char> {
    key + name + "="@ + value
}

/// A setting that defines an alias defines it.
#[verifier::rlimit(40)]
proof fn alias_setting_defines(key: Seq<char>, name: Seq<char>, value: Seq<char>)
    requires
        lowered(key) == "alias."@,
        name.len() > 0,
        !name.contains('='),
    ensures
        with_config(
            Seq::empty(),
            alias_setting(key, name, value),
            false,
            ShellDialect::Posix,
        ) == seq![DefinitionView { name: Some(name), value: Some(value) }],
{
    reveal_strlit("alias.");
    reveal_strlit("=");
    let s = alias_setting(key, name, value);
    let none = Seq::<DefinitionView>::empty();
    assert(lowered(key).len() == key.len());
    assert(lowered("alias."@) =~= "alias."@);
    let n = 6 + name.len() as int;
    assert(s[n] == '=');
    assert forall|j: int| 0 <= j < n implies s[j] != '=' by {
        if j < 6 {
            assert(s[j] == key[j]);
            assert(lowered(key)[j] == "alias."@[j]);
            assert(lower(key[j]) == "alias."@[j]);
            assert("alias."@[j] != '=');
        } else {
            assert(s[j] == name[j - 6]);
        }
    }
    next_index_is_first(s, 0, '=');
    assert(next_index(s, 0, '=') == n);
    let k = s.subrange(0, n);
    assert(k =~= key + name);
    assert(k.subrange(0, 6) =~= key);
    assert(rest(k, 6) =~= name);
    assert(rest(s, n + 1) =~= value);
    let d = DefinitionView { name: Some(name), value: Some(value) };
    assert(none.push(d) =~= seq![d]);
}

/// An alias that a setting on the command line defines runs what it stands for: a
/// subcommand of Git with the words of the alias and, behind them, those of the
/// command. An alias that leads to itself is not verified.
#[verifier::rlimit(40)]
pub proof fn alias_on_the_command_line_is_followed(
    key: Seq<char>,
    name: Seq<char>,
    value: Seq<char>,
    args: Seq<Seq<char>>,
)
    requires
        lowered(key) == "alias."@,
        !name.contains('='),
        !is_subcommand(name),
        is_plain_git_command(seq!["-c"@, alias_setting(key, name, value)], name, args),
    ensures
        ({
            let d = visible_alias(
                spaced(git_words(seq!["-c"@, alias_setting(key, name, value)], name, args), 0),
                ShellDialect::Posix,
            );
            match shell_split(value) {
                None => d == AliasView::NoMatch,
                Some(ws) => {
                    &&& ws.len() == 0 ==> d == AliasView::NoMatch
                    &&& ws.len() > 0 && is_subcommand(ws[0]) ==> d == AliasView::Expanded(
                        ws[0],
                        ws.subrange(1, ws.len() as int) + args,
                    )
                    &&& ws.len() > 0 && ws[0] == name ==> d == AliasView::Unverified
                },
            }
        }),
{
    let set = alias_setting(key, name, value);
    let words = git_words(seq!["-c"@, set], name, args);
    let views = literal_views(words);
    let none = Seq::<BindingView>::empty();
    let defs = seq![DefinitionView { name: Some(name), value: Some(value) }];
    assert(words[0] == "git"@ && words[1] == "-c"@ && words[2] == set && words[3] == name);
    assert(is_plain_word(words[2]) && is_plain_word(words[3]));
    plain_git_words_alias(words);
    git_leads(words);
    alias_setting_defines(key, name, value);
    git_options_are_the_listed_ones("-c"@);
    git_options_are_the_listed_ones(name);
    help_is_a_subcommand();
    subcommands_are_the_listed_ones(name);
    assert(views[1].decoded == "-c"@ && views[2].decoded == set && views[3].decoded == name);
    assert(!views[2].dynamic);
    assert(globals_from(views, 3, ShellDialect::Posix, none, defs) == GlobalsView::Subcommand(
        3,
        defs,
    ));
    assert(globals_from(views, 1, ShellDialect::Posix, none, Seq::empty()) == GlobalsView::Subcommand(
        3,
        defs,
    ));
    assert(!any_dynamic(views, 4));
    assert(decoded_texts(views, 4) =~= args);
    plain_value(key, name, value);
    alias_is_followed(defs, name, value, args);
}

/// `help` is a subcommand.
proof fn help_is_a_subcommand()
    ensures
        is_subcommand("help"@),
{
}

/// The value of a plain setting is no shell command.
proof fn plain_value(key: Seq<char>, name: Seq<char>, value: Seq<char>)
    requires
        is_plain_word(alias_setting(key, name, value)),
    ensures
        value.len() > 0 ==> value[0] != '!',
{
    reveal_strlit("=");
    let s = alias_setting(key, name, value);
    if value.len() > 0 {
        let n = key.len() + name.len() + 1;
        assert(s[n as int] == value[0]);
        assert(is_plain(s[n as int]));
    }
}

/// A single definition is followed.
#[verifier::rlimit(40)]
proof fn alias_is_followed(
    defs: Seq<DefinitionView>,
    name: Seq<char>,
    value: Seq<char>,
    args: Seq<Seq<char>>,
)
    requires
        defs == seq![DefinitionView { name: Some(name), value: Some(value) }],
        !is_subcommand(name),
        value.len() > 0 ==> value[0] != '!',
    ensures
        ({
            let d = alias_result(defs, name, args, Seq::empty(), MAX_GIT_ALIAS_DEPTH as nat);
            match shell_split(value) {
                None => d == AliasView::NoMatch,
                Some(ws) => {
                    &&& ws.len() == 0 ==> d == AliasView::NoMatch
                    &&& ws.len() > 0 && is_subcommand(ws[0]) ==> d == AliasView::Expanded(
                        ws[0],
                        ws.subrange(1, ws.len() as int) + args,
                    )
                    &&& ws.len() > 0 && ws[0] == name ==> d == AliasView::Unverified
                },
            }
        }),
{
    let none = Seq::<Seq<char>>::empty();
    subcommands_are_the_listed_ones(name);
    assert(!none.contains(name));
    assert(defs[0].name == Some(name));
    assert(last_definition(defs, 1, name) == Some(Some(value)));
    match shell_split(value) {
        None => {},
        Some(ws) => {
            if ws.len() > 0 {
                let more = ws.subrange(1, ws.len() as int) + args;
                let seen = none.push(name);
                subcommands_are_the_listed_ones(ws[0]);
                assert(seen[0] == name);
                assert(alias_result(defs, name, args, none, MAX_GIT_ALIAS_DEPTH as nat)
                    == alias_result(defs, ws[0], more, seen, (MAX_GIT_ALIAS_DEPTH - 1) as nat));
            }
        },
    }
}

/// A program of Git: `git` or `git.exe` in letters of either case.
pub open spec fn is_git_program(g: Seq<char>) -> bool {
    lowered(g) == "git"@ || lowered(g) == "git.exe"@
}

/// A word that leaves the command behind it as it is.
pub open spec fn leaves_command(w: Seq<char>) -> bool {
    w == "exec"@ || w == "time"@ || w == "nohup"@ || w == "!"@
}

/// Launchers before a program are passed over.
proof fn launchers_are_passed(words: Seq<Seq<char>>, i: int, n: int)
    requires
        are_plain_words(words),
        0 <= i <= n < words.len(),
        forall|k: int| i <= k < n ==> leaves_command(#[trigger] words[k]),
    ensures
        program_from(words, i, ShellDialect::Posix, false, Seq::empty()) == program_from(
            words,
            n,
            ShellDialect::Posix,
            false,
            Seq::empty(),
        ),
    decreases n - i,
{
    if i < n {
        let w = words[i];
        assert(leaves_command(words[i]));
        assert(is_plain_word(w));
        plain_word_is_itself(w);
        assert(decoded_next(w, ShellDialect::Posix, ShellTokenRole::Syntax, false) == Some(w));
        launcher_is_no_assignment(w);
        launchers_are_passed(words, i + 1, n);
    }
}

/// A launcher assigns nothing.
proof fn launcher_is_no_assignment(w: Seq<char>)
    requires
        leaves_command(w),
    ensures
        !env_assignment(w),
{
    reveal_strlit("exec");
    reveal_strlit("time");
    reveal_strlit("nohup");
    reveal_strlit("!");
    next_index_is_first(w, 0, '=');
    let e = next_index(w, 0, '=');
    if e < w.len() {
        assert(w[e] == '=');
        assert(w.len() <= 5);
    }
}

/// The name of a Git program, without its directory and its ending, is `git`.
#[verifier::rlimit(40)]
proof fn git_program_is_git(g: Seq<char>)
    requires
        is_git_program(g),
    ensures
        same_nocase(without_exe(g), "git"@),
        !same_nocase(without_exe(g), "git-branch"@),
{
    reveal_strlit("git");
    reveal_strlit("git.exe");
    reveal_strlit(".exe");
    reveal_strlit("git-branch");
    assert(lowered(g).len() == g.len());
    assert(lowered("git"@) =~= "git"@);
    assert(lowered(".exe"@) =~= ".exe"@);
    assert(lowered("git-branch"@).len() == 10);
    if lowered(g) == "git.exe"@ {
        let t = g.subrange(3, 7);
        assert(lowered(t) =~= lowered(g).subrange(3, 7));
        assert(lowered(g).subrange(3, 7) =~= ".exe"@);
        let h = g.subrange(0, 3);
        assert(lowered(h) =~= lowered(g).subrange(0, 3));
        assert(lowered(g).subrange(0, 3) =~= "git"@);
    }
}

/// The raw words of a command lead to Git's options and subcommand whatever
/// launchers stand first, in whatever directory Git stands, and however its name is
/// written.
#[verifier::rlimit(40)]
pub proof fn git_is_found_under_any_of_its_names(words: Seq<Seq<char>>, n: int, g: Seq<char>)
    requires
        are_plain_words(words),
        0 <= n < words.len(),
        forall|k: int| 0 <= k < n ==> leaves_command(#[trigger] words[k]),
        basename(words[n]) == g,
        is_git_program(g),
        !words[n].contains('='),
    ensures
        raw_decision(words, ShellDialect::Posix) == branch_globals(
            words,
            n + 1,
            ShellDialect::Posix,
            false,
            Seq::empty(),
            Seq::empty(),
        ),
{
    let none = Seq::<BindingView>::empty();
    let w = words[n];
    launchers_are_passed(words, 0, n);
    assert(is_plain_word(words[n]));
    plain_word_is_itself(w);
    assert(decoded_next(w, ShellDialect::Posix, ShellTokenRole::Syntax, false) == Some(w));
    next_index_is_first(w, 0, '=');
    let e = next_index(w, 0, '=');
    if e < w.len() {
        assert(w[e] == '=');
    }
    git_program_is_git(g);
    git_is_no_launcher(w, g);
    assert(program_from(words, n, ShellDialect::Posix, false, none) == Some((n, g, false, none)));
    assert(env_aliases(none) == none);
}

/// Git is no launcher.
#[verifier::rlimit(40)]
proof fn git_is_no_launcher(w: Seq<char>, g: Seq<char>)
    requires
        basename(w) == g,
        is_git_program(g),
    ensures
        !is_launcher(w),
{
    reveal_strlit("exec");
    reveal_strlit("time");
    reveal_strlit("nohup");
    reveal_strlit("!");
    reveal_strlit("git");
    reveal_strlit("git.exe");
    assert(lowered(g).len() == g.len());
    assert(lowered(g)[0] == 'g');
    assert(lower(g[0]) == 'g');
    if is_launcher(w) {
        assert(w.len() <= 5);
        reveal_with_fuel(basename_start, 7);
        assert(w[0] != '/');
        assert(g =~= w);
    }
}

} // verus!
