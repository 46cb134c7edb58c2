//! The words of a Git command line before its subcommand.

use vstd::prelude::*;
use crate::git::expansion::{
    may_be_git, may_be_git_branch, names_git, names_git_branch, word_views, GitSemanticWord,
    WordView,
};
use crate::shell::token::ShellDialect;
use crate::shell::wrappers::{
    env_assignment, frontend_named, is_env_assignment, is_posix_execution_frontend_basename,
};
use crate::text::{
    alnum, basename, is_alnum, is_str, is_str_nocase, last_component, same_nocase, starts,
    starts_str, texts, trim_leading, without_leading,
};
use vstd::slice::slice_subrange;

verus! {

/// The longest command that is analysed, in bytes.
pub const MAX_GIT_SEMANTIC_BYTES: usize = 65536;

/// Whether `git` stands in the text, in any case.
pub open spec fn mentions_git(s: Seq<char>) -> bool {
    exists|i: int|
        0 <= i && i + 3 <= s.len() && same_nocase(#[trigger] s.subrange(i, i + 3), "git"@)
}

/// Whether `git` stands in the text, in any case.
pub fn contains_git_ascii_case_insensitive(s: &[char]) -> (r: bool)
    ensures
        r == mentions_git(s@),
{
    let mut i: usize = 0;
    while s.len() - i >= 3
        invariant
            0 <= i <= s.len(),
            forall|j: int|
                0 <= j < i && j + 3 <= s@.len() ==> !same_nocase(
                    #[trigger] s@.subrange(j, j + 3),
                    "git"@,
                ),
        decreases s.len() - i,
    {
        if is_str_nocase(slice_subrange(s, i, i + 3), "git") {
            return true;
        }
        i += 1;
    }
    false
}

/// A token that Git could take for the name of a subcommand, an alias or a
/// helper program.
pub open spec fn is_dispatchable(s: Seq<char>) -> bool {
    s.len() > 0 && forall|i: int|
        0 <= i < s.len() ==> is_alnum(#[trigger] s[i]) || s[i] == '.' || s[i] == '_' || s[i] == '+'
            || s[i] == '-'
}

/// Whether Git could take the token for the name of a subcommand, an alias or a
/// helper program.
pub fn dispatchable(s: &[char]) -> (r: bool)
    ensures
        r == is_dispatchable(s@),
{
    if s.len() == 0 {
        return false;
    }
    let mut i: usize = 0;
    while i < s.len()
        invariant
            0 <= i <= s.len(),
            forall|j: int|
                0 <= j < i ==> is_alnum(#[trigger] s@[j]) || s@[j] == '.' || s@[j] == '_' || s@[j]
                    == '+' || s@[j] == '-',
        decreases s.len() - i,
    {
        let c = s[i];
        if !(alnum(c) || c == '.' || c == '_' || c == '+' || c == '-') {
            assert(!(is_alnum(s@[i as int])));
            return false;
        }
        i += 1;
    }
    true
}

/// A subcommand that Git has itself.
pub open spec fn is_git_builtin(s: Seq<char>) -> bool {
    s == "add"@ || s == "am"@ || s == "annotate"@ || s == "apply"@ || s == "archive"@
        || s == "archimport"@ || s == "backfill"@ || s == "bisect"@ || s == "blame"@
        || s == "branch"@ || s == "bugreport"@ || s == "bundle"@ || s == "cat-file"@
        || s == "check-attr"@ || s == "check-ignore"@ || s == "check-mailmap"@
        || s == "check-ref-format"@ || s == "checkout"@ || s == "checkout-index"@
        || s == "cherry"@ || s == "cherry-pick"@ || s == "citool"@ || s == "clean"@
        || s == "clone"@ || s == "column"@ || s == "commit"@ || s == "commit-graph"@
        || s == "commit-tree"@ || s == "config"@ || s == "count-objects"@ || s == "credential"@
        || s == "credential-cache"@ || s == "credential-store"@ || s == "cvsimport"@
        || s == "cvsexportcommit"@ || s == "cvsserver"@ || s == "daemon"@ || s == "describe"@
        || s == "diagnose"@ || s == "diff"@ || s == "diff-files"@ || s == "diff-index"@
        || s == "diff-pairs"@ || s == "diff-tree"@ || s == "difftool"@ || s == "fast-export"@
        || s == "fast-import"@ || s == "fetch"@ || s == "fetch-pack"@ || s == "filter-branch"@
        || s == "fmt-merge-msg"@ || s == "for-each-ref"@ || s == "for-each-repo"@
        || s == "format-patch"@ || s == "fsck"@ || s == "gc"@ || s == "get-tar-commit-id"@
        || s == "gitk"@ || s == "gitweb"@ || s == "grep"@ || s == "gui"@ || s == "hash-object"@
        || s == "help"@ || s == "history"@ || s == "hook"@ || s == "http-backend"@
        || s == "imap-send"@ || s == "index-pack"@ || s == "init"@ || s == "instaweb"@
        || s == "interpret-trailers"@ || s == "last-modified"@ || s == "log"@
        || s == "ls-files"@ || s == "ls-remote"@ || s == "ls-tree"@ || s == "mailinfo"@
        || s == "mailsplit"@ || s == "maintenance"@ || s == "merge"@ || s == "merge-base"@
        || s == "merge-file"@ || s == "merge-index"@ || s == "merge-one-file"@
        || s == "merge-tree"@ || s == "mergetool"@ || s == "mktag"@ || s == "mktree"@
        || s == "multi-pack-index"@ || s == "mv"@ || s == "name-rev"@ || s == "notes"@
        || s == "p4"@ || s == "pack-objects"@ || s == "pack-redundant"@ || s == "pack-refs"@
        || s == "patch-id"@ || s == "prune"@ || s == "prune-packed"@ || s == "pull"@
        || s == "push"@ || s == "quiltimport"@ || s == "range-diff"@ || s == "read-tree"@
        || s == "rebase"@ || s == "reflog"@ || s == "refs"@ || s == "remote"@ || s == "repack"@
        || s == "replace"@ || s == "replay"@ || s == "repo"@ || s == "request-pull"@
        || s == "rerere"@ || s == "reset"@ || s == "restore"@ || s == "rev-list"@
        || s == "rev-parse"@ || s == "revert"@ || s == "rm"@ || s == "scalar"@
        || s == "send-email"@ || s == "send-pack"@ || s == "sh-i18n"@ || s == "sh-setup"@
        || s == "shortlog"@ || s == "show"@ || s == "show-branch"@ || s == "show-index"@
        || s == "show-ref"@ || s == "sparse-checkout"@ || s == "stash"@ || s == "status"@
        || s == "stripspace"@ || s == "submodule"@ || s == "svn"@ || s == "switch"@
        || s == "symbolic-ref"@ || s == "tag"@ || s == "unpack-file"@ || s == "unpack-objects"@
        || s == "update-index"@ || s == "update-ref"@ || s == "update-server-info"@
        || s == "var"@ || s == "verify-commit"@ || s == "verify-pack"@ || s == "verify-tag"@
        || s == "version"@ || s == "whatchanged"@ || s == "worktree"@ || s == "write-tree"@
}

/// Whether Git has the subcommand itself.
pub fn is_known_git_command(s: &[char]) -> (r: bool)
    ensures
        r == is_git_builtin(s@),
{
    is_str(s, "add") || is_str(s, "am") || is_str(s, "annotate") || is_str(s, "apply")
        || is_str(s, "archive") || is_str(s, "archimport") || is_str(s, "backfill")
        || is_str(s, "bisect") || is_str(s, "blame") || is_str(s, "branch")
        || is_str(s, "bugreport") || is_str(s, "bundle") || is_str(s, "cat-file")
        || is_str(s, "check-attr") || is_str(s, "check-ignore") || is_str(s, "check-mailmap")
        || is_str(s, "check-ref-format") || is_str(s, "checkout") || is_str(s, "checkout-index")
        || is_str(s, "cherry") || is_str(s, "cherry-pick") || is_str(s, "citool")
        || is_str(s, "clean") || is_str(s, "clone") || is_str(s, "column")
        || is_str(s, "commit") || is_str(s, "commit-graph") || is_str(s, "commit-tree")
        || is_str(s, "config") || is_str(s, "count-objects") || is_str(s, "credential")
        || is_str(s, "credential-cache") || is_str(s, "credential-store")
        || is_str(s, "cvsimport") || is_str(s, "cvsexportcommit") || is_str(s, "cvsserver")
        || is_str(s, "daemon") || is_str(s, "describe") || is_str(s, "diagnose")
        || is_str(s, "diff") || is_str(s, "diff-files") || is_str(s, "diff-index")
        || is_str(s, "diff-pairs") || is_str(s, "diff-tree") || is_str(s, "difftool")
        || is_str(s, "fast-export") || is_str(s, "fast-import") || is_str(s, "fetch")
        || is_str(s, "fetch-pack") || is_str(s, "filter-branch") || is_str(s, "fmt-merge-msg")
        || is_str(s, "for-each-ref") || is_str(s, "for-each-repo") || is_str(s, "format-patch")
        || is_str(s, "fsck") || is_str(s, "gc") || is_str(s, "get-tar-commit-id")
        || is_str(s, "gitk") || is_str(s, "gitweb") || is_str(s, "grep") || is_str(s, "gui")
        || is_str(s, "hash-object") || is_str(s, "help") || is_str(s, "history")
        || is_str(s, "hook") || is_str(s, "http-backend") || is_str(s, "imap-send")
        || is_str(s, "index-pack") || is_str(s, "init") || is_str(s, "instaweb")
        || is_str(s, "interpret-trailers") || is_str(s, "last-modified") || is_str(s, "log")
        || is_str(s, "ls-files") || is_str(s, "ls-remote") || is_str(s, "ls-tree")
        || is_str(s, "mailinfo") || is_str(s, "mailsplit") || is_str(s, "maintenance")
        || is_str(s, "merge") || is_str(s, "merge-base") || is_str(s, "merge-file")
        || is_str(s, "merge-index") || is_str(s, "merge-one-file") || is_str(s, "merge-tree")
        || is_str(s, "mergetool") || is_str(s, "mktag") || is_str(s, "mktree")
        || is_str(s, "multi-pack-index") || is_str(s, "mv") || is_str(s, "name-rev")
        || is_str(s, "notes") || is_str(s, "p4") || is_str(s, "pack-objects")
        || is_str(s, "pack-redundant") || is_str(s, "pack-refs") || is_str(s, "patch-id")
        || is_str(s, "prune") || is_str(s, "prune-packed") || is_str(s, "pull")
        || is_str(s, "push") || is_str(s, "quiltimport") || is_str(s, "range-diff")
        || is_str(s, "read-tree") || is_str(s, "rebase") || is_str(s, "reflog")
        || is_str(s, "refs") || is_str(s, "remote") || is_str(s, "repack")
        || is_str(s, "replace") || is_str(s, "replay") || is_str(s, "repo")
        || is_str(s, "request-pull") || is_str(s, "rerere") || is_str(s, "reset")
        || is_str(s, "restore") || is_str(s, "rev-list") || is_str(s, "rev-parse")
        || is_str(s, "revert") || is_str(s, "rm") || is_str(s, "scalar")
        || is_str(s, "send-email") || is_str(s, "send-pack") || is_str(s, "sh-i18n")
        || is_str(s, "sh-setup") || is_str(s, "shortlog") || is_str(s, "show")
        || is_str(s, "show-branch") || is_str(s, "show-index") || is_str(s, "show-ref")
        || is_str(s, "sparse-checkout") || is_str(s, "stash") || is_str(s, "status")
        || is_str(s, "stripspace") || is_str(s, "submodule") || is_str(s, "svn")
        || is_str(s, "switch") || is_str(s, "symbolic-ref") || is_str(s, "tag")
        || is_str(s, "unpack-file") || is_str(s, "unpack-objects") || is_str(s, "update-index")
        || is_str(s, "update-ref") || is_str(s, "update-server-info") || is_str(s, "var")
        || is_str(s, "verify-commit") || is_str(s, "verify-pack") || is_str(s, "verify-tag")
        || is_str(s, "version") || is_str(s, "whatchanged") || is_str(s, "worktree")
        || is_str(s, "write-tree")
}

/// A word that leaves the command behind it as it is.
pub open spec fn is_launcher(s: Seq<char>) -> bool {
    s == "exec"@ || s == "time"@ || s == "nohup"@ || s == "!"@
}

/// Whether the word leaves the command behind it as it is.
pub fn launcher(s: &[char]) -> (r: bool)
    ensures
        r == is_launcher(s@),
{
    is_str(s, "exec") || is_str(s, "time") || is_str(s, "nohup") || is_str(s, "!")
}

/// What a word between `git` and the subcommand is.
#[derive(Debug, Clone, Copy, PartialEq, Eq, Structural)]
pub enum GlobalOption {
    /// Git prints information and runs no subcommand.
    Information,
    /// An option that is complete.
    Flag,
    /// `-c`, with the setting in the next word.
    Config,
    /// `--config-env`, with the setting in the next word.
    ConfigEnv,
    /// An option whose value is the next word.
    TakesNext,
    /// `-c` with the setting attached.
    AttachedConfig,
    /// `--config-env=` with the setting attached.
    AttachedConfigEnv,
    /// An option with its value attached.
    Attached,
    /// `--`.
    Terminator,
    /// An option that Git does not have.
    Unknown,
    /// No option: the subcommand.
    Subcommand,
}

/// An option with which Git prints information.
pub open spec fn is_information(s: Seq<char>) -> bool {
    s == "-v"@ || s == "--version"@ || s == "-h"@ || s == "--help"@ || s == "--exec-path"@ || s
        == "--html-path"@ || s == "--man-path"@ || s == "--info-path"@ || s == "help"@ || starts(
        s,
        "--list-cmds="@,
    )
}

/// An option of Git without a value.
pub open spec fn is_global_flag(s: Seq<char>) -> bool {
    s == "-p"@ || s == "--paginate"@ || s == "-P"@ || s == "--no-pager"@ || s == "--bare"@ || s
        == "--no-replace-objects"@ || s == "--literal-pathspecs"@ || s == "--no-literal-pathspecs"@
        || s == "--glob-pathspecs"@ || s == "--noglob-pathspecs"@ || s == "--icase-pathspecs"@ || s
        == "--no-optional-locks"@ || s == "--no-lazy-fetch"@ || s == "--no-advice"@
}

/// An option of Git whose value is the next word.
pub open spec fn is_global_value(s: Seq<char>) -> bool {
    s == "-C"@ || s == "--git-dir"@ || s == "--work-tree"@ || s == "--namespace"@ || s
        == "--super-prefix"@ || s == "--shallow-file"@ || s == "--attr-source"@
}

/// An option of Git with its value attached.
pub open spec fn is_global_attached(s: Seq<char>) -> bool {
    starts(s, "-C"@) || starts(s, "--exec-path="@) || starts(s, "--git-dir="@) || starts(
        s,
        "--work-tree="@,
    ) || starts(s, "--namespace="@) || starts(s, "--super-prefix="@) || starts(s, "--attr-source="@)
}

/// What a word between `git` and the subcommand is.
pub open spec fn global_option(s: Seq<char>) -> GlobalOption {
    if is_information(s) {
        GlobalOption::Information
    } else if is_global_flag(s) {
        GlobalOption::Flag
    } else if s == "-c"@ {
        GlobalOption::Config
    } else if s == "--config-env"@ {
        GlobalOption::ConfigEnv
    } else if is_global_value(s) {
        GlobalOption::TakesNext
    } else if starts(s, "-c"@) {
        GlobalOption::AttachedConfig
    } else if starts(s, "--config-env="@) {
        GlobalOption::AttachedConfigEnv
    } else if is_global_attached(s) {
        GlobalOption::Attached
    } else if s == "--"@ {
        GlobalOption::Terminator
    } else if starts(s, "-"@) {
        GlobalOption::Unknown
    } else {
        GlobalOption::Subcommand
    }
}

/// What a word between `git` and the subcommand is.
pub fn classify_global_option(s: &[char]) -> (r: GlobalOption)
    ensures
        r == global_option(s@),
{
    if is_str(s, "-v") || is_str(s, "--version") || is_str(s, "-h") || is_str(s, "--help")
        || is_str(s, "--exec-path") || is_str(s, "--html-path") || is_str(s, "--man-path")
        || is_str(s, "--info-path") || is_str(s, "help") || starts_str(s, "--list-cmds=") {
        GlobalOption::Information
    } else if is_str(s, "-p") || is_str(s, "--paginate") || is_str(s, "-P") || is_str(
        s,
        "--no-pager",
    ) || is_str(s, "--bare") || is_str(s, "--no-replace-objects") || is_str(s, "--literal-pathspecs")
        || is_str(s, "--no-literal-pathspecs") || is_str(s, "--glob-pathspecs") || is_str(
        s,
        "--noglob-pathspecs",
    ) || is_str(s, "--icase-pathspecs") || is_str(s, "--no-optional-locks") || is_str(
        s,
        "--no-lazy-fetch",
    ) || is_str(s, "--no-advice") {
        GlobalOption::Flag
    } else if is_str(s, "-c") {
        GlobalOption::Config
    } else if is_str(s, "--config-env") {
        GlobalOption::ConfigEnv
    } else if is_str(s, "-C") || is_str(s, "--git-dir") || is_str(s, "--work-tree") || is_str(
        s,
        "--namespace",
    ) || is_str(s, "--super-prefix") || is_str(s, "--shallow-file") || is_str(s, "--attr-source") {
        GlobalOption::TakesNext
    } else if starts_str(s, "-c") {
        GlobalOption::AttachedConfig
    } else if starts_str(s, "--config-env=") {
        GlobalOption::AttachedConfigEnv
    } else if starts_str(s, "-C") || starts_str(s, "--exec-path=") || starts_str(s, "--git-dir=")
        || starts_str(s, "--work-tree=") || starts_str(s, "--namespace=") || starts_str(
        s,
        "--super-prefix=",
    ) || starts_str(s, "--attr-source=") {
        GlobalOption::Attached
    } else if is_str(s, "--") {
        GlobalOption::Terminator
    } else if starts_str(s, "-") {
        GlobalOption::Unknown
    } else {
        GlobalOption::Subcommand
    }
}

/// A word of Cmd that leaves the command behind it as it is: `call`, or nothing
/// but `@`.
pub open spec fn is_cmd_prefix(word: WordView) -> bool {
    let name = without_leading(word.decoded, '@');
    !word.dynamic && (name.len() == 0 || same_nocase(name, "call"@))
}

/// Whether the word leaves the Cmd command behind it as it is.
fn cmd_prefix(word: &GitSemanticWord) -> (r: bool)
    ensures
        r == is_cmd_prefix(word@),
{
    let name = trim_leading(word.decoded.as_slice(), '@');
    !word.dynamic && (name.len() == 0 || is_str_nocase(name, "call"))
}

/// The word from the `i`th on that is the program, when it may be Git.
pub open spec fn git_program_from(words: Seq<WordView>, i: int, dialect: ShellDialect) -> Option<int>
    decreases words.len() - i,
{
    if i < 0 || i >= words.len() {
        None
    } else if env_assignment(words[i].decoded) || (dialect == ShellDialect::Cmd && is_cmd_prefix(
        words[i],
    )) || (!words[i].dynamic && is_launcher(words[i].decoded)) {
        git_program_from(words, i + 1, dialect)
    } else if may_be_git(words[i], dialect) || may_be_git_branch(words[i], dialect) {
        Some(i)
    } else {
        None
    }
}

/// The word that is the program, when it may be Git.
pub fn semantic_git_executable_index(words: &Vec<GitSemanticWord>, dialect: ShellDialect) -> (r: Option<
    usize,
>)
    ensures
        match r {
            Some(i) => i < words.len() && git_program_from(word_views(words@), 0, dialect) == Some(
                i as int,
            ),
            None => git_program_from(word_views(words@), 0, dialect) is None,
        },
{
    let mut i: usize = 0;
    while i < words.len()
        invariant
            0 <= i <= words.len(),
            git_program_from(word_views(words@), 0, dialect) == git_program_from(
                word_views(words@),
                i as int,
                dialect,
            ),
        decreases words.len() - i,
    {
        let word = &words[i];
        assert(word_views(words@)[i as int] == word@);
        if is_env_assignment(word.decoded.as_slice()) || (dialect == ShellDialect::Cmd
            && cmd_prefix(word)) || (!word.dynamic && launcher(word.decoded.as_slice())) {
            i += 1;
        } else if names_git(word, dialect) || names_git_branch(word, dialect) {
            return Some(i);
        } else {
            return None;
        }
    }
    None
}

/// The program name of a word without a trailing `.exe`.
pub open spec fn without_exe(s: Seq<char>) -> Seq<char> {
    if s.len() >= 4 && same_nocase(s.subrange(s.len() - 4, s.len() as int), ".exe"@) {
        s.subrange(0, s.len() - 4)
    } else {
        s
    }
}

/// The program name of a word without a trailing `.exe`.
pub fn strip_exe<'a>(s: &'a [char]) -> (r: &'a [char])
    ensures
        r@ == without_exe(s@),
{
    if s.len() >= 4 && is_str_nocase(slice_subrange(s, s.len() - 4, s.len()), ".exe") {
        slice_subrange(s, 0, s.len() - 4)
    } else {
        s
    }
}

/// Whether the literal words from the `i`th on run Git.
pub open spec fn words_run_git(words: Seq<Seq<char>>, i: int) -> bool
    decreases words.len() - i,
{
    if i < 0 || i >= words.len() {
        false
    } else if env_assignment(words[i]) || is_launcher(words[i]) {
        words_run_git(words, i + 1)
    } else {
        let name = without_exe(basename(words[i]));
        same_nocase(name, "git"@) || same_nocase(name, "git-branch"@)
    }
}

/// Whether literal words run Git.
pub fn decoded_words_execute_git(words: &Vec<Vec<char>>) -> (r: bool)
    ensures
        r == words_run_git(texts(words@), 0),
{
    let mut i: usize = 0;
    while i < words.len()
        invariant
            0 <= i <= words.len(),
            words_run_git(texts(words@), 0) == words_run_git(texts(words@), i as int),
        decreases words.len() - i,
    {
        let word = words[i].as_slice();
        assert(texts(words@)[i as int] == word@);
        if is_env_assignment(word) || launcher(word) {
            i += 1;
        } else {
            let name = strip_exe(last_component(word));
            return is_str_nocase(name, "git") || is_str_nocase(name, "git-branch");
        }
    }
    false
}

/// The first word from the `i`th on that is neither an assignment nor a launcher.
pub open spec fn behind_launchers(words: Seq<WordView>, i: int) -> int
    decreases words.len() - i,
{
    if i < 0 || i >= words.len() {
        words.len() as int
    } else if !words[i].dynamic && (env_assignment(words[i].decoded) || is_launcher(
        words[i].decoded,
    )) {
        behind_launchers(words, i + 1)
    } else {
        i
    }
}

/// Whether a wrapping program stands first and a word behind it may be Git.
pub open spec fn wrapper_may_run_git(words: Seq<WordView>, dialect: ShellDialect) -> bool {
    let f = behind_launchers(words, 0);
    f < words.len() && !words[f].dynamic && frontend_named(basename(words[f].decoded)) is Some && (
    exists|j: int|
        f < j < words.len() && (may_be_git(#[trigger] words[j], dialect) || may_be_git_branch(
            words[j],
            dialect,
        )))
}

/// Whether a wrapping program stands first and a word behind it may be Git.
pub fn frontend_bail_may_execute_git(words: &Vec<GitSemanticWord>, dialect: ShellDialect) -> (r: bool)
    ensures
        r == wrapper_may_run_git(word_views(words@), dialect),
{
    let ghost views = word_views(words@);
    let mut f: usize = 0;
    while f < words.len() && !words[f].dynamic && (is_env_assignment(words[f].decoded.as_slice())
        || launcher(words[f].decoded.as_slice()))
        invariant
            0 <= f <= words.len(),
            views == word_views(words@),
            behind_launchers(views, 0) == behind_launchers(views, f as int),
        decreases words.len() - f,
    {
        assert(views[f as int] == words@[f as int]@);
        f += 1;
    }
    if f >= words.len() {
        return false;
    }
    assert(views[f as int] == words@[f as int]@);
    if words[f].dynamic || !is_posix_execution_frontend_basename(
        last_component(words[f].decoded.as_slice()),
    ) {
        return false;
    }
    let mut j: usize = f + 1;
    while j < words.len()
        invariant
            f < j <= words.len(),
            views == word_views(words@),
            behind_launchers(views, 0) == f,
            !views[f as int].dynamic,
            frontend_named(basename(views[f as int].decoded)) is Some,
            forall|k: int|
                f < k < j ==> !may_be_git(#[trigger] views[k], dialect) && !may_be_git_branch(
                    views[k],
                    dialect,
                ),
        decreases words.len() - j,
    {
        assert(views[j as int] == words@[j as int]@);
        if names_git(&words[j], dialect) || names_git_branch(&words[j], dialect) {
            return true;
        }
        j += 1;
    }
    false
}

} // verus!
