//! Whether a command deletes branches or forces references.

use vstd::prelude::*;
use vstd::slice::slice_subrange;
use crate::git::alias::append_texts;
use crate::git::bindings::{
    alias_name_from_key, alias_of_key, bind, bind_name, bindings, bound_at, config_text,
    find_binding, make_config, make_numbered_name, numbered_name, setting, split_setting, Binding,
    BindingView,
};
use crate::git::command::{
    classify_global_option, contains_git_ascii_case_insensitive, global_option, is_git_builtin,
    is_known_git_command, is_launcher, launcher, mentions_git, strip_exe, without_exe, GlobalOption,
};
use crate::git::expansion::{
    any_separator, decode_git_semantic_words, git_semantic_executable_is_unbounded,
    git_symbolic_word_may_equal, has_separator, may_be_git, may_be_git_branch, names_git,
    names_git_branch, program_unbounded, semantic_words, too_many_words, word_may_equal, word_views,
    GitSemanticWord, WordView,
};
use crate::git::options::{
    argument_step, ends_options, literal_branch_tokens_prove_mutation, literals_mutate, no_mutation,
    optional_texts, options_end, step_argument, BranchCommandDecision, BranchMutationState,
    OptionStep, ValueWord,
};
use crate::git::powershell::{
    call_operand, call_tail, call_target, find_call_operand, is_call_expression,
    is_inert_expression, powershell_call_expression, powershell_call_expression_tail,
    powershell_call_target, powershell_expression_statement_without_subexpression,
    PowerShellCallTarget,
};
use crate::git::semantic::{find_statement, git_command, git_semantic_command, statement};
use crate::git::substitution::{
    is_inert, posix_substitution_view, replaced_from, resolution,
    resolve_literal_printf_substitutions, static_output, substitution_close, substitution_view,
    Resolution,
};
use crate::git::symbolic::{
    is_branch_name_query, literal_argv_proves_branch_mutation, literal_texts, option_may_mutate,
    sole_posix_branch_name_query, symbolic_branch_option_may_mutate, symbolic_posix_words, symbols,
    symbols_of, SymbolView, SymbolicPosixWord,
};
use crate::shell::decode::{decoded_next, ShellTokenDecoder, ShellTokenRole};
use crate::shell::segments::{is_single, single};
use crate::shell::token::{at, onward, tokenize_for_shell_dialect, tokens, ShellDialect};
use crate::shell::words::{shell_split, split_words};
use crate::shell::wrappers::{
    env_assignment, is_env_assignment, normalize_text, normalized, strip_wrapper_prefixes,
    without_wrappers,
};
use crate::text::{
    basename, chars_of, copy_of, ends, ends_str, from_index, has_char, is_str, is_str_nocase,
    last_component, lists, number, parse_number, push_all, rest, same_nocase, texts, trim,
    trim_leading, trim_start, trimmed, trimmed_start, without_leading,
};

verus! {

/// How many aliases of a command are kept and followed.
pub const MAX_VISIBLE_GIT_ALIASES: usize = 64;

/// A word that the shell expands and that may become an option that deletes or
/// forces.
pub open spec fn dynamic_word_may_mutate(word: WordView, dialect: ShellDialect) -> bool {
    word.may_split || word_may_equal(word, dialect, "-d"@, false) || word_may_equal(
        word,
        dialect,
        "-D"@,
        false,
    ) || word_may_equal(word, dialect, "-f"@, false) || word_may_equal(word, dialect, "-M"@, false)
        || word_may_equal(word, dialect, "-C"@, false) || word_may_equal(word, dialect, "--d"@, false)
        || word_may_equal(word, dialect, "--de"@, false) || word_may_equal(
        word,
        dialect,
        "--del"@,
        false,
    ) || word_may_equal(word, dialect, "--dele"@, false) || word_may_equal(
        word,
        dialect,
        "--delet"@,
        false,
    ) || word_may_equal(word, dialect, "--delete"@, false) || word_may_equal(
        word,
        dialect,
        "--forc"@,
        false,
    ) || word_may_equal(word, dialect, "--force"@, false)
}

/// Whether a word that the shell expands may become an option that deletes or
/// forces.
pub fn branch_dynamic_word_may_mutate(word: &GitSemanticWord, dialect: ShellDialect) -> (r: bool)
    ensures
        r == dynamic_word_may_mutate(word@, dialect),
{
    word.may_split || git_symbolic_word_may_equal(word, dialect, "-d", false)
        || git_symbolic_word_may_equal(word, dialect, "-D", false) || git_symbolic_word_may_equal(
        word,
        dialect,
        "-f",
        false,
    ) || git_symbolic_word_may_equal(word, dialect, "-M", false) || git_symbolic_word_may_equal(
        word,
        dialect,
        "-C",
        false,
    ) || git_symbolic_word_may_equal(word, dialect, "--d", false) || git_symbolic_word_may_equal(
        word,
        dialect,
        "--de",
        false,
    ) || git_symbolic_word_may_equal(word, dialect, "--del", false) || git_symbolic_word_may_equal(
        word,
        dialect,
        "--dele",
        false,
    ) || git_symbolic_word_may_equal(word, dialect, "--delet", false) || git_symbolic_word_may_equal(
        word,
        dialect,
        "--delete",
        false,
    ) || git_symbolic_word_may_equal(word, dialect, "--forc", false) || git_symbolic_word_may_equal(
        word,
        dialect,
        "--force",
        false,
    )
}

/// Whether the arguments of `git branch` from the `i`th word on may delete or
/// force, behind options with the effect `m`.
pub open spec fn arguments_may_mutate(
    words: Seq<WordView>,
    i: int,
    dialect: ShellDialect,
    m: BranchMutationState,
) -> bool
    decreases words.len() - i,
{
    if i < 0 || i >= words.len() {
        m.mutates()
    } else if words[i].dynamic {
        dynamic_word_may_mutate(words[i], dialect) || arguments_may_mutate(words, i + 1, dialect, m)
    } else if ends_options(words[i].decoded) {
        m.mutates()
    } else {
        match argument_step(words[i].decoded, m) {
            OptionStep::Stop => false,
            OptionStep::Next(n, ValueWord::Absent) => arguments_may_mutate(
                words,
                i + 1,
                dialect,
                n,
            ),
            OptionStep::Next(n, v) => if i + 1 >= words.len() {
                v == ValueWord::Optional && n.mutates()
            } else if words[i + 1].dynamic && words[i + 1].may_split {
                true
            } else {
                arguments_may_mutate(words, i + 2, dialect, n)
            },
        }
    }
}

/// Whether the arguments of `git branch` from the `start`th word on may delete
/// or force.
pub fn semantic_branch_argv_may_mutate(words: &Vec<GitSemanticWord>, start: usize, dialect: ShellDialect) -> (r: bool)
    requires
        start <= words.len(),
    ensures
        r == arguments_may_mutate(word_views(words@), start as int, dialect, no_mutation()),
{
    let ghost views = word_views(words@);
    let mut m = BranchMutationState::none();
    let mut i: usize = start;
    while i < words.len()
        invariant
            start <= i <= words.len(),
            views == word_views(words@),
            arguments_may_mutate(views, start as int, dialect, no_mutation())
                == arguments_may_mutate(views, i as int, dialect, m),
        decreases words.len() - i,
    {
        let w = &words[i];
        assert(views[i as int] == w@);
        if w.dynamic {
            if branch_dynamic_word_may_mutate(w, dialect) {
                return true;
            }
            i += 1;
            continue ;
        }
        let token = w.decoded.as_slice();
        if options_end(token) {
            return m.decision() == BranchCommandDecision::Destructive;
        }
        match step_argument(token, m) {
            OptionStep::Stop => {
                return false;
            },
            OptionStep::Next(n, v) => {
                if v == ValueWord::Absent {
                    m = n;
                    i += 1;
                } else {
                    if i + 1 >= words.len() {
                        return v == ValueWord::Optional && n.decision()
                            == BranchCommandDecision::Destructive;
                    }
                    assert(views[i + 1] == words@[i + 1]@);
                    if words[i + 1].dynamic && words[i + 1].may_split {
                        return true;
                    }
                    m = n;
                    i += 2;
                }
            },
        }
    }
    m.decision() == BranchCommandDecision::Destructive
}

/// The first word from the `i`th on that is the program of a command.
pub open spec fn program_word(words: Seq<WordView>, i: int, dialect: ShellDialect) -> int
    decreases words.len() - i,
{
    if i < 0 || i >= words.len() {
        words.len() as int
    } else if (!words[i].dynamic && (env_assignment(words[i].decoded) || is_launcher(
        words[i].decoded,
    ))) || (dialect == ShellDialect::Cmd && same_nocase(
        without_leading(words[i].decoded, '@'),
        "call"@,
    )) {
        program_word(words, i + 1, dialect)
    } else {
        i
    }
}

/// Whether the words behind `git` from the `i`th on may lead to a branch command
/// that deletes or forces; `unbounded` tells that the program may be anything.
pub open spec fn globals_may_mutate(
    words: Seq<WordView>,
    i: int,
    dialect: ShellDialect,
    unbounded: bool,
) -> bool
    decreases words.len() - i,
{
    if i < 0 || i >= words.len() {
        false
    } else if words[i].dynamic {
        (!unbounded && word_may_equal(words[i], dialect, "branch"@, false) && arguments_may_mutate(
            words,
            i + 1,
            dialect,
            no_mutation(),
        )) || globals_may_mutate(words, i + 1, dialect, unbounded)
    } else if words[i].decoded == "branch"@ {
        arguments_may_mutate(words, i + 1, dialect, no_mutation())
    } else if is_git_builtin(words[i].decoded) {
        false
    } else {
        match global_option(words[i].decoded) {
            GlobalOption::Information => false,
            GlobalOption::Flag
            | GlobalOption::Attached
            | GlobalOption::AttachedConfig
            | GlobalOption::AttachedConfigEnv
            | GlobalOption::Terminator => globals_may_mutate(words, i + 1, dialect, unbounded),
            GlobalOption::Config | GlobalOption::ConfigEnv | GlobalOption::TakesNext => if i + 1
                >= words.len() {
                false
            } else if words[i + 1].dynamic && words[i + 1].may_split {
                arguments_may_mutate(words, i + 2, dialect, no_mutation())
            } else {
                globals_may_mutate(words, i + 2, dialect, unbounded)
            },
            GlobalOption::Unknown | GlobalOption::Subcommand => !unbounded && arguments_may_mutate(
                words,
                i + 1,
                dialect,
                no_mutation(),
            ),
        }
    }
}

/// The texts of the literal words.
pub open spec fn literal_words(words: Seq<WordView>) -> Seq<Option<Seq<char>>> {
    Seq::new(
        words.len(),
        |i: int|
            if words[i].dynamic {
                None
            } else {
                Some(words[i].decoded)
            },
    )
}

/// Whether a word is expanded by the shell.
pub open spec fn some_dynamic(words: Seq<WordView>) -> bool {
    exists|i: int| 0 <= i < words.len() && (#[trigger] words[i]).dynamic
}

/// Whether the decoded words of a command may run a branch command that deletes
/// or forces. `called` tells that the program was computed by a PowerShell call
/// expression and stands for Git.
pub open spec fn words_may_mutate(words: Seq<WordView>, dialect: ShellDialect, called: bool) -> bool {
    let p = program_word(words, 0, dialect);
    if (!called && !some_dynamic(words)) || p >= words.len() {
        false
    } else {
        let unbounded = !called && program_unbounded(words[p], dialect);
        if !called && !unbounded && may_be_git_branch(words[p], dialect) {
            arguments_may_mutate(words, p + 1, dialect, no_mutation())
        } else if !called && !unbounded && !may_be_git(words[p], dialect) {
            false
        } else {
            (unbounded && literals_mutate(literal_words(words), p + 1)) || globals_may_mutate(
                words,
                p + 1,
                dialect,
                unbounded,
            )
        }
    }
}

/// Whether expansions in a command of a proven dialect may make it a branch
/// command that deletes or forces.
pub open spec fn may_mutate_in(s: Seq<char>, dialect: ShellDialect) -> bool {
    let called = dialect == ShellDialect::PowerShell && is_call_expression(s);
    if called {
        match call_tail(s) {
            None => true,
            Some(tail) => {
                let c = if call_target(s) == PowerShellCallTarget::GitBranch {
                    "git branch "@ + tail
                } else {
                    "git "@ + tail
                };
                call_target(s) != PowerShellCallTarget::NonGit && command_may_mutate(
                    c,
                    dialect,
                    true,
                )
            },
        }
    } else if !is_single(trimmed(s), dialect) {
        false
    } else if dialect == ShellDialect::PowerShell && is_inert_expression(statement(s, dialect)) {
        false
    } else {
        command_may_mutate(git_command(s, dialect), dialect, false)
    }
}

/// Whether a prepared command may run a branch command that deletes or forces.
pub open spec fn command_may_mutate(c: Seq<char>, dialect: ShellDialect, called: bool) -> bool {
    match semantic_words(c, dialect) {
        None => false,
        Some(words) => if too_many_words(c, dialect) {
            mentions_git(c)
        } else {
            words_may_mutate(words, dialect, called)
        },
    }
}

/// Whether expansions in a command may make it a branch command that deletes or
/// forces, in any dialect where none is proven.
pub open spec fn may_mutate(s: Seq<char>, dialect: ShellDialect) -> bool {
    if dialect == ShellDialect::Unknown {
        may_mutate_in(s, ShellDialect::Posix) || may_mutate_in(s, ShellDialect::PowerShell)
            || may_mutate_in(s, ShellDialect::Cmd)
    } else {
        may_mutate_in(s, dialect)
    }
}

/// Whether the words behind `git` may lead to a branch command that deletes or
/// forces.
fn globals_mutate(words: &Vec<GitSemanticWord>, start: usize, dialect: ShellDialect, unbounded: bool) -> (r: bool)
    requires
        start <= words.len(),
    ensures
        r == globals_may_mutate(word_views(words@), start as int, dialect, unbounded),
{
    let ghost views = word_views(words@);
    let mut i: usize = start;
    while i < words.len()
        invariant
            start <= i <= words.len(),
            views == word_views(words@),
            globals_may_mutate(views, start as int, dialect, unbounded) == globals_may_mutate(
                views,
                i as int,
                dialect,
                unbounded,
            ),
        decreases words.len() - i,
    {
        let w = &words[i];
        assert(views[i as int] == w@);
        if w.dynamic {
            if !unbounded && git_symbolic_word_may_equal(w, dialect, "branch", false)
                && semantic_branch_argv_may_mutate(words, i + 1, dialect) {
                return true;
            }
            i += 1;
            continue ;
        }
        let token = w.decoded.as_slice();
        if is_str(token, "branch") {
            return semantic_branch_argv_may_mutate(words, i + 1, dialect);
        }
        if is_known_git_command(token) {
            return false;
        }
        match classify_global_option(token) {
            GlobalOption::Information => {
                return false;
            },
            GlobalOption::Flag
            | GlobalOption::Attached
            | GlobalOption::AttachedConfig
            | GlobalOption::AttachedConfigEnv
            | GlobalOption::Terminator => {
                i += 1;
            },
            GlobalOption::Config | GlobalOption::ConfigEnv | GlobalOption::TakesNext => {
                if i + 1 >= words.len() {
                    return false;
                }
                assert(views[i + 1] == words@[i + 1]@);
                if words[i + 1].dynamic && words[i + 1].may_split {
                    return semantic_branch_argv_may_mutate(words, i + 2, dialect);
                }
                i += 2;
            },
            GlobalOption::Unknown | GlobalOption::Subcommand => {
                return !unbounded && semantic_branch_argv_may_mutate(words, i + 1, dialect);
            },
        }
    }
    false
}

/// Whether the decoded words of a command may run a branch command that deletes
/// or forces.
fn words_mutate(words: &Vec<GitSemanticWord>, dialect: ShellDialect, called: bool) -> (r: bool)
    ensures
        r == words_may_mutate(word_views(words@), dialect, called),
{
    let ghost views = word_views(words@);
    let mut dynamic = false;
    let mut j: usize = 0;
    while j < words.len()
        invariant
            0 <= j <= words.len(),
            views == word_views(words@),
            dynamic == exists|i: int| 0 <= i < j && (#[trigger] views[i]).dynamic,
        decreases words.len() - j,
    {
        assert(views[j as int] == words@[j as int]@);
        if words[j].dynamic {
            dynamic = true;
        }
        j += 1;
    }
    if !called && !dynamic {
        return false;
    }
    let mut p: usize = 0;
    while p < words.len() && ((!words[p].dynamic && (is_env_assignment(words[p].decoded.as_slice())
        || launcher(words[p].decoded.as_slice()))) || (dialect == ShellDialect::Cmd
        && is_str_nocase(trim_leading(words[p].decoded.as_slice(), '@'), "call")))
        invariant
            0 <= p <= words.len(),
            views == word_views(words@),
            program_word(views, 0, dialect) == program_word(views, p as int, dialect),
        decreases words.len() - p,
    {
        assert(views[p as int] == words@[p as int]@);
        p += 1;
    }
    if p >= words.len() {
        return false;
    }
    let program = &words[p];
    assert(views[p as int] == program@);
    let unbounded = !called && git_semantic_executable_is_unbounded(program, dialect);
    if !called && !unbounded {
        if names_git_branch(program, dialect) {
            return semantic_branch_argv_may_mutate(words, p + 1, dialect);
        }
        if !names_git(program, dialect) {
            return false;
        }
    }
    if unbounded {
        let mut v: Vec<Option<Vec<char>>> = Vec::new();
        let mut i: usize = 0;
        while i < words.len()
            invariant
                0 <= i <= words.len(),
                views == word_views(words@),
                v@.len() == i,
                forall|k: int|
                    0 <= k < i ==> (match #[trigger] v@[k] {
                        Some(t) => !views[k].dynamic && views[k].decoded == t@,
                        None => views[k].dynamic,
                    }),
            decreases words.len() - i,
        {
            assert(views[i as int] == words@[i as int]@);
            if words[i].dynamic {
                v.push(None);
            } else {
                v.push(Some(copy_of(words[i].decoded.as_slice())));
            }
            i += 1;
        }
        assert(optional_texts(v@) =~= literal_words(views));
        if literal_branch_tokens_prove_mutation(&v, p + 1) {
            return true;
        }
    }
    globals_mutate(words, p + 1, dialect, unbounded)
}

/// Whether a prepared command may run a branch command that deletes or forces.
fn command_mutates(c: &[char], dialect: ShellDialect, called: bool) -> (r: bool)
    ensures
        r == command_may_mutate(c@, dialect, called),
{
    match decode_git_semantic_words(c, dialect) {
        None => false,
        Some(decoded) => {
            if decoded.over_limit {
                return contains_git_ascii_case_insensitive(c);
            }
            words_mutate(&decoded.words, dialect, called)
        },
    }
}

/// Whether expansions in a command of a proven dialect may make it a branch
/// command that deletes or forces.
fn mutates_in(s: &[char], dialect: ShellDialect) -> (r: bool)
    ensures
        r == may_mutate_in(s@, dialect),
{
    if dialect == ShellDialect::PowerShell && powershell_call_expression(s) {
        let tail = match powershell_call_expression_tail(s) {
            None => {
                return true;
            },
            Some(t) => t,
        };
        let target = powershell_call_target(s);
        if target == PowerShellCallTarget::NonGit {
            return false;
        }
        let mut c = if target == PowerShellCallTarget::GitBranch {
            chars_of("git branch ")
        } else {
            chars_of("git ")
        };
        push_all(&mut c, tail);
        return command_mutates(c.as_slice(), dialect, true);
    }
    if !single(trim(s), dialect) {
        return false;
    }
    if dialect == ShellDialect::PowerShell && powershell_expression_statement_without_subexpression(
        find_statement(s, dialect),
    ) {
        return false;
    }
    command_mutates(git_semantic_command(s, dialect), dialect, false)
}

/// Whether expansions in a command may make it a branch command that deletes or
/// forces, over texts.
pub fn text_may_mutate(s: &[char], dialect: ShellDialect) -> (r: bool)
    ensures
        r == may_mutate(s@, dialect),
{
    if dialect == ShellDialect::Unknown {
        mutates_in(s, ShellDialect::Posix) || mutates_in(s, ShellDialect::PowerShell) || mutates_in(
            s,
            ShellDialect::Cmd,
        )
    } else {
        mutates_in(s, dialect)
    }
}

/// Whether expansions in a command may make it a branch command that deletes or
/// forces. An expansion counts only where Git would read it as its program, its
/// subcommand or an option; quoted option values and words behind `--` are data.
pub fn dynamic_git_branch_may_mutate(command: &str, dialect: ShellDialect) -> (r: bool)
    ensures
        r == may_mutate(command@, dialect),
{
    let s = chars_of(command);
    text_may_mutate(s.as_slice(), dialect)
}

/// The aliases behind a configuration setting.
pub open spec fn with_alias(aliases: Seq<BindingView>, config: Seq<char>) -> Seq<BindingView> {
    match setting(config) {
        None => aliases,
        Some((key, value)) => match alias_of_key(key) {
            None => aliases,
            Some(name) => if name.len() == 0 || (aliases.len() >= MAX_VISIBLE_GIT_ALIASES
                && bound_at(aliases, 0, name) >= aliases.len()) {
                aliases
            } else {
                bind(aliases, BindingView { name, value, dynamic: false })
            },
        },
    }
}

/// Adds the alias that a configuration setting defines.
pub fn insert_visible_alias(aliases: &mut Vec<Binding>, config: &[char])
    ensures
        bindings(final(aliases)@) == with_alias(bindings(old(aliases)@), config@),
{
    if let Some((key, value)) = split_setting(config) {
        if let Some(name) = alias_name_from_key(key) {
            if !(name.len() == 0 || (aliases.len() >= MAX_VISIBLE_GIT_ALIASES && find_binding(
                aliases,
                name,
            ) >= aliases.len())) {
                bind_name(aliases, copy_of(name), copy_of(value), false);
            }
        }
    }
}

/// The aliases behind a `--config-env` setting.
pub open spec fn with_env_alias(aliases: Seq<BindingView>, env: Seq<BindingView>, config_env: Seq<char>) -> Seq<
    BindingView,
> {
    match setting(config_env) {
        None => aliases,
        Some((key, variable)) => {
            let i = bound_at(env, 0, variable);
            if i < env.len() {
                with_alias(aliases, config_text(key, env[i].value))
            } else {
                aliases
            }
        },
    }
}

/// Adds the alias that a `--config-env` setting defines.
pub fn insert_visible_config_env_alias(aliases: &mut Vec<Binding>, env: &Vec<Binding>, config_env: &[char])
    ensures
        bindings(final(aliases)@) == with_env_alias(
            bindings(old(aliases)@),
            bindings(env@),
            config_env@,
        ),
{
    if let Some((key, variable)) = split_setting(config_env) {
        let i = find_binding(env, variable);
        if i < env.len() {
            assert(bindings(env@)[i as int] == env@[i as int]@);
            let config = make_config(key, env[i].value.as_slice());
            insert_visible_alias(aliases, config.as_slice());
        }
    }
}

/// The aliases that the numbered settings of the environment from the `i`th on
/// define, behind `aliases`.
pub open spec fn env_aliases_from(env: Seq<BindingView>, i: int, count: int, aliases: Seq<BindingView>) -> Seq<
    BindingView,
>
    decreases count - i,
{
    if i < 0 || i >= count {
        aliases
    } else {
        let k = bound_at(env, 0, numbered_name("GIT_CONFIG_KEY_"@, i as usize));
        let v = bound_at(env, 0, numbered_name("GIT_CONFIG_VALUE_"@, i as usize));
        env_aliases_from(
            env,
            i + 1,
            count,
            if k < env.len() && v < env.len() {
                with_alias(aliases, config_text(env[k].value, env[v].value))
            } else {
                aliases
            },
        )
    }
}

/// How many numbered settings the environment has, no more than are kept.
pub open spec fn env_alias_count(env: Seq<BindingView>) -> int {
    let i = bound_at(env, 0, "GIT_CONFIG_COUNT"@);
    let n: int = if i < env.len() {
        match number(env[i].value) {
            Some(n) => n as int,
            None => 0,
        }
    } else {
        0
    };
    if n > MAX_VISIBLE_GIT_ALIASES {
        MAX_VISIBLE_GIT_ALIASES as int
    } else {
        n
    }
}

/// The aliases that the environment defines.
pub open spec fn env_aliases(env: Seq<BindingView>) -> Seq<BindingView> {
    env_aliases_from(env, 0, env_alias_count(env), Seq::empty())
}

/// The aliases that the environment defines.
pub fn visible_environment_aliases(env: &Vec<Binding>) -> (r: Vec<Binding>)
    ensures
        bindings(r@) == env_aliases(bindings(env@)),
{
    let ghost ev = bindings(env@);
    let name = chars_of("GIT_CONFIG_COUNT");
    let c = find_binding(env, name.as_slice());
    let mut count: usize = 0;
    if c < env.len() {
        assert(ev[c as int] == env@[c as int]@);
        if let Some(n) = parse_number(env[c].value.as_slice()) {
            count = if n > MAX_VISIBLE_GIT_ALIASES {
                MAX_VISIBLE_GIT_ALIASES
            } else {
                n
            };
        }
    }
    let mut aliases: Vec<Binding> = Vec::new();
    assert(bindings(aliases@) =~= Seq::<BindingView>::empty());
    let mut i: usize = 0;
    while i < count
        invariant
            0 <= i <= count,
            ev == bindings(env@),
            count == env_alias_count(ev),
            env_aliases(ev) == env_aliases_from(ev, i as int, count as int, bindings(aliases@)),
        decreases count - i,
    {
        let key_name = make_numbered_name("GIT_CONFIG_KEY_", i);
        let value_name = make_numbered_name("GIT_CONFIG_VALUE_", i);
        let k = find_binding(env, key_name.as_slice());
        let v = find_binding(env, value_name.as_slice());
        if k < env.len() && v < env.len() {
            assert(ev[k as int] == env@[k as int]@ && ev[v as int] == env@[v as int]@);
            let config = make_config(env[k].value.as_slice(), env[v].value.as_slice());
            insert_visible_alias(&mut aliases, config.as_slice());
        }
        i += 1;
    }
    aliases
}

/// A text without `.exe` at its end, however often it stands there.
pub open spec fn without_exe_suffixes(s: Seq<char>) -> Seq<char>
    decreases s.len(),
{
    if s.len() >= 4 && ends(s, ".exe"@) {
        without_exe_suffixes(s.subrange(0, s.len() - 4))
    } else {
        s
    }
}

/// A text without `.exe` at its end, however often it stands there.
fn strip_exe_suffixes<'a>(s: &'a [char]) -> (r: &'a [char])
    ensures
        r@ == without_exe_suffixes(s@),
{
    let mut t = s;
    while t.len() >= 4 && ends_str(t, ".exe")
        invariant
            without_exe_suffixes(s@) == without_exe_suffixes(t@),
        decreases t.len(),
    {
        t = slice_subrange(t, 0, t.len() - 4);
    }
    t
}

/// A character with which a shell alias is more than one simple command.
pub open spec fn joins_commands(s: Seq<char>) -> bool {
    s.contains(';') || s.contains('|') || s.contains('&') || s.contains('(') || s.contains(')')
        || s.contains('\n') || s.contains('\r')
}

/// The words that an alias stands for; a shell alias must run Git alone.
pub open spec fn alias_words(alias: Seq<char>) -> Option<Seq<Seq<char>>> {
    if alias.len() > 0 && alias[0] == '!' {
        let body = rest(alias, 1);
        if joins_commands(body) {
            None
        } else {
            match shell_split(body) {
                None => None,
                Some(words) => if words.len() > 0 && same_nocase(
                    without_exe_suffixes(basename(words[0])),
                    "git"@,
                ) {
                    Some(words.subrange(1, words.len() as int))
                } else {
                    None
                },
            }
        }
    } else {
        shell_split(alias)
    }
}

/// The words that a subcommand line becomes once its aliases are followed, when
/// they lead to `branch`.
pub open spec fn branch_words(
    aliases: Seq<BindingView>,
    words: Seq<Seq<char>>,
    visited: Seq<Seq<char>>,
    left: nat,
) -> Option<Seq<Seq<char>>>
    decreases left,
{
    if left == 0 || words.len() == 0 {
        None
    } else if words[0] == "branch"@ {
        Some(words)
    } else if same_nocase(words[0], "git-branch"@) {
        Some(words.update(0, "branch"@))
    } else if visited.contains(words[0]) {
        None
    } else {
        let i = bound_at(aliases, 0, words[0]);
        if i >= aliases.len() {
            None
        } else {
            match alias_words(aliases[i].value) {
                None => None,
                Some(replacement) => if replacement.len() == 0 {
                    None
                } else {
                    branch_words(
                        aliases,
                        replacement + words.subrange(1, words.len() as int),
                        visited.push(words[0]),
                        (left - 1) as nat,
                    )
                },
            }
        }
    }
}

/// The words that a subcommand becomes once its aliases are followed, when they
/// lead to `branch`.
pub open spec fn branch_alias(invoked: Seq<char>, aliases: Seq<BindingView>) -> Option<Seq<Seq<char>>> {
    branch_words(aliases, seq![invoked], Seq::empty(), MAX_VISIBLE_GIT_ALIASES as nat)
}

/// The words that an alias stands for.
fn read_alias(alias: &[char]) -> (r: Option<Vec<Vec<char>>>)
    ensures
        match r {
            Some(v) => alias_words(alias@) == Some(texts(v@)),
            None => alias_words(alias@) is None,
        },
{
    if alias.len() > 0 && alias[0] == '!' {
        let body = from_index(alias, 1);
        if has_char(body, ';') || has_char(body, '|') || has_char(body, '&') || has_char(body, '(')
            || has_char(body, ')') || has_char(body, '\n') || has_char(body, '\r') {
            return None;
        }
        match split_words(body) {
            None => None,
            Some(words) => {
                let ghost views = texts(words@);
                if words.len() == 0 {
                    return None;
                }
                assert(views[0] == words@[0]@);
                if !is_str_nocase(
                    strip_exe_suffixes(last_component(words[0].as_slice())),
                    "git",
                ) {
                    return None;
                }
                let mut more: Vec<Vec<char>> = Vec::new();
                append_texts(&mut more, &words, 1);
                assert(texts(more@) =~= views.subrange(1, views.len() as int));
                Some(more)
            },
        }
    } else {
        split_words(alias)
    }
}

/// The words that a subcommand becomes once its aliases are followed, when they
/// lead to `branch`.
pub fn resolve_visible_branch_alias(invoked: &[char], aliases: &Vec<Binding>) -> (r: Option<
    Vec<Vec<char>>,
>)
    ensures
        match r {
            Some(v) => branch_alias(invoked@, bindings(aliases@)) == Some(texts(v@)) && v.len() > 0,
            None => branch_alias(invoked@, bindings(aliases@)) is None,
        },
{
    let ghost av = bindings(aliases@);
    let mut words: Vec<Vec<char>> = Vec::new();
    words.push(copy_of(invoked));
    assert(texts(words@) =~= seq![invoked@]);
    let mut visited: Vec<Vec<char>> = Vec::new();
    assert(texts(visited@) =~= Seq::<Seq<char>>::empty());
    let mut left: usize = MAX_VISIBLE_GIT_ALIASES;
    while left > 0
        invariant
            left <= MAX_VISIBLE_GIT_ALIASES,
            av == bindings(aliases@),
            branch_alias(invoked@, av) == branch_words(
                av,
                texts(words@),
                texts(visited@),
                left as nat,
            ),
        decreases left,
    {
        let ghost views = texts(words@);
        if words.len() == 0 {
            return None;
        }
        assert(views[0] == words@[0]@);
        if is_str(words[0].as_slice(), "branch") {
            return Some(words);
        }
        if is_str_nocase(words[0].as_slice(), "git-branch") {
            let name = chars_of("branch");
            let ghost view = name@;
            words.set(0, name);
            assert(texts(words@) =~= views.update(0, view));
            return Some(words);
        }
        if lists(&visited, words[0].as_slice()) {
            return None;
        }
        let i = find_binding(aliases, words[0].as_slice());
        if i >= aliases.len() {
            return None;
        }
        assert(av[i as int] == aliases@[i as int]@);
        match read_alias(aliases[i].value.as_slice()) {
            None => {
                return None;
            },
            Some(replacement) => {
                if replacement.len() == 0 {
                    return None;
                }
                let ghost rv = texts(replacement@);
                let mut next = replacement;
                append_texts(&mut next, &words, 1);
                assert(texts(next@) =~= rv + views.subrange(1, views.len() as int));
                let ghost before = texts(visited@);
                visited.push(copy_of(words[0].as_slice()));
                assert(texts(visited@) =~= before.push(views[0]));
                words = next;
            },
        }
        left -= 1;
    }
    None
}

/// The decision behind the words of a command whose program may be anything:
/// only a proven change counts, and it rests on the expansion.
pub open spec fn scan_verdict(m: BranchMutationState, unbounded: bool) -> BranchCommandDecision {
    if !unbounded {
        m.verdict()
    } else if m.mutates() {
        BranchCommandDecision::DestructiveDynamic
    } else {
        BranchCommandDecision::NotBranch
    }
}

/// The decision behind the words of a command.
pub fn symbolic_scan_decision(m: BranchMutationState, unbounded: bool) -> (r: BranchCommandDecision)
    ensures
        r == scan_verdict(m, unbounded),
{
    let decision = m.decision();
    if !unbounded {
        return decision;
    }
    match decision {
        BranchCommandDecision::Destructive => BranchCommandDecision::DestructiveDynamic,
        _ => BranchCommandDecision::NotBranch,
    }
}

/// What the arguments of `git branch` with marks do, from the `i`th word on.
pub open spec fn symbolic_arguments(
    words: Seq<SymbolView>,
    i: int,
    m: BranchMutationState,
    unbounded: bool,
) -> BranchCommandDecision
    decreases words.len() - i,
{
    if i < 0 || i >= words.len() {
        scan_verdict(m, unbounded)
    } else if words[i].dynamic() {
        if words[i].unquoted_dynamic || option_may_mutate(words[i]) {
            BranchCommandDecision::DestructiveDynamic
        } else {
            symbolic_arguments(words, i + 1, m, unbounded)
        }
    } else if ends_options(words[i].text) {
        scan_verdict(m, unbounded)
    } else {
        match argument_step(words[i].text, m) {
            OptionStep::Stop => BranchCommandDecision::NonDestructive,
            OptionStep::Next(n, ValueWord::Absent) => symbolic_arguments(
                words,
                i + 1,
                n,
                unbounded,
            ),
            OptionStep::Next(n, v) => if i + 1 >= words.len() {
                if v == ValueWord::Optional {
                    scan_verdict(n, unbounded)
                } else {
                    BranchCommandDecision::NonDestructive
                }
            } else if words[i + 1].unquoted_dynamic {
                BranchCommandDecision::DestructiveDynamic
            } else {
                symbolic_arguments(words, i + 2, n, unbounded)
            },
        }
    }
}

/// What the arguments of `git branch` with marks do.
fn decide_symbolic_arguments(words: &Vec<SymbolicPosixWord>, start: usize, unbounded: bool) -> (r: BranchCommandDecision)
    requires
        start <= words.len(),
    ensures
        r == symbolic_arguments(symbols(words@), start as int, no_mutation(), unbounded),
{
    let ghost views = symbols(words@);
    let mut m = BranchMutationState::none();
    let mut i: usize = start;
    while i < words.len()
        invariant
            start <= i <= words.len(),
            views == symbols(words@),
            symbolic_arguments(views, start as int, no_mutation(), unbounded) == symbolic_arguments(
                views,
                i as int,
                m,
                unbounded,
            ),
        decreases words.len() - i,
    {
        let w = &words[i];
        assert(views[i as int] == w@);
        if w.is_dynamic() {
            if w.unquoted_dynamic || symbolic_branch_option_may_mutate(w) {
                return BranchCommandDecision::DestructiveDynamic;
            }
            i += 1;
            continue ;
        }
        let token = w.text.as_slice();
        if options_end(token) {
            return symbolic_scan_decision(m, unbounded);
        }
        match step_argument(token, m) {
            OptionStep::Stop => {
                return BranchCommandDecision::NonDestructive;
            },
            OptionStep::Next(n, v) => {
                if v == ValueWord::Absent {
                    m = n;
                    i += 1;
                } else {
                    if i + 1 >= words.len() {
                        return if v == ValueWord::Optional {
                            symbolic_scan_decision(n, unbounded)
                        } else {
                            BranchCommandDecision::NonDestructive
                        };
                    }
                    assert(views[i + 1] == words@[i + 1]@);
                    if words[i + 1].unquoted_dynamic {
                        return BranchCommandDecision::DestructiveDynamic;
                    }
                    m = n;
                    i += 2;
                }
            },
        }
    }
    symbolic_scan_decision(m, unbounded)
}

/// What stands before the arguments of a command with marks.
pub enum SymbolicProgram {
    /// No program.
    Missing,
    /// The command is decided.
    Decided(BranchCommandDecision),
    /// The program is the word of this number. It may be `git-branch` itself, it
    /// may be anything, and the words before it set this environment.
    At(int, bool, bool, Seq<BindingView>),
}

/// What stands before the arguments of a command with marks, from the `i`th
/// word on.
pub open spec fn symbolic_program(words: Seq<SymbolView>, i: int, env: Seq<BindingView>) -> SymbolicProgram
    decreases words.len() - i,
{
    if i < 0 || i >= words.len() {
        SymbolicProgram::Missing
    } else {
        let w = words[i];
        let p = w.program();
        let git = p.could_be("git"@) || p.could_be("git.exe"@);
        let branch = p.could_be("git-branch"@) || p.could_be("git-branch.exe"@);
        if !w.dynamic() && env_assignment(w.text) {
            let (name, value) = setting(w.text)->0;
            symbolic_program(words, i + 1, bind(env, BindingView { name, value, dynamic: false }))
        } else if !w.dynamic() && is_launcher(w.text) {
            symbolic_program(words, i + 1, env)
        } else if git || branch {
            if p.unquoted_dynamic && p.has_literal() {
                SymbolicProgram::Decided(BranchCommandDecision::DestructiveDynamic)
            } else {
                SymbolicProgram::At(i, !git, p.unquoted_dynamic, env)
            }
        } else {
            SymbolicProgram::Decided(BranchCommandDecision::NotBranch)
        }
    }
}

/// The words of an alias, and the words from the `i`th on behind them.
pub open spec fn expanded_symbols(expansion: Seq<Seq<char>>, words: Seq<SymbolView>, i: int) -> Seq<
    SymbolView,
> {
    Seq::new(
        expansion.len(),
        |j: int| SymbolView { text: expansion[j], unquoted_dynamic: false },
    ) + words.subrange(i, words.len() as int)
}

/// What the words with marks between `git` and the arguments of a branch command
/// do, from the `i`th on.
pub open spec fn symbolic_globals(
    words: Seq<SymbolView>,
    i: int,
    env: Seq<BindingView>,
    aliases: Seq<BindingView>,
    unbounded: bool,
) -> BranchCommandDecision
    decreases words.len() - i,
{
    if i < 0 || i >= words.len() {
        BranchCommandDecision::NotBranch
    } else if words[i].dynamic() {
        if unbounded {
            if literals_mutate(literal_texts(words), i + 1) {
                BranchCommandDecision::DestructiveDynamic
            } else {
                BranchCommandDecision::NotBranch
            }
        } else if words[i].could_be("branch"@) {
            if words[i].unquoted_dynamic {
                BranchCommandDecision::DestructiveDynamic
            } else {
                symbolic_arguments(words, i + 1, no_mutation(), unbounded)
            }
        } else {
            BranchCommandDecision::NotBranch
        }
    } else {
        let token = words[i].text;
        if token == "branch"@ {
            symbolic_arguments(words, i + 1, no_mutation(), unbounded)
        } else {
            match global_option(token) {
                GlobalOption::Information => BranchCommandDecision::NonDestructive,
                GlobalOption::Flag | GlobalOption::Attached => symbolic_globals(
                    words,
                    i + 1,
                    env,
                    aliases,
                    unbounded,
                ),
                GlobalOption::Config | GlobalOption::ConfigEnv | GlobalOption::TakesNext => if i + 1
                    >= words.len() {
                    BranchCommandDecision::Unparsed
                } else if words[i + 1].unquoted_dynamic {
                    BranchCommandDecision::DestructiveDynamic
                } else {
                    symbolic_globals(
                        words,
                        i + 2,
                        env,
                        if words[i + 1].dynamic() || global_option(token)
                            == GlobalOption::TakesNext {
                            aliases
                        } else if global_option(token) == GlobalOption::Config {
                            with_alias(aliases, words[i + 1].text)
                        } else {
                            with_env_alias(aliases, env, words[i + 1].text)
                        },
                        unbounded,
                    )
                },
                GlobalOption::AttachedConfig => symbolic_globals(
                    words,
                    i + 1,
                    env,
                    with_alias(aliases, rest(token, "-c"@.len() as int)),
                    unbounded,
                ),
                GlobalOption::AttachedConfigEnv => symbolic_globals(
                    words,
                    i + 1,
                    env,
                    with_env_alias(aliases, env, rest(token, "--config-env="@.len() as int)),
                    unbounded,
                ),
                GlobalOption::Subcommand => match branch_alias(token, aliases) {
                    None => BranchCommandDecision::NotBranch,
                    Some(expansion) => symbolic_arguments(
                        expanded_symbols(expansion, words, i + 1),
                        1,
                        no_mutation(),
                        unbounded,
                    ),
                },
                GlobalOption::Terminator | GlobalOption::Unknown => BranchCommandDecision::Unparsed,
            }
        }
    }
}

/// What a POSIX command with unknown substitutions does to branches; nothing
/// when it has none or cannot be cut into words.
pub open spec fn symbolic_decision(s: Seq<char>) -> Option<BranchCommandDecision> {
    if is_branch_name_query(s) {
        Some(BranchCommandDecision::NotBranch)
    } else {
        match substitution_view(without_wrappers(s)) {
            None => None,
            Some((out, dynamic)) => if !dynamic {
                None
            } else {
                match shell_split(out) {
                    None => None,
                    Some(texts) => {
                        let words = symbols_of(texts);
                        match symbolic_program(words, 0, Seq::empty()) {
                            SymbolicProgram::Missing => None,
                            SymbolicProgram::Decided(d) => Some(d),
                            SymbolicProgram::At(i, dashed, unbounded, env) => Some(
                                if dashed {
                                    symbolic_arguments(words, i + 1, no_mutation(), unbounded)
                                } else {
                                    symbolic_globals(
                                        words,
                                        i + 1,
                                        env,
                                        env_aliases(env),
                                        unbounded,
                                    )
                                },
                            ),
                        }
                    },
                }
            },
        }
    }
}

/// What the words with marks between `git` and the arguments of a branch command
/// do.
fn decide_symbolic_globals(
    words: Vec<SymbolicPosixWord>,
    start: usize,
    env: &Vec<Binding>,
    unbounded: bool,
) -> (r: BranchCommandDecision)
    requires
        start <= words.len(),
    ensures
        r == symbolic_globals(
            symbols(words@),
            start as int,
            bindings(env@),
            env_aliases(bindings(env@)),
            unbounded,
        ),
{
    proof {
        reveal_strlit("-c");
        reveal_strlit("--config-env=");
    }
    let ghost views = symbols(words@);
    let ghost ev = bindings(env@);
    let mut aliases = visible_environment_aliases(env);
    let mut i: usize = start;
    while i < words.len()
        invariant
            start <= i <= words.len(),
            views == symbols(words@),
            ev == bindings(env@),
            "-c"@.len() == 2,
            "--config-env="@.len() == 13,
            symbolic_globals(views, start as int, ev, env_aliases(ev), unbounded)
                == symbolic_globals(views, i as int, ev, bindings(aliases@), unbounded),
        decreases words.len() - i,
    {
        let w = &words[i];
        assert(views[i as int] == w@);
        if w.is_dynamic() {
            if unbounded {
                return if literal_argv_proves_branch_mutation(&words, i + 1) {
                    BranchCommandDecision::DestructiveDynamic
                } else {
                    BranchCommandDecision::NotBranch
                };
            }
            if !w.may_equal("branch") {
                return BranchCommandDecision::NotBranch;
            }
            if w.unquoted_dynamic {
                return BranchCommandDecision::DestructiveDynamic;
            }
            return decide_symbolic_arguments(&words, i + 1, unbounded);
        }
        let token = w.text.as_slice();
        if is_str(token, "branch") {
            return decide_symbolic_arguments(&words, i + 1, unbounded);
        }
        let kind = classify_global_option(token);
        match kind {
            GlobalOption::Information => {
                return BranchCommandDecision::NonDestructive;
            },
            GlobalOption::Flag | GlobalOption::Attached => {
                i += 1;
            },
            GlobalOption::Config | GlobalOption::ConfigEnv | GlobalOption::TakesNext => {
                if i + 1 >= words.len() {
                    return BranchCommandDecision::Unparsed;
                }
                let data = &words[i + 1];
                assert(views[i + 1] == data@);
                if data.unquoted_dynamic {
                    return BranchCommandDecision::DestructiveDynamic;
                }
                if !data.is_dynamic() {
                    if kind == GlobalOption::Config {
                        insert_visible_alias(&mut aliases, data.text.as_slice());
                    } else if kind == GlobalOption::ConfigEnv {
                        insert_visible_config_env_alias(&mut aliases, env, data.text.as_slice());
                    }
                }
                i += 2;
            },
            GlobalOption::AttachedConfig => {
                insert_visible_alias(&mut aliases, from_index(token, 2));
                i += 1;
            },
            GlobalOption::AttachedConfigEnv => {
                insert_visible_config_env_alias(&mut aliases, env, from_index(token, 13));
                i += 1;
            },
            GlobalOption::Subcommand => {
                return match resolve_visible_branch_alias(token, &aliases) {
                    None => BranchCommandDecision::NotBranch,
                    Some(expansion) => {
                        let all = expand_symbols(&expansion, &words, i + 1);
                        decide_symbolic_arguments(&all, 1, unbounded)
                    },
                };
            },
            GlobalOption::Terminator | GlobalOption::Unknown => {
                return BranchCommandDecision::Unparsed;
            },
        }
    }
    BranchCommandDecision::NotBranch
}

/// The words of an alias, and the words from the `from`th on behind them.
fn expand_symbols(expansion: &Vec<Vec<char>>, words: &Vec<SymbolicPosixWord>, from: usize) -> (r: Vec<
    SymbolicPosixWord,
>)
    requires
        from <= words.len(),
    ensures
        symbols(r@) == expanded_symbols(texts(expansion@), symbols(words@), from as int),
        r.len() >= expansion.len(),
{
    let mut all: Vec<SymbolicPosixWord> = Vec::new();
    let mut j: usize = 0;
    while j < expansion.len()
        invariant
            0 <= j <= expansion.len(),
            all@.len() == j,
            forall|k: int|
                0 <= k < j ==> (#[trigger] all@[k])@ == (SymbolView {
                    text: expansion@[k]@,
                    unquoted_dynamic: false,
                }),
        decreases expansion.len() - j,
    {
        all.push(
            SymbolicPosixWord { text: copy_of(expansion[j].as_slice()), unquoted_dynamic: false },
        );
        j += 1;
    }
    let mut k: usize = from;
    while k < words.len()
        invariant
            from <= k <= words.len(),
            all@.len() == expansion@.len() + (k - from),
            forall|n: int|
                0 <= n < expansion@.len() ==> (#[trigger] all@[n])@ == (SymbolView {
                    text: expansion@[n]@,
                    unquoted_dynamic: false,
                }),
            forall|n: int|
                expansion@.len() <= n < all@.len() ==> (#[trigger] all@[n])@ == words@[n
                    - expansion@.len() + from]@,
        decreases words.len() - k,
    {
        all.push(
            SymbolicPosixWord {
                text: copy_of(words[k].text.as_slice()),
                unquoted_dynamic: words[k].unquoted_dynamic,
            },
        );
        k += 1;
    }
    assert(symbols(all@) =~= expanded_symbols(texts(expansion@), symbols(words@), from as int));
    all
}

/// What a POSIX command with unknown substitutions does to branches. Quoted
/// output that a known option takes as its value is data; unquoted output may
/// become several words, options among them.
pub fn symbolic_posix_branch_decision(s: &[char]) -> (r: Option<BranchCommandDecision>)
    ensures
        r == symbolic_decision(s@),
{
    if sole_posix_branch_name_query(s) {
        return Some(BranchCommandDecision::NotBranch);
    }
    let view = match posix_substitution_view(strip_wrapper_prefixes(s)) {
        None => {
            return None;
        },
        Some(v) => v,
    };
    if !view.has_dynamic {
        return None;
    }
    let words = match symbolic_posix_words(&view) {
        None => {
            return None;
        },
        Some(w) => w,
    };
    let ghost views = symbols(words@);
    let mut env: Vec<Binding> = Vec::new();
    assert(bindings(env@) =~= Seq::<BindingView>::empty());
    let mut i: usize = 0;
    while i < words.len()
        invariant
            0 <= i <= words.len(),
            views == symbols(words@),
            shell_split(view.command@) is Some,
            views == symbols_of(shell_split(view.command@)->0),
            substitution_view(without_wrappers(s@)) == Some((view.command@, true)),
            !is_branch_name_query(s@),
            symbolic_program(views, 0, Seq::empty()) == symbolic_program(
                views,
                i as int,
                bindings(env@),
            ),
        decreases words.len() - i,
    {
        let w = &words[i];
        assert(views[i as int] == w@);
        if !w.is_dynamic() {
            let text = w.text.as_slice();
            if is_env_assignment(text) {
                if let Some((name, value)) = split_setting(text) {
                    bind_name(&mut env, copy_of(name), copy_of(value), false);
                }
                i += 1;
                continue ;
            }
            if launcher(text) {
                i += 1;
                continue ;
            }
        }
        let p = w.basename();
        let git = p.may_equal("git") || p.may_equal("git.exe");
        if !git && !p.may_equal("git-branch") && !p.may_equal("git-branch.exe") {
            return Some(BranchCommandDecision::NotBranch);
        }
        if p.unquoted_dynamic && p.has_literal_fragment() {
            return Some(BranchCommandDecision::DestructiveDynamic);
        }
        let unbounded = p.unquoted_dynamic;
        return Some(
            if git {
                decide_symbolic_globals(words, i + 1, &env, unbounded)
            } else {
                decide_symbolic_arguments(&words, i + 1, unbounded)
            },
        );
    }
    None
}

/// The raw words of a single command: without wrapping programs, and of no
/// proven dialect, as `shell_words` cuts the normalized command.
pub open spec fn raw_words(s: Seq<char>, dialect: ShellDialect) -> Option<Seq<Seq<char>>> {
    if dialect == ShellDialect::Unknown {
        shell_split(normalized(s))
    } else {
        let c = if dialect == ShellDialect::Posix {
            without_wrappers(s)
        } else {
            s
        };
        let toks = tokens(c, dialect);
        if has_separator(toks) {
            None
        } else {
            Some(Seq::new(toks.len(), |i: int| toks[i].of(c)))
        }
    }
}

/// The raw words of a single command.
pub fn branch_tokens(s: &[char], dialect: ShellDialect) -> (r: Option<Vec<Vec<char>>>)
    ensures
        match r {
            Some(v) => raw_words(s@, dialect) == Some(texts(v@)),
            None => raw_words(s@, dialect) is None,
        },
{
    if dialect == ShellDialect::Unknown {
        let n = normalize_text(s);
        return split_words(n.as_slice());
    }
    let c = if dialect == ShellDialect::Posix {
        strip_wrapper_prefixes(s)
    } else {
        s
    };
    let toks = tokenize_for_shell_dialect(c, dialect);
    if any_separator(&toks) {
        return None;
    }
    let mut v: Vec<Vec<char>> = Vec::new();
    let mut i: usize = 0;
    while i < toks.len()
        invariant
            0 <= i <= toks.len(),
            forall|k: int| 0 <= k < toks@.len() ==> (#[trigger] toks@[k]).fits(c@.len() as int),
            v@.len() == i,
            forall|k: int| 0 <= k < i ==> (#[trigger] v@[k])@ == toks@[k].of(c@),
        decreases toks.len() - i,
    {
        let t = toks[i];
        assert(toks@[i as int].fits(c@.len() as int));
        v.push(copy_of(t.text(c)));
        i += 1;
    }
    assert(texts(v@) =~= Seq::new(toks@.len(), |i: int| toks@[i].of(c@)));
    Some(v)
}

/// The program of a command with raw words, from the `i`th on: its number, its
/// name, whether decoding has ended, and the environment that the words before
/// it set.
pub open spec fn program_from(
    words: Seq<Seq<char>>,
    i: int,
    dialect: ShellDialect,
    literal: bool,
    env: Seq<BindingView>,
) -> Option<(int, Seq<char>, bool, Seq<BindingView>)>
    decreases words.len() - i,
{
    if i < 0 || i >= words.len() {
        None
    } else {
        match decoded_next(words[i], dialect, ShellTokenRole::Syntax, literal) {
            None => program_from(words, i + 1, dialect, true, env),
            Some(d) => {
                let token = if dialect == ShellDialect::Cmd {
                    without_leading(d, '@')
                } else {
                    d
                };
                if env_assignment(token) {
                    let (name, value) = setting(token)->0;
                    program_from(
                        words,
                        i + 1,
                        dialect,
                        literal,
                        bind(env, BindingView { name, value, dynamic: false }),
                    )
                } else if (dialect == ShellDialect::Cmd && same_nocase(token, "call"@))
                    || is_launcher(token) {
                    program_from(words, i + 1, dialect, literal, env)
                } else {
                    Some((i, basename(token), literal, env))
                }
            },
        }
    }
}

/// The decoded words from the `i`th on, behind `out`.
pub open spec fn decoded_from(
    words: Seq<Seq<char>>,
    i: int,
    dialect: ShellDialect,
    literal: bool,
    out: Seq<Seq<char>>,
) -> Seq<Seq<char>>
    decreases words.len() - i,
{
    if i < 0 || i >= words.len() {
        out
    } else {
        match decoded_next(words[i], dialect, ShellTokenRole::Syntax, literal) {
            None => decoded_from(words, i + 1, dialect, true, out),
            Some(d) => decoded_from(words, i + 1, dialect, literal, out.push(d)),
        }
    }
}

/// Literal words.
pub open spec fn literal_views(words: Seq<Seq<char>>) -> Seq<WordView> {
    Seq::new(
        words.len(),
        |i: int| WordView { decoded: words[i], dynamic: false, may_split: false },
    )
}

/// What the arguments of `git branch` do, from the `i`th raw word on.
pub open spec fn branch_arguments(
    words: Seq<Seq<char>>,
    i: int,
    dialect: ShellDialect,
    literal: bool,
    m: BranchMutationState,
) -> BranchCommandDecision
    decreases words.len() - i,
{
    if i < 0 || i >= words.len() {
        m.verdict()
    } else {
        match decoded_next(words[i], dialect, ShellTokenRole::Syntax, literal) {
            None => branch_arguments(words, i + 1, dialect, true, m),
            Some(token) => if ends_options(token) {
                m.verdict()
            } else {
                match argument_step(token, m) {
                    OptionStep::Stop => BranchCommandDecision::NonDestructive,
                    OptionStep::Next(n, ValueWord::Absent) => branch_arguments(
                        words,
                        i + 1,
                        dialect,
                        literal,
                        n,
                    ),
                    OptionStep::Next(n, v) => if i + 1 >= words.len() {
                        if v == ValueWord::Optional {
                            n.verdict()
                        } else {
                            BranchCommandDecision::NonDestructive
                        }
                    } else {
                        branch_arguments(words, i + 2, dialect, literal, n)
                    },
                }
            },
        }
    }
}

/// What the raw words between `git` and the arguments of a branch command do,
/// from the `i`th on.
pub open spec fn branch_globals(
    words: Seq<Seq<char>>,
    i: int,
    dialect: ShellDialect,
    literal: bool,
    env: Seq<BindingView>,
    aliases: Seq<BindingView>,
) -> BranchCommandDecision
    decreases words.len() - i,
{
    if i < 0 || i >= words.len() {
        BranchCommandDecision::NotBranch
    } else {
        match decoded_next(words[i], dialect, ShellTokenRole::Syntax, literal) {
            None => branch_globals(words, i + 1, dialect, true, env, aliases),
            Some(token) => if token == "branch"@ {
                branch_arguments(words, i + 1, dialect, literal, no_mutation())
            } else {
                match global_option(token) {
                    GlobalOption::Information => BranchCommandDecision::NonDestructive,
                    GlobalOption::Flag | GlobalOption::Attached => branch_globals(
                        words,
                        i + 1,
                        dialect,
                        literal,
                        env,
                        aliases,
                    ),
                    GlobalOption::Config | GlobalOption::ConfigEnv => if i + 1 >= words.len() {
                        BranchCommandDecision::Unparsed
                    } else {
                        match decoded_next(
                            words[i + 1],
                            dialect,
                            ShellTokenRole::Syntax,
                            literal,
                        ) {
                            None => BranchCommandDecision::Unparsed,
                            Some(config) => branch_globals(
                                words,
                                i + 2,
                                dialect,
                                literal,
                                env,
                                if global_option(token) == GlobalOption::Config {
                                    with_alias(aliases, config)
                                } else {
                                    with_env_alias(aliases, env, config)
                                },
                            ),
                        }
                    },
                    GlobalOption::TakesNext => if i + 1 >= words.len() {
                        BranchCommandDecision::Unparsed
                    } else {
                        branch_globals(words, i + 2, dialect, literal, env, aliases)
                    },
                    GlobalOption::AttachedConfig => branch_globals(
                        words,
                        i + 1,
                        dialect,
                        literal,
                        env,
                        with_alias(aliases, rest(token, "-c"@.len() as int)),
                    ),
                    GlobalOption::AttachedConfigEnv => branch_globals(
                        words,
                        i + 1,
                        dialect,
                        literal,
                        env,
                        with_env_alias(aliases, env, rest(token, "--config-env="@.len() as int)),
                    ),
                    GlobalOption::Terminator
                    | GlobalOption::Unknown => BranchCommandDecision::Unparsed,
                    GlobalOption::Subcommand => match branch_alias(token, aliases) {
                        None => if bound_at(aliases, 0, token) >= aliases.len() && !is_git_builtin(
                            token,
                        ) && arguments_may_mutate(
                            literal_views(
                                decoded_from(words, i + 1, dialect, literal, Seq::empty()),
                            ),
                            0,
                            dialect,
                            no_mutation(),
                        ) {
                            BranchCommandDecision::Destructive
                        } else {
                            BranchCommandDecision::NotBranch
                        },
                        Some(expansion) => branch_arguments(
                            decoded_from(words, i + 1, dialect, literal, expansion),
                            1,
                            ShellDialect::Unknown,
                            false,
                            no_mutation(),
                        ),
                    },
                }
            },
        }
    }
}

/// What the raw words of a single command do to branches.
pub open spec fn raw_decision(words: Seq<Seq<char>>, dialect: ShellDialect) -> BranchCommandDecision {
    match program_from(words, 0, dialect, false, Seq::empty()) {
        None => BranchCommandDecision::NotBranch,
        Some((i, name, literal, env)) => {
            let program = without_exe(name);
            if same_nocase(program, "git-branch"@) {
                branch_arguments(words, i + 1, dialect, literal, no_mutation())
            } else if same_nocase(program, "git"@) {
                branch_globals(words, i + 1, dialect, literal, env, env_aliases(env))
            } else {
                BranchCommandDecision::NotBranch
            }
        },
    }
}

/// What stands behind an `&` at the start of a command, if anything does.
pub open spec fn behind_ampersand(s: Seq<char>) -> Seq<char> {
    if s.len() > 0 && s[0] == '&' && trimmed_start(rest(s, 1)).len() > 0 {
        trimmed_start(rest(s, 1))
    } else {
        s
    }
}

/// What a command without known substitutions does to branches.
pub open spec fn plain_decision(s: Seq<char>, dialect: ShellDialect) -> BranchCommandDecision {
    let t = statement(s, dialect);
    let c = behind_ampersand(t);
    if dialect == ShellDialect::PowerShell && is_call_expression(t) && may_mutate(t, dialect) {
        BranchCommandDecision::Destructive
    } else if !is_single(c, dialect) {
        BranchCommandDecision::Unparsed
    } else if may_mutate(t, dialect) {
        BranchCommandDecision::DestructiveDynamic
    } else {
        match raw_words(c, dialect) {
            None => BranchCommandDecision::Unparsed,
            Some(words) => raw_decision(words, dialect),
        }
    }
}

/// What a command does to branches once it is known to hold no substitution
/// whose output is known. A leading call operator is PowerShell.
pub open spec fn settled_decision(s: Seq<char>, dialect: ShellDialect) -> BranchCommandDecision {
    if dialect == ShellDialect::Unknown && call_operand(s) is Some {
        plain_decision(trimmed_start(s), ShellDialect::PowerShell)
    } else {
        plain_decision(s, dialect)
    }
}

/// The number of characters that may start a substitution.
pub open spec fn opener_count(s: Seq<char>) -> nat
    decreases s.len(),
{
    if s.len() == 0 {
        0
    } else {
        opener_count(s.drop_last()) + (if s.last() == '$' || s.last() == '`' {
            1nat
        } else {
            0nat
        })
    }
}

/// What a command does to branches. Substitutions whose output is known are
/// replaced first; with unknown output the words are read with marks.
pub open spec fn branch_decision(s: Seq<char>, dialect: ShellDialect) -> BranchCommandDecision
    decreases opener_count(s),
{
    if dialect == ShellDialect::Posix || dialect == ShellDialect::Unknown {
        match resolution(s) {
            Some(Some(t)) => {
                proof {
                    resolving_removes_openers(s);
                }
                branch_decision(t, ShellDialect::Posix)
            },
            Some(None) => settled_decision(s, dialect),
            None => match symbolic_decision(s) {
                Some(d) => d,
                None => settled_decision(s, dialect),
            },
        }
    } else {
        settled_decision(s, dialect)
    }
}

/// The openers of two texts add up.
proof fn opener_count_of_sum(a: Seq<char>, b: Seq<char>)
    ensures
        opener_count(a + b) == opener_count(a) + opener_count(b),
    decreases b.len(),
{
    if b.len() == 0 {
        assert(a + b =~= a);
    } else {
        opener_count_of_sum(a, b.drop_last());
        assert((a + b).drop_last() =~= a + b.drop_last());
        assert((a + b).last() == b.last());
    }
}

/// Text that means nothing to the shell holds no opener.
proof fn inert_text_has_no_opener(s: Seq<char>)
    requires
        forall|i: int| 0 <= i < s.len() ==> is_inert(#[trigger] s[i]),
    ensures
        opener_count(s) == 0,
    decreases s.len(),
{
    if s.len() > 0 {
        assert(is_inert(s[s.len() - 1]));
        assert forall|i: int| 0 <= i < s.drop_last().len() implies is_inert(
            #[trigger] s.drop_last()[i],
        ) by {
            assert(is_inert(s[i]));
        }
        inert_text_has_no_opener(s.drop_last());
    }
}

/// Replacing from position `i` on adds no opener, and where it removes none it
/// changes nothing.
proof fn replacing_adds_no_opener(s: Seq<char>, i: int, single: bool, double: bool, out: Seq<char>)
    requires
        0 <= i <= s.len(),
        replaced_from(s, i, single, double, out, false) is Some,
        !(replaced_from(s, i, single, double, out, false)->0).1,
    ensures
        ({
            let o = (replaced_from(s, i, single, double, out, false)->0).0;
            &&& opener_count(o) <= opener_count(out) + opener_count(rest(s, i))
            &&& o != out + rest(s, i) ==> opener_count(o) < opener_count(out) + opener_count(
                rest(s, i),
            )
        }),
    decreases s.len() - i,
{
    let all = rest(s, i);
    if i >= s.len() {
        assert(out + all =~= out);
    } else if s[i] == '\\' && !single {
        let j = onward(i, i + 2, s.len() as int);
        let part = s.subrange(i, j);
        replacing_adds_no_opener(s, j, single, double, out + part);
        assert(all =~= part + rest(s, j));
        assert(out + all =~= (out + part) + rest(s, j));
        opener_count_of_sum(part, rest(s, j));
        opener_count_of_sum(out, part);
    } else if s[i] == '\'' && !double {
        replacing_step(s, i, out);
        replacing_adds_no_opener(s, i + 1, !single, double, out.push('\''));
    } else if s[i] == '"' && !single {
        replacing_step(s, i, out);
        replacing_adds_no_opener(s, i + 1, single, !double, out.push('"'));
    } else if !single && (s[i] == '`' || (s[i] == '$' && at(s, i + 1) == Some('('))) {
        let start = if s[i] == '`' {
            i + 1
        } else {
            i + 2
        };
        let close = substitution_close(
            s,
            start,
            if s[i] == '`' {
                '`'
            } else {
                ')'
            },
            1,
            false,
            false,
        );
        match static_output(s.subrange(start, close)) {
            Some(text) => {
                replacing_adds_no_opener(s, close + 1, single, double, out + text);
                inert_text_has_no_opener(text);
                opener_count_of_sum(out, text);
                let head = seq![s[i]];
                let middle = s.subrange(i + 1, close + 1);
                assert(all =~= head + (middle + rest(s, close + 1)));
                opener_count_of_sum(head, middle + rest(s, close + 1));
                opener_count_of_sum(middle, rest(s, close + 1));
                assert(head.drop_last() =~= Seq::<char>::empty());
                assert(opener_count(head.drop_last()) == 0);
                assert(opener_count(head) == 1);
            },
            None => {
                marks_stay(
                    s,
                    close + 1,
                    single,
                    double,
                    out + crate::git::substitution::mark(double),
                );
            },
        }
    } else {
        replacing_step(s, i, out);
        replacing_adds_no_opener(s, i + 1, single, double, out.push(s[i]));
    }
}

/// Copying one character keeps what a replacement has to account for.
proof fn replacing_step(s: Seq<char>, i: int, out: Seq<char>)
    requires
        0 <= i < s.len(),
    ensures
        out.push(s[i]) + rest(s, i + 1) == out + rest(s, i),
        opener_count(out.push(s[i])) + opener_count(rest(s, i + 1)) == opener_count(out)
            + opener_count(rest(s, i)),
{
    let head = seq![s[i]];
    assert(out.push(s[i]) =~= out + head);
    assert(rest(s, i) =~= head + rest(s, i + 1));
    assert(out.push(s[i]) + rest(s, i + 1) =~= out + rest(s, i));
    opener_count_of_sum(out, head);
    opener_count_of_sum(head, rest(s, i + 1));
}

/// An unknown substitution stays unknown.
proof fn marks_stay(s: Seq<char>, i: int, single: bool, double: bool, out: Seq<char>)
    requires
        0 <= i <= s.len(),
    ensures
        replaced_from(s, i, single, double, out, true) is Some ==> (replaced_from(
            s,
            i,
            single,
            double,
            out,
            true,
        )->0).1,
    decreases s.len() - i,
{
    if i < s.len() {
        if s[i] == '\\' && !single {
            let j = onward(i, i + 2, s.len() as int);
            marks_stay(s, j, single, double, out + s.subrange(i, j));
        } else if s[i] == '\'' && !double {
            marks_stay(s, i + 1, !single, double, out.push('\''));
        } else if s[i] == '"' && !single {
            marks_stay(s, i + 1, single, !double, out.push('"'));
        } else if !single && (s[i] == '`' || (s[i] == '$' && at(s, i + 1) == Some('('))) {
            let start = if s[i] == '`' {
                i + 1
            } else {
                i + 2
            };
            let close = substitution_close(
                s,
                start,
                if s[i] == '`' {
                    '`'
                } else {
                    ')'
                },
                1,
                false,
                false,
            );
            if close >= start && close < s.len() {
                match static_output(s.subrange(start, close)) {
                    Some(text) => marks_stay(s, close + 1, single, double, out + text),
                    None => marks_stay(
                        s,
                        close + 1,
                        single,
                        double,
                        out + crate::git::substitution::mark(double),
                    ),
                }
            }
        } else {
            marks_stay(s, i + 1, single, double, out.push(s[i]));
        }
    }
}

/// A command that changes when its substitutions are replaced by known output
/// has fewer openers afterwards.
pub proof fn resolving_removes_openers(s: Seq<char>)
    requires
        resolution(s) is Some,
        (resolution(s)->0) is Some,
    ensures
        opener_count(resolution(s)->0->0) < opener_count(s),
{
    replacing_adds_no_opener(s, 0, false, false, Seq::empty());
    assert(rest(s, 0) =~= s);
    assert(Seq::<char>::empty() + rest(s, 0) =~= s);
}

/// What the arguments of `git branch` do, from the `start`th raw word on.
fn decide_arguments(words: &Vec<Vec<char>>, start: usize, dialect: ShellDialect, literal: bool) -> (r: BranchCommandDecision)
    requires
        start <= words.len(),
    ensures
        r == branch_arguments(texts(words@), start as int, dialect, literal, no_mutation()),
{
    let ghost views = texts(words@);
    let mut decoder = ShellTokenDecoder { dialect, literal };
    let mut m = BranchMutationState::none();
    let mut i: usize = start;
    while i < words.len()
        invariant
            start <= i <= words.len(),
            views == texts(words@),
            decoder.dialect == dialect,
            branch_arguments(views, start as int, dialect, literal, no_mutation())
                == branch_arguments(views, i as int, dialect, decoder.literal, m),
        decreases words.len() - i,
    {
        assert(views[i as int] == words@[i as int]@);
        let token = match decoder.decode(words[i].as_slice(), ShellTokenRole::Syntax) {
            None => {
                i += 1;
                continue ;
            },
            Some(t) => t,
        };
        if options_end(token.as_slice()) {
            return m.decision();
        }
        match step_argument(token.as_slice(), m) {
            OptionStep::Stop => {
                return BranchCommandDecision::NonDestructive;
            },
            OptionStep::Next(n, v) => {
                if v == ValueWord::Absent {
                    m = n;
                    i += 1;
                } else {
                    if i + 1 >= words.len() {
                        return if v == ValueWord::Optional {
                            n.decision()
                        } else {
                            BranchCommandDecision::NonDestructive
                        };
                    }
                    m = n;
                    i += 2;
                }
            },
        }
    }
    m.decision()
}

/// Appends the decoded words from the `start`th on.
pub fn append_decoded(
    words: &Vec<Vec<char>>,
    start: usize,
    dialect: ShellDialect,
    literal: bool,
    out: &mut Vec<Vec<char>>,
)
    requires
        start <= words.len(),
    ensures
        texts(final(out)@) == decoded_from(
            texts(words@),
            start as int,
            dialect,
            literal,
            texts(old(out)@),
        ),
        final(out)@.len() >= old(out)@.len(),
{
    let ghost views = texts(words@);
    let ghost target = decoded_from(views, start as int, dialect, literal, texts(out@));
    let ghost n = out@.len();
    let mut decoder = ShellTokenDecoder { dialect, literal };
    let mut i: usize = start;
    while i < words.len()
        invariant
            start <= i <= words.len(),
            views == texts(words@),
            decoder.dialect == dialect,
            out@.len() >= n,
            target == decoded_from(views, i as int, dialect, decoder.literal, texts(out@)),
        decreases words.len() - i,
    {
        assert(views[i as int] == words@[i as int]@);
        if let Some(d) = decoder.decode(words[i].as_slice(), ShellTokenRole::Syntax) {
            let ghost before = texts(out@);
            let ghost view = d@;
            out.push(d);
            assert(texts(out@) =~= before.push(view));
        }
        i += 1;
    }
}

/// Whether literal words, read as the arguments of `git branch`, delete or force.
fn literals_may_mutate(words: &Vec<Vec<char>>, dialect: ShellDialect) -> (r: bool)
    ensures
        r == arguments_may_mutate(literal_views(texts(words@)), 0, dialect, no_mutation()),
{
    let mut v: Vec<GitSemanticWord> = Vec::new();
    let mut i: usize = 0;
    while i < words.len()
        invariant
            0 <= i <= words.len(),
            v@.len() == i,
            forall|k: int|
                0 <= k < i ==> (#[trigger] v@[k])@ == (WordView {
                    decoded: words@[k]@,
                    dynamic: false,
                    may_split: false,
                }),
        decreases words.len() - i,
    {
        v.push(
            GitSemanticWord {
                decoded: copy_of(words[i].as_slice()),
                dynamic: false,
                may_split: false,
            },
        );
        i += 1;
    }
    assert(word_views(v@) =~= literal_views(texts(words@)));
    semantic_branch_argv_may_mutate(&v, 0, dialect)
}

/// What the raw words between `git` and the arguments of a branch command do.
fn decide_globals(
    words: &Vec<Vec<char>>,
    start: usize,
    dialect: ShellDialect,
    literal: bool,
    env: &Vec<Binding>,
) -> (r: BranchCommandDecision)
    requires
        start <= words.len(),
    ensures
        r == branch_globals(
            texts(words@),
            start as int,
            dialect,
            literal,
            bindings(env@),
            env_aliases(bindings(env@)),
        ),
{
    proof {
        reveal_strlit("-c");
        reveal_strlit("--config-env=");
    }
    let ghost views = texts(words@);
    let ghost ev = bindings(env@);
    let mut decoder = ShellTokenDecoder { dialect, literal };
    let mut aliases = visible_environment_aliases(env);
    let mut i: usize = start;
    while i < words.len()
        invariant
            start <= i <= words.len(),
            views == texts(words@),
            ev == bindings(env@),
            decoder.dialect == dialect,
            "-c"@.len() == 2,
            "--config-env="@.len() == 13,
            branch_globals(views, start as int, dialect, literal, ev, env_aliases(ev))
                == branch_globals(
                views,
                i as int,
                dialect,
                decoder.literal,
                ev,
                bindings(aliases@),
            ),
        decreases words.len() - i,
    {
        assert(views[i as int] == words@[i as int]@);
        let token = match decoder.decode(words[i].as_slice(), ShellTokenRole::Syntax) {
            None => {
                i += 1;
                continue ;
            },
            Some(t) => t,
        };
        let token = token.as_slice();
        if is_str(token, "branch") {
            return decide_arguments(words, i + 1, dialect, decoder.literal);
        }
        let kind = classify_global_option(token);
        match kind {
            GlobalOption::Information => {
                return BranchCommandDecision::NonDestructive;
            },
            GlobalOption::Flag | GlobalOption::Attached => {
                i += 1;
            },
            GlobalOption::Config | GlobalOption::ConfigEnv => {
                if i + 1 >= words.len() {
                    return BranchCommandDecision::Unparsed;
                }
                assert(views[i + 1] == words@[i + 1]@);
                match decoder.decode(words[i + 1].as_slice(), ShellTokenRole::Syntax) {
                    None => {
                        return BranchCommandDecision::Unparsed;
                    },
                    Some(config) => {
                        if kind == GlobalOption::Config {
                            insert_visible_alias(&mut aliases, config.as_slice());
                        } else {
                            insert_visible_config_env_alias(&mut aliases, env, config.as_slice());
                        }
                    },
                }
                i += 2;
            },
            GlobalOption::TakesNext => {
                if i + 1 >= words.len() {
                    return BranchCommandDecision::Unparsed;
                }
                i += 2;
            },
            GlobalOption::AttachedConfig => {
                insert_visible_alias(&mut aliases, from_index(token, 2));
                i += 1;
            },
            GlobalOption::AttachedConfigEnv => {
                insert_visible_config_env_alias(&mut aliases, env, from_index(token, 13));
                i += 1;
            },
            GlobalOption::Terminator | GlobalOption::Unknown => {
                return BranchCommandDecision::Unparsed;
            },
            GlobalOption::Subcommand => {
                match resolve_visible_branch_alias(token, &aliases) {
                    None => {
                        if find_binding(&aliases, token) >= aliases.len() && !is_known_git_command(
                            token,
                        ) {
                            let mut remaining: Vec<Vec<char>> = Vec::new();
                            assert(texts(remaining@) =~= Seq::<Seq<char>>::empty());
                            append_decoded(words, i + 1, dialect, decoder.literal, &mut remaining);
                            if literals_may_mutate(&remaining, dialect) {
                                return BranchCommandDecision::Destructive;
                            }
                        }
                        return BranchCommandDecision::NotBranch;
                    },
                    Some(expansion) => {
                        let mut all = expansion;
                        append_decoded(words, i + 1, dialect, decoder.literal, &mut all);
                        return decide_arguments(&all, 1, ShellDialect::Unknown, false);
                    },
                }
            },
        }
    }
    BranchCommandDecision::NotBranch
}

/// What the raw words of a single command do to branches.
fn decide_raw(words: &Vec<Vec<char>>, dialect: ShellDialect) -> (r: BranchCommandDecision)
    ensures
        r == raw_decision(texts(words@), dialect),
{
    let ghost views = texts(words@);
    let mut decoder = ShellTokenDecoder::new(dialect);
    let mut env: Vec<Binding> = Vec::new();
    assert(bindings(env@) =~= Seq::<BindingView>::empty());
    let mut i: usize = 0;
    while i < words.len()
        invariant
            0 <= i <= words.len(),
            views == texts(words@),
            decoder.dialect == dialect,
            program_from(views, 0, dialect, false, Seq::empty()) == program_from(
                views,
                i as int,
                dialect,
                decoder.literal,
                bindings(env@),
            ),
        decreases words.len() - i,
    {
        assert(views[i as int] == words@[i as int]@);
        let decoded = match decoder.decode(words[i].as_slice(), ShellTokenRole::Syntax) {
            None => {
                i += 1;
                continue ;
            },
            Some(d) => d,
        };
        let token = if dialect == ShellDialect::Cmd {
            trim_leading(decoded.as_slice(), '@')
        } else {
            decoded.as_slice()
        };
        if is_env_assignment(token) {
            if let Some((name, value)) = split_setting(token) {
                bind_name(&mut env, copy_of(name), copy_of(value), false);
            }
            i += 1;
            continue ;
        }
        if (dialect == ShellDialect::Cmd && is_str_nocase(token, "call")) || launcher(token) {
            i += 1;
            continue ;
        }
        let program = strip_exe(last_component(token));
        if is_str_nocase(program, "git-branch") {
            return decide_arguments(words, i + 1, dialect, decoder.literal);
        }
        if is_str_nocase(program, "git") {
            return decide_globals(words, i + 1, dialect, decoder.literal, &env);
        }
        return BranchCommandDecision::NotBranch;
    }
    BranchCommandDecision::NotBranch
}

/// What a command without known substitutions does to branches.
fn decide_plain(s: &[char], dialect: ShellDialect) -> (r: BranchCommandDecision)
    ensures
        r == plain_decision(s@, dialect),
{
    let t = find_statement(s, dialect);
    let mut c = t;
    if t.len() > 0 && t[0] == '&' {
        let behind = trim_start(from_index(t, 1));
        if behind.len() > 0 {
            c = behind;
        }
    }
    if dialect == ShellDialect::PowerShell && powershell_call_expression(t) && text_may_mutate(
        t,
        dialect,
    ) {
        return BranchCommandDecision::Destructive;
    }
    if !single(c, dialect) {
        return BranchCommandDecision::Unparsed;
    }
    if text_may_mutate(t, dialect) {
        return BranchCommandDecision::DestructiveDynamic;
    }
    match branch_tokens(c, dialect) {
        None => BranchCommandDecision::Unparsed,
        Some(words) => decide_raw(&words, dialect),
    }
}

/// What a command does to branches once its known substitutions are replaced.
fn decide_settled(s: &[char], dialect: ShellDialect) -> (r: BranchCommandDecision)
    ensures
        r == settled_decision(s@, dialect),
{
    if dialect == ShellDialect::Unknown && find_call_operand(s).is_some() {
        decide_plain(trim_start(s), ShellDialect::PowerShell)
    } else {
        decide_plain(s, dialect)
    }
}

/// What a command does to branches, over texts.
pub fn text_branch_decision(s: &[char], dialect: ShellDialect) -> (r: BranchCommandDecision)
    ensures
        r == branch_decision(s@, dialect),
    decreases opener_count(s@),
{
    if dialect == ShellDialect::Posix || dialect == ShellDialect::Unknown {
        match resolve_literal_printf_substitutions(s) {
            Resolution::Resolved(t) => {
                proof {
                    resolving_removes_openers(s@);
                }
                text_branch_decision(t.as_slice(), ShellDialect::Posix)
            },
            Resolution::Unchanged => decide_settled(s, dialect),
            Resolution::Open => match symbolic_posix_branch_decision(s) {
                Some(d) => d,
                None => decide_settled(s, dialect),
            },
        }
    } else {
        decide_settled(s, dialect)
    }
}

/// What a command does to branches. The arguments of `git branch` are read with
/// the arity of its options, so that the value of an option is never taken for
/// an option.
pub fn branch_command_decision_in_dialect(command: &str, dialect: ShellDialect) -> (r: BranchCommandDecision)
    ensures
        r == branch_decision(command@, dialect),
{
    let s = chars_of(command);
    text_branch_decision(s.as_slice(), dialect)
}

/// What a command of no proven dialect does to branches.
pub fn branch_command_decision(command: &str) -> (r: BranchCommandDecision)
    ensures
        r == branch_decision(command@, ShellDialect::Unknown),
{
    branch_command_decision_in_dialect(command, ShellDialect::Unknown)
}

} // verus!
