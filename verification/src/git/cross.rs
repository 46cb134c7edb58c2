//! Alias definitions that flow from one command of a line to the next.

use vstd::prelude::*;
use vstd::slice::slice_subrange;
use crate::git::alias::{
    any_dynamic, has_dynamic, invoked_git_alias_segment_in_dialect, mentions_alias_syntax,
    segment_alias, shows_alias_syntax, AliasOutcome, AliasView, InvokedGitAliasDecision,
};
use crate::git::bindings::{
    alias_name_from_key, alias_of_key, append_definitions, bind, bind_name, bindings, bound_at,
    config_text, definitions, environment_definitions, find_binding, make_config, others_from,
    push_unknown, push_visible_alias_definition, remove_definitions, setting, split_setting,
    unknown_definition, visible_environment_alias_definitions, with_config, Binding, BindingView,
    DefinitionView, VisibleAliasDefinition,
};
use crate::git::command::{
    classify_global_option, contains_git_ascii_case_insensitive, dispatchable, global_option,
    is_dispatchable, is_git_builtin, is_known_git_command, is_launcher, launcher, mentions_git,
    GlobalOption, MAX_GIT_SEMANTIC_BYTES,
};
use crate::git::expansion::{
    decode_git_semantic_words, fragments, git_dynamic_fragments, may_be_git, names_git,
    semantic_words, too_many_words, word_views, GitSemanticWord, WordView,
};
use crate::git::powershell::{
    call_target, is_call_expression, powershell_call_expression, powershell_call_target,
    PowerShellCallTarget,
};
use crate::git::semantic::{git_command, git_semantic_command};
use crate::shell::segments::{segments, split_command_segments_in_dialect, Segment};
use crate::shell::token::{
    advance, at, get, onward, tokenize_for_shell_dialect, tokens, NormalizeToken, ShellDialect,
};
use crate::shell::words::{quote_word, shell_quote};
use crate::shell::wrappers::{env_assignment, is_env_assignment};
use crate::text::{
    byte_len, chars_of, contains_text, copy_of, from_index, has_str, is_name_text, is_str,
    is_str_nocase, lists, longer_than, lower_text, lowered, name_text, push_all, push_str, rest,
    same, same_nocase, starts, starts_str, texts, trim, trim_leading, trim_start, trim_trailing,
    trimmed, trimmed_start, upper_text, uppered, without_leading, without_trailing,
};

verus! {

/// The word from the `i`th on that is the program, when it is Git and everything
/// before it is literal.
pub open spec fn literal_git_from(words: Seq<WordView>, i: int, dialect: ShellDialect) -> Option<int>
    decreases words.len() - i,
{
    if i < 0 || i >= words.len() || words[i].dynamic {
        None
    } else {
        let name = without_leading(words[i].decoded, '@');
        if env_assignment(words[i].decoded) || is_launcher(words[i].decoded) || (dialect
            == ShellDialect::Cmd && (name.len() == 0 || same_nocase(name, "call"@))) {
            literal_git_from(words, i + 1, dialect)
        } else if may_be_git(words[i], dialect) {
            Some(i)
        } else {
            None
        }
    }
}

/// The word that is the program, when it is Git and everything before it is
/// literal.
pub fn static_git_executable_index(words: &Vec<GitSemanticWord>, dialect: ShellDialect) -> (r: Option<
    usize,
>)
    ensures
        match r {
            Some(i) => i < words.len() && literal_git_from(word_views(words@), 0, dialect) == Some(
                i as int,
            ),
            None => literal_git_from(word_views(words@), 0, dialect) is None,
        },
{
    let ghost views = word_views(words@);
    let mut i: usize = 0;
    while i < words.len()
        invariant
            0 <= i <= words.len(),
            views == word_views(words@),
            literal_git_from(views, 0, dialect) == literal_git_from(views, i as int, dialect),
        decreases words.len() - i,
    {
        let w = &words[i];
        assert(views[i as int] == w@);
        if w.dynamic {
            return None;
        }
        let decoded = w.decoded.as_slice();
        let name = trim_leading(decoded, '@');
        if is_env_assignment(decoded) || launcher(decoded) || (dialect == ShellDialect::Cmd && (
        name.len() == 0 || is_str_nocase(name, "call"))) {
            i += 1;
        } else if names_git(w, dialect) {
            return Some(i);
        } else {
            return None;
        }
    }
    None
}

/// The subcommand among the words from the `i`th on, when everything before it
/// is literal.
pub open spec fn literal_subcommand_from(words: Seq<WordView>, i: int) -> Option<int>
    decreases words.len() - i,
{
    if i < 0 || i >= words.len() || words[i].dynamic {
        None
    } else {
        match global_option(words[i].decoded) {
            GlobalOption::Information | GlobalOption::Unknown => None,
            GlobalOption::Flag
            | GlobalOption::Attached
            | GlobalOption::AttachedConfig
            | GlobalOption::AttachedConfigEnv
            | GlobalOption::Terminator => literal_subcommand_from(words, i + 1),
            GlobalOption::Config | GlobalOption::ConfigEnv | GlobalOption::TakesNext => if i + 1
                < words.len() && !words[i + 1].dynamic {
                literal_subcommand_from(words, i + 2)
            } else {
                None
            },
            GlobalOption::Subcommand => Some(i),
        }
    }
}

/// The subcommand among the words from the `start`th on.
pub fn static_git_subcommand_index(words: &Vec<GitSemanticWord>, start: usize) -> (r: Option<usize>)
    ensures
        match r {
            Some(i) => start <= i < words.len() && literal_subcommand_from(
                word_views(words@),
                start as int,
            ) == Some(i as int),
            None => literal_subcommand_from(word_views(words@), start as int) is None,
        },
{
    let ghost views = word_views(words@);
    let mut i: usize = start;
    while i < words.len()
        invariant
            start <= i,
            views == word_views(words@),
            literal_subcommand_from(views, start as int) == literal_subcommand_from(
                views,
                i as int,
            ),
        decreases words.len() - i,
    {
        let w = &words[i];
        assert(views[i as int] == w@);
        if w.dynamic {
            return None;
        }
        match classify_global_option(w.decoded.as_slice()) {
            GlobalOption::Information | GlobalOption::Unknown => {
                return None;
            },
            GlobalOption::Flag
            | GlobalOption::Attached
            | GlobalOption::AttachedConfig
            | GlobalOption::AttachedConfigEnv
            | GlobalOption::Terminator => {
                i += 1;
            },
            GlobalOption::Config | GlobalOption::ConfigEnv | GlobalOption::TakesNext => {
                if i + 1 >= words.len() {
                    return None;
                }
                assert(views[i + 1] == words@[i + 1]@);
                if words[i + 1].dynamic {
                    return None;
                }
                i += 2;
            },
            GlobalOption::Subcommand => {
                return Some(i);
            },
        }
    }
    None
}

/// The environment that earlier commands of a line leave behind.
pub struct CrossView {
    pub env: Seq<BindingView>,
    /// The variables that are exported.
    pub exported: Seq<Seq<char>>,
    /// Whether a Git setting could not be followed.
    pub unverified: bool,
}

/// The environment that earlier commands of a line leave behind.
#[derive(Debug)]
pub struct CrossEnvironment {
    pub env: Vec<Binding>,
    pub exported: Vec<Vec<char>>,
    pub unverified: bool,
}

impl View for CrossEnvironment {
    type V = CrossView;

    open spec fn view(&self) -> CrossView {
        CrossView {
            env: bindings(self.env@),
            exported: texts(self.exported@),
            unverified: self.unverified,
        }
    }
}

impl CrossView {
    /// A name whose assignment cannot be followed; it matters when it is a Git
    /// setting.
    pub open spec fn refusing(self, name: Seq<char>) -> CrossView {
        CrossView {
            unverified: self.unverified || starts(uppered(name), "GIT_CONFIG_"@),
            ..self
        }
    }

    /// A variable that is set.
    pub open spec fn binding(self, name: Seq<char>, value: Seq<char>, dynamic: bool) -> CrossView {
        CrossView { env: bind(self.env, BindingView { name, value, dynamic }), ..self }
    }

    /// A variable that is exported.
    pub open spec fn exporting(self, name: Seq<char>) -> CrossView {
        CrossView {
            exported: if self.exported.contains(name) {
                self.exported
            } else {
                self.exported.push(name)
            },
            ..self
        }
    }
}

impl CrossEnvironment {
    /// The environment before the first command.
    pub fn empty() -> (r: Self)
        ensures
            r@ == (CrossView { env: Seq::empty(), exported: Seq::empty(), unverified: false }),
    {
        let r = CrossEnvironment { env: Vec::new(), exported: Vec::new(), unverified: false };
        assert(bindings(r.env@) =~= Seq::<BindingView>::empty());
        assert(texts(r.exported@) =~= Seq::<Seq<char>>::empty());
        r
    }

    /// Notes a name whose assignment cannot be followed.
    fn refuse(&mut self, name: &[char])
        ensures
            final(self)@ == old(self)@.refusing(name@),
    {
        let up = upper_text(name);
        if starts_str(up.as_slice(), "GIT_CONFIG_") {
            self.unverified = true;
        }
    }

    /// Sets a variable.
    fn set_variable(&mut self, name: &[char], value: &[char], dynamic: bool)
        ensures
            final(self)@ == old(self)@.binding(name@, value@, dynamic),
    {
        bind_name(&mut self.env, copy_of(name), copy_of(value), dynamic);
    }

    /// Exports a variable.
    fn export_variable(&mut self, name: &[char])
        ensures
            final(self)@ == old(self)@.exporting(name@),
    {
        if !lists(&self.exported, name) {
            let ghost before = texts(self.exported@);
            self.exported.push(copy_of(name));
            assert(texts(self.exported@) =~= before.push(name@));
        }
    }
}

/// Whether a text starts with `$env:`, in any case.
pub open spec fn is_env_reference(s: Seq<char>) -> bool {
    s.len() >= 5 && same_nocase(s.subrange(0, 5), "$env:"@)
}

/// Whether a text starts with `$env:`, in any case.
fn env_reference(s: &[char]) -> (r: bool)
    ensures
        r == is_env_reference(s@),
{
    s.len() >= 5 && is_str_nocase(slice_subrange(s, 0, 5), "$env:")
}

/// The environment behind an assignment to a PowerShell environment variable.
pub open spec fn after_powershell_assignment(words: Seq<WordView>, dialect: ShellDialect, c: CrossView) -> CrossView {
    let assignment = rest(words[0].decoded, 5);
    match setting(assignment) {
        Some((name, value)) => if name.len() == 0 || !is_name_text(name) {
            c.refusing(name)
        } else {
            c.binding(name, value, fragments(value, dialect).len() > 1)
        },
        None => if words.len() > 2 && words[1].decoded == "="@ {
            if assignment.len() == 0 || !is_name_text(assignment) {
                c.refusing(assignment)
            } else {
                c.binding(
                    assignment,
                    words[2].decoded,
                    words[2].dynamic || words.len() > 3,
                )
            }
        } else {
            c.refusing(assignment)
        },
    }
}

/// The environment behind POSIX assignments from the `i`th word on that stand
/// alone: they reach programs only where the variable is exported.
pub open spec fn after_assignments(words: Seq<WordView>, i: int, c: CrossView) -> CrossView
    decreases words.len() - i,
{
    if i < 0 || i >= words.len() {
        c
    } else {
        match setting(words[i].decoded) {
            None => after_assignments(words, i + 1, c),
            Some((name, value)) => after_assignments(
                words,
                i + 1,
                if c.exported.contains(name) {
                    c.binding(name, value, false)
                } else {
                    c
                },
            ),
        }
    }
}

/// A text without the double quotes around it.
pub open spec fn unquoted(s: Seq<char>) -> Seq<char> {
    without_trailing(without_leading(s, '"'), '"')
}

/// The environment behind one argument of `export` or `set`.
pub open spec fn after_export(word: WordView, dialect: ShellDialect, c: CrossView) -> CrossView {
    let decoded = unquoted(word.decoded);
    match setting(decoded) {
        None => if dialect == ShellDialect::Posix && decoded.len() > 0 && is_name_text(decoded) {
            let e = c.exporting(decoded);
            if starts(uppered(decoded), "GIT_CONFIG_"@) && bound_at(e.env, 0, decoded)
                >= e.env.len() {
                e.binding(decoded, Seq::empty(), true)
            } else {
                e
            }
        } else if contains_text(uppered(decoded), "GIT_CONFIG_"@) {
            CrossView { unverified: true, ..c }
        } else {
            c
        },
        Some((name, value)) => if name.len() == 0 || !is_name_text(name) {
            c.refusing(name)
        } else if dialect == ShellDialect::Posix {
            c.exporting(name).binding(name, value, word.dynamic)
        } else {
            c.binding(name, value, word.dynamic)
        },
    }
}

/// The environment behind the arguments of `export` or `set` from the `i`th on.
pub open spec fn after_exports(words: Seq<WordView>, i: int, dialect: ShellDialect, c: CrossView) -> CrossView
    decreases words.len() - i,
{
    if i < 0 || i >= words.len() {
        c
    } else {
        after_exports(words, i + 1, dialect, after_export(words[i], dialect, c))
    }
}

/// A command that is nothing but literal assignments.
pub open spec fn only_assignments(words: Seq<WordView>) -> bool {
    words.len() > 0 && forall|i: int|
        0 <= i < words.len() ==> !(#[trigger] words[i]).dynamic && env_assignment(words[i].decoded)
}

/// A command that sets variables for the commands behind it.
pub open spec fn is_export(words: Seq<WordView>, dialect: ShellDialect) -> bool {
    words.len() > 0 && !words[0].dynamic && match dialect {
        ShellDialect::Posix => same_nocase(words[0].decoded, "export"@),
        ShellDialect::Cmd => same_nocase(without_leading(words[0].decoded, '@'), "set"@),
        _ => false,
    }
}

/// The environment behind a command that only sets variables; nothing when it
/// does something else.
pub open spec fn after_environment(words: Seq<WordView>, dialect: ShellDialect, c: CrossView) -> Option<
    CrossView,
> {
    if dialect == ShellDialect::PowerShell && words.len() > 0 && is_env_reference(words[0].decoded) {
        Some(after_powershell_assignment(words, dialect, c))
    } else if dialect == ShellDialect::Posix && only_assignments(words) {
        Some(after_assignments(words, 0, c))
    } else if is_export(words, dialect) {
        Some(after_exports(words, 1, dialect, c))
    } else {
        None
    }
}

/// Follows an assignment to a PowerShell environment variable.
fn record_powershell_assignment(words: &Vec<GitSemanticWord>, dialect: ShellDialect, c: &mut CrossEnvironment)
    requires
        words.len() > 0,
        words@[0].decoded@.len() >= 5,
    ensures
        final(c)@ == after_powershell_assignment(word_views(words@), dialect, old(c)@),
{
    let ghost views = word_views(words@);
    assert(views[0] == words@[0]@);
    let assignment = from_index(words[0].decoded.as_slice(), 5);
    match split_setting(assignment) {
        Some((name, value)) => {
            if name.len() == 0 || !name_text(name) {
                c.refuse(name);
            } else {
                let parts = git_dynamic_fragments(value, dialect);
                assert(texts(parts@).len() == parts@.len());
                c.set_variable(name, value, parts.len() > 1);
            }
        },
        None => {
            if words.len() > 2 {
                assert(views[1] == words@[1]@ && views[2] == words@[2]@);
                if is_str(words[1].decoded.as_slice(), "=") {
                    if assignment.len() == 0 || !name_text(assignment) {
                        c.refuse(assignment);
                    } else {
                        c.set_variable(
                            assignment,
                            words[2].decoded.as_slice(),
                            words[2].dynamic || words.len() > 3,
                        );
                    }
                    return ;
                }
            }
            c.refuse(assignment);
        },
    }
}

/// Whether a command is nothing but literal assignments.
fn all_assignments(words: &Vec<GitSemanticWord>) -> (r: bool)
    ensures
        r == only_assignments(word_views(words@)),
{
    let ghost views = word_views(words@);
    let mut i: usize = 0;
    while i < words.len()
        invariant
            0 <= i <= words.len(),
            views == word_views(words@),
            forall|j: int|
                0 <= j < i ==> !(#[trigger] views[j]).dynamic && env_assignment(views[j].decoded),
        decreases words.len() - i,
    {
        assert(views[i as int] == words@[i as int]@);
        if words[i].dynamic || !is_env_assignment(words[i].decoded.as_slice()) {
            return false;
        }
        i += 1;
    }
    words.len() > 0
}

/// Follows POSIX assignments that stand alone.
fn record_assignments(words: &Vec<GitSemanticWord>, c: &mut CrossEnvironment)
    ensures
        final(c)@ == after_assignments(word_views(words@), 0, old(c)@),
{
    let ghost views = word_views(words@);
    let ghost target = after_assignments(views, 0, c@);
    let mut i: usize = 0;
    while i < words.len()
        invariant
            0 <= i <= words.len(),
            views == word_views(words@),
            target == after_assignments(views, i as int, c@),
        decreases words.len() - i,
    {
        assert(views[i as int] == words@[i as int]@);
        if let Some((name, value)) = split_setting(words[i].decoded.as_slice()) {
            if lists(&c.exported, name) {
                c.set_variable(name, value, false);
            }
        }
        i += 1;
    }
}

/// Follows one argument of `export` or `set`.
fn record_export(word: &GitSemanticWord, dialect: ShellDialect, c: &mut CrossEnvironment)
    ensures
        final(c)@ == after_export(word@, dialect, old(c)@),
{
    let decoded = trim_trailing(trim_leading(word.decoded.as_slice(), '"'), '"');
    match split_setting(decoded) {
        None => {
            if dialect == ShellDialect::Posix && decoded.len() > 0 && name_text(decoded) {
                c.export_variable(decoded);
                let up = upper_text(decoded);
                if starts_str(up.as_slice(), "GIT_CONFIG_") && find_binding(&c.env, decoded)
                    >= c.env.len() {
                    let none: Vec<char> = Vec::new();
                    assert(none@ =~= Seq::<char>::empty());
                    c.set_variable(decoded, none.as_slice(), true);
                }
            } else {
                let up = upper_text(decoded);
                if has_str(up.as_slice(), "GIT_CONFIG_") {
                    c.unverified = true;
                }
            }
        },
        Some((name, value)) => {
            if name.len() == 0 || !name_text(name) {
                c.refuse(name);
            } else {
                if dialect == ShellDialect::Posix {
                    c.export_variable(name);
                }
                c.set_variable(name, value, word.dynamic);
            }
        },
    }
}

/// Follows a command that only sets variables; false when it does something
/// else, and then nothing is changed.
pub fn record_cross_segment_environment(
    words: &Vec<GitSemanticWord>,
    dialect: ShellDialect,
    c: &mut CrossEnvironment,
) -> (r: bool)
    ensures
        match after_environment(word_views(words@), dialect, old(c)@) {
            Some(v) => r && final(c)@ == v,
            None => !r && final(c)@ == old(c)@,
        },
{
    let ghost views = word_views(words@);
    if words.len() > 0 {
        assert(views[0] == words@[0]@);
    }
    if dialect == ShellDialect::PowerShell && words.len() > 0 && env_reference(
        words[0].decoded.as_slice(),
    ) {
        record_powershell_assignment(words, dialect, c);
        return true;
    }
    if dialect == ShellDialect::Posix && all_assignments(words) {
        record_assignments(words, c);
        return true;
    }
    let export = words.len() > 0 && !words[0].dynamic && match dialect {
        ShellDialect::Posix => is_str_nocase(words[0].decoded.as_slice(), "export"),
        ShellDialect::Cmd => is_str_nocase(trim_leading(words[0].decoded.as_slice(), '@'), "set"),
        _ => false,
    };
    if !export {
        return false;
    }
    let ghost target = after_exports(views, 1, dialect, c@);
    let mut i: usize = 1;
    while i < words.len()
        invariant
            1 <= i <= words.len(),
            views == word_views(words@),
            target == after_exports(views, i as int, dialect, c@),
        decreases words.len() - i,
    {
        assert(views[i as int] == words@[i as int]@);
        record_export(&words[i], dialect, c);
        i += 1;
    }
    true
}

/// An option of `git config` without a value.
pub open spec fn is_config_flag(s: Seq<char>) -> bool {
    s == "--global"@ || s == "--system"@ || s == "--local"@ || s == "--worktree"@ || s
        == "--replace-all"@ || s == "--add"@ || s == "--fixed-value"@ || s == "--includes"@ || s
        == "--no-includes"@
}

/// An option of `git config` whose value is the next word.
pub open spec fn is_config_value(s: Seq<char>) -> bool {
    s == "--file"@ || s == "-f"@ || s == "--blob"@ || s == "--type"@ || s == "--default"@
}

/// The key among the words of `git config` from the `i`th on, and whether it is
/// removed; nothing when a word before it is expanded by the shell.
pub open spec fn config_key_from(words: Seq<WordView>, i: int, unset: bool) -> Option<(int, bool)>
    decreases words.len() - i,
{
    if i < 0 || i >= words.len() {
        Some((words.len() as int, unset))
    } else if words[i].dynamic {
        None
    } else {
        let o = words[i].decoded;
        if is_config_flag(o) {
            config_key_from(words, i + 1, unset)
        } else if o == "--unset"@ || o == "--unset-all"@ {
            config_key_from(words, i + 1, true)
        } else if is_config_value(o) {
            config_key_from(words, onward(i, i + 2, words.len() as int), unset)
        } else if starts(o, "-"@) {
            config_key_from(words, i + 1, unset)
        } else {
            Some((i, unset))
        }
    }
}

/// A subcommand of `git config` that only reads.
pub open spec fn is_config_read(s: Seq<char>) -> bool {
    s == "get"@ || s == "get-all"@ || s == "get-regexp"@ || s == "list"@ || s == "show-origin"@ || s
        == "show-scope"@
}

/// The definitions behind a `git config` command whose subcommand is the word
/// `sub`; nothing when the command is another one.
pub open spec fn after_config(
    words: Seq<WordView>,
    sub: int,
    defs: Seq<DefinitionView>,
    dialect: ShellDialect,
) -> Option<Seq<DefinitionView>> {
    if sub < 0 || sub >= words.len() || words[sub].decoded != "config"@ {
        None
    } else {
        let op = if sub + 1 < words.len() && !words[sub + 1].dynamic {
            words[sub + 1].decoded
        } else {
            Seq::empty()
        };
        let unset = op == "unset"@ || op == "remove-section"@;
        let start = if unset || op == "set"@ {
            sub + 2
        } else {
            sub + 1
        };
        if is_config_read(op) {
            Some(defs)
        } else {
            match config_key_from(words, start, unset) {
                None => Some(defs.push(unknown_definition())),
                Some((k, removed)) => if k < 0 || k >= words.len() {
                    Some(defs)
                } else {
                    match alias_of_key(words[k].decoded) {
                        None => Some(defs),
                        Some(name) => if removed {
                            Some(others_from(defs, 0, name, Seq::empty()))
                        } else if k + 1 >= words.len() {
                            Some(defs)
                        } else {
                            Some(
                                with_config(
                                    defs,
                                    config_text(words[k].decoded, words[k + 1].decoded),
                                    words[k].dynamic || words[k + 1].dynamic,
                                    dialect,
                                ),
                            )
                        },
                    }
                },
            }
        }
    }
}

/// The key among the words of `git config` from the `start`th on.
fn find_config_key(words: &Vec<GitSemanticWord>, start: usize, removing: bool) -> (r: Option<
    (usize, bool),
>)
    requires
        start <= words.len(),
    ensures
        match r {
            Some(p) => config_key_from(word_views(words@), start as int, removing) == Some(
                (p.0 as int, p.1),
            ),
            None => config_key_from(word_views(words@), start as int, removing) is None,
        },
{
    let ghost views = word_views(words@);
    let mut unset = removing;
    let mut i: usize = start;
    while i < words.len()
        invariant
            start <= i <= words.len(),
            views == word_views(words@),
            config_key_from(views, start as int, removing) == config_key_from(
                views,
                i as int,
                unset,
            ),
        decreases words.len() - i,
    {
        assert(views[i as int] == words@[i as int]@);
        if words[i].dynamic {
            return None;
        }
        let o = words[i].decoded.as_slice();
        if is_str(o, "--global") || is_str(o, "--system") || is_str(o, "--local") || is_str(
            o,
            "--worktree",
        ) || is_str(o, "--replace-all") || is_str(o, "--add") || is_str(o, "--fixed-value")
            || is_str(o, "--includes") || is_str(o, "--no-includes") {
            i += 1;
        } else if is_str(o, "--unset") || is_str(o, "--unset-all") {
            unset = true;
            i += 1;
        } else if is_str(o, "--file") || is_str(o, "-f") || is_str(o, "--blob") || is_str(
            o,
            "--type",
        ) || is_str(o, "--default") {
            i = advance(i, 2, words.len());
        } else if starts_str(o, "-") {
            i += 1;
        } else {
            return Some((i, unset));
        }
    }
    Some((i, unset))
}

/// Follows a `git config` command; false when the command is another one, and
/// then nothing is changed.
pub fn update_persistent_alias_definitions(
    words: &Vec<GitSemanticWord>,
    sub: usize,
    defs: &mut Vec<VisibleAliasDefinition>,
    dialect: ShellDialect,
) -> (r: bool)
    ensures
        match after_config(word_views(words@), sub as int, definitions(old(defs)@), dialect) {
            Some(v) => r && definitions(final(defs)@) == v,
            None => !r && final(defs)@ == old(defs)@,
        },
{
    let ghost views = word_views(words@);
    if sub >= words.len() {
        return false;
    }
    assert(views[sub as int] == words@[sub as int]@);
    if !is_str(words[sub].decoded.as_slice(), "config") {
        return false;
    }
    let mut unset = false;
    let mut start: usize = sub + 1;
    proof {
        reveal_strlit("unset");
        reveal_strlit("remove-section");
        reveal_strlit("set");
        reveal_strlit("get");
        reveal_strlit("get-all");
        reveal_strlit("get-regexp");
        reveal_strlit("list");
        reveal_strlit("show-origin");
        reveal_strlit("show-scope");
        assert("unset"@.len() == 5 && "remove-section"@.len() == 14 && "set"@.len() == 3);
        assert("get"@.len() == 3 && "get-all"@.len() == 7 && "get-regexp"@.len() == 10);
        assert("list"@.len() == 4 && "show-origin"@.len() == 11 && "show-scope"@.len() == 10);
    }
    if start < words.len() && !words[start].dynamic {
        assert(views[start as int] == words@[start as int]@);
        let op = words[start].decoded.as_slice();
        if is_str(op, "get") || is_str(op, "get-all") || is_str(op, "get-regexp") || is_str(
            op,
            "list",
        ) || is_str(op, "show-origin") || is_str(op, "show-scope") {
            return true;
        }
        if is_str(op, "unset") || is_str(op, "remove-section") {
            unset = true;
            start += 1;
        } else if is_str(op, "set") {
            start += 1;
        }
    } else if start < words.len() {
        assert(views[start as int] == words@[start as int]@);
    }
    let (k, removed) = match find_config_key(words, start, unset) {
        None => {
            push_unknown(defs);
            return true;
        },
        Some(p) => p,
    };
    if k >= words.len() {
        return true;
    }
    assert(views[k as int] == words@[k as int]@);
    let name = match alias_name_from_key(words[k].decoded.as_slice()) {
        None => {
            return true;
        },
        Some(n) => n,
    };
    if removed {
        remove_definitions(defs, name);
        return true;
    }
    if k + 1 >= words.len() {
        return true;
    }
    assert(views[k + 1] == words@[k + 1]@);
    let config = make_config(words[k].decoded.as_slice(), words[k + 1].decoded.as_slice());
    push_visible_alias_definition(
        defs,
        config.as_slice(),
        words[k].dynamic || words[k + 1].dynamic,
        dialect,
    );
    true
}

/// Whether a POSIX word holds a command substitution from position `i` on.
pub open spec fn posix_nests(s: Seq<char>, i: int, single: bool, double: bool) -> bool
    decreases s.len() - i,
{
    if i < 0 || i >= s.len() {
        false
    } else if s[i] == '\\' && !single {
        posix_nests(s, onward(i, i + 2, s.len() as int), single, double)
    } else if s[i] == '\'' && !double {
        posix_nests(s, i + 1, !single, double)
    } else if s[i] == '"' && !single {
        posix_nests(s, i + 1, single, !double)
    } else if !single && (s[i] == '`' || (s[i] == '$' && at(s, i + 1) == Some('('))) {
        true
    } else {
        posix_nests(s, i + 1, single, double)
    }
}

/// Whether a PowerShell word holds a subexpression from position `i` on.
pub open spec fn powershell_nests(s: Seq<char>, i: int, single: bool, double: bool) -> bool
    decreases s.len() - i,
{
    if i < 0 || i >= s.len() {
        false
    } else if s[i] == '`' && !single {
        powershell_nests(s, onward(i, i + 2, s.len() as int), single, double)
    } else if s[i] == '\'' && !double {
        powershell_nests(s, i + 1, !single, double)
    } else if s[i] == '"' && !single {
        powershell_nests(s, i + 1, single, !double)
    } else if !single && (s[i] == '$' || s[i] == '@') && at(s, i + 1) == Some('(') {
        true
    } else {
        powershell_nests(s, i + 1, single, double)
    }
}

/// Whether a word runs commands inside it.
pub open spec fn nests_commands(raw: Seq<char>, dialect: ShellDialect) -> bool {
    match dialect {
        ShellDialect::Posix | ShellDialect::Unknown => posix_nests(raw, 0, false, false),
        ShellDialect::PowerShell => powershell_nests(raw, 0, false, false),
        ShellDialect::Cmd => false,
    }
}

/// Whether a word runs commands inside it.
pub fn token_has_nested_shell_context(raw: &[char], dialect: ShellDialect) -> (r: bool)
    ensures
        r == nests_commands(raw@, dialect),
{
    if dialect == ShellDialect::Cmd {
        return false;
    }
    let powershell = dialect == ShellDialect::PowerShell;
    let mut i: usize = 0;
    let mut single = false;
    let mut double = false;
    while i < raw.len()
        invariant
            0 <= i <= raw.len(),
            powershell == (dialect == ShellDialect::PowerShell),
            dialect != ShellDialect::Cmd,
            powershell ==> nests_commands(raw@, dialect) == powershell_nests(
                raw@,
                i as int,
                single,
                double,
            ),
            !powershell ==> nests_commands(raw@, dialect) == posix_nests(
                raw@,
                i as int,
                single,
                double,
            ),
        decreases raw.len() - i,
    {
        let c = raw[i];
        if !single && ((powershell && c == '`') || (!powershell && c == '\\')) {
            i = advance(i, 2, raw.len());
        } else if c == '\'' && !double {
            single = !single;
            i += 1;
        } else if c == '"' && !single {
            double = !double;
            i += 1;
        } else if !single && !powershell && c == '`' {
            return true;
        } else if !single && (c == '$' || (powershell && c == '@')) && get(raw, i + 1) == Some('(') {
            return true;
        } else {
            i += 1;
        }
    }
    false
}

/// A word of POSIX control flow.
pub open spec fn is_posix_control(s: Seq<char>) -> bool {
    s == "if"@ || s == "then"@ || s == "elif"@ || s == "else"@ || s == "fi"@ || s == "for"@ || s
        == "while"@ || s == "until"@ || s == "do"@ || s == "done"@ || s == "case"@ || s == "esac"@
        || s == "select"@ || s == "coproc"@ || s == "function"@ || s == "{"@ || s == "}"@
}

/// A word of PowerShell control flow, in lower case.
pub open spec fn is_powershell_control(s: Seq<char>) -> bool {
    s == "if"@ || s == "elseif"@ || s == "else"@ || s == "switch"@ || s == "foreach"@ || s == "for"@
        || s == "while"@ || s == "do"@ || s == "until"@ || s == "try"@ || s == "catch"@ || s
        == "finally"@ || s == "trap"@ || s == "function"@ || s == "filter"@ || s == "begin"@ || s
        == "process"@ || s == "end"@ || s == "{"@ || s == "}"@
}

/// A word of Cmd control flow, in lower case.
pub open spec fn is_cmd_control(s: Seq<char>) -> bool {
    s == "if"@ || s == "else"@ || s == "for"@
}

/// A word of control flow.
pub open spec fn is_control_word(s: Seq<char>, dialect: ShellDialect) -> bool {
    match dialect {
        ShellDialect::Posix => is_posix_control(s),
        ShellDialect::PowerShell => is_powershell_control(lowered(s)),
        ShellDialect::Cmd => is_cmd_control(lowered(s)),
        ShellDialect::Unknown => is_posix_control(s) || is_powershell_control(lowered(s))
            || is_cmd_control(lowered(s)),
    }
}

/// Whether the word is one of control flow.
pub fn shell_control_keyword(s: &[char], dialect: ShellDialect) -> (r: bool)
    ensures
        r == is_control_word(s@, dialect),
{
    let posix = is_str(s, "if") || is_str(s, "then") || is_str(s, "elif") || is_str(s, "else")
        || is_str(s, "fi") || is_str(s, "for") || is_str(s, "while") || is_str(s, "until")
        || is_str(s, "do") || is_str(s, "done") || is_str(s, "case") || is_str(s, "esac")
        || is_str(s, "select") || is_str(s, "coproc") || is_str(s, "function") || is_str(s, "{")
        || is_str(s, "}");
    let lower = lower_text(s);
    let l = lower.as_slice();
    let powershell = is_str(l, "if") || is_str(l, "elseif") || is_str(l, "else") || is_str(
        l,
        "switch",
    ) || is_str(l, "foreach") || is_str(l, "for") || is_str(l, "while") || is_str(l, "do")
        || is_str(l, "until") || is_str(l, "try") || is_str(l, "catch") || is_str(l, "finally")
        || is_str(l, "trap") || is_str(l, "function") || is_str(l, "filter") || is_str(l, "begin")
        || is_str(l, "process") || is_str(l, "end") || is_str(l, "{") || is_str(l, "}");
    let cmd = is_str(l, "if") || is_str(l, "else") || is_str(l, "for");
    match dialect {
        ShellDialect::Posix => posix,
        ShellDialect::PowerShell => powershell,
        ShellDialect::Cmd => cmd,
        ShellDialect::Unknown => posix || powershell || cmd,
    }
}

/// A separator behind which the next command runs in any case, in the same shell.
pub open spec fn is_straight(raw: Seq<char>, dialect: ShellDialect) -> bool {
    raw == ";"@ || raw == "\n"@ || raw == "\r"@ || raw == "\r\n"@ || (dialect == ShellDialect::Cmd
        && raw == "&"@)
}

/// Whether the tokens from the `k`th on make a command run conditionally, again,
/// or in another shell; `first` tells whether a command starts there.
pub open spec fn branches_from(
    s: Seq<char>,
    toks: Seq<NormalizeToken>,
    k: int,
    first: bool,
    dialect: ShellDialect,
) -> bool
    decreases toks.len() - k,
{
    if k < 0 || k >= toks.len() {
        false
    } else {
        let raw = toks[k].of(s);
        if !toks[k].word() {
            !is_straight(raw, dialect) || branches_from(s, toks, k + 1, true, dialect)
        } else {
            nests_commands(raw, dialect) || (first && is_control_word(raw, dialect))
                || branches_from(s, toks, k + 1, false, dialect)
        }
    }
}

/// Whether a command line runs a command conditionally, again, or in another
/// shell.
pub open spec fn has_branches(s: Seq<char>, dialect: ShellDialect) -> bool {
    branches_from(s, tokens(s, dialect), 0, true, dialect)
}

/// Whether a command line runs a command conditionally, again, or in another
/// shell.
pub fn command_has_conditional_control_flow(s: &[char], dialect: ShellDialect) -> (r: bool)
    ensures
        r == has_branches(s@, dialect),
{
    let toks = tokenize_for_shell_dialect(s, dialect);
    let mut first = true;
    let mut k: usize = 0;
    while k < toks.len()
        invariant
            0 <= k <= toks.len(),
            toks@ == tokens(s@, dialect),
            forall|j: int| 0 <= j < toks@.len() ==> (#[trigger] toks@[j]).fits(s@.len() as int),
            has_branches(s@, dialect) == branches_from(s@, toks@, k as int, first, dialect),
        decreases toks.len() - k,
    {
        let t = toks[k];
        assert(toks@[k as int].fits(s@.len() as int));
        let raw = t.text(s);
        if !t.is_word() {
            let straight = is_str(raw, ";") || is_str(raw, "\n") || is_str(raw, "\r") || is_str(
                raw,
                "\r\n",
            ) || (dialect == ShellDialect::Cmd && is_str(raw, "&"));
            if !straight {
                return true;
            }
            first = true;
        } else {
            if token_has_nested_shell_context(raw, dialect) || (first && shell_control_keyword(
                raw,
                dialect,
            )) {
                return true;
            }
            first = false;
        }
        k += 1;
    }
    false
}

/// The first word from the `i`th on that is the key of an alias.
pub open spec fn alias_key_from(words: Seq<WordView>, i: int) -> int
    decreases words.len() - i,
{
    if i < 0 || i >= words.len() {
        words.len() as int
    } else if alias_of_key(words[i].decoded) is Some {
        i
    } else {
        alias_key_from(words, i + 1)
    }
}

/// A word with which `git config` changes a setting.
pub open spec fn is_config_change(s: Seq<char>) -> bool {
    s == "set"@ || s == "unset"@ || s == "--unset"@ || s == "--unset-all"@ || s == "--add"@ || s
        == "--replace-all"@
}

/// A `git config` command that changes an alias.
pub open spec fn changes_alias(words: Seq<WordView>, sub: int) -> bool {
    let k = alias_key_from(words, sub + 1);
    0 <= sub < words.len() && words[sub].decoded == "config"@ && k < words.len() && (k + 1
        < words.len() || exists|j: int|
        sub < j < words.len() && is_config_change((#[trigger] words[j]).decoded))
}

/// Whether a `git config` command changes an alias.
pub fn git_config_segment_mutates_alias(words: &Vec<GitSemanticWord>, sub: usize) -> (r: bool)
    ensures
        r == changes_alias(word_views(words@), sub as int),
{
    let ghost views = word_views(words@);
    if sub >= words.len() {
        return false;
    }
    assert(views[sub as int] == words@[sub as int]@);
    if !is_str(words[sub].decoded.as_slice(), "config") {
        return false;
    }
    let mut k: usize = sub + 1;
    while k < words.len() && alias_name_from_key(words[k].decoded.as_slice()).is_none()
        invariant
            sub < k <= words.len(),
            views == word_views(words@),
            alias_key_from(views, sub + 1) == alias_key_from(views, k as int),
        decreases words.len() - k,
    {
        assert(views[k as int] == words@[k as int]@);
        k += 1;
    }
    if k >= words.len() {
        return false;
    }
    assert(views[k as int] == words@[k as int]@);
    if k + 1 < words.len() {
        return true;
    }
    let mut j: usize = sub + 1;
    while j < words.len()
        invariant
            sub < j <= words.len(),
            views == word_views(words@),
            k < words.len(),
            alias_key_from(views, sub + 1) == k,
            views[sub as int].decoded == "config"@,
            forall|i: int| sub < i < j ==> !is_config_change((#[trigger] views[i]).decoded),
        decreases words.len() - j,
    {
        assert(views[j as int] == words@[j as int]@);
        let w = words[j].decoded.as_slice();
        if is_str(w, "set") || is_str(w, "unset") || is_str(w, "--unset") || is_str(
            w,
            "--unset-all",
        ) || is_str(w, "--add") || is_str(w, "--replace-all") {
            return true;
        }
        j += 1;
    }
    false
}

/// The assignments of the environment from the `i`th variable on, behind `out`.
pub open spec fn written_env(env: Seq<BindingView>, i: int, out: Seq<char>) -> Seq<char>
    decreases env.len() - i,
{
    if i < 0 || i >= env.len() {
        out
    } else if env[i].dynamic || env[i].name.len() == 0 || !is_name_text(env[i].name) {
        written_env(env, i + 1, out)
    } else {
        written_env(
            env,
            i + 1,
            (out + config_text(env[i].name, shell_quote(env[i].value))).push(' '),
        )
    }
}

/// The settings of the definitions from the `i`th on, behind `out`.
pub open spec fn written_definitions(defs: Seq<DefinitionView>, i: int, out: Seq<char>) -> Seq<char>
    decreases defs.len() - i,
{
    if i < 0 || i >= defs.len() {
        out
    } else if defs[i].name is None || defs[i].value is None {
        written_definitions(defs, i + 1, out)
    } else {
        written_definitions(
            defs,
            i + 1,
            out + " -c "@ + shell_quote(config_text("alias."@ + defs[i].name->0, defs[i].value->0)),
        )
    }
}

/// The words from the `i`th on, each quoted, behind `out`.
pub open spec fn written_words(words: Seq<WordView>, i: int, out: Seq<char>) -> Seq<char>
    decreases words.len() - i,
{
    if i < 0 || i >= words.len() {
        out
    } else {
        written_words(words, i + 1, out.push(' ') + shell_quote(words[i].decoded))
    }
}

/// A Git command written out with the environment and the definitions that it
/// runs under.
pub open spec fn written_command(
    env: Seq<BindingView>,
    defs: Seq<DefinitionView>,
    words: Seq<WordView>,
    from: int,
) -> Seq<char> {
    written_words(
        words,
        from,
        written_definitions(defs, 0, written_env(env, 0, Seq::empty()) + "git"@),
    )
}

/// Writes a Git command out with the environment and the definitions that it
/// runs under.
fn write_command(
    env: &Vec<Binding>,
    defs: &Vec<VisibleAliasDefinition>,
    words: &Vec<GitSemanticWord>,
    from: usize,
) -> (r: Vec<char>)
    requires
        from <= words.len(),
    ensures
        r@ == written_command(bindings(env@), definitions(defs@), word_views(words@), from as int),
{
    let ghost ev = bindings(env@);
    let ghost dv = definitions(defs@);
    let ghost wv = word_views(words@);
    let mut out: Vec<char> = Vec::new();
    assert(out@ =~= Seq::<char>::empty());
    let mut i: usize = 0;
    while i < env.len()
        invariant
            0 <= i <= env.len(),
            ev == bindings(env@),
            written_env(ev, 0, Seq::empty()) == written_env(ev, i as int, out@),
        decreases env.len() - i,
    {
        let b = &env[i];
        assert(ev[i as int] == b@);
        if !(b.dynamic || b.name.len() == 0 || !name_text(b.name.as_slice())) {
            let value = quote_word(b.value.as_slice());
            let text = make_config(b.name.as_slice(), value.as_slice());
            push_all(&mut out, text.as_slice());
            out.push(' ');
        }
        i += 1;
    }
    push_str(&mut out, "git");
    let ghost base = out@;
    let mut j: usize = 0;
    while j < defs.len()
        invariant
            0 <= j <= defs.len(),
            dv == definitions(defs@),
            written_definitions(dv, 0, base) == written_definitions(dv, j as int, out@),
        decreases defs.len() - j,
    {
        let d = &defs[j];
        assert(dv[j as int] == d@);
        if let Some(name) = &d.name {
            if let Some(value) = &d.value {
                let mut key = chars_of("alias.");
                push_all(&mut key, name.as_slice());
                let text = make_config(key.as_slice(), value.as_slice());
                let quoted = quote_word(text.as_slice());
                push_str(&mut out, " -c ");
                push_all(&mut out, quoted.as_slice());
            }
        }
        j += 1;
    }
    let ghost base2 = out@;
    let mut k: usize = from;
    while k < words.len()
        invariant
            from <= k <= words.len(),
            wv == word_views(words@),
            written_words(wv, from as int, base2) == written_words(wv, k as int, out@),
        decreases words.len() - k,
    {
        assert(wv[k as int] == words@[k as int]@);
        let quoted = quote_word(words[k].decoded.as_slice());
        out.push(' ');
        push_all(&mut out, quoted.as_slice());
        k += 1;
    }
    out
}

/// Whether a word mentions a Git setting of the environment.
pub open spec fn mentions_setting(words: Seq<WordView>) -> bool {
    exists|i: int|
        0 <= i < words.len() && contains_text(uppered((#[trigger] words[i]).decoded), "GIT_CONFIG_"@)
}

/// Whether a word mentions a Git setting of the environment.
fn any_setting(words: &Vec<GitSemanticWord>) -> (r: bool)
    ensures
        r == mentions_setting(word_views(words@)),
{
    let ghost views = word_views(words@);
    let mut i: usize = 0;
    while i < words.len()
        invariant
            0 <= i <= words.len(),
            views == word_views(words@),
            forall|j: int|
                0 <= j < i ==> !contains_text(
                    uppered((#[trigger] views[j]).decoded),
                    "GIT_CONFIG_"@,
                ),
        decreases words.len() - i,
    {
        assert(views[i as int] == words@[i as int]@);
        let up = upper_text(words[i].decoded.as_slice());
        if has_str(up.as_slice(), "GIT_CONFIG_") {
            return true;
        }
        i += 1;
    }
    false
}

/// Whether the name or the value of a definition is unknown.
pub open spec fn any_unknown(defs: Seq<DefinitionView>) -> bool {
    exists|i: int|
        0 <= i < defs.len() && ((#[trigger] defs[i]).name is None || defs[i].value is None)
}

/// Whether the name or the value of a definition is unknown.
fn has_unknown(defs: &Vec<VisibleAliasDefinition>) -> (r: bool)
    ensures
        r == any_unknown(definitions(defs@)),
{
    let ghost views = definitions(defs@);
    let mut i: usize = 0;
    while i < defs.len()
        invariant
            0 <= i <= defs.len(),
            views == definitions(defs@),
            forall|j: int|
                0 <= j < i ==> (#[trigger] views[j]).name is Some && views[j].value is Some,
        decreases defs.len() - i,
    {
        assert(views[i as int] == defs@[i as int]@);
        if defs[i].name.is_none() || defs[i].value.is_none() {
            return true;
        }
        i += 1;
    }
    false
}

/// What the commands of a line leave behind for the next one.
pub struct LineView {
    pub cross: CrossView,
    /// The aliases that `git config` commands define.
    pub persistent: Seq<DefinitionView>,
    /// Whether a definition may have been skipped or made in another shell.
    pub conditional: bool,
}

/// The text of a segment that the analysis reads.
pub open spec fn segment_text(s: Seq<char>, dialect: ShellDialect) -> Seq<char> {
    if dialect == ShellDialect::PowerShell && is_env_reference(trimmed_start(s)) {
        trimmed(s)
    } else {
        git_command(s, dialect)
    }
}

/// A subcommand that may be an alias.
pub open spec fn may_be_alias(s: Seq<char>) -> bool {
    !is_git_builtin(s) && is_dispatchable(s)
}

/// What one command of a line does: it decides, or it leaves a state behind.
pub enum LineStep {
    Decided(AliasView),
    Next(LineView),
}

/// What the decoded words of one command of a line do. `branches` tells whether
/// the line has control flow.
pub open spec fn line_step(
    words: Seq<WordView>,
    dialect: ShellDialect,
    branches: bool,
    state: LineView,
) -> LineStep {
    match after_environment(words, dialect, state.cross) {
        Some(cross) => LineStep::Next(
            LineView {
                cross,
                conditional: state.conditional || (branches && mentions_setting(words)),
                ..state
            },
        ),
        None => match literal_git_from(words, 0, dialect) {
            None => LineStep::Next(state),
            Some(p) => match literal_subcommand_from(words, p + 1) {
                None => LineStep::Next(state),
                Some(sub) => match after_config(words, sub, state.persistent, dialect) {
                    Some(persistent) => LineStep::Next(
                        LineView {
                            persistent,
                            conditional: state.conditional || (branches && changes_alias(
                                words,
                                sub,
                            )),
                            ..state
                        },
                    ),
                    None => {
                        let alias = may_be_alias(words[sub].decoded);
                        let defs = state.persistent + environment_definitions(
                            state.cross.env,
                            dialect,
                        );
                        if state.conditional && alias {
                            LineStep::Decided(AliasView::Unverified)
                        } else if defs.len() == 0 && !state.cross.unverified {
                            LineStep::Next(state)
                        } else if state.cross.unverified || any_dynamic(words, p + 1)
                            || any_unknown(defs) {
                            if alias {
                                LineStep::Decided(AliasView::Unverified)
                            } else {
                                LineStep::Next(state)
                            }
                        } else {
                            match segment_alias(
                                written_command(state.cross.env, defs, words, p + 1),
                                ShellDialect::Posix,
                            ) {
                                AliasView::NoMatch => LineStep::Next(state),
                                d => LineStep::Decided(d),
                            }
                        }
                    },
                },
            },
        },
    }
}

/// What the segments of a line from the `k`th on do through aliases that earlier
/// ones define.
pub open spec fn cross_alias_from(
    s: Seq<char>,
    segs: Seq<Segment>,
    k: int,
    dialect: ShellDialect,
    branches: bool,
    state: LineView,
) -> AliasView
    decreases segs.len() - k,
{
    if k < 0 || k >= segs.len() {
        AliasView::NoMatch
    } else {
        let c = segment_text(segs[k].of(s), dialect);
        match semantic_words(c, dialect) {
            None => cross_alias_from(s, segs, k + 1, dialect, branches, state),
            Some(words) => if too_many_words(c, dialect) {
                AliasView::Unverified
            } else {
                match line_step(words, dialect, branches, state) {
                    LineStep::Decided(d) => d,
                    LineStep::Next(next) => cross_alias_from(
                        s,
                        segs,
                        k + 1,
                        dialect,
                        branches,
                        next,
                    ),
                }
            },
        }
    }
}

/// The state before the first command of a line.
pub open spec fn line_start() -> LineView {
    LineView {
        cross: CrossView { env: Seq::empty(), exported: Seq::empty(), unverified: false },
        persistent: Seq::empty(),
        conditional: false,
    }
}

/// What a line of several commands does through aliases that earlier ones define.
pub open spec fn cross_alias(s: Seq<char>, dialect: ShellDialect) -> AliasView {
    let segs = segments(s, dialect);
    if segs.len() < 2 {
        AliasView::NoMatch
    } else {
        cross_alias_from(s, segs, 0, dialect, has_branches(s, dialect), line_start())
    }
}

/// What the commands of a line leave behind for the next one.
#[derive(Debug)]
pub struct LineState {
    pub cross: CrossEnvironment,
    pub persistent: Vec<VisibleAliasDefinition>,
    pub conditional: bool,
}

impl View for LineState {
    type V = LineView;

    open spec fn view(&self) -> LineView {
        LineView {
            cross: self.cross@,
            persistent: definitions(self.persistent@),
            conditional: self.conditional,
        }
    }
}

/// What the decoded words of one command of a line do: a decision, or nothing
/// when the line goes on.
fn step_line(words: &Vec<GitSemanticWord>, dialect: ShellDialect, branches: bool, state: &mut LineState) -> (r: Option<
    AliasOutcome,
>)
    ensures
        match r {
            Some(d) => line_step(word_views(words@), dialect, branches, old(state)@)
                == LineStep::Decided(d@),
            None => line_step(word_views(words@), dialect, branches, old(state)@)
                == LineStep::Next(final(state)@),
        },
{
    let ghost views = word_views(words@);
    if record_cross_segment_environment(words, dialect, &mut state.cross) {
        if branches && any_setting(words) {
            state.conditional = true;
        }
        return None;
    }
    let p = match static_git_executable_index(words, dialect) {
        None => {
            return None;
        },
        Some(p) => p,
    };
    let sub = match static_git_subcommand_index(words, p + 1) {
        None => {
            return None;
        },
        Some(i) => i,
    };
    if update_persistent_alias_definitions(words, sub, &mut state.persistent, dialect) {
        if branches && git_config_segment_mutates_alias(words, sub) {
            state.conditional = true;
        }
        return None;
    }
    assert(views[sub as int] == words@[sub as int]@);
    let name = words[sub].decoded.as_slice();
    let alias = !is_known_git_command(name) && dispatchable(name);
    if state.conditional && alias {
        return Some(AliasOutcome::Unverified);
    }
    let mut defs: Vec<VisibleAliasDefinition> = Vec::new();
    append_definitions(&mut defs, &state.persistent);
    let from_env = visible_environment_alias_definitions(&state.cross.env, dialect);
    append_definitions(&mut defs, &from_env);
    assert(definitions(defs@) =~= definitions(state.persistent@) + definitions(from_env@));
    if defs.len() == 0 && !state.cross.unverified {
        return None;
    }
    if state.cross.unverified || has_dynamic(words, p + 1) || has_unknown(&defs) {
        return if alias {
            Some(AliasOutcome::Unverified)
        } else {
            None
        };
    }
    let written = write_command(&state.cross.env, &defs, words, p + 1);
    match invoked_git_alias_segment_in_dialect(written.as_slice(), ShellDialect::Posix) {
        AliasOutcome::NoMatch => None,
        d => Some(d),
    }
}

/// The text of a segment that the analysis reads.
fn read_segment<'a>(s: &'a [char], dialect: ShellDialect) -> (r: &'a [char])
    ensures
        r@ == segment_text(s@, dialect),
{
    if dialect == ShellDialect::PowerShell && env_reference(trim_start(s)) {
        trim(s)
    } else {
        git_semantic_command(s, dialect)
    }
}

/// What a line of several commands does through aliases that earlier ones define.
pub fn cross_segment_git_alias_decision(s: &[char], dialect: ShellDialect) -> (r: AliasOutcome)
    ensures
        r@ == cross_alias(s@, dialect),
{
    let segs = split_command_segments_in_dialect(s, dialect);
    if segs.len() < 2 {
        return AliasOutcome::NoMatch;
    }
    let branches = command_has_conditional_control_flow(s, dialect);
    let mut state = LineState {
        cross: CrossEnvironment::empty(),
        persistent: Vec::new(),
        conditional: false,
    };
    assert(definitions(state.persistent@) =~= Seq::<DefinitionView>::empty());
    let mut k: usize = 0;
    while k < segs.len()
        invariant
            0 <= k <= segs.len(),
            segs@ == segments(s@, dialect),
            forall|j: int| 0 <= j < segs@.len() ==> (#[trigger] segs@[j]).fits(s@.len() as int),
            cross_alias(s@, dialect) == cross_alias_from(
                s@,
                segs@,
                k as int,
                dialect,
                branches,
                state@,
            ),
        decreases segs.len() - k,
    {
        let seg = segs[k];
        assert(segs@[k as int].fits(s@.len() as int));
        let c = read_segment(seg.text(s), dialect);
        if let Some(decoded) = decode_git_semantic_words(c, dialect) {
            if decoded.over_limit {
                return AliasOutcome::Unverified;
            }
            if let Some(d) = step_line(&decoded.words, dialect, branches, &mut state) {
                return d;
            }
        }
        k += 1;
    }
    AliasOutcome::NoMatch
}

/// Whether a decision names something that is run.
pub open spec fn is_actionable(d: AliasView) -> bool {
    d is Shell || d is Expanded
}

/// What the segments from the `k`th on do through aliases of their own, when
/// `found` was decided before them. Two of them cannot be told in one answer.
pub open spec fn own_alias_from(
    s: Seq<char>,
    segs: Seq<Segment>,
    k: int,
    dialect: ShellDialect,
    found: AliasView,
) -> AliasView
    decreases segs.len() - k,
{
    if k < 0 || k >= segs.len() {
        found
    } else {
        match segment_alias(segs[k].of(s), dialect) {
            AliasView::Unverified => AliasView::Unverified,
            AliasView::NoMatch => own_alias_from(s, segs, k + 1, dialect, found),
            d => if found is NoMatch {
                own_alias_from(s, segs, k + 1, dialect, d)
            } else {
                AliasView::Unverified
            },
        }
    }
}

/// What a command line of a proven dialect does through the aliases that it
/// defines.
pub open spec fn visible_alias_in(s: Seq<char>, dialect: ShellDialect) -> AliasView {
    if dialect == ShellDialect::PowerShell && is_call_expression(s) && call_target(s)
        != PowerShellCallTarget::NonGit && (mentions_alias_syntax(s) || contains_text(
        s,
        "--config-env"@,
    )) {
        AliasView::Unverified
    } else if byte_len(s) > MAX_GIT_SEMANTIC_BYTES {
        if mentions_git(s) || contains_text(lowered(s), "alias."@) {
            AliasView::Unverified
        } else {
            AliasView::NoMatch
        }
    } else {
        match cross_alias(s, dialect) {
            AliasView::NoMatch => own_alias_from(
                s,
                segments(s, dialect),
                0,
                dialect,
                AliasView::NoMatch,
            ),
            d => d,
        }
    }
}

/// One answer for three dialects: `Unverified` when one of them is, what is run
/// when they agree on it, and `NoMatch` when none runs an alias.
pub open spec fn agreed(a: AliasView, b: AliasView, c: AliasView) -> AliasView {
    if a is Unverified || b is Unverified || c is Unverified {
        AliasView::Unverified
    } else {
        let first = if is_actionable(a) {
            a
        } else if is_actionable(b) {
            b
        } else {
            c
        };
        if (is_actionable(a) && a != first) || (is_actionable(b) && b != first) || (is_actionable(c)
            && c != first) {
            AliasView::Unverified
        } else {
            first
        }
    }
}

/// What a command line does through the aliases that it defines.
pub open spec fn visible_alias(s: Seq<char>, dialect: ShellDialect) -> AliasView {
    if dialect == ShellDialect::Unknown {
        agreed(
            visible_alias_in(s, ShellDialect::Posix),
            visible_alias_in(s, ShellDialect::PowerShell),
            visible_alias_in(s, ShellDialect::Cmd),
        )
    } else {
        visible_alias_in(s, dialect)
    }
}

/// What a command line of a proven dialect does through the aliases that it
/// defines.
fn decide_visible_alias(s: &[char], dialect: ShellDialect) -> (r: AliasOutcome)
    ensures
        r@ == visible_alias_in(s@, dialect),
{
    if dialect == ShellDialect::PowerShell && powershell_call_expression(s)
        && powershell_call_target(s) != PowerShellCallTarget::NonGit && (shows_alias_syntax(s)
        || has_str(s, "--config-env")) {
        return AliasOutcome::Unverified;
    }
    if longer_than(s, MAX_GIT_SEMANTIC_BYTES) {
        let low = lower_text(s);
        return if contains_git_ascii_case_insensitive(s) || has_str(low.as_slice(), "alias.") {
            AliasOutcome::Unverified
        } else {
            AliasOutcome::NoMatch
        };
    }
    match cross_segment_git_alias_decision(s, dialect) {
        AliasOutcome::NoMatch => {},
        d => {
            return d;
        },
    }
    let segs = split_command_segments_in_dialect(s, dialect);
    let mut found = AliasOutcome::NoMatch;
    let mut k: usize = 0;
    while k < segs.len()
        invariant
            0 <= k <= segs.len(),
            segs@ == segments(s@, dialect),
            forall|j: int| 0 <= j < segs@.len() ==> (#[trigger] segs@[j]).fits(s@.len() as int),
            visible_alias_in(s@, dialect) == own_alias_from(s@, segs@, k as int, dialect, found@),
        decreases segs.len() - k,
    {
        let seg = segs[k];
        assert(segs@[k as int].fits(s@.len() as int));
        match invoked_git_alias_segment_in_dialect(seg.text(s), dialect) {
            AliasOutcome::Unverified => {
                return AliasOutcome::Unverified;
            },
            AliasOutcome::NoMatch => {},
            d => {
                match found {
                    AliasOutcome::NoMatch => {
                        found = d;
                    },
                    _ => {
                        return AliasOutcome::Unverified;
                    },
                }
            },
        }
        k += 1;
    }
    found
}

/// Whether two lists of texts are equal.
fn same_texts(a: &Vec<Vec<char>>, b: &Vec<Vec<char>>) -> (r: bool)
    ensures
        r == (texts(a@) == texts(b@)),
{
    if a.len() != b.len() {
        assert(texts(a@).len() != texts(b@).len());
        return false;
    }
    let mut i: usize = 0;
    while i < a.len()
        invariant
            0 <= i <= a.len(),
            a.len() == b.len(),
            forall|j: int| 0 <= j < i ==> a@[j]@ == b@[j]@,
        decreases a.len() - i,
    {
        if !same(a[i].as_slice(), b[i].as_slice()) {
            assert(texts(a@)[i as int] != texts(b@)[i as int]);
            return false;
        }
        i += 1;
    }
    assert(texts(a@) =~= texts(b@));
    true
}

/// Whether two decisions are equal.
fn same_outcome(a: &AliasOutcome, b: &AliasOutcome) -> (r: bool)
    ensures
        r == (a@ == b@),
{
    match a {
        AliasOutcome::NoMatch => matches!(b, AliasOutcome::NoMatch),
        AliasOutcome::Unverified => matches!(b, AliasOutcome::Unverified),
        AliasOutcome::Shell(n, args) => match b {
            AliasOutcome::Shell(m, more) => same(n.as_slice(), m.as_slice()) && same_texts(
                args,
                more,
            ),
            _ => false,
        },
        AliasOutcome::Expanded(n, args) => match b {
            AliasOutcome::Expanded(m, more) => same(n.as_slice(), m.as_slice()) && same_texts(
                args,
                more,
            ),
            _ => false,
        },
    }
}

/// Whether a decision names something that is run.
fn actionable(d: &AliasOutcome) -> (r: bool)
    ensures
        r == is_actionable(d@),
{
    match d {
        AliasOutcome::Shell(_, _) => true,
        AliasOutcome::Expanded(_, _) => true,
        _ => false,
    }
}

/// Whether a decision is `Unverified`.
fn unverified(d: &AliasOutcome) -> (r: bool)
    ensures
        r == (d@ is Unverified),
{
    matches!(d, AliasOutcome::Unverified)
}

/// One answer for three dialects.
fn agree(a: AliasOutcome, b: AliasOutcome, c: AliasOutcome) -> (r: AliasOutcome)
    ensures
        r@ == agreed(a@, b@, c@),
{
    if unverified(&a) || unverified(&b) || unverified(&c) {
        return AliasOutcome::Unverified;
    }
    let in_a = actionable(&a);
    let in_b = actionable(&b);
    let in_c = actionable(&c);
    if in_a {
        if (in_b && !same_outcome(&b, &a)) || (in_c && !same_outcome(&c, &a)) {
            return AliasOutcome::Unverified;
        }
        a
    } else if in_b {
        if in_c && !same_outcome(&c, &b) {
            return AliasOutcome::Unverified;
        }
        b
    } else {
        c
    }
}

/// What a command line does through the aliases that it defines, over texts.
pub fn text_visible_alias(s: &[char], dialect: ShellDialect) -> (r: AliasOutcome)
    ensures
        r@ == visible_alias(s@, dialect),
{
    if dialect == ShellDialect::Unknown {
        let a = decide_visible_alias(s, ShellDialect::Posix);
        let b = decide_visible_alias(s, ShellDialect::PowerShell);
        let c = decide_visible_alias(s, ShellDialect::Cmd);
        agree(a, b, c)
    } else {
        decide_visible_alias(s, dialect)
    }
}

/// What a command line does through the aliases that it defines: with `-c`,
/// `--config-env` and `GIT_CONFIG_*` in a command itself, or with `git config`
/// and exported variables in an earlier command of the line.
pub fn invoked_visible_git_alias_in_dialect(command: &str, dialect: ShellDialect) -> (r: InvokedGitAliasDecision)
    ensures
        r@ == visible_alias(command@, dialect),
{
    let s = chars_of(command);
    text_visible_alias(s.as_slice(), dialect).into_decision()
}

} // verus!
