//! Git aliases that a command defines and runs.

use vstd::prelude::*;
use crate::git::bindings::{
    bind, bind_name, bindings, definitions, environment_definitions, last_definition,
    lookup_visible_alias, push_config_env_alias_definition, push_visible_alias_definition, setting,
    split_setting, visible_environment_alias_definitions, with_config, with_config_env, Binding,
    BindingView, DefinitionView, VisibleAliasDefinition,
};
use crate::git::command::{
    classify_global_option, dispatchable, global_option, is_dispatchable, is_git_builtin,
    is_known_git_command, is_launcher, launcher, GlobalOption,
};
use crate::git::expansion::{
    decode_git_semantic_words, may_be_git, names_git, semantic_words, too_many_words, word_views,
    GitSemanticWord, WordView,
};
use crate::git::powershell::{
    call_target, is_call_expression, powershell_call_expression, powershell_call_target,
    PowerShellCallTarget,
};
use crate::git::semantic::{git_command, git_semantic_command};
use crate::shell::token::{at, get, ShellDialect};
use crate::shell::words::{shell_split, split_words};
use crate::shell::wrappers::{env_assignment, is_env_assignment};
use crate::text::{
    alnum, ascii_white, chars_of, contains_text, copy_of, digit, from_index, has_str, is_alnum,
    is_ascii_white, is_digit, is_str_nocase, lists, lower_text, lowered, rest, same_nocase, strings,
    strings_of, text_of, texts, trim_leading, upper_text, uppered, without_leading,
};

verus! {

/// How many aliases are followed from one to the next.
pub const MAX_GIT_ALIAS_DEPTH: usize = 64;

/// A Git shell alias and the arguments that Git appends when it runs it.
#[derive(Debug, PartialEq, Eq)]
pub struct InvokedGitShellAlias {
    pub shell_body: String,
    pub invoked_args: Vec<String>,
}

/// The Git command that a chain of aliases expands to.
#[derive(Debug, PartialEq, Eq)]
pub struct ExpandedGitAlias {
    pub subcommand: String,
    pub arguments: Vec<String>,
}

/// What a command does through the aliases that it defines.
#[derive(Debug, PartialEq, Eq)]
pub enum InvokedGitAliasDecision {
    /// It runs no alias.
    NoMatch,
    /// It runs a shell alias.
    Shell(InvokedGitShellAlias),
    /// It runs an alias of a Git command.
    Expanded(ExpandedGitAlias),
    /// It may run an alias that cannot be followed.
    Unverified,
}

/// The mathematical form of an [`InvokedGitAliasDecision`].
pub enum AliasView {
    NoMatch,
    Shell(Seq<char>, Seq<Seq<char>>),
    Expanded(Seq<char>, Seq<Seq<char>>),
    Unverified,
}

impl View for InvokedGitAliasDecision {
    type V = AliasView;

    open spec fn view(&self) -> AliasView {
        match *self {
            InvokedGitAliasDecision::NoMatch => AliasView::NoMatch,
            InvokedGitAliasDecision::Shell(a) => AliasView::Shell(
                a.shell_body@,
                strings(a.invoked_args@),
            ),
            InvokedGitAliasDecision::Expanded(a) => AliasView::Expanded(
                a.subcommand@,
                strings(a.arguments@),
            ),
            InvokedGitAliasDecision::Unverified => AliasView::Unverified,
        }
    }
}

/// An alias decision over texts.
#[derive(Debug)]
pub enum AliasOutcome {
    NoMatch,
    Shell(Vec<char>, Vec<Vec<char>>),
    Expanded(Vec<char>, Vec<Vec<char>>),
    Unverified,
}

impl View for AliasOutcome {
    type V = AliasView;

    open spec fn view(&self) -> AliasView {
        match *self {
            AliasOutcome::NoMatch => AliasView::NoMatch,
            AliasOutcome::Shell(body, args) => AliasView::Shell(body@, texts(args@)),
            AliasOutcome::Expanded(name, args) => AliasView::Expanded(name@, texts(args@)),
            AliasOutcome::Unverified => AliasView::Unverified,
        }
    }
}

impl AliasOutcome {
    /// The decision with strings in place of texts.
    pub fn into_decision(self) -> (r: InvokedGitAliasDecision)
        ensures
            r@ == self@,
    {
        match self {
            AliasOutcome::NoMatch => InvokedGitAliasDecision::NoMatch,
            AliasOutcome::Shell(body, args) => InvokedGitAliasDecision::Shell(
                InvokedGitShellAlias {
                    shell_body: text_of(body.as_slice()),
                    invoked_args: strings_of(&args),
                },
            ),
            AliasOutcome::Expanded(name, args) => InvokedGitAliasDecision::Expanded(
                ExpandedGitAlias {
                    subcommand: text_of(name.as_slice()),
                    arguments: strings_of(&args),
                },
            ),
            AliasOutcome::Unverified => InvokedGitAliasDecision::Unverified,
        }
    }
}

/// Where the ASCII white space that ends before position `i` starts.
pub open spec fn back_white(s: Seq<char>, i: int) -> int
    decreases i,
{
    if 0 < i <= s.len() && is_ascii_white(s[i - 1]) {
        back_white(s, i - 1)
    } else {
        i
    }
}

/// Where the name that ends before position `i` starts.
pub open spec fn back_name(s: Seq<char>, i: int) -> int
    decreases i,
{
    if 0 < i <= s.len() && (is_alnum(s[i - 1]) || s[i - 1] == '_') {
        back_name(s, i - 1)
    } else {
        i
    }
}

/// Where the ASCII white space from position `i` on ends.
pub open spec fn ascii_white_end(s: Seq<char>, i: int) -> int
    decreases s.len() - i,
{
    if 0 <= i < s.len() && is_ascii_white(s[i]) {
        ascii_white_end(s, i + 1)
    } else {
        i
    }
}

/// Whether the parenthesis at `i` belongs to a function definition: `name () {`.
pub open spec fn defines_function(s: Seq<char>, i: int) -> bool {
    let name_end = back_white(s, i);
    &&& at(s, i + 1) == Some(')')
    &&& back_name(s, name_end) < name_end
    &&& at(s, ascii_white_end(s, i + 2)) == Some('{')
}

/// Whether the `$` at `i` starts the expansion of a positional parameter.
pub open spec fn expands_positional(s: Seq<char>, i: int) -> bool {
    let p = if at(s, i + 1) == Some('{') {
        at(s, i + 2)
    } else {
        at(s, i + 1)
    };
    match p {
        Some(c) => c == '@' || c == '*' || is_digit(c),
        None => false,
    }
}

/// Whether the shell text from position `i` on, with what stands before it,
/// both defines a function and expands a positional parameter.
pub open spec fn crosses_from(
    s: Seq<char>,
    i: int,
    single: bool,
    double: bool,
    escaped: bool,
    positional: bool,
    function: bool,
) -> bool
    decreases s.len() - i,
{
    if i < 0 || i >= s.len() {
        positional && function
    } else if escaped {
        crosses_from(s, i + 1, single, double, false, positional, function)
    } else if s[i] == '\\' && !single {
        crosses_from(s, i + 1, single, double, true, positional, function)
    } else if s[i] == '\'' && !double {
        crosses_from(s, i + 1, !single, double, false, positional, function)
    } else if s[i] == '"' && !single {
        crosses_from(s, i + 1, single, !double, false, positional, function)
    } else if single {
        crosses_from(s, i + 1, single, double, false, positional, function)
    } else {
        crosses_from(
            s,
            i + 1,
            single,
            double,
            false,
            positional || (s[i] == '$' && expands_positional(s, i)),
            function || (!double && s[i] == '(' && defines_function(s, i)),
        )
    }
}

/// Whether arguments appended to a shell alias may reach the body of a function
/// that it defines.
pub open spec fn crosses_function_scope(s: Seq<char>) -> bool {
    crosses_from(s, 0, false, false, false, false, false)
}

/// Whether the parenthesis at `i` belongs to a function definition.
fn function_at(s: &[char], i: usize) -> (r: bool)
    requires
        i < s.len(),
    ensures
        r == defines_function(s@, i as int),
{
    if get(s, i + 1) != Some(')') {
        return false;
    }
    let mut name_end: usize = i;
    while name_end > 0 && ascii_white(s[name_end - 1])
        invariant
            0 <= name_end <= i < s.len(),
            back_white(s@, i as int) == back_white(s@, name_end as int),
        decreases name_end,
    {
        name_end -= 1;
    }
    let mut name_start: usize = name_end;
    while name_start > 0 && (alnum(s[name_start - 1]) || s[name_start - 1] == '_')
        invariant
            0 <= name_start <= name_end < s.len(),
            back_name(s@, name_end as int) == back_name(s@, name_start as int),
        decreases name_start,
    {
        name_start -= 1;
    }
    let mut body: usize = i + 2;
    while body < s.len() && ascii_white(s[body])
        invariant
            i + 2 <= body <= s.len(),
            ascii_white_end(s@, i + 2) == ascii_white_end(s@, body as int),
        decreases s.len() - body,
    {
        body += 1;
    }
    name_start < name_end && get(s, body) == Some('{')
}

/// Whether the `$` at `i` starts the expansion of a positional parameter.
fn positional_at(s: &[char], i: usize) -> (r: bool)
    requires
        i < s.len(),
    ensures
        r == expands_positional(s@, i as int),
{
    let p = if get(s, i + 1) == Some('{') {
        get(s, i + 2)
    } else {
        get(s, i + 1)
    };
    match p {
        Some(c) => c == '@' || c == '*' || digit(c),
        None => false,
    }
}

/// Whether arguments appended to a shell alias may reach the body of a function
/// that it defines.
pub fn alias_args_cross_function_scope(s: &[char]) -> (r: bool)
    ensures
        r == crosses_function_scope(s@),
{
    let mut i: usize = 0;
    let mut single = false;
    let mut double = false;
    let mut escaped = false;
    let mut positional = false;
    let mut function = false;
    while i < s.len()
        invariant
            0 <= i <= s.len(),
            crosses_function_scope(s@) == crosses_from(
                s@,
                i as int,
                single,
                double,
                escaped,
                positional,
                function,
            ),
        decreases s.len() - i,
    {
        let c = s[i];
        if escaped {
            escaped = false;
        } else if c == '\\' && !single {
            escaped = true;
        } else if c == '\'' && !double {
            single = !single;
        } else if c == '"' && !single {
            double = !double;
        } else if !single {
            if c == '$' && positional_at(s, i) {
                positional = true;
            }
            if !double && c == '(' && function_at(s, i) {
                function = true;
            }
        }
        i += 1;
    }
    positional && function
}

/// Whether arguments appended to a shell alias may reach the body of a function
/// that it defines.
pub fn shell_alias_args_cross_function_scope(shell_body: &str) -> (r: bool)
    ensures
        r == crosses_function_scope(shell_body@),
{
    let s = chars_of(shell_body);
    alias_args_cross_function_scope(s.as_slice())
}

/// Whether Git could take a token for the name of a subcommand, an alias or a
/// helper program.
pub fn git_subcommand_token_is_dispatchable(token: &str) -> (r: bool)
    ensures
        r == is_dispatchable(token@),
{
    let s = chars_of(token);
    dispatchable(s.as_slice())
}

/// What running `command` with `args` does under the definitions, when the
/// aliases `visited` led to it and `left` more are followed.
pub open spec fn alias_result(
    defs: Seq<DefinitionView>,
    command: Seq<char>,
    args: Seq<Seq<char>>,
    visited: Seq<Seq<char>>,
    left: nat,
) -> AliasView
    decreases left,
{
    if left == 0 {
        AliasView::Unverified
    } else if is_git_builtin(command) {
        AliasView::Expanded(command, args)
    } else if visited.contains(command) {
        AliasView::Unverified
    } else {
        match last_definition(defs, defs.len() as int, command) {
            None => if is_dispatchable(command) {
                AliasView::Unverified
            } else {
                AliasView::NoMatch
            },
            Some(None) => AliasView::Unverified,
            Some(Some(alias)) => if alias.len() > 0 && alias[0] == '!' {
                let body = rest(alias, 1);
                if args.len() > 0 && crosses_function_scope(body) {
                    AliasView::Unverified
                } else {
                    AliasView::Shell(body, args)
                }
            } else {
                match shell_split(alias) {
                    None => AliasView::NoMatch,
                    Some(words) => if words.len() == 0 {
                        AliasView::NoMatch
                    } else {
                        alias_result(
                            defs,
                            words[0],
                            words.subrange(1, words.len() as int) + args,
                            visited.push(command),
                            (left - 1) as nat,
                        )
                    },
                }
            },
        }
    }
}

/// What running `command` with `arguments` does under the definitions.
pub fn resolve_visible_alias_invocation(
    defs: &Vec<VisibleAliasDefinition>,
    command: Vec<char>,
    arguments: Vec<Vec<char>>,
) -> (r: AliasOutcome)
    ensures
        r@ == alias_result(
            definitions(defs@),
            command@,
            texts(arguments@),
            Seq::empty(),
            MAX_GIT_ALIAS_DEPTH as nat,
        ),
{
    let mut name = command;
    let mut args = arguments;
    let mut visited: Vec<Vec<char>> = Vec::new();
    let mut left: usize = MAX_GIT_ALIAS_DEPTH;
    let ghost target = alias_result(
        definitions(defs@),
        command@,
        texts(arguments@),
        Seq::empty(),
        MAX_GIT_ALIAS_DEPTH as nat,
    );
    assert(texts(visited@) =~= Seq::<Seq<char>>::empty());
    while left > 0
        invariant
            left <= MAX_GIT_ALIAS_DEPTH,
            target == alias_result(
                definitions(defs@),
                command@,
                texts(arguments@),
                Seq::empty(),
                MAX_GIT_ALIAS_DEPTH as nat,
            ),
            target == alias_result(
                definitions(defs@),
                name@,
                texts(args@),
                texts(visited@),
                left as nat,
            ),
        decreases left,
    {
        if is_known_git_command(name.as_slice()) {
            return AliasOutcome::Expanded(name, args);
        }
        if lists(&visited, name.as_slice()) {
            return AliasOutcome::Unverified;
        }
        let d = match lookup_visible_alias(defs, name.as_slice()) {
            None => {
                return if dispatchable(name.as_slice()) {
                    AliasOutcome::Unverified
                } else {
                    AliasOutcome::NoMatch
                };
            },
            Some(d) => d,
        };
        let alias = match &defs[d].value {
            None => {
                return AliasOutcome::Unverified;
            },
            Some(a) => a.as_slice(),
        };
        if alias.len() > 0 && alias[0] == '!' {
            let body = from_index(alias, 1);
            if args.len() > 0 && alias_args_cross_function_scope(body) {
                return AliasOutcome::Unverified;
            }
            return AliasOutcome::Shell(copy_of(body), args);
        }
        match split_words(alias) {
            None => {
                return AliasOutcome::NoMatch;
            },
            Some(words) => {
                if words.len() == 0 {
                    return AliasOutcome::NoMatch;
                }
                let ghost views = texts(words@);
                let mut next: Vec<Vec<char>> = Vec::new();
                append_texts(&mut next, &words, 1);
                append_texts(&mut next, &args, 0);
                assert(texts(next@) =~= views.subrange(1, views.len() as int) + texts(args@));
                let first = copy_of(words[0].as_slice());
                assert(views[0] == first@);
                let ghost before = texts(visited@);
                let ghost old_name = name@;
                visited.push(name);
                assert(texts(visited@) =~= before.push(old_name));
                name = first;
                args = next;
            },
        }
        left -= 1;
    }
    AliasOutcome::Unverified
}

/// Appends copies of the texts from the `from`th on.
pub fn append_texts(out: &mut Vec<Vec<char>>, v: &Vec<Vec<char>>, from: usize)
    requires
        from <= v.len(),
    ensures
        texts(final(out)@) == texts(old(out)@) + texts(v@).subrange(from as int, v@.len() as int),
{
    let ghost start = texts(out@);
    let ghost views = texts(v@);
    let mut i: usize = from;
    assert(views.subrange(from as int, from as int) =~= Seq::<Seq<char>>::empty());
    assert(start + Seq::<Seq<char>>::empty() =~= start);
    while i < v.len()
        invariant
            from <= i <= v.len(),
            views == texts(v@),
            texts(out@) == start + views.subrange(from as int, i as int),
        decreases v.len() - i,
    {
        let ghost before = texts(out@);
        let t = copy_of(v[i].as_slice());
        let ghost view = t@;
        assert(views[i as int] == view);
        out.push(t);
        assert(texts(out@) =~= before.push(view));
        i += 1;
        assert(start + views.subrange(from as int, i as int) =~= (start + views.subrange(
            from as int,
            i - 1,
        )).push(view));
    }
}

/// The environment that the words from the `i`th on set before the program, and
/// the word behind them.
pub open spec fn leading_from(
    words: Seq<WordView>,
    i: int,
    dialect: ShellDialect,
    env: Seq<BindingView>,
) -> (Seq<BindingView>, int)
    decreases words.len() - i,
{
    if i < 0 || i >= words.len() {
        (env, words.len() as int)
    } else {
        let w = words[i];
        let assigned = setting(w.decoded);
        if (!w.dynamic && env_assignment(w.decoded)) || (w.dynamic && assigned is Some && w.decoded[0]
            != '=') {
            let (name, value) = assigned->0;
            leading_from(
                words,
                i + 1,
                dialect,
                bind(env, BindingView { name, value, dynamic: w.dynamic }),
            )
        } else if (dialect == ShellDialect::Cmd && same_nocase(
            without_leading(w.decoded, '@'),
            "call"@,
        )) || (!w.dynamic && is_launcher(w.decoded)) {
            leading_from(words, i + 1, dialect, env)
        } else {
            (env, i)
        }
    }
}

/// Whether a command shows the syntax with which aliases are defined.
pub open spec fn mentions_alias_syntax(s: Seq<char>) -> bool {
    contains_text(lowered(s), "alias."@) || contains_text(uppered(s), "GIT_CONFIG_"@)
}

/// Whether a command shows the syntax with which aliases are defined.
pub fn shows_alias_syntax(s: &[char]) -> (r: bool)
    ensures
        r == mentions_alias_syntax(s@),
{
    let low = lower_text(s);
    if has_str(low.as_slice(), "alias.") {
        return true;
    }
    let up = upper_text(s);
    has_str(up.as_slice(), "GIT_CONFIG_")
}

/// Where the words behind `git` lead: to the subcommand with the definitions
/// made on the way, or to a decision.
pub enum GlobalsView {
    Subcommand(int, Seq<DefinitionView>),
    Decided(AliasView),
}

/// Where the words behind `git` lead, from the `i`th on.
pub open spec fn globals_from(
    words: Seq<WordView>,
    i: int,
    dialect: ShellDialect,
    env: Seq<BindingView>,
    defs: Seq<DefinitionView>,
) -> GlobalsView
    decreases words.len() - i,
{
    if i < 0 || i >= words.len() {
        GlobalsView::Decided(AliasView::NoMatch)
    } else if words[i].dynamic {
        GlobalsView::Decided(AliasView::Unverified)
    } else {
        let token = words[i].decoded;
        match global_option(token) {
            GlobalOption::Information | GlobalOption::Unknown => GlobalsView::Decided(
                AliasView::NoMatch,
            ),
            GlobalOption::Flag | GlobalOption::Attached => globals_from(
                words,
                i + 1,
                dialect,
                env,
                defs,
            ),
            GlobalOption::Config => if i + 1 < words.len() {
                globals_from(
                    words,
                    i + 2,
                    dialect,
                    env,
                    with_config(defs, words[i + 1].decoded, words[i + 1].dynamic, dialect),
                )
            } else {
                GlobalsView::Decided(AliasView::NoMatch)
            },
            GlobalOption::ConfigEnv => if i + 1 < words.len() {
                match with_config_env(
                    defs,
                    env,
                    WordView { may_split: false, ..words[i + 1] },
                    dialect,
                ) {
                    Some(more) => globals_from(words, i + 2, dialect, env, more),
                    None => GlobalsView::Decided(AliasView::NoMatch),
                }
            } else {
                GlobalsView::Decided(AliasView::NoMatch)
            },
            GlobalOption::TakesNext => if i + 1 >= words.len() {
                GlobalsView::Decided(AliasView::NoMatch)
            } else if words[i + 1].dynamic && words[i + 1].may_split {
                GlobalsView::Decided(AliasView::Unverified)
            } else {
                globals_from(words, i + 2, dialect, env, defs)
            },
            GlobalOption::AttachedConfig => globals_from(
                words,
                i + 1,
                dialect,
                env,
                with_config(defs, rest(token, "-c"@.len() as int), false, dialect),
            ),
            GlobalOption::AttachedConfigEnv => match with_config_env(
                defs,
                env,
                WordView {
                    decoded: rest(token, "--config-env="@.len() as int),
                    dynamic: false,
                    may_split: false,
                },
                dialect,
            ) {
                Some(more) => globals_from(words, i + 1, dialect, env, more),
                None => GlobalsView::Decided(AliasView::NoMatch),
            },
            GlobalOption::Terminator => GlobalsView::Subcommand(i + 1, defs),
            GlobalOption::Subcommand => GlobalsView::Subcommand(i, defs),
        }
    }
}

/// Whether a word from the `i`th on is expanded by the shell.
pub open spec fn any_dynamic(words: Seq<WordView>, i: int) -> bool {
    exists|j: int| i <= j < words.len() && (#[trigger] words[j]).dynamic
}

/// The texts of the words from the `i`th on.
pub open spec fn decoded_texts(words: Seq<WordView>, i: int) -> Seq<Seq<char>> {
    Seq::new((words.len() - i) as nat, |j: int| words[i + j].decoded)
}

/// What the decoded words of a single command `c` do through aliases.
pub open spec fn words_alias(c: Seq<char>, words: Seq<WordView>, dialect: ShellDialect) -> AliasView {
    let (env, p) = leading_from(words, 0, dialect, Seq::empty());
    if p >= words.len() {
        AliasView::NoMatch
    } else if words[p].dynamic {
        if (mentions_alias_syntax(c) || contains_text(c, "--config-env"@)) && may_be_git(
            words[p],
            dialect,
        ) {
            AliasView::Unverified
        } else {
            AliasView::NoMatch
        }
    } else if !may_be_git(words[p], dialect) {
        AliasView::NoMatch
    } else {
        match globals_from(words, p + 1, dialect, env, environment_definitions(env, dialect)) {
            GlobalsView::Decided(d) => d,
            GlobalsView::Subcommand(i, defs) => if i < 0 || i >= words.len() {
                AliasView::NoMatch
            } else if words[i].dynamic {
                AliasView::Unverified
            } else if is_git_builtin(words[i].decoded) {
                AliasView::NoMatch
            } else if any_dynamic(words, i + 1) {
                AliasView::Unverified
            } else {
                alias_result(
                    defs,
                    words[i].decoded,
                    decoded_texts(words, i + 1),
                    Seq::empty(),
                    MAX_GIT_ALIAS_DEPTH as nat,
                )
            },
        }
    }
}

/// What a single command does through the aliases that it defines itself.
pub open spec fn segment_alias(s: Seq<char>, dialect: ShellDialect) -> AliasView {
    if dialect == ShellDialect::PowerShell && is_call_expression(s) && call_target(s)
        != PowerShellCallTarget::NonGit && mentions_alias_syntax(s) {
        AliasView::Unverified
    } else {
        let c = git_command(s, dialect);
        match semantic_words(c, dialect) {
            None => AliasView::NoMatch,
            Some(words) => if too_many_words(c, dialect) {
                AliasView::Unverified
            } else {
                words_alias(c, words, dialect)
            },
        }
    }
}

/// Reads the assignments and launchers before the program: the environment they
/// set and the word behind them.
fn read_leading(words: &Vec<GitSemanticWord>, dialect: ShellDialect) -> (r: (Vec<Binding>, usize))
    ensures
        (bindings(r.0@), r.1 as int) == leading_from(word_views(words@), 0, dialect, Seq::empty()),
        r.1 <= words.len(),
{
    let ghost views = word_views(words@);
    let mut env: Vec<Binding> = Vec::new();
    let mut i: usize = 0;
    assert(bindings(env@) =~= Seq::<BindingView>::empty());
    while i < words.len()
        invariant
            0 <= i <= words.len(),
            views == word_views(words@),
            leading_from(views, 0, dialect, Seq::empty()) == leading_from(
                views,
                i as int,
                dialect,
                bindings(env@),
            ),
        decreases words.len() - i,
    {
        let w = &words[i];
        assert(views[i as int] == w@);
        let decoded = w.decoded.as_slice();
        let assigned = split_setting(decoded);
        if let Some((name, value)) = assigned {
            if (!w.dynamic && is_env_assignment(decoded)) || (w.dynamic && decoded[0] != '=') {
                bind_name(&mut env, copy_of(name), copy_of(value), w.dynamic);
                i += 1;
                continue ;
            }
        }
        if (dialect == ShellDialect::Cmd && is_str_nocase(trim_leading(decoded, '@'), "call")) || (
        !w.dynamic && launcher(decoded)) {
            i += 1;
        } else {
            return (env, i);
        }
    }
    (env, i)
}

/// Where the words behind `git` lead.
enum Globals {
    Subcommand(usize, Vec<VisibleAliasDefinition>),
    Decided(AliasOutcome),
}

/// Reads the words between `git` and the subcommand.
fn read_globals(
    words: &Vec<GitSemanticWord>,
    start: usize,
    dialect: ShellDialect,
    env: &Vec<Binding>,
    initial: Vec<VisibleAliasDefinition>,
) -> (r: Globals)
    requires
        start <= words.len(),
    ensures
        match r {
            Globals::Subcommand(i, defs) => globals_from(
                word_views(words@),
                start as int,
                dialect,
                bindings(env@),
                definitions(initial@),
            ) == GlobalsView::Subcommand(i as int, definitions(defs@)),
            Globals::Decided(d) => globals_from(
                word_views(words@),
                start as int,
                dialect,
                bindings(env@),
                definitions(initial@),
            ) == GlobalsView::Decided(d@),
        },
{
    proof {
        reveal_strlit("-c");
        reveal_strlit("--config-env=");
    }
    let ghost views = word_views(words@);
    let ghost target = globals_from(
        views,
        start as int,
        dialect,
        bindings(env@),
        definitions(initial@),
    );
    let mut defs = initial;
    let mut i: usize = start;
    while i < words.len()
        invariant
            start <= i <= words.len(),
            views == word_views(words@),
            "-c"@.len() == 2,
            "--config-env="@.len() == 13,
            target == globals_from(
                views,
                start as int,
                dialect,
                bindings(env@),
                definitions(initial@),
            ),
            target == globals_from(views, i as int, dialect, bindings(env@), definitions(defs@)),
        decreases words.len() - i,
    {
        let w = &words[i];
        assert(views[i as int] == w@);
        if w.dynamic {
            return Globals::Decided(AliasOutcome::Unverified);
        }
        let token = w.decoded.as_slice();
        match classify_global_option(token) {
            GlobalOption::Information | GlobalOption::Unknown => {
                return Globals::Decided(AliasOutcome::NoMatch);
            },
            GlobalOption::Flag | GlobalOption::Attached => {
                i += 1;
            },
            GlobalOption::Config => {
                if i + 1 >= words.len() {
                    return Globals::Decided(AliasOutcome::NoMatch);
                }
                assert(views[i + 1] == words@[i + 1]@);
                push_visible_alias_definition(
                    &mut defs,
                    words[i + 1].decoded.as_slice(),
                    words[i + 1].dynamic,
                    dialect,
                );
                i += 2;
            },
            GlobalOption::ConfigEnv => {
                if i + 1 >= words.len() {
                    return Globals::Decided(AliasOutcome::NoMatch);
                }
                assert(views[i + 1] == words@[i + 1]@);
                if !push_config_env_alias_definition(
                    &mut defs,
                    env,
                    words[i + 1].decoded.as_slice(),
                    words[i + 1].dynamic,
                    dialect,
                ) {
                    return Globals::Decided(AliasOutcome::NoMatch);
                }
                i += 2;
            },
            GlobalOption::TakesNext => {
                if i + 1 >= words.len() {
                    return Globals::Decided(AliasOutcome::NoMatch);
                }
                assert(views[i + 1] == words@[i + 1]@);
                if words[i + 1].dynamic && words[i + 1].may_split {
                    return Globals::Decided(AliasOutcome::Unverified);
                }
                i += 2;
            },
            GlobalOption::AttachedConfig => {
                push_visible_alias_definition(&mut defs, from_index(token, 2), false, dialect);
                i += 1;
            },
            GlobalOption::AttachedConfigEnv => {
                if !push_config_env_alias_definition(
                    &mut defs,
                    env,
                    from_index(token, 13),
                    false,
                    dialect,
                ) {
                    return Globals::Decided(AliasOutcome::NoMatch);
                }
                i += 1;
            },
            GlobalOption::Terminator => {
                return Globals::Subcommand(i + 1, defs);
            },
            GlobalOption::Subcommand => {
                return Globals::Subcommand(i, defs);
            },
        }
    }
    Globals::Decided(AliasOutcome::NoMatch)
}

/// Whether a word from the `from`th on is expanded by the shell.
pub fn has_dynamic(words: &Vec<GitSemanticWord>, from: usize) -> (r: bool)
    ensures
        r == any_dynamic(word_views(words@), from as int),
{
    let ghost views = word_views(words@);
    let mut i: usize = from;
    while i < words.len()
        invariant
            from <= i,
            views == word_views(words@),
            forall|j: int| from <= j < i && j < views.len() ==> !(#[trigger] views[j]).dynamic,
        decreases words.len() - i,
    {
        assert(views[i as int] == words@[i as int]@);
        if words[i].dynamic {
            return true;
        }
        i += 1;
    }
    false
}

/// What the decoded words of a single command `c` do through aliases.
fn decide_words_alias(c: &[char], words: &Vec<GitSemanticWord>, dialect: ShellDialect) -> (r: AliasOutcome)
    ensures
        r@ == words_alias(c@, word_views(words@), dialect),
{
    let ghost views = word_views(words@);
    let (env, p) = read_leading(words, dialect);
    if p >= words.len() {
        return AliasOutcome::NoMatch;
    }
    assert(views[p as int] == words@[p as int]@);
    if words[p].dynamic {
        return if (shows_alias_syntax(c) || has_str(c, "--config-env")) && names_git(
            &words[p],
            dialect,
        ) {
            AliasOutcome::Unverified
        } else {
            AliasOutcome::NoMatch
        };
    }
    if !names_git(&words[p], dialect) {
        return AliasOutcome::NoMatch;
    }
    let initial = visible_environment_alias_definitions(&env, dialect);
    match read_globals(words, p + 1, dialect, &env, initial) {
        Globals::Decided(d) => d,
        Globals::Subcommand(i, defs) => {
            if i >= words.len() {
                return AliasOutcome::NoMatch;
            }
            assert(views[i as int] == words@[i as int]@);
            if words[i].dynamic {
                return AliasOutcome::Unverified;
            }
            if is_known_git_command(words[i].decoded.as_slice()) {
                return AliasOutcome::NoMatch;
            }
            if has_dynamic(words, i + 1) {
                return AliasOutcome::Unverified;
            }
            let mut args: Vec<Vec<char>> = Vec::new();
            let mut j: usize = i + 1;
            while j < words.len()
                invariant
                    i < j <= words.len(),
                    views == word_views(words@),
                    args@.len() == j - (i + 1),
                    forall|k: int| 0 <= k < args@.len() ==> args@[k]@ == views[i + 1 + k].decoded,
                decreases words.len() - j,
            {
                assert(views[j as int] == words@[j as int]@);
                args.push(copy_of(words[j].decoded.as_slice()));
                j += 1;
            }
            assert(texts(args@) =~= decoded_texts(views, i + 1));
            resolve_visible_alias_invocation(&defs, copy_of(words[i].decoded.as_slice()), args)
        },
    }
}

/// What a single command does through the aliases that it defines itself.
pub fn invoked_git_alias_segment_in_dialect(s: &[char], dialect: ShellDialect) -> (r: AliasOutcome)
    ensures
        r@ == segment_alias(s@, dialect),
{
    if dialect == ShellDialect::PowerShell && powershell_call_expression(s)
        && powershell_call_target(s) != PowerShellCallTarget::NonGit && shows_alias_syntax(s) {
        return AliasOutcome::Unverified;
    }
    let c = git_semantic_command(s, dialect);
    match decode_git_semantic_words(c, dialect) {
        None => AliasOutcome::NoMatch,
        Some(decoded) => {
            if decoded.over_limit {
                return AliasOutcome::Unverified;
            }
            decide_words_alias(c, &decoded.words, dialect)
        },
    }
}

} // verus!
