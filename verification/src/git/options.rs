//! The options of `git branch` and what they do to branches.

use vstd::prelude::*;
use vstd::slice::slice_subrange;
use crate::text::{
    chars_of, from_index, index_from, is_str, next_index, next_index_is_first, rest, starts,
    starts_str,
};

verus! {

/// What a command does to branches.
#[derive(Debug, Clone, Copy, PartialEq, Eq, Structural)]
pub enum BranchCommandDecision {
    /// No `git branch` command.
    NotBranch,
    /// A `git branch` command that deletes and forces nothing.
    NonDestructive,
    /// A literal option deletes a branch or forces a reference.
    Destructive,
    /// A word that the shell expands may become such an option.
    DestructiveDynamic,
    /// Not a single command that the parser understands.
    Unparsed,
}

/// Whether a long option takes a value.
#[derive(Debug, Clone, Copy, PartialEq, Eq, Structural)]
pub enum BranchLongOptionArity {
    NoValue,
    /// A value must follow, attached or as the next word.
    Required,
    /// A value may follow, attached only.
    OptionalAttached,
    /// A value follows, attached or as the next word, unless the option is last.
    LastArgDefault,
}

/// A long option of `git branch`.
#[derive(Debug, Clone, Copy)]
pub struct BranchLongOptionSpec {
    pub name: &'static str,
    pub arity: BranchLongOptionArity,
    pub negatable: bool,
}

/// A long option as a word spells it.
#[derive(Debug, Clone, Copy)]
pub struct ResolvedBranchLongOption {
    pub name: &'static str,
    pub arity: BranchLongOptionArity,
    pub negated: bool,
    pub inline_value: bool,
}

/// A table entry.
pub open spec fn entry(name: &'static str, arity: BranchLongOptionArity, negatable: bool) -> BranchLongOptionSpec {
    BranchLongOptionSpec { name, arity, negatable }
}

/// A table entry.
fn option_entry(name: &'static str, arity: BranchLongOptionArity, negatable: bool) -> (r: BranchLongOptionSpec)
    ensures
        r == entry(name, arity, negatable),
{
    BranchLongOptionSpec { name, arity, negatable }
}

/// The long options of `git branch`.
pub open spec fn branch_long_options() -> Seq<BranchLongOptionSpec> {
    seq![
        entry("abbrev", BranchLongOptionArity::OptionalAttached, true),
        entry("all", BranchLongOptionArity::NoValue, false),
        entry("color", BranchLongOptionArity::OptionalAttached, true),
        entry("column", BranchLongOptionArity::OptionalAttached, true),
        entry("contains", BranchLongOptionArity::LastArgDefault, false),
        entry("no-contains", BranchLongOptionArity::LastArgDefault, false),
        entry("with", BranchLongOptionArity::LastArgDefault, false),
        entry("without", BranchLongOptionArity::LastArgDefault, false),
        entry("copy", BranchLongOptionArity::NoValue, true),
        entry("create-reflog", BranchLongOptionArity::NoValue, true),
        entry("delete", BranchLongOptionArity::NoValue, true),
        entry("edit-description", BranchLongOptionArity::NoValue, true),
        entry("force", BranchLongOptionArity::NoValue, true),
        entry("format", BranchLongOptionArity::Required, true),
        entry("ignore-case", BranchLongOptionArity::NoValue, true),
        entry("list", BranchLongOptionArity::NoValue, true),
        entry("merged", BranchLongOptionArity::LastArgDefault, false),
        entry("no-merged", BranchLongOptionArity::LastArgDefault, false),
        entry("move", BranchLongOptionArity::NoValue, true),
        entry("omit-empty", BranchLongOptionArity::NoValue, true),
        entry("points-at", BranchLongOptionArity::Required, true),
        entry("quiet", BranchLongOptionArity::NoValue, true),
        entry("recurse-submodules", BranchLongOptionArity::NoValue, true),
        entry("remotes", BranchLongOptionArity::NoValue, false),
        entry("set-upstream", BranchLongOptionArity::NoValue, true),
        entry("set-upstream-to", BranchLongOptionArity::Required, true),
        entry("show-current", BranchLongOptionArity::NoValue, true),
        entry("sort", BranchLongOptionArity::Required, true),
        entry("track", BranchLongOptionArity::OptionalAttached, true),
        entry("unset-upstream", BranchLongOptionArity::NoValue, true),
        entry("verbose", BranchLongOptionArity::NoValue, true),
    ]
}

/// The long options of `git branch`.
fn branch_option_table() -> (r: Vec<BranchLongOptionSpec>)
    ensures
        r@ == branch_long_options(),
{
    let r = vec![
        option_entry("abbrev", BranchLongOptionArity::OptionalAttached, true),
        option_entry("all", BranchLongOptionArity::NoValue, false),
        option_entry("color", BranchLongOptionArity::OptionalAttached, true),
        option_entry("column", BranchLongOptionArity::OptionalAttached, true),
        option_entry("contains", BranchLongOptionArity::LastArgDefault, false),
        option_entry("no-contains", BranchLongOptionArity::LastArgDefault, false),
        option_entry("with", BranchLongOptionArity::LastArgDefault, false),
        option_entry("without", BranchLongOptionArity::LastArgDefault, false),
        option_entry("copy", BranchLongOptionArity::NoValue, true),
        option_entry("create-reflog", BranchLongOptionArity::NoValue, true),
        option_entry("delete", BranchLongOptionArity::NoValue, true),
        option_entry("edit-description", BranchLongOptionArity::NoValue, true),
        option_entry("force", BranchLongOptionArity::NoValue, true),
        option_entry("format", BranchLongOptionArity::Required, true),
        option_entry("ignore-case", BranchLongOptionArity::NoValue, true),
        option_entry("list", BranchLongOptionArity::NoValue, true),
        option_entry("merged", BranchLongOptionArity::LastArgDefault, false),
        option_entry("no-merged", BranchLongOptionArity::LastArgDefault, false),
        option_entry("move", BranchLongOptionArity::NoValue, true),
        option_entry("omit-empty", BranchLongOptionArity::NoValue, true),
        option_entry("points-at", BranchLongOptionArity::Required, true),
        option_entry("quiet", BranchLongOptionArity::NoValue, true),
        option_entry("recurse-submodules", BranchLongOptionArity::NoValue, true),
        option_entry("remotes", BranchLongOptionArity::NoValue, false),
        option_entry("set-upstream", BranchLongOptionArity::NoValue, true),
        option_entry("set-upstream-to", BranchLongOptionArity::Required, true),
        option_entry("show-current", BranchLongOptionArity::NoValue, true),
        option_entry("sort", BranchLongOptionArity::Required, true),
        option_entry("track", BranchLongOptionArity::OptionalAttached, true),
        option_entry("unset-upstream", BranchLongOptionArity::NoValue, true),
        option_entry("verbose", BranchLongOptionArity::NoValue, true),
    ];
    assert(r@ =~= branch_long_options());
    r
}

/// The entry as a word spells it.
pub open spec fn resolved(
    spec: BranchLongOptionSpec,
    negated: bool,
    inline_value: bool,
) -> ResolvedBranchLongOption {
    ResolvedBranchLongOption { name: spec.name, arity: spec.arity, negated, inline_value }
}

/// The first entry from the `i`th on with the given name, among the negatable
/// ones only where that is asked for; -1 when there is none.
pub open spec fn entry_named(
    table: Seq<BranchLongOptionSpec>,
    i: int,
    name: Seq<char>,
    negatable_only: bool,
) -> int
    decreases table.len() - i,
{
    if i < 0 || i >= table.len() {
        -1
    } else if table[i].name@ == name && (table[i].negatable || !negatable_only) {
        i
    } else {
        entry_named(table, i + 1, name, negatable_only)
    }
}

/// The entries from the `i`th on that `option` abbreviates, behind `out`.
pub open spec fn abbreviated(
    table: Seq<BranchLongOptionSpec>,
    i: int,
    option: Seq<char>,
    inline_value: bool,
    out: Seq<ResolvedBranchLongOption>,
) -> Seq<ResolvedBranchLongOption>
    decreases table.len() - i,
{
    if i < 0 || i >= table.len() {
        out
    } else if starts(table[i].name@, option) {
        abbreviated(
            table,
            i + 1,
            option,
            inline_value,
            out.push(resolved(table[i], false, inline_value)),
        )
    } else if starts(option, "no-"@) && table[i].negatable && starts(
        table[i].name@,
        rest(option, "no-"@.len() as int),
    ) {
        abbreviated(
            table,
            i + 1,
            option,
            inline_value,
            out.push(resolved(table[i], true, inline_value)),
        )
    } else {
        abbreviated(table, i + 1, option, inline_value, out)
    }
}

/// The long option of `git branch` that a word spells: the one of that name,
/// else the negation of the one of that name, else the only one that it
/// abbreviates.
pub open spec fn branch_long_option(token: Seq<char>) -> Option<ResolvedBranchLongOption> {
    if !starts(token, "--"@) {
        None
    } else {
        let body = rest(token, "--"@.len() as int);
        let e = next_index(body, 0, '=');
        let option = body.subrange(0, e);
        let inline_value = e < body.len();
        let table = branch_long_options();
        let exact = entry_named(table, 0, option, false);
        let negated = entry_named(table, 0, rest(option, "no-"@.len() as int), true);
        let found = abbreviated(table, 0, option, inline_value, Seq::empty());
        if option.len() == 0 || starts(option, "no-no-"@) {
            None
        } else if exact >= 0 {
            Some(resolved(table[exact], false, inline_value))
        } else if starts(option, "no-"@) && negated >= 0 {
            Some(resolved(table[negated], true, inline_value))
        } else if found.len() == 1 {
            Some(found[0])
        } else {
            None
        }
    }
}

/// The first entry with the given name.
fn find_entry(table: &Vec<BranchLongOptionSpec>, name: &[char], negatable_only: bool) -> (r: Option<
    usize,
>)
    ensures
        match r {
            Some(i) => i < table.len() && entry_named(table@, 0, name@, negatable_only) == i,
            None => entry_named(table@, 0, name@, negatable_only) == -1,
        },
{
    let mut i: usize = 0;
    while i < table.len()
        invariant
            0 <= i <= table.len(),
            entry_named(table@, 0, name@, negatable_only) == entry_named(
                table@,
                i as int,
                name@,
                negatable_only,
            ),
        decreases table.len() - i,
    {
        if is_str(name, table[i].name) && (table[i].negatable || !negatable_only) {
            return Some(i);
        }
        i += 1;
    }
    None
}

/// The long option of `git branch` that a word spells.
pub fn resolve_branch_long_option(token: &[char]) -> (r: Option<ResolvedBranchLongOption>)
    ensures
        r == branch_long_option(token@),
{
    proof {
        reveal_strlit("--");
        reveal_strlit("no-");
    }
    if !starts_str(token, "--") {
        return None;
    }
    let body = from_index(token, 2);
    let e = index_from(body, 0, '=');
    let option = slice_subrange(body, 0, e);
    let inline_value = e < body.len();
    if option.len() == 0 || starts_str(option, "no-no-") {
        return None;
    }
    let table = branch_option_table();
    if let Some(i) = find_entry(&table, option, false) {
        let t = table[i];
        return Some(
            ResolvedBranchLongOption { name: t.name, arity: t.arity, negated: false, inline_value },
        );
    }
    let no = starts_str(option, "no-");
    let base = if no {
        from_index(option, 3)
    } else {
        option
    };
    if no {
        if let Some(i) = find_entry(&table, base, true) {
            let t = table[i];
            return Some(
                ResolvedBranchLongOption {
                    name: t.name,
                    arity: t.arity,
                    negated: true,
                    inline_value,
                },
            );
        }
    }
    let mut found: Vec<ResolvedBranchLongOption> = Vec::new();
    let mut i: usize = 0;
    assert(found@ =~= Seq::<ResolvedBranchLongOption>::empty());
    while i < table.len()
        invariant
            0 <= i <= table.len(),
            no == starts(option@, "no-"@),
            no ==> base@ == rest(option@, "no-"@.len() as int),
            abbreviated(table@, 0, option@, inline_value, Seq::empty()) == abbreviated(
                table@,
                i as int,
                option@,
                inline_value,
                found@,
            ),
        decreases table.len() - i,
    {
        let t = table[i];
        let name = chars_of(t.name);
        if crate::text::at_text(name.as_slice(), 0, option) {
            found.push(
                ResolvedBranchLongOption {
                    name: t.name,
                    arity: t.arity,
                    negated: false,
                    inline_value,
                },
            );
        } else if no && t.negatable && crate::text::at_text(name.as_slice(), 0, base) {
            found.push(
                ResolvedBranchLongOption {
                    name: t.name,
                    arity: t.arity,
                    negated: true,
                    inline_value,
                },
            );
        }
        i += 1;
    }
    if found.len() == 1 {
        Some(found[0])
    } else {
        None
    }
}

/// What the options seen so far do to branches.
#[derive(Debug, Clone, Copy, PartialEq, Eq, Structural)]
pub struct BranchMutationState {
    /// `-d` or `--delete`, which `--no-delete` takes back.
    pub delete: bool,
    /// `-D`, which nothing takes back.
    pub force_delete: bool,
    /// `-f` or `--force`, which `--no-force` takes back.
    pub force: bool,
    /// `-M` or `-C`.
    pub forced_move_or_copy: bool,
}

/// The state before any option.
pub open spec fn no_mutation() -> BranchMutationState {
    BranchMutationState {
        delete: false,
        force_delete: false,
        force: false,
        forced_move_or_copy: false,
    }
}

impl BranchMutationState {
    /// The state before any option.
    pub fn none() -> (r: Self)
        ensures
            r == no_mutation(),
    {
        BranchMutationState {
            delete: false,
            force_delete: false,
            force: false,
            forced_move_or_copy: false,
        }
    }

    /// Whether an option deletes a branch or forces a reference.
    pub open spec fn mutates(self) -> bool {
        self.delete || self.force_delete || self.force || self.forced_move_or_copy
    }

    /// What a `git branch` command with these options does.
    pub open spec fn verdict(self) -> BranchCommandDecision {
        if self.mutates() {
            BranchCommandDecision::Destructive
        } else {
            BranchCommandDecision::NonDestructive
        }
    }

    /// What a `git branch` command with these options does.
    pub fn decision(self) -> (r: BranchCommandDecision)
        ensures
            r == self.verdict(),
    {
        if self.delete || self.force_delete || self.force || self.forced_move_or_copy {
            BranchCommandDecision::Destructive
        } else {
            BranchCommandDecision::NonDestructive
        }
    }

    /// The state behind a long option.
    pub open spec fn with_long(self, option: ResolvedBranchLongOption) -> Self {
        if option.name@ == "delete"@ {
            BranchMutationState { delete: !option.negated, ..self }
        } else if option.name@ == "force"@ {
            BranchMutationState { force: !option.negated, ..self }
        } else {
            self
        }
    }

    /// The state behind a long option.
    pub fn apply_long(self, option: ResolvedBranchLongOption) -> (r: Self)
        ensures
            r == self.with_long(option),
    {
        let name = chars_of(option.name);
        if is_str(name.as_slice(), "delete") {
            BranchMutationState { delete: !option.negated, ..self }
        } else if is_str(name.as_slice(), "force") {
            BranchMutationState { force: !option.negated, ..self }
        } else {
            self
        }
    }

    /// The state behind a short option.
    pub open spec fn with_flag(self, flag: char) -> Self {
        if flag == 'd' {
            BranchMutationState { delete: true, ..self }
        } else if flag == 'D' {
            BranchMutationState { force_delete: true, ..self }
        } else if flag == 'f' {
            BranchMutationState { force: true, ..self }
        } else if flag == 'M' || flag == 'C' {
            BranchMutationState { forced_move_or_copy: true, ..self }
        } else {
            self
        }
    }

    /// The state behind a short option.
    pub fn apply_flag(self, flag: char) -> (r: Self)
        ensures
            r == self.with_flag(flag),
    {
        if flag == 'd' {
            BranchMutationState { delete: true, ..self }
        } else if flag == 'D' {
            BranchMutationState { force_delete: true, ..self }
        } else if flag == 'f' {
            BranchMutationState { force: true, ..self }
        } else if flag == 'M' || flag == 'C' {
            BranchMutationState { forced_move_or_copy: true, ..self }
        } else {
            self
        }
    }
}

/// What follows an option word.
#[derive(Debug, Clone, Copy, PartialEq, Eq, Structural)]
pub enum ValueWord {
    /// The next word is another argument.
    Absent,
    /// The next word is the option's value; without one Git refuses the command.
    Required,
    /// The next word, if there is one, is the option's value.
    Optional,
}

/// How the reading of an option word goes on.
#[derive(Debug, Clone, Copy, PartialEq, Eq, Structural)]
pub enum OptionStep {
    /// Git shows help or refuses the command: nothing is changed.
    Stop,
    /// The command goes on.
    Next(BranchMutationState, ValueWord),
}

/// How the reading of a long option goes on.
pub open spec fn long_option_step(token: Seq<char>, m: BranchMutationState) -> OptionStep {
    if token == "--help"@ || token == "--help-all"@ {
        OptionStep::Stop
    } else {
        match branch_long_option(token) {
            None => OptionStep::Stop,
            Some(o) => if o.inline_value && o.arity == BranchLongOptionArity::NoValue {
                OptionStep::Stop
            } else if o.negated || o.inline_value {
                OptionStep::Next(m.with_long(o), ValueWord::Absent)
            } else {
                OptionStep::Next(
                    m.with_long(o),
                    match o.arity {
                        BranchLongOptionArity::Required => ValueWord::Required,
                        BranchLongOptionArity::LastArgDefault => ValueWord::Optional,
                        _ => ValueWord::Absent,
                    },
                )
            },
        }
    }
}

/// How the reading of a long option goes on.
pub fn step_long_option(token: &[char], m: BranchMutationState) -> (r: OptionStep)
    ensures
        r == long_option_step(token@, m),
{
    if is_str(token, "--help") || is_str(token, "--help-all") {
        return OptionStep::Stop;
    }
    match resolve_branch_long_option(token) {
        None => OptionStep::Stop,
        Some(o) => {
            if o.inline_value && o.arity == BranchLongOptionArity::NoValue {
                OptionStep::Stop
            } else if o.negated || o.inline_value {
                OptionStep::Next(m.apply_long(o), ValueWord::Absent)
            } else {
                OptionStep::Next(
                    m.apply_long(o),
                    match o.arity {
                        BranchLongOptionArity::Required => ValueWord::Required,
                        BranchLongOptionArity::LastArgDefault => ValueWord::Optional,
                        _ => ValueWord::Absent,
                    },
                )
            }
        },
    }
}

/// A short option of `git branch`.
pub open spec fn is_branch_flag(c: char) -> bool {
    c == 'd' || c == 'D' || c == 'f' || c == 'M' || c == 'C' || c == 'v' || c == 'q' || c == 'r'
        || c == 'a' || c == 'm' || c == 'c' || c == 'l' || c == 'i' || c == 'u' || c == 't'
}

/// How the reading of a cluster of short options goes on from its `i`th
/// character. `-u` takes the rest of the cluster or the next word as its value,
/// `-t` only the rest of the cluster.
pub open spec fn cluster_step(token: Seq<char>, i: int, m: BranchMutationState) -> OptionStep
    decreases token.len() - i,
{
    if i < 0 || i >= token.len() {
        OptionStep::Next(m, ValueWord::Absent)
    } else if !is_branch_flag(token[i]) {
        OptionStep::Stop
    } else if token[i] == 'u' {
        OptionStep::Next(
            m,
            if i + 1 == token.len() {
                ValueWord::Required
            } else {
                ValueWord::Absent
            },
        )
    } else if token[i] == 't' && i + 1 < token.len() {
        OptionStep::Next(m, ValueWord::Absent)
    } else {
        cluster_step(token, i + 1, m.with_flag(token[i]))
    }
}

/// How the reading of a cluster of short options goes on.
pub fn step_cluster(token: &[char], start: BranchMutationState) -> (r: OptionStep)
    requires
        token.len() > 0,
    ensures
        r == cluster_step(token@, 1, start),
{
    let mut m = start;
    let mut i: usize = 1;
    while i < token.len()
        invariant
            1 <= i <= token.len(),
            cluster_step(token@, 1, start) == cluster_step(token@, i as int, m),
        decreases token.len() - i,
    {
        let c = token[i];
        if !(c == 'd' || c == 'D' || c == 'f' || c == 'M' || c == 'C' || c == 'v' || c == 'q' || c
            == 'r' || c == 'a' || c == 'm' || c == 'c' || c == 'l' || c == 'i' || c == 'u' || c
            == 't') {
            return OptionStep::Stop;
        }
        if c == 'u' {
            return OptionStep::Next(
                m,
                if i + 1 == token.len() {
                    ValueWord::Required
                } else {
                    ValueWord::Absent
                },
            );
        }
        if c == 't' && i + 1 < token.len() {
            return OptionStep::Next(m, ValueWord::Absent);
        }
        m = m.apply_flag(c);
        i += 1;
    }
    OptionStep::Next(m, ValueWord::Absent)
}

/// How the reading of any argument of `git branch` goes on: an option word, or a
/// word that names something.
pub open spec fn argument_step(token: Seq<char>, m: BranchMutationState) -> OptionStep {
    if starts(token, "--"@) {
        long_option_step(token, m)
    } else if starts(token, "-"@) {
        cluster_step(token, 1, m)
    } else {
        OptionStep::Next(m, ValueWord::Absent)
    }
}

/// How the reading of any argument of `git branch` goes on.
pub fn step_argument(token: &[char], m: BranchMutationState) -> (r: OptionStep)
    ensures
        r == argument_step(token@, m),
{
    if starts_str(token, "--") {
        step_long_option(token, m)
    } else if starts_str(token, "-") {
        proof {
            reveal_strlit("-");
        }
        step_cluster(token, m)
    } else {
        OptionStep::Next(m, ValueWord::Absent)
    }
}

/// A word behind which `git branch` takes no more options.
pub open spec fn ends_options(token: Seq<char>) -> bool {
    token == "--"@ || token == "--end-of-options"@
}

/// Whether `git branch` takes no more options behind the word.
pub fn options_end(token: &[char]) -> (r: bool)
    ensures
        r == ends_options(token@),
{
    is_str(token, "--") || is_str(token, "--end-of-options")
}

/// The state behind the letters of a word from the `i`th on, read as short
/// options whatever they are, up to one that takes a value.
pub open spec fn letters_seen(token: Seq<char>, i: int, m: BranchMutationState) -> BranchMutationState
    decreases token.len() - i,
{
    if i < 0 || i >= token.len() || token[i] == 'u' || token[i] == 't' {
        m
    } else {
        letters_seen(token, i + 1, m.with_flag(token[i]))
    }
}

/// The state behind one literal word, read as an option of `git branch`.
pub open spec fn evidence(token: Seq<char>, m: BranchMutationState) -> BranchMutationState {
    if starts(token, "--"@) {
        match branch_long_option(token) {
            None => m,
            Some(o) => if o.inline_value && o.arity == BranchLongOptionArity::NoValue {
                m
            } else {
                m.with_long(o)
            },
        }
    } else if starts(token, "-"@) {
        letters_seen(token, 1, m)
    } else {
        m
    }
}

/// The state behind the literal words from the `i`th on; words that the shell
/// expands are `None`, and the first end of options ends the reading.
pub open spec fn evidence_from(words: Seq<Option<Seq<char>>>, i: int, m: BranchMutationState) -> BranchMutationState
    decreases words.len() - i,
{
    if i < 0 || i >= words.len() {
        m
    } else {
        match words[i] {
            None => evidence_from(words, i + 1, m),
            Some(t) => if ends_options(t) {
                m
            } else {
                evidence_from(words, i + 1, evidence(t, m))
            },
        }
    }
}

/// Whether the literal words from the `i`th on spell a deletion or a forced
/// update of a branch.
pub open spec fn literals_mutate(words: Seq<Option<Seq<char>>>, i: int) -> bool {
    evidence_from(words, i, no_mutation()).mutates()
}

/// The state behind one literal word.
pub fn add_evidence(token: &[char], start: BranchMutationState) -> (r: BranchMutationState)
    ensures
        r == evidence(token@, start),
{
    if starts_str(token, "--") {
        return match resolve_branch_long_option(token) {
            None => start,
            Some(o) => if o.inline_value && o.arity == BranchLongOptionArity::NoValue {
                start
            } else {
                start.apply_long(o)
            },
        };
    }
    if !starts_str(token, "-") {
        return start;
    }
    proof {
        reveal_strlit("-");
    }
    let mut m = start;
    let mut i: usize = 1;
    while i < token.len() && token[i] != 'u' && token[i] != 't'
        invariant
            1 <= i <= token.len(),
            letters_seen(token@, 1, start) == letters_seen(token@, i as int, m),
        decreases token.len() - i,
    {
        m = m.apply_flag(token[i]);
        i += 1;
    }
    m
}

/// Whether the literal words spell a deletion or a forced update of a branch;
/// words that the shell expands are `None`.
pub fn literal_branch_tokens_prove_mutation(words: &Vec<Option<Vec<char>>>, start: usize) -> (r: bool)
    requires
        start <= words.len(),
    ensures
        r == literals_mutate(optional_texts(words@), start as int),
{
    let mut m = BranchMutationState::none();
    let mut i: usize = start;
    while i < words.len()
        invariant
            start <= i <= words.len(),
            evidence_from(optional_texts(words@), start as int, no_mutation()) == evidence_from(
                optional_texts(words@),
                i as int,
                m,
            ),
        decreases words.len() - i,
    {
        match &words[i] {
            None => {},
            Some(t) => {
                if options_end(t.as_slice()) {
                    return m.decision() == BranchCommandDecision::Destructive;
                }
                m = add_evidence(t.as_slice(), m);
            },
        }
        i += 1;
    }
    m.decision() == BranchCommandDecision::Destructive
}

/// The views of a list of optional texts.
pub open spec fn optional_texts(v: Seq<Option<Vec<char>>>) -> Seq<Option<Seq<char>>> {
    Seq::new(
        v.len(),
        |i: int|
            match v[i] {
                Some(t) => Some(t@),
                None => None,
            },
    )
}

/// Whether the entry of a resolved option is one that `option` begins: its name,
/// or for a negated one its name behind `no-`.
pub open spec fn is_begun_by(o: ResolvedBranchLongOption, option: Seq<char>) -> bool {
    if o.negated {
        starts(option, "no-"@) && starts(o.name@, rest(option, "no-"@.len() as int))
    } else {
        starts(o.name@, option)
    }
}

/// Whether that holds of every entry.
spec fn all_begun_by(v: Seq<ResolvedBranchLongOption>, option: Seq<char>) -> bool {
    forall|k: int| 0 <= k < v.len() ==> is_begun_by(#[trigger] v[k], option)
}

/// Every entry that is found by an abbreviation is one that it begins.
proof fn abbreviations_begin_names(
    table: Seq<BranchLongOptionSpec>,
    i: int,
    option: Seq<char>,
    inline_value: bool,
    out: Seq<ResolvedBranchLongOption>,
)
    requires
        all_begun_by(out, option),
    ensures
        all_begun_by(abbreviated(table, i, option, inline_value, out), option),
    decreases table.len() - i,
{
    if 0 <= i < table.len() {
        if starts(table[i].name@, option) {
            abbreviations_begin_names(
                table,
                i + 1,
                option,
                inline_value,
                out.push(resolved(table[i], false, inline_value)),
            );
        } else if starts(option, "no-"@) && table[i].negatable && starts(
            table[i].name@,
            rest(option, "no-"@.len() as int),
        ) {
            abbreviations_begin_names(
                table,
                i + 1,
                option,
                inline_value,
                out.push(resolved(table[i], true, inline_value)),
            );
        } else {
            abbreviations_begin_names(table, i + 1, option, inline_value, out);
        }
    }
}

/// An entry that is found by its name has that name.
proof fn named_entry_has_the_name(
    table: Seq<BranchLongOptionSpec>,
    i: int,
    name: Seq<char>,
    negatable_only: bool,
)
    requires
        0 <= i,
        entry_named(table, i, name, negatable_only) >= 0,
    ensures
        entry_named(table, i, name, negatable_only) < table.len(),
        table[entry_named(table, i, name, negatable_only)].name@ == name,
    decreases table.len() - i,
{
    if i < table.len() && !(table[i].name@ == name && (table[i].negatable || !negatable_only)) {
        named_entry_has_the_name(table, i + 1, name, negatable_only);
    }
}

/// A long option of `git branch` stands for an option that its spelling begins, and
/// for no other.
pub proof fn long_option_begins_its_name(token: Seq<char>)
    ensures
        match branch_long_option(token) {
            Some(o) => {
                let body = rest(token, "--"@.len() as int);
                is_begun_by(o, body.subrange(0, next_index(body, 0, '=')))
            },
            None => true,
        },
{
    if branch_long_option(token) is Some {
        let body = rest(token, "--"@.len() as int);
        let e = next_index(body, 0, '=');
        next_index_is_first(body, 0, '=');
        let option = body.subrange(0, e);
        let table = branch_long_options();
        let negated = rest(option, "no-"@.len() as int);
        assert(option.subrange(0, option.len() as int) =~= option);
        assert(negated.subrange(0, negated.len() as int) =~= negated);
        abbreviations_begin_names(table, 0, option, e < body.len(), Seq::empty());
        if entry_named(table, 0, option, false) >= 0 {
            named_entry_has_the_name(table, 0, option, false);
        } else if starts(option, "no-"@) && entry_named(table, 0, negated, true) >= 0 {
            named_entry_has_the_name(table, 0, negated, true);
        }
    }
}

} // verus!
