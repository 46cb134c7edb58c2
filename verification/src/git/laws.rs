//! What holds of every decision on Git commands.

use vstd::prelude::*;
use crate::git::alias::{alias_result, AliasView};
use crate::git::bindings::{last_definition, may_define, DefinitionView};
use crate::git::branch::{
    arguments_may_mutate, branch_arguments, branch_decision, globals_may_mutate, literal_views,
    literal_words, may_mutate, program_word, symbolic_arguments, words_may_mutate,
};
use crate::git::command::{global_option, is_git_builtin, GlobalOption};
use crate::git::cross::visible_alias;
use crate::git::expansion::{
    cmd_splits, expands, expansion_splits, fragments, fragments_from, posix_expands,
    powershell_expands, program_unbounded, word_may_equal, word_unbounded, MAX_GIT_SEMANTIC_TOKENS,
    WordView,
};
use crate::git::options::{
    argument_step, cluster_step, ends_options, literals_mutate, no_mutation, BranchCommandDecision,
    BranchMutationState, OptionStep,
};
use crate::git::plain::{are_plain_words, plain_arguments_decide, plain_branch_command, spaced};
use crate::git::rules::{
    git_rules, git_safe_patterns, history_rules, reference_rules, semantic_rules, work_rules,
};
use crate::git::semantic::{can_hide_git, runs_git};
use crate::git::symbolic::{is_marked, SymbolView};
use crate::git::texts::{BRANCH_DYNAMIC_RULE, BRANCH_FORCE_DELETE_NAME};
use crate::pack::{
    first_matching_rule_decides, git_finding, is_safe, named_from, named_rule_is_found, RuleFilter,
    RuleView, SafeView,
};
use crate::shell::decode::{decoded_next, ShellTokenRole};
use crate::shell::parts::woven;
use crate::shell::token::ShellDialect;

verus! {

/// A word that the shell does not expand is what it is spelled, and nothing else.
pub proof fn literal_word_is_only_itself(word: WordView, dialect: ShellDialect, candidate: Seq<char>)
    requires
        !word.dynamic,
    ensures
        word_may_equal(word, dialect, candidate, false) <==> word.decoded == candidate,
{
}

/// A decoded word has a literal part, if only an empty one.
proof fn some_part_is_read(
    s: Seq<char>,
    i: int,
    dialect: ShellDialect,
    cur: Seq<char>,
    done: Seq<Seq<char>>,
)
    ensures
        fragments_from(s, i, dialect, cur, done).len() >= 1,
    decreases s.len() - i,
{
    if 0 <= i < s.len() {
        if crate::git::expansion::expansion_starts(s, i, dialect) {
            some_part_is_read(
                s,
                crate::shell::token::onward(
                    i,
                    crate::git::expansion::expansion_end(s, i, dialect),
                    s.len() as int,
                ),
                dialect,
                Seq::empty(),
                done.push(cur),
            );
        } else {
            some_part_is_read(s, i + 1, dialect, cur.push(s[i]), done);
        }
    }
}

/// Parts that are all empty, with one text between the first two, are that text.
proof fn empty_parts_are_the_fill(parts: Seq<Seq<char>>, fill: Seq<Seq<char>>, k: int)
    requires
        0 <= k < parts.len(),
        fill.len() + 1 == parts.len(),
        forall|i: int| 0 <= i < parts.len() ==> (#[trigger] parts[i]).len() == 0,
        forall|i: int| 1 <= i < fill.len() ==> (#[trigger] fill[i]).len() == 0,
    ensures
        k >= 1 ==> woven(parts, fill, k).len() == 0,
        k == 0 && parts.len() >= 2 ==> woven(parts, fill, k) == fill[0],
    decreases parts.len() - k,
{
    if k + 1 < parts.len() {
        empty_parts_are_the_fill(parts, fill, k + 1);
        assert(parts[k].len() == 0);
        if k == 0 {
            assert(woven(parts, fill, 0) =~= fill[0]);
        } else {
            assert(fill[k].len() == 0);
        }
    } else {
        assert(parts[parts.len() - 1].len() == 0);
    }
}

/// A word without any literal part may become everything.
pub proof fn unbounded_word_may_be_anything(word: WordView, dialect: ShellDialect, candidate: Seq<char>)
    requires
        word_unbounded(word, dialect),
    ensures
        word_may_equal(word, dialect, candidate, false),
{
    let parts = fragments(word.decoded, dialect);
    some_part_is_read(word.decoded, 0, dialect, Seq::empty(), Seq::empty());
    assert(parts[0].len() == 0);
    if parts.len() >= 2 {
        let fill = Seq::new(
            (parts.len() - 1) as nat,
            |i: int|
                if i == 0 {
                    candidate
                } else {
                    Seq::empty()
                },
        );
        empty_parts_are_the_fill(parts, fill, 0);
        assert(woven(parts, fill, 0) == candidate);
    } else {
        assert(candidate.subrange(0, 0) =~= parts[0]);
        assert(candidate.subrange(candidate.len() as int, candidate.len() as int) =~= parts[0]);
    }
}

/// Nothing ties the words from the `i`th on to `git branch`: each is expanded, or
/// is neither `branch` nor an option that takes a value.
pub open spec fn without_branch_evidence(words: Seq<WordView>, i: int) -> bool {
    forall|j: int|
        i <= j < words.len() ==> (#[trigger] words[j]).dynamic || (words[j].decoded != "branch"@
            && global_option(words[j].decoded) != GlobalOption::Config && global_option(
            words[j].decoded,
        ) != GlobalOption::ConfigEnv && global_option(words[j].decoded) != GlobalOption::TakesNext)
}

/// Words without evidence lead an unknown program to no branch command.
proof fn globals_without_evidence_mutate_nothing(words: Seq<WordView>, i: int, dialect: ShellDialect)
    requires
        0 <= i,
        without_branch_evidence(words, i),
    ensures
        !globals_may_mutate(words, i, dialect, true),
    decreases words.len() - i,
{
    if i < words.len() {
        assert(words[i].dynamic || words[i].decoded != "branch"@);
        globals_without_evidence_mutate_nothing(words, i + 1, dialect);
    }
}

/// A program that may be anything is not held to be Git: without a literal word
/// that ties the command to `git branch` and without a literal option that deletes
/// or forces, the command is let pass.
pub proof fn unbounded_program_is_no_evidence(words: Seq<WordView>, dialect: ShellDialect)
    requires
        0 <= program_word(words, 0, dialect) < words.len(),
        program_unbounded(words[program_word(words, 0, dialect)], dialect),
        without_branch_evidence(words, program_word(words, 0, dialect) + 1),
        !literals_mutate(literal_words(words), program_word(words, 0, dialect) + 1),
    ensures
        !words_may_mutate(words, dialect, false),
{
    globals_without_evidence_mutate_nothing(words, program_word(words, 0, dialect) + 1, dialect);
}

/// A program that may be anything is denied where a literal option that deletes or
/// forces stands in its arguments, wherever it stands.
pub proof fn literal_mutation_is_evidence(words: Seq<WordView>, dialect: ShellDialect)
    requires
        0 <= program_word(words, 0, dialect) < words.len(),
        program_unbounded(words[program_word(words, 0, dialect)], dialect),
        literals_mutate(literal_words(words), program_word(words, 0, dialect) + 1),
    ensures
        words_may_mutate(words, dialect, false),
{
}

/// Where no dialect is proven, whatever counts in one of them counts: a command
/// that may hide or run Git, may change branches, or cannot be followed through
/// its aliases in one dialect does so without one.
pub proof fn unproven_dialect_is_cautious(s: Seq<char>, dialect: ShellDialect)
    ensures
        can_hide_git(s, dialect) ==> can_hide_git(s, ShellDialect::Unknown),
        runs_git(s, dialect) ==> runs_git(s, ShellDialect::Unknown),
        may_mutate(s, dialect) ==> may_mutate(s, ShellDialect::Unknown),
        visible_alias(s, dialect) is Unverified ==> visible_alias(
            s,
            ShellDialect::Unknown,
        ) is Unverified,
{
}

/// Of several definitions of an alias the last one counts.
pub proof fn last_definition_wins(defs: Seq<DefinitionView>, d: DefinitionView, name: Seq<char>)
    requires
        may_define(d, name),
    ensures
        last_definition(defs.push(d), defs.push(d).len() as int, name) == Some(d.value),
{
}

/// The first definitions do not depend on those behind them.
proof fn later_definitions_do_not_count(
    defs: Seq<DefinitionView>,
    d: DefinitionView,
    to: int,
    name: Seq<char>,
)
    requires
        to <= defs.len(),
    ensures
        last_definition(defs.push(d), to, name) == last_definition(defs, to, name),
    decreases to,
{
    if to > 0 {
        assert(defs.push(d)[to - 1] == defs[to - 1]);
        later_definitions_do_not_count(defs, d, to - 1, name);
    }
}

/// The definition of another alias changes nothing.
pub proof fn definition_of_another_alias_changes_nothing(
    defs: Seq<DefinitionView>,
    d: DefinitionView,
    name: Seq<char>,
)
    requires
        !may_define(d, name),
    ensures
        last_definition(defs.push(d), defs.push(d).len() as int, name) == last_definition(
            defs,
            defs.len() as int,
            name,
        ),
{
    later_definitions_do_not_count(defs, d, defs.len() as int, name);
}

/// A command of Git is never taken for an alias, whatever is defined.
pub proof fn builtins_are_no_aliases(
    defs: Seq<DefinitionView>,
    command: Seq<char>,
    args: Seq<Seq<char>>,
    visited: Seq<Seq<char>>,
    left: nat,
)
    requires
        is_git_builtin(command),
        left > 0,
    ensures
        alias_result(defs, command, args, visited, left) == AliasView::Expanded(command, args),
{
}

/// The letters of a cluster take no forced change back.
proof fn letters_keep_forced_changes(token: Seq<char>, i: int, m: BranchMutationState)
    ensures
        match cluster_step(token, i, m) {
            OptionStep::Stop => true,
            OptionStep::Next(n, _) => (m.force_delete ==> n.force_delete) && (m.forced_move_or_copy
                ==> n.forced_move_or_copy) && (m.delete ==> n.delete) && (m.force ==> n.force),
        },
    decreases token.len() - i,
{
    if 0 <= i < token.len() {
        letters_keep_forced_changes(token, i + 1, m.with_flag(token[i]));
    }
}

/// No option takes back `-D`, `-M` or `-C`; only a long option takes back another
/// deletion or force.
pub proof fn forced_changes_are_never_taken_back(token: Seq<char>, m: BranchMutationState)
    ensures
        match argument_step(token, m) {
            OptionStep::Stop => true,
            OptionStep::Next(n, _) => {
                &&& m.force_delete ==> n.force_delete
                &&& m.forced_move_or_copy ==> n.forced_move_or_copy
                &&& !crate::text::starts(token, "--"@) ==> (m.delete ==> n.delete) && (m.force
                    ==> n.force)
            },
        },
{
    letters_keep_forced_changes(token, 1, m);
}

/// Behind the word that ends the options of `git branch` nothing counts: two
/// commands that are alike up to it are decided alike.
pub proof fn words_behind_the_options_do_not_count(
    words: Seq<Seq<char>>,
    other: Seq<Seq<char>>,
    i: int,
    dialect: ShellDialect,
    literal: bool,
    m: BranchMutationState,
)
    requires
        0 <= i < words.len(),
        i < other.len(),
        words[i] == other[i],
        decoded_next(words[i], dialect, ShellTokenRole::Syntax, literal) is Some,
        ends_options(decoded_next(words[i], dialect, ShellTokenRole::Syntax, literal)->0),
    ensures
        branch_arguments(words, i, dialect, literal, m) == m.verdict(),
        branch_arguments(words, i, dialect, literal, m) == branch_arguments(
            other,
            i,
            dialect,
            literal,
            m,
        ),
{
}

/// Nor does it count where words are expanded, by the shell or by a substitution
/// whose output is not known.
pub proof fn expansions_behind_the_options_do_not_count(
    words: Seq<WordView>,
    symbols: Seq<SymbolView>,
    i: int,
    dialect: ShellDialect,
    m: BranchMutationState,
)
    ensures
        0 <= i < words.len() && !words[i].dynamic && ends_options(words[i].decoded)
            ==> arguments_may_mutate(words, i, dialect, m) == m.mutates(),
        0 <= i < symbols.len() && !is_marked(symbols[i].text) && ends_options(symbols[i].text)
            ==> symbolic_arguments(symbols, i, m, false) == m.verdict(),
{
}

/// Between single quotes nothing is expanded.
proof fn nothing_expands_in_single_quotes(s: Seq<char>, i: int, splitting: bool)
    requires
        s.len() >= 2,
        s.last() == '\'',
        1 <= i < s.len(),
        forall|j: int| 1 <= j < s.len() - 1 ==> s[j] != '\'',
    ensures
        !posix_expands(s, i, true, false, splitting),
        !powershell_expands(s, i, true, false, splitting),
    decreases s.len() - i,
{
    if i + 1 < s.len() {
        nothing_expands_in_single_quotes(s, i + 1, splitting);
    } else {
        assert(s[i] == '\'');
        assert(!posix_expands(s, i + 1, false, false, splitting));
        assert(!powershell_expands(s, i + 1, false, false, splitting));
    }
}

/// A word in single quotes is data: neither a POSIX shell nor PowerShell expands
/// any of it.
pub proof fn single_quoted_word_is_data(s: Seq<char>)
    requires
        s.len() >= 2,
        s[0] == '\'',
        s.last() == '\'',
        forall|j: int| 1 <= j < s.len() - 1 ==> s[j] != '\'',
    ensures
        !expands(s, ShellDialect::Posix),
        !expands(s, ShellDialect::PowerShell),
        !expansion_splits(s, ShellDialect::Posix),
        !expansion_splits(s, ShellDialect::PowerShell),
{
    nothing_expands_in_single_quotes(s, 1, false);
    nothing_expands_in_single_quotes(s, 1, true);
    assert(posix_expands(s, 0, false, false, false) == posix_expands(s, 1, true, false, false));
    assert(posix_expands(s, 0, false, false, true) == posix_expands(s, 1, true, false, true));
    assert(powershell_expands(s, 0, false, false, false) == powershell_expands(
        s,
        1,
        true,
        false,
        false,
    ));
    assert(powershell_expands(s, 0, false, false, true) == powershell_expands(
        s,
        1,
        true,
        false,
        true,
    ));
}

/// Between double quotes nothing splits.
proof fn nothing_splits_in_double_quotes(s: Seq<char>, i: int)
    requires
        s.len() >= 2,
        s.last() == '"',
        1 <= i < s.len(),
        forall|j: int| 1 <= j < s.len() - 1 ==> s[j] != '"' && s[j] != '\\' && s[j] != '`',
    ensures
        !posix_expands(s, i, false, true, true),
        !powershell_expands(s, i, false, true, true),
        !cmd_splits(s, i, false, true),
    decreases s.len() - i,
{
    if i + 1 < s.len() {
        nothing_splits_in_double_quotes(s, i + 1);
    } else {
        assert(s[i] == '"');
        assert(!posix_expands(s, i + 1, false, false, true));
        assert(!powershell_expands(s, i + 1, false, false, true));
        assert(!cmd_splits(s, i + 1, false, false));
    }
}

/// A word in double quotes stays one word, whatever is expanded in it.
pub proof fn double_quoted_word_stays_one_word(s: Seq<char>, dialect: ShellDialect)
    requires
        s.len() >= 2,
        s[0] == '"',
        s.last() == '"',
        forall|j: int| 1 <= j < s.len() - 1 ==> s[j] != '"' && s[j] != '\\' && s[j] != '`',
    ensures
        !expansion_splits(s, dialect),
{
    nothing_splits_in_double_quotes(s, 1);
    assert(posix_expands(s, 0, false, false, true) == posix_expands(s, 1, false, true, true));
    assert(powershell_expands(s, 0, false, false, true) == powershell_expands(
        s,
        1,
        false,
        true,
        true,
    ));
    assert(cmd_splits(s, 0, false, false) == cmd_splits(s, 1, false, true));
}

/// The rules of the pack hold the two on branches.
proof fn branch_rules_are_there()
    ensures
        0 <= named_from(git_rules(), 0, BRANCH_FORCE_DELETE_NAME@) < git_rules().len(),
        0 <= named_from(git_rules(), 0, BRANCH_DYNAMIC_RULE@) < git_rules().len(),
{
    let before = semantic_rules().len() + work_rules().len() + history_rules().len();
    assert(git_rules()[1] == semantic_rules()[1]);
    assert(git_rules()[before as int] == reference_rules()[0]);
    named_rule_is_found(git_rules(), 0, before as int, BRANCH_FORCE_DELETE_NAME@);
    named_rule_is_found(git_rules(), 0, 1, BRANCH_DYNAMIC_RULE@);
}

/// A branch command that deletes or forces, or may when the shell expands it, is
/// found by the pack for what its arguments say, wherever no safe pattern clears it.
pub proof fn destructive_branch_commands_are_found(s: Seq<char>)
    requires
        !is_safe(git_safe_patterns(), s),
        branch_decision(s, ShellDialect::Unknown) == BranchCommandDecision::Destructive
            || branch_decision(s, ShellDialect::Unknown)
            == BranchCommandDecision::DestructiveDynamic,
    ensures
        git_finding(git_rules(), git_safe_patterns(), s) is Some,
{
    branch_rules_are_there();
}

/// A branch command whose arguments neither delete nor force is never found by the
/// pattern on branches, whatever its text looks like.
pub proof fn data_is_no_branch_deletion(rules: Seq<RuleView>, safe: Seq<SafeView>, s: Seq<char>)
    requires
        branch_decision(s, ShellDialect::Unknown) == BranchCommandDecision::NonDestructive
            || branch_decision(s, ShellDialect::Unknown) == BranchCommandDecision::NotBranch,
    ensures
        match git_finding(rules, safe, s) {
            Some(found) => !(found.name is Some && (found.name->0)@ == BRANCH_FORCE_DELETE_NAME@),
            None => true,
        },
{
    first_matching_rule_decides(rules, 0, s, RuleFilter::ExceptBranch);
}

/// A branch command of plain words, few enough to be analysed, is decided as its
/// arguments are: it is destructive where they may delete or force, and harmless
/// otherwise.
pub proof fn plain_branch_command_is_decided_by_its_arguments(args: Seq<Seq<char>>)
    requires
        are_plain_words(args),
        args.len() + 2 <= MAX_GIT_SEMANTIC_TOKENS,
        spaced(seq!["git"@, "branch"@] + args, 0).len() <= usize::MAX,
    ensures
        branch_decision(spaced(seq!["git"@, "branch"@] + args, 0), ShellDialect::Posix)
            == if arguments_may_mutate(literal_views(args), 0, ShellDialect::Posix, no_mutation()) {
            BranchCommandDecision::Destructive
        } else {
            BranchCommandDecision::NonDestructive
        },
{
    plain_branch_command(args);
    plain_arguments_decide(seq!["git"@, "branch"@] + args, args, 0, no_mutation());
}

} // verus!
