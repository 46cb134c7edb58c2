//! What assignments, directories and the actions of `find` do to what is decided of
//! a removal.

use vstd::prelude::*;
use crate::filesystem::command::{bare_verdict, in_bytes, rm_command_verdict, segment_verdict};
use crate::filesystem::frontend_laws::{
    other_programs_are_decided_by_what_they_run, plain_words_in_a_row, spaced_behind,
    spaced_in_a_row, xargs_and_find_are_programs,
};
use crate::filesystem::frontends::{
    bare_command, behind_prefixes, exec_end_from, exec_verdict, find_actions_from, nested_verdict,
    prefixes_from, MAX_RM_EXECUTION_FRONTENDS,
};
use crate::filesystem::plain::{
    is_program, plain_command_is_bare, plain_word_stands_for_itself, plain_words_are_one_command,
    plain_words_are_tokens, reserved_word_is_the_first,
};
use crate::filesystem::rm_laws::{
    are_temporary, are_tokens_of, asks_recursion, hits_root, is_plainly_elsewhere,
    is_plainly_temporary, is_rm_option, plain_removal_verdict, recursive_rule, rm_is_a_program,
};
use crate::filesystem::segment::{plain_verdict, ExemptionView, RmParseDecision};
use crate::filesystem::stdin::openers_end;
use crate::filesystem::wrapper_laws::{assignment_word, is_assignment_word};
use crate::git::plain::{
    are_plain_words, is_plain, is_plain_word, plain_is_not_white, plain_word_is_itself, spaced,
    spaced_is_plain,
};
use crate::pack::Severity;
use crate::shell::token::{tokens, NormalizeToken, ShellDialect};
use crate::shell::wrappers::{
    env_assignment, normalized, program_word, without_wrappers, wrapped_index,
};
use crate::text::{basename, basename_start, contains_text, occurs_at, rest, white_end};

verus! {

/// Assignments before a command are passed over.
proof fn assignments_are_passed(
    c: Seq<char>,
    toks: Seq<NormalizeToken>,
    words: Seq<Seq<char>>,
    i: int,
    at: int,
    saw: bool,
)
    requires
        are_tokens_of(c, toks, words),
        0 <= i <= at < words.len(),
        forall|k: int| i <= k < at ==> is_assignment_word(#[trigger] words[k]),
        !env_assignment(words[at]),
        i == at ==> saw,
    ensures
        prefixes_from(c, toks, i, saw, false) == (toks[at].start as int, false),
    decreases at - i,
{
    assert(toks[i].word());
    assert(is_plain_word(words[i]));
    plain_word_stands_for_itself(words[i]);
    if i < at {
        assignment_word(words[i]);
        assignments_are_passed(c, toks, words, i + 1, at, true);
    }
}

/// Assignments before a command leave what is decided of it as it is, but for the
/// place, which is no longer told.
#[verifier::rlimit(40)]
pub proof fn assignments_hide_nothing(
    sets: Seq<Seq<char>>,
    command: Seq<Seq<char>>,
    ex: Seq<ExemptionView>,
)
    requires
        are_plain_words(sets),
        are_plain_words(command),
        sets.len() > 0,
        forall|k: int| 0 <= k < sets.len() ==> is_assignment_word(#[trigger] sets[k]),
        command.len() > 0,
        is_program(command[0]),
        spaced(sets + command, 0).len() <= usize::MAX,
    ensures
        rm_command_verdict(spaced(sets + command, 0), ex) == rm_command_verdict(
            spaced(command, 0),
            ex,
        ).placeless(),
{
    let words = sets + command;
    let c = spaced(words, 0);
    let d = spaced(command, 0);
    let at = sets.len() as int;
    plain_words_in_a_row(sets, command);
    plain_words_are_tokens(words, ShellDialect::Unknown);
    plain_words_are_one_command(words, ShellDialect::Unknown);
    spaced_in_a_row(sets, command, 0);
    plain_words_are_one_command(command, ShellDialect::Unknown);
    plain_command_is_bare(command, MAX_RM_EXECUTION_FRONTENDS as nat);
    let toks = tokens(c, ShellDialect::Unknown);
    assert forall|m: int| 0 <= m < toks.len() implies (#[trigger] toks[m]).word() && toks[m].of(c)
        == words[m] by {
        assert(toks[m].word());
    }
    assert forall|k: int| 0 <= k < at implies is_assignment_word(#[trigger] words[k]) by {
        assert(words[k] == sets[k]);
    }
    assert(words[at] == command[0] && words[0] == sets[0]);
    assignments_are_passed(c, toks, words, 0, at, false);
    assert forall|k: int| 0 <= k < command.len() implies words[k + at] == #[trigger] command[k] by {}
    spaced_behind(words, at, command, 0);
    assert(toks[at].word() && rest(c, toks[at].start as int) == d);
    assert(toks[at].start > 0);
    assignment_opens_nothing(words);
    assert(rest(c, 0) =~= c);
    assert(segment_verdict(c, false, ex) == bare_verdict(d, false, ex).placeless());
    assert(segment_verdict(d, false, ex) == bare_verdict(d, false, ex));
}

/// A word that is neither reserved nor white opens no compound command.
proof fn word_opens_nothing(words: Seq<Seq<char>>)
    requires
        are_plain_words(words),
        words.len() > 0,
        words[0] != "do"@ && words[0] != "then"@ && words[0] != "else"@,
    ensures
        openers_end(spaced(words, 0), 0) == 0,
{
    let c = spaced(words, 0);
    spaced_is_plain(words, 0);
    plain_is_not_white(c[0]);
    assert(white_end(c, 0) == 0);
    reveal_strlit("do");
    reveal_strlit("then");
    reveal_strlit("else");
    reserved_word_is_the_first(words, "do"@);
    reserved_word_is_the_first(words, "then"@);
    reserved_word_is_the_first(words, "else"@);
}

/// An assignment opens no compound command.
proof fn assignment_opens_nothing(words: Seq<Seq<char>>)
    requires
        are_plain_words(words),
        words.len() > 0,
        is_assignment_word(words[0]),
    ensures
        openers_end(spaced(words, 0), 0) == 0,
{
    let w = words[0];
    let (n, v) = choose|n: Seq<char>, v: Seq<char>| w == #[trigger] (n + "="@ + v);
    reveal_strlit("=");
    reveal_strlit("do");
    reveal_strlit("then");
    reveal_strlit("else");
    let e = n.len() as int;
    assert(w[e] == '=');
    assert forall|j: int| 0 <= j < 2 implies "do"@[j] != '=' by {}
    assert forall|j: int| 0 <= j < 4 implies "then"@[j] != '=' && "else"@[j] != '=' by {}
    word_opens_nothing(words);
}

/// The last component of a path with a directory.
proof fn last_component(d: Seq<char>, p: Seq<char>, to: int)
    requires
        forall|j: int| 0 <= j < p.len() ==> #[trigger] p[j] != '/' && p[j] != '\\',
        d.len() + 1 <= to <= d.len() + 1 + p.len(),
    ensures
        basename_start(d + "/"@ + p, to) == d.len() + 1,
    decreases to,
{
    reveal_strlit("/");
    let w = d + "/"@ + p;
    if to > d.len() + 1 {
        assert(w[to - 1] == p[to - 2 - d.len()]);
        last_component(d, p, to - 1);
    } else {
        assert(w[to - 1] == '/');
    }
}

/// A directory of system programs: a path whose last component is `bin` or `sbin`.
pub open spec fn is_system_directory(d: Seq<char>) -> bool {
    &&& d.len() > 0 && d[0] == '/'
    &&& exists|x: Seq<char>| d == #[trigger] (x + "/bin"@) || d == x + "/sbin"@
}

/// A program in a directory of system programs is the program.
#[verifier::rlimit(40)]
proof fn program_in_a_directory(d: Seq<char>, p: Seq<char>)
    requires
        is_plain_word(d + "/"@ + p),
        is_system_directory(d),
        p.len() > 0,
        forall|j: int| 0 <= j < p.len() ==> #[trigger] p[j] != '/' && p[j] != '\\',
    ensures
        program_word(d + "/"@ + p) == p,
        basename(d + "/"@ + p) == p,
        basename(p) == p,
        !env_assignment(d + "/"@ + p),
        (d + "/"@ + p)[0] == '/',
{
    let w = d + "/"@ + p;
    reveal_strlit("/");
    reveal_strlit("/bin");
    reveal_strlit("/sbin");
    plain_word_stands_for_itself(w);
    assert forall|c: char| w.contains(c) implies is_plain(c) by {
        let m = choose|m: int| 0 <= m < w.len() && w[m] == c;
        assert(is_plain(w[m]));
    }
    assert(!w.contains('\\') && !w.contains('\'') && !w.contains('"'));
    last_component(d, p, w.len() as int);
    assert(rest(w, d.len() as int + 1) =~= p);
    assert(w[0] == d[0]);
    assert(w.subrange(0, 1) =~= "/"@);
    assert(w.subrange(0, d.len() as int) =~= d);
    let x = choose|x: Seq<char>| d == #[trigger] (x + "/bin"@) || d == x + "/sbin"@;
    if d == x + "/bin"@ {
        assert(d.subrange(d.len() - 4, d.len() as int) =~= "/bin"@);
    } else {
        assert(d.subrange(d.len() - 5, d.len() as int) =~= "/sbin"@);
    }
    no_component(p, p.len() as int);
    assert(basename(p) =~= p);
}

/// A text without slashes is one component.
proof fn no_component(p: Seq<char>, to: int)
    requires
        0 <= to <= p.len(),
        forall|j: int| 0 <= j < p.len() ==> #[trigger] p[j] != '/' && p[j] != '\\',
    ensures
        basename_start(p, to) == 0,
    decreases to,
{
    if to > 0 {
        assert(p[to - 1] != '/' && p[to - 1] != '\\');
        no_component(p, to - 1);
    }
}

/// A program that is named with a directory of system programs is decided as it is
/// without it, but for the place, which is no longer told.
#[verifier::rlimit(40)]
pub proof fn system_directories_hide_nothing(
    d: Seq<char>,
    p: Seq<char>,
    args: Seq<Seq<char>>,
    ex: Seq<ExemptionView>,
)
    requires
        is_plain_word(d + "/"@ + p),
        is_system_directory(d),
        is_program(p),
        forall|j: int| 0 <= j < p.len() ==> #[trigger] p[j] != '/' && p[j] != '\\',
        are_plain_words(args),
        spaced(seq![d + "/"@ + p] + args, 0).len() <= usize::MAX,
    ensures
        rm_command_verdict(spaced(seq![d + "/"@ + p] + args, 0), ex) == rm_command_verdict(
            spaced(seq![p] + args, 0),
            ex,
        ).placeless(),
{
    let w = d + "/"@ + p;
    let words = seq![w] + args;
    let command = seq![p] + args;
    let c = spaced(words, 0);
    let b = spaced(command, 0);
    program_in_a_directory(d, p);
    plain_words_in_a_row(seq![w], args);
    plain_words_in_a_row(seq![p], args);
    assert(words[0] == w && command[0] == p);
    plain_words_are_tokens(words, ShellDialect::Posix);
    plain_words_are_tokens(words, ShellDialect::Unknown);
    plain_words_are_one_command(words, ShellDialect::Unknown);
    let toks = tokens(c, ShellDialect::Posix);
    let other = tokens(c, ShellDialect::Unknown);
    assert(toks[0].word() && toks[0].of(c) == w);
    assert(other[0].word() && other[0].of(c) == w);
    plain_word_stands_for_itself(w);
    plain_word_is_itself(w);
    first_word_is_changed(w, p, args, toks[0].end as int);
    plain_words_are_one_command(command, ShellDialect::Unknown);
    plain_command_is_bare(command, (MAX_RM_EXECUTION_FRONTENDS - 1) as nat);
    plain_command_is_bare(command, MAX_RM_EXECUTION_FRONTENDS as nat);
    directory_is_not_reserved(w);
    word_opens_nothing(words);
    assert(behind_prefixes(c) == (0int, false));
    assert(rest(c, 0) =~= c);
    assert(wrapped_index(c, toks) is None);
    assert(without_wrappers(c) == c);
    assert(normalized(c) == b);
    assert(bare_command(c, MAX_RM_EXECUTION_FRONTENDS as nat) == (b, true));
    assert(segment_verdict(c, false, ex) == bare_verdict(b, false, ex).placeless());
    assert(segment_verdict(b, false, ex) == bare_verdict(b, false, ex));
}

/// An absolute path is no reserved word.
proof fn directory_is_not_reserved(w: Seq<char>)
    requires
        w.len() > 0,
        w[0] == '/',
    ensures
        w != "do"@ && w != "then"@ && w != "else"@,
{
    reveal_strlit("do");
    reveal_strlit("then");
    reveal_strlit("else");
    assert("do"@[0] == 'd' && "then"@[0] == 't' && "else"@[0] == 'e');
}

/// Another first word leaves those behind it as they are.
#[verifier::rlimit(40)]
proof fn first_word_is_changed(w: Seq<char>, p: Seq<char>, args: Seq<Seq<char>>, end: int)
    requires
        spaced(seq![w] + args, 0).subrange(0, end) == w,
        0 <= end <= spaced(seq![w] + args, 0).len(),
        p.len() < w.len(),
    ensures
        p + rest(spaced(seq![w] + args, 0), end) == spaced(seq![p] + args, 0),
        spaced(seq![p] + args, 0) != spaced(seq![w] + args, 0),
        spaced(seq![p] + args, 0).len() < spaced(seq![w] + args, 0).len(),
{
    let a = seq![w] + args;
    let b = seq![p] + args;
    assert(a[0] == w && b[0] == p);
    assert(end == w.len());
    if args.len() > 0 {
        assert forall|k: int| 0 <= k < args.len() implies a[k + 1] == #[trigger] args[k] && b[k + 1]
            == args[k] by {}
        spaced_behind(a, 1, args, 0);
        spaced_behind(b, 1, args, 0);
        assert(rest(spaced(a, 0), end) =~= seq![' '] + spaced(args, 0));
        assert(p + (seq![' '] + spaced(args, 0)) =~= p.push(' ') + spaced(args, 0));
    } else {
        assert(rest(spaced(a, 0), end) =~= Seq::empty());
        assert(p + Seq::<char>::empty() =~= p);
    }
}

/// A word that runs a command behind `find`.
pub open spec fn is_exec_word(w: Seq<char>) -> bool {
    w == "-exec"@ || w == "-execdir"@
}

/// Words before an action of `find` are passed over.
proof fn find_comes_to_its_action(
    c: Seq<char>,
    toks: Seq<NormalizeToken>,
    words: Seq<Seq<char>>,
    i: int,
    at: int,
    ex: Seq<ExemptionView>,
)
    requires
        are_tokens_of(c, toks, words),
        0 <= i <= at < words.len(),
        forall|k: int| i <= k < at ==> !is_exec_word(#[trigger] words[k]),
    ensures
        find_actions_from(c, toks, i, ex) == find_actions_from(c, toks, at, ex),
    decreases at - i,
{
    if i < at {
        assert(toks[i].word());
        assert(is_plain_word(words[i]));
        plain_word_stands_for_itself(words[i]);
        assert(!is_exec_word(words[i]));
        find_comes_to_its_action(c, toks, words, i + 1, at, ex);
    }
}

/// The command of an action ends at a plus sign.
proof fn action_ends(
    c: Seq<char>,
    toks: Seq<NormalizeToken>,
    words: Seq<Seq<char>>,
    i: int,
    end: int,
)
    requires
        are_tokens_of(c, toks, words),
        0 <= i <= end < words.len(),
        forall|k: int| i <= k < end ==> #[trigger] words[k] != "+"@,
        words[end] == "+"@,
    ensures
        exec_end_from(c, toks, i) == end,
    decreases end - i,
{
    let w = words[i];
    assert(toks[i].word());
    assert(is_plain_word(w));
    plain_word_stands_for_itself(w);
    reveal_strlit(";");
    reveal_strlit("\\;");
    assert(is_plain(w[0]));
    assert(";"@[0] == ';' && "\\;"@[0] == '\\');
    if i < end {
        assert(words[i] != "+"@);
        action_ends(c, toks, words, i + 1, end);
    }
}

/// `find` with an action that runs `rm` is denied as the `rm` command is.
#[verifier::rlimit(40)]
pub proof fn rm_behind_find_is_denied(
    before: Seq<Seq<char>>,
    action: Seq<char>,
    opts: Seq<Seq<char>>,
    paths: Seq<Seq<char>>,
)
    requires
        are_plain_words(before),
        forall|k: int| 0 <= k < before.len() ==> !is_exec_word(#[trigger] before[k]),
        is_exec_word(action),
        are_plain_words(opts),
        are_plain_words(paths),
        forall|k: int| 0 <= k < opts.len() ==> is_rm_option(#[trigger] opts[k]) && opts[k] != "+"@,
        paths.len() > 0,
        forall|k: int|
            0 <= k < paths.len() ==> (#[trigger] paths[k])[0] != '-' && paths[k] != "+"@ && (
            is_plainly_temporary(paths[k]) || is_plainly_elsewhere(paths[k])),
        asks_recursion(opts),
        !are_temporary(paths),
        spaced(
            seq!["find"@] + before + seq![action] + (seq!["rm"@] + opts + paths) + seq!["+"@],
            0,
        ).len() <= usize::MAX,
    ensures
        rm_command_verdict(
            spaced(
                seq!["find"@] + before + seq![action] + (seq!["rm"@] + opts + paths) + seq!["+"@],
                0,
            ),
            Seq::empty(),
        ) matches RmParseDecision::Deny(hit) && hit.pattern_name@ == recursive_rule(
            opts,
            hits_root(paths),
        ) && hit.severity == (if hits_root(paths) {
            Severity::Critical
        } else {
            Severity::High
        }),
{
    let command = seq!["rm"@] + opts + paths;
    let head = seq!["find"@] + before + seq![action];
    let none = Seq::<ExemptionView>::empty();
    rm_is_a_program();
    plain_words_in_a_row(seq!["rm"@], opts);
    plain_words_in_a_row(seq!["rm"@] + opts, paths);
    reveal_strlit("rm");
    reveal_strlit("+");
    assert forall|k: int| 0 <= k < command.len() implies #[trigger] command[k] != "+"@ by {
        if k == 0 {
            assert("rm"@.len() == 2 && "+"@.len() == 1);
        } else if k < opts.len() + 1 {
            assert(command[k] == opts[k - 1]);
        } else {
            assert(command[k] == paths[k - opts.len() - 1]);
        }
    }
    find_runs_its_command(before, action, command);
    command_of_find_is_shorter(head, command);
    plain_command_is_bare(command, MAX_RM_EXECUTION_FRONTENDS as nat);
    plain_removal_verdict(opts, paths);
    reveal_strlit("");
    assert(spaced(command, 0) + ""@ =~= spaced(command, 0));
    assert(nested_verdict(spaced(command, 0), ""@, none) == plain_verdict(
        spaced(command, 0),
        false,
        none,
    ).placeless());
}

/// The command of an action is shorter than all.
proof fn command_of_find_is_shorter(head: Seq<Seq<char>>, command: Seq<Seq<char>>)
    requires
        head.len() > 0,
        command.len() > 0,
    ensures
        spaced(command, 0).len() < spaced(head + command + seq!["+"@], 0).len(),
{
    spaced_in_a_row(head + command, seq!["+"@], 0);
    spaced_in_a_row(head, command, 0);
}

/// What `find` runs is decided as it stands alone, where it is denied.
#[verifier::rlimit(40)]
proof fn find_runs_its_command(
    before: Seq<Seq<char>>,
    action: Seq<char>,
    command: Seq<Seq<char>>,
)
    requires
        are_plain_words(before),
        forall|k: int| 0 <= k < before.len() ==> !is_exec_word(#[trigger] before[k]),
        is_exec_word(action),
        are_plain_words(command),
        command.len() > 0,
        forall|k: int| 0 <= k < command.len() ==> #[trigger] command[k] != "+"@,
        spaced(seq!["find"@] + before + seq![action] + command + seq!["+"@], 0).len() <= usize::MAX,
    ensures
        ({
            let c = spaced(seq!["find"@] + before + seq![action] + command + seq!["+"@], 0);
            let d = nested_verdict(spaced(command, 0), ""@, Seq::empty());
            d is Deny ==> rm_command_verdict(c, Seq::empty()) == in_bytes(d, c)
        }),
{
    let head = seq!["find"@] + before + seq![action];
    let words = head + command + seq!["+"@];
    let c = spaced(words, 0);
    let at = before.len() as int + 1;
    let end = at + 1 + command.len() as int;
    let none = Seq::<ExemptionView>::empty();
    xargs_and_find_are_programs();
    action_is_plain(action);
    plain_words_in_a_row(seq!["find"@], before);
    plain_words_in_a_row(seq!["find"@] + before, seq![action]);
    plain_words_in_a_row(head, command);
    plain_words_in_a_row(head + command, seq!["+"@]);
    assert(words[0] == "find"@ && words[at] == action && words[at + 1] == command[0] && words[end]
        == "+"@);
    other_programs_are_decided_by_what_they_run(words, none);
    plain_words_are_tokens(words, ShellDialect::Unknown);
    let toks = tokens(c, ShellDialect::Unknown);
    assert forall|m: int| 0 <= m < toks.len() implies (#[trigger] toks[m]).word() && toks[m].of(c)
        == words[m] by {
        assert(toks[m].word());
    }
    assert forall|k: int| 1 <= k < at implies !is_exec_word(#[trigger] words[k]) by {
        assert(words[k] == before[k - 1]);
    }
    find_comes_to_its_action(c, toks, words, 1, at, none);
    assert forall|k: int| at + 1 <= k < end implies #[trigger] words[k] != "+"@ by {
        assert(words[k] == command[k - at - 1]);
    }
    action_ends(c, toks, words, at + 1, end);
    plain_word_stands_for_itself("find"@);
    plain_word_stands_for_itself(action);
    assert(toks[0].word() && toks[0].of(c) == "find"@);
    assert(toks[at].word() && toks[at].of(c) == action);
    action_is_decided(c, toks, words, command, at + 1);
}

/// What is decided of the command of an action.
#[verifier::rlimit(40)]
proof fn action_is_decided(
    c: Seq<char>,
    toks: Seq<NormalizeToken>,
    words: Seq<Seq<char>>,
    command: Seq<Seq<char>>,
    at: int,
)
    requires
        are_plain_words(words),
        words.len() == at + command.len() + 1,
        0 <= at,
        command.len() > 0,
        c == spaced(words, 0),
        c.len() <= usize::MAX,
        toks == tokens(c, ShellDialect::Unknown),
        forall|k: int| 0 <= k < command.len() ==> words[k + at] == #[trigger] command[k],
        words.last() == "+"@,
    ensures
        ({
            let d = nested_verdict(spaced(command, 0), ""@, Seq::empty());
            d is Deny ==> exec_verdict(c, toks, at, at + command.len(), Seq::empty()) == d
        }),
{
    let end = at + command.len() as int;
    let tail = command + seq!["+"@];
    plain_words_are_tokens(words, ShellDialect::Unknown);
    reveal_strlit("+");
    assert forall|k: int| 0 <= k < tail.len() implies words[k + at] == #[trigger] tail[k] by {}
    spaced_behind(words, at, tail, 0);
    spaced_in_a_row(command, seq!["+"@], 0);
    assert(seq!["+"@][0] == "+"@);
    assert(spaced(seq!["+"@], 0) == "+"@);
    let a = toks[at];
    let z = toks[end - 1];
    assert(a.word() && rest(c, a.start as int) == spaced(tail, 0));
    assert(z.word() && z.of(c) == words[end - 1] && rest(c, z.start as int) == spaced(
        words,
        end - 1,
    ));
    assert(spaced(words, end - 1) == words[end - 1].push(' ') + spaced(words, end));
    assert(spaced(words, end) == "+"@);
    assert(z.end == c.len() - 2);
    assert(c.subrange(a.start as int, z.end as int) =~= spaced(command, 0)) by {
        let r = rest(c, a.start as int);
        assert(r.len() == spaced(command, 0).len() + 2);
        assert forall|k: int| 0 <= k < spaced(command, 0).len() implies c.subrange(
            a.start as int,
            z.end as int,
        )[k] == spaced(command, 0)[k] by {
            assert(c[a.start + k] == r[k]);
        }
    }
    assert(a.of(c) == words[at]);
    assert(is_plain_word(words[at]));
    plain_word_is_itself(words[at]);
    no_braces(words[at]);
    reveal(exec_verdict);
}

/// A plain word holds no braces.
proof fn no_braces(w: Seq<char>)
    requires
        is_plain_word(w),
    ensures
        !contains_text(w, "{}"@),
{
    reveal_strlit("{}");
    if contains_text(w, "{}"@) {
        let i = choose|i: int| occurs_at(w, i, "{}"@);
        assert(w.subrange(i, i + 2)[0] == '{');
        assert(is_plain(w[i]));
    }
}

/// The actions of `find`, and the sign that ends them, are plain words.
proof fn action_is_plain(action: Seq<char>)
    requires
        is_exec_word(action),
    ensures
        is_plain_word(action),
        is_plain_word("+"@),
{
    reveal_strlit("-exec");
    reveal_strlit("-execdir");
    reveal_strlit("+");
    assert forall|i: int| 0 <= i < action.len() implies is_plain(#[trigger] action[i]) by {}
}

} // verus!
