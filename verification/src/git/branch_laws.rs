//! What a `git branch` command of plain words does, by the letters and names of
//! its options.

use vstd::prelude::*;
use crate::git::branch::{arguments_may_mutate, branch_decision, literal_views};
use crate::git::expansion::MAX_GIT_SEMANTIC_TOKENS;
use crate::git::laws::plain_branch_command_is_decided_by_its_arguments;
use crate::git::option_laws::{
    can_be_taken_back, delete_and_force_are_set_and_taken_back, has_attached_value, is_quiet_option,
    may_lack_value, needs_value, option_words_start, other_options_change_nothing,
};
use crate::git::options::{
    argument_step, cluster_step, ends_options, no_mutation, BranchCommandDecision,
    BranchMutationState, OptionStep, ValueWord,
};
use crate::git::plain::{are_plain_words, spaced};
use crate::shell::token::ShellDialect;
use crate::text::starts;

verus! {

/// A short option of `git branch` that neither deletes nor forces, and takes no
/// value.
pub open spec fn is_quiet_letter(c: char) -> bool {
    c == 'v' || c == 'q' || c == 'r' || c == 'a' || c == 'm' || c == 'c' || c == 'l' || c == 'i'
}

/// A short option of `git branch` that deletes or forces.
pub open spec fn is_mutating_letter(c: char) -> bool {
    c == 'd' || c == 'D' || c == 'f' || c == 'M' || c == 'C'
}

/// Short options without values.
pub open spec fn are_letters(letters: Seq<char>) -> bool {
    forall|i: int|
        0 <= i < letters.len() ==> is_quiet_letter(#[trigger] letters[i]) || is_mutating_letter(
            letters[i],
        )
}

/// Short options that neither delete nor force.
pub open spec fn are_quiet_letters(letters: Seq<char>) -> bool {
    forall|i: int| 0 <= i < letters.len() ==> is_quiet_letter(#[trigger] letters[i])
}

/// The state behind short options without values.
pub open spec fn behind_letters(m: BranchMutationState, letters: Seq<char>) -> BranchMutationState {
    BranchMutationState {
        delete: m.delete || letters.contains('d'),
        force_delete: m.force_delete || letters.contains('D'),
        force: m.force || letters.contains('f'),
        forced_move_or_copy: m.forced_move_or_copy || letters.contains('M') || letters.contains('C'),
    }
}

/// The letters of a cluster from the `i`th to the `e`th are read one by one.
#[verifier::rlimit(40)]
proof fn letters_are_read(token: Seq<char>, i: int, e: int, m: BranchMutationState)
    requires
        0 <= i <= e <= token.len(),
        are_letters(token.subrange(i, e)),
    ensures
        cluster_step(token, i, m) == cluster_step(
            token,
            e,
            behind_letters(m, token.subrange(i, e)),
        ),
    decreases e - i,
{
    let s = token.subrange(i, e);
    if i < e {
        let c = token[i];
        let r = token.subrange(i + 1, e);
        assert(s[0] == c);
        assert(is_quiet_letter(s[0]) || is_mutating_letter(s[0]));
        assert forall|j: int| 0 <= j < r.len() implies is_quiet_letter(#[trigger] r[j])
            || is_mutating_letter(r[j]) by {
            assert(r[j] == s[j + 1]);
        }
        letters_are_read(token, i + 1, e, m.with_flag(c));
        assert forall|x: char| s.contains(x) == (x == c || r.contains(x)) by {
            if r.contains(x) {
                let j = choose|j: int| 0 <= j < r.len() && r[j] == x;
                assert(s[j + 1] == x);
            }
            if s.contains(x) && x != c {
                let j = choose|j: int| 0 <= j < s.len() && s[j] == x;
                assert(r[j - 1] == x);
            }
        }
        assert(behind_letters(m.with_flag(c), r) == behind_letters(m, s));
    } else {
        assert(behind_letters(m, s) == m);
    }
}

/// The short options of `git branch` without values are the letters of
/// [`is_quiet_letter`] and [`is_mutating_letter`]. In a cluster the first leave
/// everything as it is, and each of the others does what it does alone. Behind
/// them `u` takes the rest of the cluster or the next word, and `t` the rest of
/// the cluster; Git refuses any other letter.
#[verifier::rlimit(40)]
pub proof fn clusters_are_read_letter_by_letter(
    letters: Seq<char>,
    other: char,
    tail: Seq<char>,
    m: BranchMutationState,
)
    requires
        are_letters(letters),
    ensures
        letters.len() > 0 ==> argument_step("-"@ + letters, m) == OptionStep::Next(
            behind_letters(m, letters),
            ValueWord::Absent,
        ),
        argument_step("-"@ + letters + "u"@, m) == OptionStep::Next(
            behind_letters(m, letters),
            ValueWord::Required,
        ),
        argument_step("-"@ + letters + "t"@, m) == OptionStep::Next(
            behind_letters(m, letters),
            ValueWord::Absent,
        ),
        tail.len() > 0 ==> argument_step("-"@ + letters + "u"@ + tail, m) == OptionStep::Next(
            behind_letters(m, letters),
            ValueWord::Absent,
        ) && argument_step("-"@ + letters + "t"@ + tail, m) == OptionStep::Next(
            behind_letters(m, letters),
            ValueWord::Absent,
        ),
        !is_quiet_letter(other) && !is_mutating_letter(other) && other != 'u' && other != 't'
            && other != '-' ==> argument_step("-"@ + letters + seq![other] + tail, m)
            == OptionStep::Stop,
{
    reveal_strlit("-");
    reveal_strlit("--");
    reveal_strlit("u");
    reveal_strlit("t");
    let n = letters.len() as int;
    let a = "-"@ + letters;
    let b = a + "u"@;
    let c = a + "t"@;
    let d = b + tail;
    let e = c + tail;
    let f = a + seq![other] + tail;
    assert(a.subrange(1, n + 1) =~= letters);
    assert(b.subrange(1, n + 1) =~= letters);
    assert(c.subrange(1, n + 1) =~= letters);
    assert(d.subrange(1, n + 1) =~= letters);
    assert(e.subrange(1, n + 1) =~= letters);
    assert(f.subrange(1, n + 1) =~= letters);
    letters_are_read(a, 1, n + 1, m);
    letters_are_read(b, 1, n + 1, m);
    letters_are_read(c, 1, n + 1, m);
    letters_are_read(d, 1, n + 1, m);
    letters_are_read(e, 1, n + 1, m);
    letters_are_read(f, 1, n + 1, m);
    if n > 0 {
        assert(is_quiet_letter(letters[0]) || is_mutating_letter(letters[0]));
        one_dash(a);
    }
    assert(b[1] == if n > 0 { letters[0] } else { 'u' });
    assert(c[1] == if n > 0 { letters[0] } else { 't' });
    one_dash(b);
    one_dash(c);
    assert(d[1] == b[1] && e[1] == c[1]);
    one_dash(d);
    one_dash(e);
    assert(b[n + 1] == 'u' && d[n + 1] == 'u');
    assert(c[n + 1] == 't' && e[n + 1] == 't');
    let s = behind_letters(m, letters);
    assert(s.with_flag('t') == s);
    assert(cluster_step(c, n + 2, s) == OptionStep::Next(s, ValueWord::Absent));
    if !is_quiet_letter(other) && !is_mutating_letter(other) && other != 'u' && other != 't' && other
        != '-' {
        assert(f[1] == if n > 0 { letters[0] } else { other });
        assert(f[n + 1] == other);
        one_dash(f);
    }
}

/// A word with one dash in front is a cluster.
proof fn one_dash(w: Seq<char>)
    requires
        w.len() > 1,
        w[0] == '-',
        w[1] != '-',
    ensures
        starts(w, "-"@),
        !starts(w, "--"@),
{
    reveal_strlit("-");
    reveal_strlit("--");
    assert(w.subrange(0, 1) =~= "-"@);
    if starts(w, "--"@) {
        assert(w.subrange(0, 2)[1] == '-');
    }
}

/// A word that changes nothing and takes no other word: a name, options without
/// effect and without values, an option with its value attached, or the negation
/// of an option without effect.
pub open spec fn is_quiet_word(w: Seq<char>) -> bool {
    ||| w.len() > 0 && w[0] != '-'
    ||| exists|l: Seq<char>| are_quiet_letters(l) && l.len() > 0 && w == #[trigger] ("-"@ + l)
    ||| exists|n: Seq<char>|
        (is_quiet_option(n) || has_attached_value(n)) && w == #[trigger] ("--"@ + n)
    ||| exists|n: Seq<char>, v: Seq<char>|
        (has_attached_value(n) || needs_value(n) || may_lack_value(n)) && w == #[trigger] ("--"@ + n
            + "="@ + v)
    ||| exists|n: Seq<char>|
        can_be_taken_back(n) && n != "delete"@ && n != "force"@ && w == #[trigger] ("--no-"@ + n)
}

/// A word that changes nothing and takes the next word as its value.
pub open spec fn takes_next_word(w: Seq<char>) -> bool {
    ||| exists|l: Seq<char>| are_quiet_letters(l) && w == #[trigger] ("-"@ + l + "u"@)
    ||| exists|n: Seq<char>| (needs_value(n) || may_lack_value(n)) && w == #[trigger] ("--"@ + n)
}

/// A word that deletes or forces.
pub open spec fn is_mutating_word(w: Seq<char>) -> bool {
    ||| w == "--delete"@
    ||| w == "--force"@
    ||| exists|l: Seq<char>|
        are_letters(l) && (l.contains('d') || l.contains('D') || l.contains('f') || l.contains('M')
            || l.contains('C')) && w == #[trigger] ("-"@ + l)
}

/// Arguments from the `i`th on that are words which change nothing, options with
/// their values, and words that delete or force, up to the end or to a word that
/// ends the options.
pub open spec fn are_understood(args: Seq<Seq<char>>, i: int) -> bool
    decreases args.len() - i,
{
    if i < 0 || i >= args.len() {
        true
    } else if args[i] == "--"@ || args[i] == "--end-of-options"@ {
        true
    } else if is_quiet_word(args[i]) || is_mutating_word(args[i]) {
        are_understood(args, i + 1)
    } else {
        takes_next_word(args[i]) && i + 1 < args.len() && are_understood(args, i + 2)
    }
}

/// Whether one of the options from the `i`th argument on deletes or forces.
pub open spec fn some_option_mutates(args: Seq<Seq<char>>, i: int) -> bool
    decreases args.len() - i,
{
    if i < 0 || i >= args.len() {
        false
    } else if args[i] == "--"@ || args[i] == "--end-of-options"@ {
        false
    } else if is_mutating_word(args[i]) {
        true
    } else if is_quiet_word(args[i]) {
        some_option_mutates(args, i + 1)
    } else {
        i + 1 < args.len() && some_option_mutates(args, i + 2)
    }
}

/// The step of a word that changes nothing.
#[verifier::rlimit(40)]
proof fn quiet_word_step(w: Seq<char>, m: BranchMutationState)
    requires
        is_quiet_word(w),
    ensures
        argument_step(w, m) == OptionStep::Next(m, ValueWord::Absent),
        !ends_options(w),
{
    reveal_strlit("-");
    reveal_strlit("--");
    reveal_strlit("--end-of-options");
    if w.len() > 0 && w[0] != '-' {
        if starts(w, "-"@) {
            assert(w.subrange(0, 1)[0] == '-');
        }
        if starts(w, "--"@) {
            assert(w.subrange(0, 2)[0] == '-');
        }
    } else if exists|l: Seq<char>|
        are_quiet_letters(l) && l.len() > 0 && w == #[trigger] ("-"@ + l) {
        let l = choose|l: Seq<char>|
            are_quiet_letters(l) && l.len() > 0 && w == #[trigger] ("-"@ + l);
        quiet_letters_keep(l, m);
        clusters_are_read_letter_by_letter(l, 'u', Seq::empty(), m);
        assert(w[1] == l[0]);
        assert(is_quiet_letter(l[0]));
    } else if exists|n: Seq<char>|
        (is_quiet_option(n) || has_attached_value(n)) && w == #[trigger] ("--"@ + n) {
        let n = choose|n: Seq<char>|
            (is_quiet_option(n) || has_attached_value(n)) && w == #[trigger] ("--"@ + n);
        other_options_change_nothing(n, Seq::empty(), m);
        option_words_start(n, None);
        assert(w =~= "--"@ + n + Seq::empty());
    } else if exists|n: Seq<char>, v: Seq<char>|
        (has_attached_value(n) || needs_value(n) || may_lack_value(n)) && w == #[trigger] ("--"@ + n
            + "="@ + v) {
        let (n, v) = choose|n: Seq<char>, v: Seq<char>|
            (has_attached_value(n) || needs_value(n) || may_lack_value(n)) && w == #[trigger] ("--"@
                + n + "="@ + v);
        other_options_change_nothing(n, v, m);
        option_words_start(n, Some(v));
        assert(w =~= "--"@ + n + ("="@ + v));
    } else {
        let n = choose|n: Seq<char>|
            can_be_taken_back(n) && n != "delete"@ && n != "force"@ && w == #[trigger] ("--no-"@
                + n);
        other_options_change_nothing(n, Seq::empty(), m);
        reveal_strlit("--no-");
        assert(w[2] == 'n');
    }
}

/// Short options without effect leave the state as it is.
proof fn quiet_letters_keep(l: Seq<char>, m: BranchMutationState)
    requires
        are_quiet_letters(l),
    ensures
        are_letters(l),
        behind_letters(m, l) == m,
{
    assert forall|x: char| l.contains(x) implies is_quiet_letter(x) by {
        let j = choose|j: int| 0 <= j < l.len() && l[j] == x;
        assert(is_quiet_letter(l[j]));
    }
    assert(!l.contains('d') && !l.contains('D') && !l.contains('f') && !l.contains('M')
        && !l.contains('C'));
}

/// The step of a word that takes the next one as its value.
#[verifier::rlimit(40)]
proof fn value_word_step(w: Seq<char>, m: BranchMutationState)
    requires
        takes_next_word(w),
    ensures
        argument_step(w, m) == OptionStep::Next(m, ValueWord::Required) || argument_step(w, m)
            == OptionStep::Next(m, ValueWord::Optional),
        !ends_options(w),
{
    reveal_strlit("-");
    reveal_strlit("--");
    reveal_strlit("u");
    reveal_strlit("--end-of-options");
    if exists|l: Seq<char>| are_quiet_letters(l) && w == #[trigger] ("-"@ + l + "u"@) {
        let l = choose|l: Seq<char>| are_quiet_letters(l) && w == #[trigger] ("-"@ + l + "u"@);
        quiet_letters_keep(l, m);
        clusters_are_read_letter_by_letter(l, 'u', Seq::empty(), m);
        if l.len() > 0 {
            assert(w[1] == l[0]);
            assert(is_quiet_letter(l[0]));
        } else {
            assert(w[1] == 'u');
        }
    } else {
        let n = choose|n: Seq<char>|
            (needs_value(n) || may_lack_value(n)) && w == #[trigger] ("--"@ + n);
        other_options_change_nothing(n, Seq::empty(), m);
        option_words_start(n, None);
        assert(w =~= "--"@ + n + Seq::empty());
    }
}

/// The step of a word that deletes or forces.
#[verifier::rlimit(40)]
proof fn mutating_word_step(w: Seq<char>, m: BranchMutationState)
    requires
        is_mutating_word(w),
    ensures
        argument_step(w, m) matches OptionStep::Next(n, v) && v == ValueWord::Absent && n.mutates(),
        !ends_options(w),
{
    reveal_strlit("-");
    reveal_strlit("--");
    reveal_strlit("--end-of-options");
    reveal_strlit("--delete");
    reveal_strlit("--force");
    delete_and_force_are_set_and_taken_back(m);
    if w != "--delete"@ && w != "--force"@ {
        let l = choose|l: Seq<char>|
            are_letters(l) && (l.contains('d') || l.contains('D') || l.contains('f') || l.contains(
                'M',
            ) || l.contains('C')) && w == #[trigger] ("-"@ + l);
        clusters_are_read_letter_by_letter(l, 'u', Seq::empty(), m);
        assert(l.len() > 0);
        assert(w[1] == l[0]);
        assert(is_quiet_letter(l[0]) || is_mutating_letter(l[0]));
    }
}

/// What understood arguments from the `i`th on may do is what one of them does or
/// what was done before.
#[verifier::rlimit(40)]
proof fn understood_arguments(args: Seq<Seq<char>>, i: int, m: BranchMutationState)
    requires
        are_understood(args, i),
        0 <= i,
    ensures
        arguments_may_mutate(literal_views(args), i, ShellDialect::Posix, m) == (m.mutates()
            || some_option_mutates(args, i)),
    decreases args.len() - i,
{
    if i < args.len() {
        let w = args[i];
        let views = literal_views(args);
        assert(views[i].decoded == w && !views[i].dynamic);
        if w == "--"@ || w == "--end-of-options"@ {
        } else if is_mutating_word(w) {
            mutating_word_step(w, m);
            if is_quiet_word(w) {
                quiet_word_step(w, no_mutation());
                mutating_word_step(w, no_mutation());
            }
            let n = argument_step(w, m)->Next_0;
            understood_arguments(args, i + 1, n);
        } else if is_quiet_word(w) {
            quiet_word_step(w, m);
            understood_arguments(args, i + 1, m);
        } else {
            value_word_step(w, m);
            assert(!views[i + 1].dynamic);
            understood_arguments(args, i + 2, m);
        }
    }
}

/// A `git branch` command of plain words whose arguments are names, options
/// without effect, options with their values, and options that delete or force is
/// destructive where one of the last is among them, before the options end, and
/// harmless otherwise.
pub proof fn branch_command_is_decided_by_what_its_options_do(args: Seq<Seq<char>>)
    requires
        are_plain_words(args),
        args.len() + 2 <= MAX_GIT_SEMANTIC_TOKENS,
        spaced(seq!["git"@, "branch"@] + args, 0).len() <= usize::MAX,
        are_understood(args, 0),
    ensures
        branch_decision(spaced(seq!["git"@, "branch"@] + args, 0), ShellDialect::Posix)
            == if some_option_mutates(args, 0) {
            BranchCommandDecision::Destructive
        } else {
            BranchCommandDecision::NonDestructive
        },
{
    plain_branch_command_is_decided_by_its_arguments(args);
    understood_arguments(args, 0, no_mutation());
}

/// Words that change nothing, before or behind an option that deletes or forces,
/// do not keep `git branch` from deleting or forcing.
pub proof fn quiet_words_hide_nothing(
    before: Seq<Seq<char>>,
    w: Seq<char>,
    behind: Seq<Seq<char>>,
)
    requires
        are_plain_words(before + seq![w] + behind),
        before.len() + behind.len() + 3 <= MAX_GIT_SEMANTIC_TOKENS,
        spaced(seq!["git"@, "branch"@] + (before + seq![w] + behind), 0).len() <= usize::MAX,
        forall|k: int| 0 <= k < before.len() ==> is_quiet_word(#[trigger] before[k]),
        is_mutating_word(w),
        forall|k: int| 0 <= k < behind.len() ==> is_quiet_word(#[trigger] behind[k]),
    ensures
        branch_decision(
            spaced(seq!["git"@, "branch"@] + (before + seq![w] + behind), 0),
            ShellDialect::Posix,
        ) == BranchCommandDecision::Destructive,
{
    let args = before + seq![w] + behind;
    understood_from(args, before.len() as int, 0);
    quiet_words_lead(args, 0, before.len() as int);
    branch_command_is_decided_by_what_its_options_do(args);
}

/// Words that change nothing are understood from the `i`th on.
proof fn understood_from(args: Seq<Seq<char>>, at: int, i: int)
    requires
        0 <= at < args.len(),
        0 <= i <= args.len(),
        is_mutating_word(args[at]),
        forall|k: int| 0 <= k < args.len() && k != at ==> is_quiet_word(#[trigger] args[k]),
    ensures
        are_understood(args, i),
    decreases args.len() - i,
{
    if i < args.len() {
        if i != at {
            assert(is_quiet_word(args[i]));
        }
        understood_from(args, at, i + 1);
    }
}

/// Behind words that change nothing an option that deletes or forces does so.
proof fn quiet_words_lead(args: Seq<Seq<char>>, i: int, at: int)
    requires
        0 <= i <= at < args.len(),
        is_mutating_word(args[at]),
        forall|k: int| 0 <= k < at ==> is_quiet_word(#[trigger] args[k]),
    ensures
        some_option_mutates(args, i),
    decreases at - i,
{
    if i < at {
        assert(is_quiet_word(args[i]));
        quiet_word_step(args[i], no_mutation());
        quiet_words_lead(args, i + 1, at);
    } else {
        mutating_word_step(args[i], no_mutation());
    }
}

} // verus!
