//! What is decided of `Remove-Item` in plain words, by its names and switches.

use vstd::prelude::*;
use crate::filesystem::command::dialect_verdict;
use crate::filesystem::path_laws::{
    is_below_user_temp, is_component_name,
    paths_below_the_temporary_directory_of_a_user_are_trusted,
    trusted_windows_paths_are_below_the_temporary_directory_of_a_user, user_temp_path,
};
use crate::filesystem::paths::windows_temp;
use crate::filesystem::plain::{
    plain_word_stands_for_itself, plain_words_are_one_command, plain_words_are_tokens,
};
use crate::filesystem::powershell::{
    argument_role, first_word_from, is_assignment, path_parameter, remove_item_from,
    remove_item_verdict, removes_items, switch_value, with_word, RemoveItem,
};
use crate::filesystem::rm_laws::are_tokens_of;
use crate::filesystem::segment::{ExemptionView, RmParseDecision};
use crate::git::branch::behind_ampersand;
use crate::git::plain::{are_plain_words, is_plain, is_plain_word, spaced, spaced_is_plain};
use crate::pack::Severity;
use crate::shell::decode::{decoded_next, ShellTokenRole};
use crate::shell::token::{tokens, NormalizeToken, ShellDialect};
use crate::text::{is_alpha, lower, lowered, next_index, next_index_is_first, rest, starts};

verus! {

/// `Remove-Item` or one of its aliases, in letters of either case.
pub open spec fn is_remover(name: Seq<char>) -> bool {
    let n = lowered(name);
    n == "remove-item"@ || n == "rm"@ || n == "ri"@ || n == "del"@ || n == "erase"@ || n == "rd"@
        || n == "rmdir"@
}

/// `-Recurse` or a beginning of it, in letters of either case.
pub open spec fn is_recurse_switch(w: Seq<char>) -> bool {
    let n = lowered(w);
    n == "-r"@ || n == "-re"@ || n == "-rec"@ || n == "-recu"@ || n == "-recur"@ || n == "-recurs"@
        || n == "-recurse"@
}

/// `-WhatIf` or a beginning of it that says so, in letters of either case.
pub open spec fn is_what_if_switch(w: Seq<char>) -> bool {
    let n = lowered(w);
    n == "-wh"@ || n == "-wha"@ || n == "-what"@ || n == "-whati"@ || n == "-whatif"@
}

/// The names of `Remove-Item` are the listed ones and no others.
pub proof fn removers_are_the_listed_ones(name: Seq<char>)
    ensures
        removes_items(name) <==> is_remover(name),
{
    lower_case_names();
}

/// The listed names are in lower case.
proof fn lower_case_names()
    ensures
        lowered("remove-item"@) == "remove-item"@,
        lowered("rm"@) == "rm"@,
        lowered("ri"@) == "ri"@,
        lowered("del"@) == "del"@,
        lowered("erase"@) == "erase"@,
        lowered("rd"@) == "rd"@,
        lowered("rmdir"@) == "rmdir"@,
{
    reveal_strlit("remove-item");
    reveal_strlit("rm");
    reveal_strlit("ri");
    reveal_strlit("del");
    reveal_strlit("erase");
    reveal_strlit("rd");
    reveal_strlit("rmdir");
    assert(lowered("remove-item"@) =~= "remove-item"@);
    assert(lowered("rm"@) =~= "rm"@);
    assert(lowered("ri"@) =~= "ri"@);
    assert(lowered("del"@) =~= "del"@);
    assert(lowered("erase"@) =~= "erase"@);
    assert(lowered("rd"@) =~= "rd"@);
    assert(lowered("rmdir"@) =~= "rmdir"@);
}

/// The beginnings of a switch, with its dash.
#[verifier::rlimit(40)]
proof fn switch_is_a_beginning(w: Seq<char>, canonical: Seq<char>, minimum: int, unknown: bool)
    requires
        !w.contains(':'),
        0 < minimum,
    ensures
        switch_value(w, canonical, minimum, unknown) == (if w.len() > minimum && w[0] == '-' && w.len()
            - 1 <= canonical.len() && lowered(w) == seq!['-'] + canonical.subrange(0, w.len() - 1) {
            Some(true)
        } else {
            None
        }),
{
    if w.len() > 0 && w[0] == '-' {
        let p = rest(w, 1);
        next_index_is_first(p, 0, ':');
        let e = next_index(p, 0, ':');
        if e < p.len() {
            assert(w[e + 1] == ':');
        }
        assert(p.subrange(0, e) =~= p);
        let n = lowered(p);
        assert(lowered(w) =~= seq!['-'] + n);
        assert(lowered(w).subrange(1, w.len() as int) =~= n);
        if w.len() - 1 <= canonical.len() {
            let q = canonical.subrange(0, w.len() - 1);
            assert((seq!['-'] + q).subrange(1, w.len() as int) =~= q);
        }
    }
}

/// The beginnings of `-Recurse`.
#[verifier::rlimit(40)]
proof fn recurse_is_listed(w: Seq<char>)
    requires
        !w.contains(':'),
    ensures
        switch_value(w, "recurse"@, 1, true) == (if is_recurse_switch(w) {
            Some(true)
        } else {
            None
        }),
        is_recurse_switch(w) ==> w.len() > 1 && w[0] == '-',
{
    reveal_strlit("recurse");
    reveal_strlit("-r");
    reveal_strlit("-re");
    reveal_strlit("-rec");
    reveal_strlit("-recu");
    reveal_strlit("-recur");
    reveal_strlit("-recurs");
    reveal_strlit("-recurse");
    switch_is_a_beginning(w, "recurse"@, 1, true);
    let r = "recurse"@;
    assert("-r"@ =~= seq!['-'] + r.subrange(0, 1));
    assert("-re"@ =~= seq!['-'] + r.subrange(0, 2));
    assert("-rec"@ =~= seq!['-'] + r.subrange(0, 3));
    assert("-recu"@ =~= seq!['-'] + r.subrange(0, 4));
    assert("-recur"@ =~= seq!['-'] + r.subrange(0, 5));
    assert("-recurs"@ =~= seq!['-'] + r.subrange(0, 6));
    assert("-recurse"@ =~= seq!['-'] + r.subrange(0, 7));
    if is_recurse_switch(w) {
        assert(lowered(w)[0] == '-');
        assert(lower(w[0]) == '-');
    }
}

/// The beginnings of `-WhatIf`.
#[verifier::rlimit(40)]
proof fn what_if_is_listed(w: Seq<char>)
    requires
        !w.contains(':'),
    ensures
        switch_value(w, "whatif"@, 2, false) == (if is_what_if_switch(w) {
            Some(true)
        } else {
            None
        }),
        is_what_if_switch(w) ==> w.len() > 1 && w[0] == '-' && !is_recurse_switch(w),
{
    reveal_strlit("whatif");
    reveal_strlit("-wh");
    reveal_strlit("-wha");
    reveal_strlit("-what");
    reveal_strlit("-whati");
    reveal_strlit("-whatif");
    reveal_strlit("-r");
    reveal_strlit("-re");
    reveal_strlit("-rec");
    reveal_strlit("-recu");
    reveal_strlit("-recur");
    reveal_strlit("-recurs");
    reveal_strlit("-recurse");
    switch_is_a_beginning(w, "whatif"@, 2, false);
    let r = "whatif"@;
    assert("-wh"@ =~= seq!['-'] + r.subrange(0, 2));
    assert("-wha"@ =~= seq!['-'] + r.subrange(0, 3));
    assert("-what"@ =~= seq!['-'] + r.subrange(0, 4));
    assert("-whati"@ =~= seq!['-'] + r.subrange(0, 5));
    assert("-whatif"@ =~= seq!['-'] + r.subrange(0, 6));
    if is_what_if_switch(w) {
        assert(lowered(w)[0] == '-' && lowered(w)[1] == 'w');
        assert(lower(w[0]) == '-');
    }
}

/// Whether one of the arguments from the `i`th on recurses.
pub open spec fn some_recurses(args: Seq<Seq<char>>, i: int) -> bool
    decreases args.len() - i,
{
    0 <= i < args.len() && (is_recurse_switch(args[i]) || some_recurses(args, i + 1))
}

/// Whether one of the arguments from the `i`th on only reports.
pub open spec fn some_reports(args: Seq<Seq<char>>, i: int) -> bool
    decreases args.len() - i,
{
    0 <= i < args.len() && (is_what_if_switch(args[i]) || some_reports(args, i + 1))
}

/// Whether one of the arguments from the `i`th on is a target: a word without a
/// dash in front.
pub open spec fn some_target(args: Seq<Seq<char>>, i: int) -> bool
    decreases args.len() - i,
{
    0 <= i < args.len() && (args[i][0] != '-' || some_target(args, i + 1))
}

/// Whether one of the arguments from the `i`th on is a target elsewhere than below
/// the temporary directory of a user.
pub open spec fn some_target_elsewhere(args: Seq<Seq<char>>, i: int) -> bool
    decreases args.len() - i,
{
    0 <= i < args.len() && ((args[i][0] != '-' && !is_below_user_temp(args[i]))
        || some_target_elsewhere(args, i + 1))
}

/// Whether all targets from the `i`th argument on stand below the temporary directory
/// of a user, as a POSIX shell on Windows writes it.
pub open spec fn all_targets_temporary(args: Seq<Seq<char>>, i: int) -> bool
    decreases args.len() - i,
{
    0 <= i < args.len() ==> (args[i][0] != '-' ==> is_user_temp(args[i])) && all_targets_temporary(
        args,
        i + 1,
    )
}

/// A path below the temporary directory of a user.
pub open spec fn is_user_temp(w: Seq<char>) -> bool {
    exists|d: char, user: Seq<char>, name: Seq<char>|
        is_alpha(d) && is_plain_word(user) && is_plain_word(name) && is_component_name(user)
            && is_component_name(name) && w == #[trigger] user_temp_path(d, user, name)
}

/// A path below the temporary directory of a user is trusted.
proof fn user_temp_is_trusted(w: Seq<char>)
    requires
        is_user_temp(w),
    ensures
        windows_temp(w),
{
    let (d, user, name) = choose|d: char, user: Seq<char>, name: Seq<char>|
        is_alpha(d) && is_plain_word(user) && is_plain_word(name) && is_component_name(user)
            && is_component_name(name) && w == #[trigger] user_temp_path(d, user, name);
    paths_below_the_temporary_directory_of_a_user_are_trusted(d, user, name);
}

/// What a plain word asks of `Remove-Item`.
#[verifier::rlimit(40)]
proof fn plain_word_asks(w: Seq<char>, a: RemoveItem)
    requires
        is_plain_word(w),
    ensures
        ({
            let b = with_word(w, a);
            &&& b.recurse == (a.recurse || is_recurse_switch(w))
            &&& b.what_if == (a.what_if || is_what_if_switch(w))
            &&& b.has_target == (a.has_target || w[0] != '-')
            &&& w[0] == '-' ==> b.literal_temp == a.literal_temp
            &&& w[0] != '-' ==> b.literal_temp == (a.literal_temp && windows_temp(w))
        }),
{
    plain_word_stands_for_itself(w);
    recurse_is_listed(w);
    what_if_is_listed(w);
    reveal_strlit("-");
    if w[0] == '-' {
        assert(w.subrange(0, 1) =~= "-"@);
    }
    if starts(w, "-"@) {
        assert(w.subrange(0, 1)[0] == '-');
    }
    next_index_is_first(w, 0, ':');
    let e = next_index(w, 0, ':');
    if e < w.len() {
        assert(w[e] == ':');
    }
    assert(path_parameter(w) is None);
}

/// What the arguments of `Remove-Item` from the `i`th on ask for.
#[verifier::rlimit(40)]
proof fn plain_words_ask(
    c: Seq<char>,
    toks: Seq<NormalizeToken>,
    words: Seq<Seq<char>>,
    args: Seq<Seq<char>>,
    i: int,
    a: RemoveItem,
)
    requires
        are_tokens_of(c, toks, words),
        words.len() == args.len() + 1,
        forall|k: int| 0 <= k < args.len() ==> words[k + 1] == #[trigger] args[k],
        0 <= i <= args.len(),
    ensures
        remove_item_from(c, toks, i + 1, false, a) is Some,
        ({
            let b = remove_item_from(c, toks, i + 1, false, a)->0;
            &&& b.recurse == (a.recurse || some_recurses(args, i))
            &&& b.what_if == (a.what_if || some_reports(args, i))
            &&& b.has_target == (a.has_target || some_target(args, i))
            &&& b.literal_temp ==> a.literal_temp && !some_target_elsewhere(args, i)
            &&& a.literal_temp && all_targets_temporary(args, i) ==> b.literal_temp
        }),
    decreases args.len() - i,
{
    if i < args.len() {
        let w = args[i];
        assert(words[i + 1] == w);
        assert(toks[i + 1].word() && toks[i + 1].of(c) == w);
        assert(is_plain_word(words[i + 1]));
        plain_word_stands_for_itself(w);
        reveal_strlit("--%");
        reveal_strlit("@");
        assert(is_plain(w[0]));
        assert("--%"@[2] == '%');
        if w == "--%"@ {
            assert(is_plain(w[2]));
        }
        if starts(w, "@"@) {
            assert(w.subrange(0, 1)[0] == '@');
        }
        assert(decoded_next(w, ShellDialect::PowerShell, argument_role(w), false) == Some(w));
        plain_word_asks(w, a);
        if w[0] != '-' && windows_temp(w) {
            trusted_windows_paths_are_below_the_temporary_directory_of_a_user(w);
        }
        if w[0] != '-' && all_targets_temporary(args, i) {
            user_temp_is_trusted(w);
        }
        plain_words_ask(c, toks, words, args, i + 1, with_word(w, a));
    }
}

/// A plain command that runs `Remove-Item` under any of its names, recursing, with
/// a target elsewhere than below the temporary directory of a user, is denied by
/// the rule on `Remove-Item`, as critical. Where it only reports, or where all its
/// targets stand there, it is allowed.
pub proof fn recursive_remove_item_is_denied(
    name: Seq<char>,
    args: Seq<Seq<char>>,
    ex: Seq<ExemptionView>,
)
    requires
        is_plain_word(name),
        are_plain_words(args),
        is_remover(name),
        some_recurses(args, 0),
        some_target(args, 0),
        spaced(seq![name] + args, 0).len() <= usize::MAX,
    ensures
        some_reports(args, 0) || all_targets_temporary(args, 0) ==> dialect_verdict(
            spaced(seq![name] + args, 0),
            false,
            ShellDialect::PowerShell,
            ex,
        ) is Allow,
        !some_reports(args, 0) && some_target_elsewhere(args, 0) ==> (dialect_verdict(
            spaced(seq![name] + args, 0),
            false,
            ShellDialect::PowerShell,
            ex,
        ) matches RmParseDecision::Deny(hit) && hit.pattern_name@
            == "powershell-remove-item-recursive"@ && hit.severity == Severity::Critical),
{
    remove_item_is_decided(name, args);
}

/// Without recursion, or without a target, `Remove-Item` is no matter of its rule.
pub proof fn other_remove_items_are_no_match(name: Seq<char>, args: Seq<Seq<char>>)
    requires
        is_plain_word(name),
        are_plain_words(args),
        !is_remover(name) || !some_recurses(args, 0) || !some_target(args, 0),
        spaced(seq![name] + args, 0).len() <= usize::MAX,
    ensures
        remove_item_verdict(spaced(seq![name] + args, 0), false) is NoMatch,
{
    remove_item_is_decided(name, args);
}

/// What is decided of a plain command by the rule on `Remove-Item`.
#[verifier::rlimit(40)]
proof fn remove_item_is_decided(name: Seq<char>, args: Seq<Seq<char>>)
    requires
        is_plain_word(name),
        are_plain_words(args),
        spaced(seq![name] + args, 0).len() <= usize::MAX,
    ensures
        ({
            let c = spaced(seq![name] + args, 0);
            let d = remove_item_verdict(c, false);
            &&& !is_assignment(c)
            &&& !is_remover(name) || !some_recurses(args, 0) || !some_target(args, 0) ==> d is NoMatch
            &&& is_remover(name) && some_recurses(args, 0) && some_target(args, 0) ==> {
                &&& some_reports(args, 0) || all_targets_temporary(args, 0) ==> d is Allow
                &&& !some_reports(args, 0) && some_target_elsewhere(args, 0) ==> (
                d matches RmParseDecision::Deny(hit) && hit.pattern_name@
                    == "powershell-remove-item-recursive"@ && hit.severity == Severity::Critical)
            }
        }),
{
    let words = seq![name] + args;
    let c = spaced(words, 0);
    assert forall|k: int| 0 <= k < words.len() implies is_plain_word(#[trigger] words[k]) by {
        if k > 0 {
            assert(words[k] == args[k - 1]);
        }
    }
    assert(words[0] == name);
    plain_words_are_one_command(words, ShellDialect::PowerShell);
    plain_words_are_tokens(words, ShellDialect::PowerShell);
    let toks = tokens(c, ShellDialect::PowerShell);
    assert forall|m: int| 0 <= m < toks.len() implies (#[trigger] toks[m]).word() && toks[m].of(c)
        == words[m] by {
        assert(toks[m].word());
    }
    spaced_is_plain(words, 0);
    assert(is_plain(c[0]));
    assert(behind_ampersand(c) == c);
    assert(toks[0].word() && toks[0].of(c) == name);
    assert(first_word_from(toks, 0) == 0);
    plain_word_stands_for_itself(name);
    reveal_strlit("--%");
    assert("--%"@[2] == '%');
    if name == "--%"@ {
        assert(is_plain(name[2]));
    }
    assert(decoded_next(name, ShellDialect::PowerShell, ShellTokenRole::Syntax, false) == Some(
        name,
    ));
    removers_are_the_listed_ones(name);
    let a = RemoveItem { recurse: false, what_if: false, literal_temp: true, has_target: false };
    assert forall|k: int| 0 <= k < args.len() implies words[k + 1] == #[trigger] args[k] by {}
    plain_words_ask(c, toks, words, args, 0, a);
}

} // verus!
