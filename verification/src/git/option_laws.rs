//! What the options of `git branch` do, each by its name.

use vstd::prelude::*;
use crate::git::options::{
    abbreviated, argument_step, branch_long_option, branch_long_options, entry_named, resolved,
    BranchLongOptionArity, BranchMutationState, OptionStep, ResolvedBranchLongOption, ValueWord,
};
use crate::text::{next_index, next_index_is_first, rest, starts};

verus! {

/// A long option of `git branch` that takes no value, and neither deletes nor
/// forces.
pub open spec fn is_quiet_option(name: Seq<char>) -> bool {
    name == "all"@ || name == "copy"@ || name == "create-reflog"@ || name == "edit-description"@
        || name == "ignore-case"@ || name == "list"@ || name == "move"@ || name == "omit-empty"@
        || name == "quiet"@ || name == "recurse-submodules"@ || name == "remotes"@
        || name == "set-upstream"@ || name == "show-current"@ || name == "unset-upstream"@
        || name == "verbose"@
}

/// A long option of `git branch` whose value, if it has one, is attached.
pub open spec fn has_attached_value(name: Seq<char>) -> bool {
    name == "abbrev"@ || name == "color"@ || name == "column"@ || name == "track"@
}

/// A long option of `git branch` that needs a value.
pub open spec fn needs_value(name: Seq<char>) -> bool {
    name == "format"@ || name == "points-at"@ || name == "set-upstream-to"@ || name == "sort"@
}

/// A long option of `git branch` whose value may be left out at the end.
pub open spec fn may_lack_value(name: Seq<char>) -> bool {
    name == "contains"@ || name == "no-contains"@ || name == "with"@ || name == "without"@
        || name == "merged"@ || name == "no-merged"@
}

/// A long option of `git branch` that `no-` takes back.
pub open spec fn can_be_taken_back(name: Seq<char>) -> bool {
    name == "abbrev"@ || name == "color"@ || name == "column"@ || name == "copy"@
        || name == "create-reflog"@ || name == "delete"@ || name == "edit-description"@
        || name == "force"@ || name == "format"@ || name == "ignore-case"@ || name == "list"@
        || name == "move"@ || name == "omit-empty"@ || name == "points-at"@ || name == "quiet"@
        || name == "recurse-submodules"@ || name == "set-upstream"@ || name == "set-upstream-to"@
        || name == "show-current"@ || name == "sort"@ || name == "track"@
        || name == "unset-upstream"@ || name == "verbose"@
}

/// The names in the table differ.
#[verifier::rlimit(60)]
proof fn names_differ(a: int, b: int)
    requires
        0 <= a < 31,
        0 <= b < 31,
        a != b,
    ensures
        branch_long_options()[a].name@ != branch_long_options()[b].name@,
{
    reveal_strlit("abbrev");
    reveal_strlit("all");
    reveal_strlit("color");
    reveal_strlit("column");
    reveal_strlit("contains");
    reveal_strlit("no-contains");
    reveal_strlit("with");
    reveal_strlit("without");
    reveal_strlit("copy");
    reveal_strlit("create-reflog");
    reveal_strlit("delete");
    reveal_strlit("edit-description");
    reveal_strlit("force");
    reveal_strlit("format");
    reveal_strlit("ignore-case");
    reveal_strlit("list");
    reveal_strlit("merged");
    reveal_strlit("no-merged");
    reveal_strlit("move");
    reveal_strlit("omit-empty");
    reveal_strlit("points-at");
    reveal_strlit("quiet");
    reveal_strlit("recurse-submodules");
    reveal_strlit("remotes");
    reveal_strlit("set-upstream");
    reveal_strlit("set-upstream-to");
    reveal_strlit("show-current");
    reveal_strlit("sort");
    reveal_strlit("track");
    reveal_strlit("unset-upstream");
    reveal_strlit("verbose");
    let x = branch_long_options()[a].name@;
    let y = branch_long_options()[b].name@;
    if x == y {
        assert(x.len() == y.len());
        assert(x[0] == y[0] && x[1] == y[1] && x[2] == y[2] && x[3] == y[3]);
        assert(x.last() == y.last());
    }
}

/// An entry whose name comes first is found by it.
proof fn entry_is_found(i: int, k: int, negatable_only: bool)
    requires
        0 <= i <= k < 31,
        !negatable_only || branch_long_options()[k].negatable,
    ensures
        entry_named(branch_long_options(), i, branch_long_options()[k].name@, negatable_only) == k,
    decreases k - i,
{
    if i < k {
        names_differ(i, k);
        entry_is_found(i + 1, k, negatable_only);
    }
}

/// A name in the table holds no `=`.
#[verifier::rlimit(60)]
proof fn name_has_no_equals(k: int, j: int)
    requires
        0 <= k < 31,
        0 <= j < branch_long_options()[k].name@.len(),
    ensures
        branch_long_options()[k].name@[j] != '=',
{
    reveal_strlit("abbrev");
    reveal_strlit("all");
    reveal_strlit("color");
    reveal_strlit("column");
    reveal_strlit("contains");
    reveal_strlit("no-contains");
    reveal_strlit("with");
    reveal_strlit("without");
    reveal_strlit("copy");
    reveal_strlit("create-reflog");
    reveal_strlit("delete");
    reveal_strlit("edit-description");
    reveal_strlit("force");
    reveal_strlit("format");
    reveal_strlit("ignore-case");
    reveal_strlit("list");
    reveal_strlit("merged");
    reveal_strlit("no-merged");
    reveal_strlit("move");
    reveal_strlit("omit-empty");
    reveal_strlit("points-at");
    reveal_strlit("quiet");
    reveal_strlit("recurse-submodules");
    reveal_strlit("remotes");
    reveal_strlit("set-upstream");
    reveal_strlit("set-upstream-to");
    reveal_strlit("show-current");
    reveal_strlit("sort");
    reveal_strlit("track");
    reveal_strlit("unset-upstream");
    reveal_strlit("verbose");
}


/// An option without a value is in the table.
#[verifier::rlimit(40)]
proof fn quiet_number(name: Seq<char>) -> (k: int)
    requires
        is_quiet_option(name),
    ensures
        0 <= k < 31,
        branch_long_options()[k].name@ == name,
        branch_long_options()[k].arity == BranchLongOptionArity::NoValue,
        k != 10,
        k != 12,
{
    if name == "all"@ {
        1
    } else if name == "copy"@ {
        8
    } else if name == "create-reflog"@ {
        9
    } else if name == "edit-description"@ {
        11
    } else if name == "ignore-case"@ {
        14
    } else if name == "list"@ {
        15
    } else if name == "move"@ {
        18
    } else if name == "omit-empty"@ {
        19
    } else if name == "quiet"@ {
        21
    } else if name == "recurse-submodules"@ {
        22
    } else if name == "remotes"@ {
        23
    } else if name == "set-upstream"@ {
        24
    } else if name == "show-current"@ {
        26
    } else if name == "unset-upstream"@ {
        29
    } else {
        30
    }
}

/// An option with an attached value is in the table.
proof fn attached_number(name: Seq<char>) -> (k: int)
    requires
        has_attached_value(name),
    ensures
        0 <= k < 31,
        branch_long_options()[k].name@ == name,
        branch_long_options()[k].arity == BranchLongOptionArity::OptionalAttached,
        k != 10,
        k != 12,
{
    if name == "abbrev"@ {
        0
    } else if name == "color"@ {
        2
    } else if name == "column"@ {
        3
    } else {
        28
    }
}

/// An option that needs a value is in the table.
proof fn needs_number(name: Seq<char>) -> (k: int)
    requires
        needs_value(name),
    ensures
        0 <= k < 31,
        branch_long_options()[k].name@ == name,
        branch_long_options()[k].arity == BranchLongOptionArity::Required,
        k != 10,
        k != 12,
{
    if name == "format"@ {
        13
    } else if name == "points-at"@ {
        20
    } else if name == "set-upstream-to"@ {
        25
    } else {
        27
    }
}

/// An option that may lack its value is in the table.
proof fn lacks_number(name: Seq<char>) -> (k: int)
    requires
        may_lack_value(name),
    ensures
        0 <= k < 31,
        branch_long_options()[k].name@ == name,
        branch_long_options()[k].arity == BranchLongOptionArity::LastArgDefault,
        k != 10,
        k != 12,
{
    if name == "contains"@ {
        4
    } else if name == "no-contains"@ {
        5
    } else if name == "with"@ {
        6
    } else if name == "without"@ {
        7
    } else if name == "merged"@ {
        16
    } else {
        17
    }
}

/// An option that can be taken back is in the table.
#[verifier::rlimit(40)]
proof fn negatable_number(name: Seq<char>) -> (k: int)
    requires
        can_be_taken_back(name),
    ensures
        0 <= k < 31,
        branch_long_options()[k].name@ == name,
        branch_long_options()[k].negatable,
{
    if name == "abbrev"@ {
        0
    } else if name == "color"@ {
        2
    } else if name == "column"@ {
        3
    } else if name == "copy"@ {
        8
    } else if name == "create-reflog"@ {
        9
    } else if name == "delete"@ {
        10
    } else if name == "edit-description"@ {
        11
    } else if name == "force"@ {
        12
    } else if name == "format"@ {
        13
    } else if name == "ignore-case"@ {
        14
    } else if name == "list"@ {
        15
    } else if name == "move"@ {
        18
    } else if name == "omit-empty"@ {
        19
    } else if name == "points-at"@ {
        20
    } else if name == "quiet"@ {
        21
    } else if name == "recurse-submodules"@ {
        22
    } else if name == "set-upstream"@ {
        24
    } else if name == "set-upstream-to"@ {
        25
    } else if name == "show-current"@ {
        26
    } else if name == "sort"@ {
        27
    } else if name == "track"@ {
        28
    } else if name == "unset-upstream"@ {
        29
    } else {
        30
    }
}

/// A listed name is in the table.
proof fn number_of(name: Seq<char>) -> (k: int)
    requires
        is_listed_option(name),
    ensures
        0 <= k < 31,
        branch_long_options()[k].name@ == name,
{
    if is_quiet_option(name) {
        quiet_number(name)
    } else if has_attached_value(name) {
        attached_number(name)
    } else if needs_value(name) {
        needs_number(name)
    } else if may_lack_value(name) {
        lacks_number(name)
    } else if name == "delete"@ {
        10
    } else {
        12
    }
}

/// A name in the table is listed.
proof fn name_is_listed(k: int)
    requires
        0 <= k < 31,
    ensures
        is_listed_option(branch_long_options()[k].name@),
{
}

/// What a word with two dashes spells: its name, and whether a value is attached.
#[verifier::rlimit(40)]
proof fn spelled_option(name: Seq<char>, value: Option<Seq<char>>)
    requires
        name.len() > 0,
        !name.contains('='),
    ensures
        ({
            let token = "--"@ + name + attached(value);
            let body = rest(token, "--"@.len() as int);
            let e = next_index(body, 0, '=');
            &&& starts(token, "--"@)
            &&& body.subrange(0, e) == name
            &&& (e < body.len()) == (value is Some)
        }),
{
    reveal_strlit("--");
    reveal_strlit("=");
    let token = "--"@ + name + attached(value);
    let body = rest(token, "--"@.len() as int);
    assert(token.subrange(0, 2) =~= "--"@);
    assert(body =~= name + attached(value));
    next_index_is_first(body, 0, '=');
    let e = next_index(body, 0, '=');
    assert(forall|j: int| 0 <= j < name.len() ==> body[j] == name[j]);
    if e < name.len() {
        assert(name[e] == '=');
    }
    if value is Some {
        assert(body[name.len() as int] == '=');
    }
    assert(body.subrange(0, e) =~= name);
}

/// A word for an option by its name.
proof fn exact_option(name: Seq<char>, k: int, value: Option<Seq<char>>)
    requires
        0 <= k < 31,
        branch_long_options()[k].name@ == name,
    ensures
        branch_long_option("--"@ + name + attached(value)) == Some(
            resolved(branch_long_options()[k], false, value is Some),
        ),
        !name.contains('='),
        name.len() > 0,
{
    if name.contains('=') {
        let j = choose|j: int| 0 <= j < name.len() && name[j] == '=';
        name_has_no_equals(k, j);
    }
    names_are_words(k);
    spelled_option(name, value);
    entry_is_found(0, k, false);
}

/// A name in the table is not empty, and does not begin with `no-no-`.
#[verifier::rlimit(60)]
proof fn names_are_words(k: int)
    requires
        0 <= k < 31,
    ensures
        branch_long_options()[k].name@.len() > 0,
        !starts(branch_long_options()[k].name@, "no-no-"@),
        branch_long_options()[k].negatable ==> !starts(branch_long_options()[k].name@, "no-"@),
{
    reveal_strlit("abbrev");
    reveal_strlit("all");
    reveal_strlit("color");
    reveal_strlit("column");
    reveal_strlit("contains");
    reveal_strlit("no-contains");
    reveal_strlit("with");
    reveal_strlit("without");
    reveal_strlit("copy");
    reveal_strlit("create-reflog");
    reveal_strlit("delete");
    reveal_strlit("edit-description");
    reveal_strlit("force");
    reveal_strlit("format");
    reveal_strlit("ignore-case");
    reveal_strlit("list");
    reveal_strlit("merged");
    reveal_strlit("no-merged");
    reveal_strlit("move");
    reveal_strlit("omit-empty");
    reveal_strlit("points-at");
    reveal_strlit("quiet");
    reveal_strlit("recurse-submodules");
    reveal_strlit("remotes");
    reveal_strlit("set-upstream");
    reveal_strlit("set-upstream-to");
    reveal_strlit("show-current");
    reveal_strlit("sort");
    reveal_strlit("track");
    reveal_strlit("unset-upstream");
    reveal_strlit("verbose");
    reveal_strlit("no-no-");
    reveal_strlit("no-");
    let x = branch_long_options()[k].name@;
    if starts(x, "no-no-"@) {
        assert(x.subrange(0, 6)[3] == 'n' && x.subrange(0, 6)[0] == 'n');
        assert(x[3] == 'n' && x[0] == 'n');
    }
    if starts(x, "no-"@) {
        assert(x.subrange(0, 3)[0] == 'n' && x.subrange(0, 3)[2] == '-');
        assert(x[0] == 'n' && x[2] == '-');
    }
}

/// No name in the table is another one behind `no-`, where that one can be taken
/// back.
#[verifier::rlimit(60)]
proof fn negations_are_no_names(k: int, j: int)
    requires
        0 <= k < 31,
        0 <= j < 31,
        branch_long_options()[k].negatable,
    ensures
        branch_long_options()[j].name@ != "no-"@ + branch_long_options()[k].name@,
{
    reveal_strlit("abbrev");
    reveal_strlit("all");
    reveal_strlit("color");
    reveal_strlit("column");
    reveal_strlit("contains");
    reveal_strlit("no-contains");
    reveal_strlit("with");
    reveal_strlit("without");
    reveal_strlit("copy");
    reveal_strlit("create-reflog");
    reveal_strlit("delete");
    reveal_strlit("edit-description");
    reveal_strlit("force");
    reveal_strlit("format");
    reveal_strlit("ignore-case");
    reveal_strlit("list");
    reveal_strlit("merged");
    reveal_strlit("no-merged");
    reveal_strlit("move");
    reveal_strlit("omit-empty");
    reveal_strlit("points-at");
    reveal_strlit("quiet");
    reveal_strlit("recurse-submodules");
    reveal_strlit("remotes");
    reveal_strlit("set-upstream");
    reveal_strlit("set-upstream-to");
    reveal_strlit("show-current");
    reveal_strlit("sort");
    reveal_strlit("track");
    reveal_strlit("unset-upstream");
    reveal_strlit("verbose");
    reveal_strlit("no-");
    let x = branch_long_options()[j].name@;
    let y = "no-"@ + branch_long_options()[k].name@;
    if x == y {
        assert(x.len() == y.len());
        assert(y[0] == 'n' && y[1] == 'o' && y[2] == '-');
        assert(x[0] == 'n' && x[1] == 'o' && x[2] == '-');
        assert(y[3] == branch_long_options()[k].name@[0]);
        assert(y[4] == branch_long_options()[k].name@[1]);
        assert(x[3] == y[3] && x[4] == y[4]);
    }
}

/// A name that no entry has is not found.
proof fn entry_is_missing(i: int, name: Seq<char>, negatable_only: bool)
    requires
        0 <= i <= 31,
        forall|j: int| 0 <= j < 31 ==> (#[trigger] branch_long_options()[j]).name@ != name || (
        negatable_only && !branch_long_options()[j].negatable),
    ensures
        entry_named(branch_long_options(), i, name, negatable_only) == -1,
    decreases 31 - i,
{
    if i < 31 {
        assert(branch_long_options()[i].name@ != name || (negatable_only
            && !branch_long_options()[i].negatable));
        entry_is_missing(i + 1, name, negatable_only);
    }
}

/// A word for an option that is taken back.
#[verifier::rlimit(40)]
proof fn negated_option(name: Seq<char>, k: int, value: Option<Seq<char>>)
    requires
        0 <= k < 31,
        branch_long_options()[k].name@ == name,
        branch_long_options()[k].negatable,
    ensures
        branch_long_option("--"@ + ("no-"@ + name) + attached(value)) == Some(
            resolved(branch_long_options()[k], true, value is Some),
        ),
{
    let option = "no-"@ + name;
    reveal_strlit("no-");
    reveal_strlit("no-no-");
    if option.contains('=') {
        let j = choose|j: int| 0 <= j < option.len() && option[j] == '=';
        if j >= 3 {
            assert(option[j] == name[j - 3]);
            name_has_no_equals(k, j - 3);
        }
    }
    names_are_words(k);
    if starts(option, "no-no-"@) {
        assert(option.subrange(0, 6) == "no-no-"@);
        assert(name.subrange(0, 3) =~= option.subrange(3, 6));
        assert(option.subrange(3, 6) =~= "no-"@) by {
            assert(forall|j: int| 3 <= j < 6 ==> option[j] == option.subrange(0, 6)[j]);
        }
        assert(starts(name, "no-"@));
    }
    spelled_option(option, value);
    assert forall|j: int| 0 <= j < 31 implies (#[trigger] branch_long_options()[j]).name@ != option by {
        negations_are_no_names(k, j);
    }
    entry_is_missing(0, option, false);
    assert(option.subrange(0, 3) =~= "no-"@);
    assert(rest(option, "no-"@.len() as int) =~= name);
    entry_is_found(0, k, true);
}

/// A value attached to an option.
pub open spec fn attached(value: Option<Seq<char>>) -> Seq<char> {
    match value {
        Some(v) => "="@ + v,
        None => Seq::empty(),
    }
}

/// A long option of `git branch`.
pub open spec fn is_listed_option(name: Seq<char>) -> bool {
    is_quiet_option(name) || name == "delete"@ || name == "force"@ || has_attached_value(name)
        || needs_value(name) || may_lack_value(name)
}

/// The step of a spelled option is that of the entry.
proof fn step_of_option(token: Seq<char>, o: ResolvedBranchLongOption, m: BranchMutationState)
    requires
        starts(token, "--"@),
        token != "--help"@,
        token != "--help-all"@,
        branch_long_option(token) == Some(o),
    ensures
        argument_step(token, m) == (if o.inline_value && o.arity == BranchLongOptionArity::NoValue {
            OptionStep::Stop
        } else if o.negated || o.inline_value {
            OptionStep::Next(m.with_long(o), ValueWord::Absent)
        } else {
            OptionStep::Next(
                m.with_long(o),
                match o.arity {
                    BranchLongOptionArity::Required => ValueWord::Required,
                    BranchLongOptionArity::LastArgDefault => ValueWord::Optional,
                    _ => ValueWord::Absent,
                },
            )
        }),
{
}

/// A listed option is no request for help.
#[verifier::rlimit(60)]
proof fn options_are_no_help(name: Seq<char>, value: Option<Seq<char>>)
    requires
        is_listed_option(name),
    ensures
        "--"@ + name + attached(value) != "--help"@,
        "--"@ + name + attached(value) != "--help-all"@,
        "--"@ + ("no-"@ + name) + attached(value) != "--help"@,
        "--"@ + ("no-"@ + name) + attached(value) != "--help-all"@,
        starts("--"@ + name + attached(value), "--"@),
        starts("--"@ + ("no-"@ + name) + attached(value), "--"@),
{
    reveal_strlit("--");
    reveal_strlit("no-");
    reveal_strlit("--help");
    reveal_strlit("--help-all");
    reveal_strlit("abbrev");
    reveal_strlit("all");
    reveal_strlit("color");
    reveal_strlit("column");
    reveal_strlit("contains");
    reveal_strlit("no-contains");
    reveal_strlit("with");
    reveal_strlit("without");
    reveal_strlit("copy");
    reveal_strlit("create-reflog");
    reveal_strlit("delete");
    reveal_strlit("edit-description");
    reveal_strlit("force");
    reveal_strlit("format");
    reveal_strlit("ignore-case");
    reveal_strlit("list");
    reveal_strlit("merged");
    reveal_strlit("no-merged");
    reveal_strlit("move");
    reveal_strlit("omit-empty");
    reveal_strlit("points-at");
    reveal_strlit("quiet");
    reveal_strlit("recurse-submodules");
    reveal_strlit("remotes");
    reveal_strlit("set-upstream");
    reveal_strlit("set-upstream-to");
    reveal_strlit("show-current");
    reveal_strlit("sort");
    reveal_strlit("track");
    reveal_strlit("unset-upstream");
    reveal_strlit("verbose");
    let a = "--"@ + name + attached(value);
    let b = "--"@ + ("no-"@ + name) + attached(value);
    assert(a[2] == name[0]);
    assert(b[2] == 'n');
    assert(name[0] != 'h');
    assert(a.subrange(0, 2) =~= "--"@);
    assert(b.subrange(0, 2) =~= "--"@);
}

/// The options of `git branch` that neither delete nor force, each by its name,
/// leave what other options do as it is. Those without a value stand alone, and
/// with a value Git refuses the command. Of the others some take the next word,
/// some take it if there is one, and some take no word but what is attached.
#[verifier::rlimit(40)]
pub proof fn other_options_change_nothing(
    name: Seq<char>,
    value: Seq<char>,
    m: BranchMutationState,
)
    ensures
        is_quiet_option(name) ==> argument_step("--"@ + name, m) == OptionStep::Next(
            m,
            ValueWord::Absent,
        ) && argument_step("--"@ + name + "="@ + value, m) == OptionStep::Stop,
        has_attached_value(name) ==> argument_step("--"@ + name, m) == OptionStep::Next(
            m,
            ValueWord::Absent,
        ),
        needs_value(name) ==> argument_step("--"@ + name, m) == OptionStep::Next(
            m,
            ValueWord::Required,
        ),
        may_lack_value(name) ==> argument_step("--"@ + name, m) == OptionStep::Next(
            m,
            ValueWord::Optional,
        ),
        has_attached_value(name) || needs_value(name) || may_lack_value(name) ==> argument_step(
            "--"@ + name + "="@ + value,
            m,
        ) == OptionStep::Next(m, ValueWord::Absent),
        can_be_taken_back(name) && name != "delete"@ && name != "force"@ ==> argument_step(
            "--no-"@ + name,
            m,
        ) == OptionStep::Next(m, ValueWord::Absent),
{
    no_prefix();
    if is_quiet_option(name) {
        let k = quiet_number(name);
        steps_of_option(name, k, value, m);
    }
    if has_attached_value(name) {
        let k = attached_number(name);
        steps_of_option(name, k, value, m);
    }
    if needs_value(name) {
        let k = needs_number(name);
        steps_of_option(name, k, value, m);
    }
    if may_lack_value(name) {
        let k = lacks_number(name);
        steps_of_option(name, k, value, m);
    }
    if can_be_taken_back(name) && name != "delete"@ && name != "force"@ {
        let k = negatable_number(name);
        assert(branch_long_options()[10].name@ == "delete"@);
        assert(branch_long_options()[12].name@ == "force"@);
        steps_of_option(name, k, value, m);
    }
}

/// The steps of an option that neither deletes nor forces.
#[verifier::rlimit(40)]
proof fn steps_of_option(name: Seq<char>, k: int, value: Seq<char>, m: BranchMutationState)
    requires
        0 <= k < 31,
        k != 10,
        k != 12,
        branch_long_options()[k].name@ == name,
    ensures
        ({
            let arity = branch_long_options()[k].arity;
            &&& argument_step("--"@ + name, m) == OptionStep::Next(
                m,
                match arity {
                    BranchLongOptionArity::Required => ValueWord::Required,
                    BranchLongOptionArity::LastArgDefault => ValueWord::Optional,
                    _ => ValueWord::Absent,
                },
            )
            &&& argument_step("--"@ + name + "="@ + value, m) == (if arity
                == BranchLongOptionArity::NoValue {
                OptionStep::Stop
            } else {
                OptionStep::Next(m, ValueWord::Absent)
            })
            &&& branch_long_options()[k].negatable ==> argument_step("--no-"@ + name, m)
                == OptionStep::Next(m, ValueWord::Absent)
        }),
{
    let t = branch_long_options()[k];
    no_prefix();
    name_is_listed(k);
    names_differ(k, 10);
    names_differ(k, 12);
    assert(branch_long_options()[10].name@ == "delete"@);
    assert(branch_long_options()[12].name@ == "force"@);
    exact_option(name, k, None);
    exact_option(name, k, Some(value));
    options_are_no_help(name, None);
    options_are_no_help(name, Some(value));
    assert("--"@ + name + attached(None) =~= "--"@ + name);
    assert("--"@ + name + attached(Some(value)) =~= "--"@ + name + "="@ + value);
    step_of_option("--"@ + name, resolved(t, false, false), m);
    step_of_option("--"@ + name + "="@ + value, resolved(t, false, true), m);
    if t.negatable {
        negated_option(name, k, None);
        assert("--"@ + ("no-"@ + name) + attached(None) =~= "--no-"@ + name);
        step_of_option("--no-"@ + name, resolved(t, true, false), m);
    }
}

/// `--no-` is `--` and `no-`.
proof fn no_prefix()
    ensures
        "--no-"@ == "--"@ + "no-"@,
{
    reveal_strlit("--no-");
    reveal_strlit("--");
    reveal_strlit("no-");
    assert("--no-"@ =~= "--"@ + "no-"@);
}

/// `--delete` deletes and `--no-delete` takes that back; `--force` forces and
/// `--no-force` takes that back. Neither touches anything else.
#[verifier::rlimit(40)]
pub proof fn delete_and_force_are_set_and_taken_back(m: BranchMutationState)
    ensures
        argument_step("--delete"@, m) == OptionStep::Next(
            BranchMutationState { delete: true, ..m },
            ValueWord::Absent,
        ),
        argument_step("--no-delete"@, m) == OptionStep::Next(
            BranchMutationState { delete: false, ..m },
            ValueWord::Absent,
        ),
        argument_step("--force"@, m) == OptionStep::Next(
            BranchMutationState { force: true, ..m },
            ValueWord::Absent,
        ),
        argument_step("--no-force"@, m) == OptionStep::Next(
            BranchMutationState { force: false, ..m },
            ValueWord::Absent,
        ),
{
    reveal_strlit("--delete");
    reveal_strlit("--no-delete");
    reveal_strlit("--force");
    reveal_strlit("--no-force");
    reveal_strlit("--");
    reveal_strlit("no-");
    reveal_strlit("delete");
    reveal_strlit("force");
    let table = branch_long_options();
    exact_option("delete"@, 10, None);
    exact_option("force"@, 12, None);
    negated_option("delete"@, 10, None);
    negated_option("force"@, 12, None);
    names_differ(10, 12);
    options_are_no_help("delete"@, None);
    options_are_no_help("force"@, None);
    assert("--"@ + "delete"@ + attached(None) =~= "--delete"@);
    assert("--"@ + "force"@ + attached(None) =~= "--force"@);
    assert("--"@ + ("no-"@ + "delete"@) + attached(None) =~= "--no-delete"@);
    assert("--"@ + ("no-"@ + "force"@) + attached(None) =~= "--no-force"@);
    let d = table[10];
    let f = table[12];
    assert(d.arity == BranchLongOptionArity::NoValue);
    assert(f.arity == BranchLongOptionArity::NoValue);
    step_of_option("--delete"@, resolved(d, false, false), m);
    step_of_option("--no-delete"@, resolved(d, true, false), m);
    step_of_option("--force"@, resolved(f, false, false), m);
    step_of_option("--no-force"@, resolved(f, true, false), m);
}

/// The word of a listed option neither ends the options nor is a bare pair of
/// dashes.
#[verifier::rlimit(60)]
pub proof fn option_words_start(name: Seq<char>, value: Option<Seq<char>>)
    requires
        is_listed_option(name),
    ensures
        "--"@ + name + attached(value) != "--"@,
        "--"@ + name + attached(value) != "--end-of-options"@,
{
    let k = number_of(name);
    reveal_strlit("--");
    reveal_strlit("=");
    reveal_strlit("--end-of-options");
    reveal_strlit("abbrev");
    reveal_strlit("all");
    reveal_strlit("color");
    reveal_strlit("column");
    reveal_strlit("contains");
    reveal_strlit("no-contains");
    reveal_strlit("with");
    reveal_strlit("without");
    reveal_strlit("copy");
    reveal_strlit("create-reflog");
    reveal_strlit("delete");
    reveal_strlit("edit-description");
    reveal_strlit("force");
    reveal_strlit("format");
    reveal_strlit("ignore-case");
    reveal_strlit("list");
    reveal_strlit("merged");
    reveal_strlit("no-merged");
    reveal_strlit("move");
    reveal_strlit("omit-empty");
    reveal_strlit("points-at");
    reveal_strlit("quiet");
    reveal_strlit("recurse-submodules");
    reveal_strlit("remotes");
    reveal_strlit("set-upstream");
    reveal_strlit("set-upstream-to");
    reveal_strlit("show-current");
    reveal_strlit("sort");
    reveal_strlit("track");
    reveal_strlit("unset-upstream");
    reveal_strlit("verbose");
    let a = "--"@ + name + attached(value);
    assert(a[2] == name[0]);
    if a[2] == 'e' {
        assert(a[3] == name[1]);
        assert("--end-of-options"@[3] == 'n');
    }
}

/// A name in the table that is negatable can be taken back.
proof fn negatable_can_be_taken_back(k: int)
    requires
        0 <= k < 31,
        branch_long_options()[k].negatable,
    ensures
        can_be_taken_back(branch_long_options()[k].name@),
{
}

/// A text that begins no name, and behind `no-` none that can be taken back,
/// abbreviates nothing.
proof fn nothing_is_abbreviated(
    i: int,
    p: Seq<char>,
    inline_value: bool,
    out: Seq<ResolvedBranchLongOption>,
)
    requires
        0 <= i <= 31,
        forall|j: int| 0 <= j < 31 ==> !starts((#[trigger] branch_long_options()[j]).name@, p),
        starts(p, "no-"@) ==> forall|j: int|
            0 <= j < 31 && (#[trigger] branch_long_options()[j]).negatable ==> !starts(
                branch_long_options()[j].name@,
                rest(p, "no-"@.len() as int),
            ),
    ensures
        abbreviated(branch_long_options(), i, p, inline_value, out) == out,
    decreases 31 - i,
{
    if i < 31 {
        let t = branch_long_options()[i];
        assert(!starts(t.name@, p));
        nothing_is_abbreviated(i + 1, p, inline_value, out);
    }
}

/// A text that begins one name abbreviates it.
#[verifier::rlimit(40)]
proof fn one_is_abbreviated(
    i: int,
    p: Seq<char>,
    k: int,
    inline_value: bool,
    out: Seq<ResolvedBranchLongOption>,
)
    requires
        0 <= i <= 31,
        0 <= k < 31,
        !starts(p, "no-"@),
        forall|j: int|
            0 <= j < 31 ==> (starts((#[trigger] branch_long_options()[j]).name@, p) == (j == k)),
    ensures
        abbreviated(branch_long_options(), i, p, inline_value, out) == if i <= k {
            out.push(resolved(branch_long_options()[k], false, inline_value))
        } else {
            out
        },
    decreases 31 - i,
{
    if i < 31 {
        let t = branch_long_options()[i];
        assert(starts(t.name@, p) == (i == k));
        one_is_abbreviated(
            i + 1,
            p,
            k,
            inline_value,
            if i == k {
                out.push(resolved(t, false, inline_value))
            } else {
                out
            },
        );
    }
}

/// A text that begins one name that can be taken back abbreviates its negation.
#[verifier::rlimit(40)]
proof fn one_negation_is_abbreviated(
    i: int,
    p: Seq<char>,
    k: int,
    inline_value: bool,
    out: Seq<ResolvedBranchLongOption>,
)
    requires
        0 <= i <= 31,
        0 <= k < 31,
        starts(p, "no-"@),
        forall|j: int| 0 <= j < 31 ==> !starts((#[trigger] branch_long_options()[j]).name@, p),
        forall|j: int|
            0 <= j < 31 ==> ((#[trigger] branch_long_options()[j]).negatable && starts(
                branch_long_options()[j].name@,
                rest(p, "no-"@.len() as int),
            )) == (j == k),
    ensures
        abbreviated(branch_long_options(), i, p, inline_value, out) == if i <= k {
            out.push(resolved(branch_long_options()[k], true, inline_value))
        } else {
            out
        },
    decreases 31 - i,
{
    if i < 31 {
        let t = branch_long_options()[i];
        assert(!starts(t.name@, p));
        one_negation_is_abbreviated(
            i + 1,
            p,
            k,
            inline_value,
            if i == k {
                out.push(resolved(t, true, inline_value))
            } else {
                out
            },
        );
    }
}

/// A text that begins two names abbreviates at least two.
#[verifier::rlimit(40)]
proof fn two_are_abbreviated(
    i: int,
    p: Seq<char>,
    a: int,
    b: int,
    inline_value: bool,
    out: Seq<ResolvedBranchLongOption>,
)
    requires
        0 <= i <= 31,
        0 <= a < b < 31,
        starts(branch_long_options()[a].name@, p),
        starts(branch_long_options()[b].name@, p),
    ensures
        abbreviated(branch_long_options(), i, p, inline_value, out).len() >= out.len() + (if i <= a {
            2int
        } else if i <= b {
            1
        } else {
            0
        }),
    decreases 31 - i,
{
    if i < 31 {
        let t = branch_long_options()[i];
        two_are_abbreviated(i + 1, p, a, b, inline_value, out);
        two_are_abbreviated(
            i + 1,
            p,
            a,
            b,
            inline_value,
            out.push(resolved(t, false, inline_value)),
        );
        two_are_abbreviated(
            i + 1,
            p,
            a,
            b,
            inline_value,
            out.push(resolved(t, true, inline_value)),
        );
    }
}

/// A text is begun by itself.
proof fn begins_itself(p: Seq<char>)
    ensures
        starts(p, p),
{
    assert(p.subrange(0, p.len() as int) =~= p);
}

/// Git refuses a long option whose name begins none of the listed names, and
/// behind `no-` none of those that can be taken back.
#[verifier::rlimit(40)]
pub proof fn only_listed_options_are_known(
    p: Seq<char>,
    value: Option<Seq<char>>,
    m: BranchMutationState,
)
    requires
        p.len() > 0,
        !p.contains('='),
        forall|n: Seq<char>| #[trigger] is_listed_option(n) ==> !starts(n, p),
        starts(p, "no-"@) ==> forall|n: Seq<char>| #[trigger]
            can_be_taken_back(n) ==> !starts(n, p.subrange(3, p.len() as int)),
    ensures
        argument_step("--"@ + p + attached(value), m) == OptionStep::Stop,
{
    reveal_strlit("no-");
    spelled_option(p, value);
    assert forall|j: int| 0 <= j < 31 implies !starts(
        (#[trigger] branch_long_options()[j]).name@,
        p,
    ) && branch_long_options()[j].name@ != p by {
        name_is_listed(j);
        begins_itself(p);
    }
    entry_is_missing(0, p, false);
    if starts(p, "no-"@) {
        let q = rest(p, "no-"@.len() as int);
        assert(q =~= p.subrange(3, p.len() as int));
        assert forall|j: int|
            0 <= j < 31 && (#[trigger] branch_long_options()[j]).negatable implies !starts(
            branch_long_options()[j].name@,
            q,
        ) && branch_long_options()[j].name@ != q by {
            negatable_can_be_taken_back(j);
            begins_itself(q);
        }
        entry_is_missing(0, q, true);
    }
    nothing_is_abbreviated(0, p, value is Some, Seq::empty());
}

/// Git refuses a long option that is no name and begins two names.
pub proof fn ambiguous_options_are_refused(
    p: Seq<char>,
    a: Seq<char>,
    b: Seq<char>,
    value: Option<Seq<char>>,
    m: BranchMutationState,
)
    requires
        p.len() > 0,
        !p.contains('='),
        !is_listed_option(p),
        !starts(p, "no-"@),
        is_listed_option(a),
        is_listed_option(b),
        a != b,
        starts(a, p),
        starts(b, p),
    ensures
        argument_step("--"@ + p + attached(value), m) == OptionStep::Stop,
{
    let i = number_of(a);
    let j = number_of(b);
    spelled_option(p, value);
    assert forall|k: int| 0 <= k < 31 implies (#[trigger] branch_long_options()[k]).name@ != p by {
        name_is_listed(k);
    }
    entry_is_missing(0, p, false);
    if i < j {
        two_are_abbreviated(0, p, i, j, value is Some, Seq::empty());
    } else {
        two_are_abbreviated(0, p, j, i, value is Some, Seq::empty());
    }
}

/// A text that begins the name of one listed option, and of no other, is that
/// option.
#[verifier::rlimit(40)]
pub proof fn beginnings_stand_for_options(
    p: Seq<char>,
    name: Seq<char>,
    value: Option<Seq<char>>,
    m: BranchMutationState,
)
    requires
        p.len() > 0,
        !p.contains('='),
        !starts(p, "no-"@),
        is_listed_option(name),
        starts(name, p),
        forall|n: Seq<char>| #[trigger] is_listed_option(n) && n != name ==> !starts(n, p),
    ensures
        argument_step("--"@ + p + attached(value), m) == argument_step(
            "--"@ + name + attached(value),
            m,
        ),
{
    let k = number_of(name);
    reveal_strlit("no-no-");
    reveal_strlit("no-");
    spelled_option(p, value);
    exact_option(name, k, value);
    options_are_no_help(name, value);
    if starts(p, "no-no-"@) {
        assert(p.subrange(0, 3) =~= "no-"@) by {
            assert(forall|j: int| 0 <= j < 3 ==> p[j] == p.subrange(0, 6)[j]);
        }
    }
    assert forall|j: int| 0 <= j < 31 implies (starts(
        (#[trigger] branch_long_options()[j]).name@,
        p,
    ) == (j == k)) by {
        name_is_listed(j);
        if j != k {
            names_differ(j, k);
        }
    }
    let t = branch_long_options()[k];
    if name == p {
    } else {
        assert forall|j: int| 0 <= j < 31 implies (#[trigger] branch_long_options()[j]).name@
            != p by {
            begins_itself(p);
            if branch_long_options()[j].name@ == p {
                assert(j == k);
            }
        }
        entry_is_missing(0, p, false);
    }
    one_is_abbreviated(0, p, k, value is Some, Seq::empty());
    let w = "--"@ + p + attached(value);
    assert(branch_long_option(w) == Some(resolved(t, false, value is Some)));
    help_is_no_option(p, name, value);
    step_of_option(w, resolved(t, false, value is Some), m);
    step_of_option("--"@ + name + attached(value), resolved(t, false, value is Some), m);
}

/// The word of a text that begins a listed option is no request for help.
#[verifier::rlimit(60)]
proof fn help_is_no_option(p: Seq<char>, name: Seq<char>, value: Option<Seq<char>>)
    requires
        p.len() > 0,
        is_listed_option(name),
        starts(name, p),
    ensures
        "--"@ + p + attached(value) != "--help"@,
        "--"@ + p + attached(value) != "--help-all"@,
{
    reveal_strlit("--");
    reveal_strlit("--help");
    reveal_strlit("--help-all");
    reveal_strlit("abbrev");
    reveal_strlit("all");
    reveal_strlit("color");
    reveal_strlit("column");
    reveal_strlit("contains");
    reveal_strlit("no-contains");
    reveal_strlit("with");
    reveal_strlit("without");
    reveal_strlit("copy");
    reveal_strlit("create-reflog");
    reveal_strlit("delete");
    reveal_strlit("edit-description");
    reveal_strlit("force");
    reveal_strlit("format");
    reveal_strlit("ignore-case");
    reveal_strlit("list");
    reveal_strlit("merged");
    reveal_strlit("no-merged");
    reveal_strlit("move");
    reveal_strlit("omit-empty");
    reveal_strlit("points-at");
    reveal_strlit("quiet");
    reveal_strlit("recurse-submodules");
    reveal_strlit("remotes");
    reveal_strlit("set-upstream");
    reveal_strlit("set-upstream-to");
    reveal_strlit("show-current");
    reveal_strlit("sort");
    reveal_strlit("track");
    reveal_strlit("unset-upstream");
    reveal_strlit("verbose");
    assert(p[0] == name.subrange(0, p.len() as int)[0]);
    assert(name[0] != 'h');
    assert(("--"@ + p + attached(value))[2] == p[0]);
}

/// Behind `no-`, a text that begins the name of one option that can be taken back,
/// and of no other, takes that option back.
#[verifier::rlimit(40)]
pub proof fn beginnings_take_options_back(p: Seq<char>, name: Seq<char>, m: BranchMutationState)
    requires
        p.len() > 0,
        !p.contains('='),
        can_be_taken_back(name),
        starts(name, p),
        forall|n: Seq<char>| #[trigger] can_be_taken_back(n) && n != name ==> !starts(n, p),
        forall|n: Seq<char>| #[trigger] is_listed_option(n) ==> !starts(n, "no-"@ + p),
    ensures
        argument_step("--no-"@ + p, m) == argument_step("--no-"@ + name, m),
{
    let k = negatable_number(name);
    let q = "no-"@ + p;
    let t = branch_long_options()[k];
    no_prefix();
    reveal_strlit("--no-");
    reveal_strlit("no-no-");
    reveal_strlit("no-");
    reveal_strlit("--help");
    reveal_strlit("--help-all");
    if q.contains('=') {
        let j = choose|j: int| 0 <= j < q.len() && q[j] == '=';
        if j >= 3 {
            assert(p[j - 3] == '=');
        }
    }
    spelled_option(q, None);
    negated_option(name, k, None);
    assert("--"@ + q + attached(None) =~= "--no-"@ + p);
    assert("--"@ + ("no-"@ + name) + attached(None) =~= "--no-"@ + name);
    names_are_words(k);
    if starts(q, "no-no-"@) {
        assert(name.subrange(0, 3) =~= "no-"@) by {
            assert(q.subrange(0, 6) == "no-no-"@);
            assert forall|j: int| 0 <= j < 3 implies name[j] == "no-"@[j] by {
                assert(name[j] == name.subrange(0, p.len() as int)[j]);
                assert(p[j] == q.subrange(0, 6)[j + 3]);
            }
        }
        assert(starts(name, "no-"@));
    }
    assert(q.subrange(0, 3) =~= "no-"@);
    assert(rest(q, "no-"@.len() as int) =~= p);
    assert forall|j: int| 0 <= j < 31 implies !starts(
        (#[trigger] branch_long_options()[j]).name@,
        q,
    ) && branch_long_options()[j].name@ != q by {
        name_is_listed(j);
        begins_itself(q);
    }
    entry_is_missing(0, q, false);
    assert forall|j: int| 0 <= j < 31 implies ((#[trigger] branch_long_options()[j]).negatable
        && starts(branch_long_options()[j].name@, p)) == (j == k) by {
        if branch_long_options()[j].negatable && j != k {
            negatable_can_be_taken_back(j);
            names_differ(j, k);
        }
    }
    if name == p {
    } else {
        assert forall|j: int| 0 <= j < 31 implies (#[trigger] branch_long_options()[j]).name@ != p
            || !branch_long_options()[j].negatable by {
            begins_itself(p);
            if branch_long_options()[j].name@ == p && branch_long_options()[j].negatable {
                assert(j == k);
            }
        }
        entry_is_missing(0, p, true);
    }
    one_negation_is_abbreviated(0, q, k, false, Seq::empty());
    let w = "--no-"@ + p;
    let v = "--no-"@ + name;
    assert(branch_long_option(w) == Some(resolved(t, true, false)));
    assert(w[2] == 'n' && v[2] == 'n');
    assert(w.subrange(0, 2) =~= "--"@);
    assert(v.subrange(0, 2) =~= "--"@);
    reveal_strlit("--");
    step_of_option(w, resolved(t, true, false), m);
    step_of_option(v, resolved(t, true, false), m);
}

} // verus!
