//! What programs that run another command do to what is decided of it.

use vstd::prelude::*;
use crate::filesystem::command::{bare_verdict, rm_command_verdict, segment_verdict};
use crate::filesystem::frontend_laws::{plain_words_in_a_row, spaced_behind, spaced_in_a_row};
use crate::filesystem::frontends::{bare_command, behind_prefixes, MAX_RM_EXECUTION_FRONTENDS};
use crate::filesystem::plain::{
    is_program, plain_command_is_bare, plain_word_stands_for_itself, plain_words_are_one_command,
    plain_words_are_tokens, reserved_word_is_the_first,
};
use crate::filesystem::rm_laws::are_tokens_of;
use crate::filesystem::segment::ExemptionView;
use crate::filesystem::stdin::openers_end;
use crate::git::plain::{
    are_plain_words, is_plain, is_plain_word, plain_is_not_white, plain_word_is_itself, spaced,
    spaced_is_plain,
};
use crate::shell::token::{tokens, NormalizeToken, ShellDialect};
use crate::shell::wrappers::{
    behind_options, cluster_arity, env_assignment, fixed_word, frontend_named, is_dynamic,
    is_long_flag, is_long_value, normalized, option_arity, peeled, program_word, short_flags,
    short_values, unwrapped, without_wrappers, wrapped_index, Frontend, MAX_WRAPPER_LAYERS,
    OptionArity,
};
use crate::text::{
    basename, basename_start, is_alnum, is_alpha, next_index, next_index_is_first, rest, starts,
    white_end,
};

verus! {

/// A program that runs the command given in its arguments.
pub open spec fn is_wrapper(name: Seq<char>) -> bool {
    name == "sudo"@ || name == "doas"@ || name == "env"@ || name == "command"@
        || name == "nice"@ || name == "ionice"@ || name == "timeout"@ || name == "stdbuf"@
        || name == "setsid"@ || name == "exec"@ || name == "time"@ || name == "nohup"@
        || name == "builtin"@ || name == "unbuffer"@ || name == "busybox"@
}

/// The short options of a wrapping program that stand alone.
pub open spec fn wrapper_letters(name: Seq<char>) -> Seq<char> {
    if name == "sudo"@ {
        "AbBEHikNnPSs"@
    } else if name == "doas"@ {
        "ns"@
    } else if name == "env"@ {
        "iv0"@
    } else if name == "command"@ {
        "p"@
    } else if name == "nice"@ {
        "0123456789"@
    } else if name == "ionice"@ {
        "t"@
    } else if name == "timeout"@ {
        "fpv"@
    } else if name == "setsid"@ {
        "cfw"@
    } else if name == "exec"@ {
        "cl"@
    } else if name == "time"@ {
        "apv"@
    } else {
        Seq::empty()
    }
}

/// The short options of a wrapping program that take a value.
pub open spec fn wrapper_value_letters(name: Seq<char>) -> Seq<char> {
    if name == "sudo"@ {
        "CDghpRrtTuU"@
    } else if name == "doas"@ {
        "uC"@
    } else if name == "env"@ {
        "uC"@
    } else if name == "nice"@ {
        "n"@
    } else if name == "ionice"@ {
        "cn"@
    } else if name == "timeout"@ {
        "ks"@
    } else if name == "stdbuf"@ {
        "ioe"@
    } else if name == "exec"@ {
        "a"@
    } else if name == "time"@ {
        "fo"@
    } else {
        Seq::empty()
    }
}

/// A long option of a wrapping program that stands alone.
pub open spec fn is_wrapper_name(name: Seq<char>, w: Seq<char>) -> bool {
    ||| name == "sudo"@ && (w == "--askpass"@ || w == "--background"@ || w == "--bell"@
            || w == "--preserve-env"@ || w == "--login"@ || w == "--non-interactive"@
            || w == "--preserve-groups"@ || w == "--stdin"@ || w == "--set-home"@
            || w == "--shell"@ || w == "--reset-timestamp"@ || w == "--no-update"@)
    ||| name == "env"@ && (w == "--ignore-environment"@ || w == "--debug"@)
    ||| name == "ionice"@ && (w == "--ignore"@)
    ||| name == "timeout"@ && (w == "--foreground"@ || w == "--preserve-status"@
        || w == "--verbose"@)
    ||| name == "setsid"@ && (w == "--ctty"@ || w == "--fork"@ || w == "--wait"@)
}

/// A long option of a wrapping program that takes a value.
pub open spec fn is_wrapper_value_name(name: Seq<char>, w: Seq<char>) -> bool {
    ||| name == "sudo"@ && (w == "--user"@ || w == "--group"@ || w == "--host"@ || w == "--prompt"@
            || w == "--chdir"@ || w == "--chroot"@ || w == "--role"@ || w == "--type"@
            || w == "--close-from"@ || w == "--other-user"@ || w == "--command-timeout"@)
    ||| name == "env"@ && (w == "--unset"@ || w == "--chdir"@)
    ||| name == "nice"@ && (w == "--adjustment"@)
    ||| name == "ionice"@ && (w == "--class"@ || w == "--classdata"@)
    ||| name == "timeout"@ && (w == "--kill-after"@ || w == "--signal"@)
    ||| name == "stdbuf"@ && (w == "--input"@ || w == "--output"@ || w == "--error"@)
}

/// A wrapping program that takes assignments before the command.
pub open spec fn takes_assignments(name: Seq<char>) -> bool {
    name == "env"@ || name == "sudo"@ || name == "doas"@
}

/// An assignment: a name of letters, digits and underscores that starts with no
/// digit, `=` and anything.
pub open spec fn is_assignment_word(w: Seq<char>) -> bool {
    exists|n: Seq<char>, v: Seq<char>|
        is_variable_name(n) && w == #[trigger] (n + "="@ + v)
}

/// A name of letters, digits and underscores that starts with no digit.
pub open spec fn is_variable_name(n: Seq<char>) -> bool {
    n.len() > 0 && (is_alpha(n[0]) || n[0] == '_') && forall|i: int|
        0 <= i < n.len() ==> is_alnum(#[trigger] n[i]) || n[i] == '_'
}

/// Letters of the given list.
pub open spec fn are_letters_of(l: Seq<char>, list: Seq<char>) -> bool {
    forall|i: int| 0 <= i < l.len() ==> list.contains(#[trigger] l[i])
}

/// A word behind a wrapping program that is complete.
pub open spec fn is_wrapper_flag(name: Seq<char>, w: Seq<char>) -> bool {
    ||| is_wrapper_name(name, w)
    ||| exists|n: Seq<char>, v: Seq<char>|
        is_wrapper_value_name(name, n) && w == #[trigger] (n + "="@ + v)
    ||| exists|l: Seq<char>|
        are_letters_of(l, wrapper_letters(name)) && l.len() > 0 && w == #[trigger] ("-"@ + l)
    ||| exists|l: Seq<char>, c: char, v: Seq<char>|
        are_letters_of(l, wrapper_letters(name)) && wrapper_value_letters(name).contains(c)
            && v.len() > 0 && w == #[trigger] ("-"@ + l + seq![c] + v)
    ||| takes_assignments(name) && is_assignment_word(w)
}

/// A word behind a wrapping program whose value is the next word.
pub open spec fn takes_wrapper_value(name: Seq<char>, w: Seq<char>) -> bool {
    ||| is_wrapper_value_name(name, w)
    ||| exists|l: Seq<char>, c: char|
        are_letters_of(l, wrapper_letters(name)) && wrapper_value_letters(name).contains(c) && w
            == #[trigger] ("-"@ + l).push(c)
}

/// The words from the `i`th to the `at`th are options of a wrapping program with
/// their values.
pub open spec fn are_wrapper_options(name: Seq<char>, words: Seq<Seq<char>>, i: int, at: int) -> bool
    decreases at - i,
{
    if i < 0 || i >= at {
        i == at
    } else if is_wrapper_flag(name, words[i]) {
        are_wrapper_options(name, words, i + 1, at)
    } else {
        takes_wrapper_value(name, words[i]) && i + 2 <= at && are_wrapper_options(
            name,
            words,
            i + 2,
            at,
        )
    }
}

/// The wrapping programs are known by their names.
#[verifier::rlimit(60)]
proof fn wrappers_are_known(name: Seq<char>)
    ensures
        name == "sudo"@ ==> frontend_named(name) == Some(Frontend::Sudo),
        name == "doas"@ ==> frontend_named(name) == Some(Frontend::Doas),
        name == "env"@ ==> frontend_named(name) == Some(Frontend::Env),
        name == "command"@ ==> frontend_named(name) == Some(Frontend::Command),
        name == "nice"@ ==> frontend_named(name) == Some(Frontend::Nice),
        name == "ionice"@ ==> frontend_named(name) == Some(Frontend::Ionice),
        name == "timeout"@ ==> frontend_named(name) == Some(Frontend::Timeout),
        name == "stdbuf"@ ==> frontend_named(name) == Some(Frontend::Stdbuf),
        name == "setsid"@ ==> frontend_named(name) == Some(Frontend::Setsid),
        name == "exec"@ ==> frontend_named(name) == Some(Frontend::Exec),
        name == "time"@ ==> frontend_named(name) == Some(Frontend::Time),
        name == "nohup"@ ==> frontend_named(name) == Some(Frontend::Plain),
        name == "builtin"@ ==> frontend_named(name) == Some(Frontend::Plain),
        name == "unbuffer"@ ==> frontend_named(name) == Some(Frontend::Plain),
        name == "busybox"@ ==> frontend_named(name) == Some(Frontend::Plain),
{
    reveal_strlit("sudo");
    reveal_strlit("doas");
    reveal_strlit("env");
    reveal_strlit("command");
    reveal_strlit("nice");
    reveal_strlit("ionice");
    reveal_strlit("timeout");
    reveal_strlit("stdbuf");
    reveal_strlit("setsid");
    reveal_strlit("exec");
    reveal_strlit("time");
    reveal_strlit("nohup");
    reveal_strlit("builtin");
    reveal_strlit("unbuffer");
    reveal_strlit("busybox");
    reveal_strlit("mise");
    reveal_strlit("do");
    reveal_strlit("then");
    reveal_strlit("else");
    reveal_strlit("/");
    assert(is_wrapper(name) ==> name[0] != ' ' && name[1] != ' ' && name[2] != ' ');
    assert(name == "time"@ ==> name[0] == 't' && name.len() == 4);
    assert("mise"@[0] == 'm' && "exec"@[0] == 'e' && "nice"@[0] == 'n');
}

/// A wrapping program and its options, as the analysis lists them.
#[verifier::rlimit(60)]
proof fn wrapper_tables(name: Seq<char>, w: Seq<char>)
    requires
        is_wrapper(name),
    ensures
        frontend_named(name) matches Some(kind) && short_flags(kind) == wrapper_letters(name)
            && short_values(kind) == wrapper_value_letters(name) && (is_wrapper_name(name, w)
            ==> is_long_flag(kind, w)) && (is_wrapper_value_name(name, w) ==> is_long_value(kind, w))
            && (takes_assignments(name) ==> kind == Frontend::Env || kind == Frontend::Sudo || kind
            == Frontend::Doas) && kind != Frontend::Mise && (kind == Frontend::Timeout) == (name
            == "timeout"@) && (kind == Frontend::Env || kind == Frontend::Sudo || kind
            == Frontend::Doas ==> takes_assignments(name)),
{
    wrappers_are_known(name);
    reveal_strlit("sudo");
    reveal_strlit("doas");
    reveal_strlit("env");
    reveal_strlit("command");
    reveal_strlit("nice");
    reveal_strlit("ionice");
    reveal_strlit("timeout");
    reveal_strlit("stdbuf");
    reveal_strlit("setsid");
    reveal_strlit("exec");
    reveal_strlit("time");
    reveal_strlit("nohup");
    reveal_strlit("builtin");
    reveal_strlit("unbuffer");
    reveal_strlit("busybox");
    reveal_strlit("mise");
    reveal_strlit("do");
    reveal_strlit("then");
    reveal_strlit("else");
    reveal_strlit("/");
    reveal_strlit("");
    assert(name[0] != ' ' && name[1] != ' ' && name[2] != ' ');
    if short_flags(frontend_named(name)->0) == ""@ {
        assert(wrapper_letters(name) =~= ""@);
    }
    if short_values(frontend_named(name)->0) == ""@ {
        assert(wrapper_value_letters(name) =~= ""@);
    }
}

/// No letter of a wrapping program both stands alone and takes a value.
#[verifier::rlimit(60)]
proof fn letters_are_apart(name: Seq<char>, c: char)
    requires
        wrapper_letters(name).contains(c),
    ensures
        !wrapper_value_letters(name).contains(c),
        c != '-',
{
    reveal_strlit("sudo");
    reveal_strlit("doas");
    reveal_strlit("env");
    reveal_strlit("command");
    reveal_strlit("nice");
    reveal_strlit("ionice");
    reveal_strlit("timeout");
    reveal_strlit("stdbuf");
    reveal_strlit("setsid");
    reveal_strlit("exec");
    reveal_strlit("time");
    reveal_strlit("nohup");
    reveal_strlit("builtin");
    reveal_strlit("unbuffer");
    reveal_strlit("busybox");
    reveal_strlit("mise");
    reveal_strlit("do");
    reveal_strlit("then");
    reveal_strlit("else");
    reveal_strlit("/");
    reveal_strlit("AbBEHikNnPSs");
    reveal_strlit("CDghpRrtTuU");
    reveal_strlit("ns");
    reveal_strlit("uC");
    reveal_strlit("iv0");
    reveal_strlit("p");
    reveal_strlit("0123456789");
    reveal_strlit("n");
    reveal_strlit("t");
    reveal_strlit("cn");
    reveal_strlit("fpv");
    reveal_strlit("ks");
    reveal_strlit("ioe");
    reveal_strlit("cfw");
    reveal_strlit("cl");
    reveal_strlit("a");
    reveal_strlit("apv");
    reveal_strlit("fo");
    let f = wrapper_letters(name);
    let v = wrapper_value_letters(name);
    let i = choose|i: int| 0 <= i < f.len() && f[i] == c;
    assert(f[i] == c);
    if v.contains(c) {
        let j = choose|j: int| 0 <= j < v.len() && v[j] == c;
        assert(v[j] == c);
        assert(name[0] != ' ' && name[1] != ' ');
    }
}

/// A letter that takes a value is no dash.
#[verifier::rlimit(40)]
proof fn value_letters_are_letters(name: Seq<char>, c: char)
    requires
        wrapper_value_letters(name).contains(c),
    ensures
        c != '-',
{
    reveal_strlit("CDghpRrtTuU");
    reveal_strlit("uC");
    reveal_strlit("n");
    reveal_strlit("cn");
    reveal_strlit("ks");
    reveal_strlit("ioe");
    reveal_strlit("a");
    reveal_strlit("fo");
    let v = wrapper_value_letters(name);
    let j = choose|j: int| 0 <= j < v.len() && v[j] == c;
    assert(v[j] == c);
}

/// The letters of a cluster that stand alone are passed over.
proof fn letters_are_passed(w: Seq<char>, i: int, e: int, name: Seq<char>)
    requires
        0 <= i <= e <= w.len(),
        forall|k: int| i <= k < e ==> wrapper_letters(name).contains(#[trigger] w[k]),
    ensures
        cluster_arity(w, i, wrapper_letters(name), wrapper_value_letters(name)) == cluster_arity(
            w,
            e,
            wrapper_letters(name),
            wrapper_value_letters(name),
        ),
    decreases e - i,
{
    if i < e {
        assert(wrapper_letters(name).contains(w[i]));
        letters_are_apart(name, w[i]);
        letters_are_passed(w, i + 1, e, name);
    }
}

/// A cluster behind a wrapping program.
#[verifier::rlimit(40)]
proof fn wrapper_cluster(name: Seq<char>, kind: Frontend, w: Seq<char>, l: Seq<char>, tail: Seq<char>)
    requires
        short_flags(kind) == wrapper_letters(name),
        short_values(kind) == wrapper_value_letters(name),
        w == "-"@ + l + tail,
        are_letters_of(l, wrapper_letters(name)),
        l.len() + tail.len() > 0,
        tail.len() > 0 ==> wrapper_value_letters(name).contains(tail[0]),
    ensures
        option_arity(kind, w) == (if tail.len() == 1 {
            OptionArity::TakesNext
        } else {
            OptionArity::Alone
        }),
        w != "--"@,
{
    reveal_strlit("-");
    reveal_strlit("--");
    let e = l.len() as int + 1;
    assert(w.len() == 1 + l.len() + tail.len());
    assert(w[0] == '-');
    assert forall|k: int| 1 <= k < e implies wrapper_letters(name).contains(#[trigger] w[k]) by {
        assert(w[k] == l[k - 1]);
        assert(wrapper_letters(name).contains(l[k - 1]));
    }
    if l.len() > 0 {
        assert(wrapper_letters(name).contains(w[1]));
        letters_are_apart(name, w[1]);
    } else {
        assert(w[1] == tail[0]);
        value_letters_are_letters(name, w[1]);
    }
    assert(w.subrange(0, 1) =~= "-"@);
    if starts(w, "--"@) {
        assert(w.subrange(0, 2)[1] == '-');
    }
    letters_are_passed(w, 1, e, name);
    if tail.len() > 0 {
        assert(w[e] == tail[0]);
    }
}

/// The long names of wrapping programs begin with two dashes and hold no `=`.
#[verifier::rlimit(60)]
proof fn long_names_are_bare(name: Seq<char>, w: Seq<char>, j: int)
    requires
        is_wrapper_name(name, w) || is_wrapper_value_name(name, w),
        0 <= j < w.len(),
    ensures
        w[j] != '=',
        w.len() > 3,
        w[0] == '-' && w[1] == '-',
{
    reveal_strlit("--adjustment");
    reveal_strlit("--askpass");
    reveal_strlit("--background");
    reveal_strlit("--bell");
    reveal_strlit("--chdir");
    reveal_strlit("--chroot");
    reveal_strlit("--class");
    reveal_strlit("--classdata");
    reveal_strlit("--close-from");
    reveal_strlit("--command-timeout");
    reveal_strlit("--ctty");
    reveal_strlit("--debug");
    reveal_strlit("--error");
    reveal_strlit("--foreground");
    reveal_strlit("--fork");
    reveal_strlit("--group");
    reveal_strlit("--host");
    reveal_strlit("--ignore");
    reveal_strlit("--ignore-environment");
    reveal_strlit("--input");
    reveal_strlit("--kill-after");
    reveal_strlit("--login");
    reveal_strlit("--no-update");
    reveal_strlit("--non-interactive");
    reveal_strlit("--other-user");
    reveal_strlit("--output");
    reveal_strlit("--preserve-env");
    reveal_strlit("--preserve-groups");
    reveal_strlit("--preserve-status");
    reveal_strlit("--prompt");
    reveal_strlit("--reset-timestamp");
    reveal_strlit("--role");
    reveal_strlit("--set-home");
    reveal_strlit("--shell");
    reveal_strlit("--signal");
    reveal_strlit("--stdin");
    reveal_strlit("--type");
    reveal_strlit("--unset");
    reveal_strlit("--user");
    reveal_strlit("--verbose");
    reveal_strlit("--wait");
}

/// No long option of a wrapping program both stands alone and takes a value.
#[verifier::rlimit(100)]
proof fn long_names_are_apart(name: Seq<char>, w: Seq<char>)
    requires
        is_wrapper(name),
        is_wrapper_value_name(name, w),
    ensures
        !is_long_flag(frontend_named(name)->0, w),
{
    wrapper_tables(name, w);
    wrappers_are_known(name);
    reveal_strlit("--adjustment");
    reveal_strlit("--askpass");
    reveal_strlit("--background");
    reveal_strlit("--bell");
    reveal_strlit("--chdir");
    reveal_strlit("--chroot");
    reveal_strlit("--class");
    reveal_strlit("--classdata");
    reveal_strlit("--close-from");
    reveal_strlit("--command-timeout");
    reveal_strlit("--ctty");
    reveal_strlit("--debug");
    reveal_strlit("--error");
    reveal_strlit("--foreground");
    reveal_strlit("--fork");
    reveal_strlit("--group");
    reveal_strlit("--host");
    reveal_strlit("--ignore");
    reveal_strlit("--ignore-environment");
    reveal_strlit("--input");
    reveal_strlit("--kill-after");
    reveal_strlit("--login");
    reveal_strlit("--no-update");
    reveal_strlit("--non-interactive");
    reveal_strlit("--other-user");
    reveal_strlit("--output");
    reveal_strlit("--preserve-env");
    reveal_strlit("--preserve-groups");
    reveal_strlit("--preserve-status");
    reveal_strlit("--prompt");
    reveal_strlit("--reset-timestamp");
    reveal_strlit("--role");
    reveal_strlit("--set-home");
    reveal_strlit("--shell");
    reveal_strlit("--signal");
    reveal_strlit("--stdin");
    reveal_strlit("--type");
    reveal_strlit("--unset");
    reveal_strlit("--user");
    reveal_strlit("--verbose");
    reveal_strlit("--wait");
    assert(w[2] != ' ' && w[3] != ' ' && w[4] != ' ' && w[5] != ' ');
}

/// A long option of a wrapping program.
#[verifier::rlimit(40)]
proof fn wrapper_long_option(name: Seq<char>, w: Seq<char>)
    requires
        is_wrapper(name),
        is_wrapper_name(name, w) || is_wrapper_value_name(name, w),
    ensures
        is_wrapper_name(name, w) ==> option_arity(frontend_named(name)->0, w) == OptionArity::Alone,
        !is_wrapper_name(name, w) ==> option_arity(frontend_named(name)->0, w)
            == OptionArity::TakesNext,
        w != "--"@,
        !w.contains('='),
{
    wrapper_tables(name, w);
    assert(w.len() > 3 && w[0] == '-' && w[1] == '-' && !w.contains('=')) by {
        if w.contains('=') {
            let j = choose|j: int| 0 <= j < w.len() && w[j] == '=';
            long_names_are_bare(name, w, j);
        }
        if w.len() > 0 {
            long_names_are_bare(name, w, 0);
        } else {
            long_names_are_something(name, w);
        }
    }
    reveal_strlit("--");
    assert(w.subrange(0, 2) =~= "--"@);
    next_index_is_first(w, 0, '=');
    let e = next_index(w, 0, '=');
    if e < w.len() {
        assert(w[e] == '=');
    }
    if !is_wrapper_name(name, w) {
        long_names_are_apart(name, w);
    }
}

/// The long names of wrapping programs are not empty.
#[verifier::rlimit(60)]
proof fn long_names_are_something(name: Seq<char>, w: Seq<char>)
    requires
        is_wrapper_name(name, w) || is_wrapper_value_name(name, w),
    ensures
        w.len() > 3,
{
    reveal_strlit("--adjustment");
    reveal_strlit("--askpass");
    reveal_strlit("--background");
    reveal_strlit("--bell");
    reveal_strlit("--chdir");
    reveal_strlit("--chroot");
    reveal_strlit("--class");
    reveal_strlit("--classdata");
    reveal_strlit("--close-from");
    reveal_strlit("--command-timeout");
    reveal_strlit("--ctty");
    reveal_strlit("--debug");
    reveal_strlit("--error");
    reveal_strlit("--foreground");
    reveal_strlit("--fork");
    reveal_strlit("--group");
    reveal_strlit("--host");
    reveal_strlit("--ignore");
    reveal_strlit("--ignore-environment");
    reveal_strlit("--input");
    reveal_strlit("--kill-after");
    reveal_strlit("--login");
    reveal_strlit("--no-update");
    reveal_strlit("--non-interactive");
    reveal_strlit("--other-user");
    reveal_strlit("--output");
    reveal_strlit("--preserve-env");
    reveal_strlit("--preserve-groups");
    reveal_strlit("--preserve-status");
    reveal_strlit("--prompt");
    reveal_strlit("--reset-timestamp");
    reveal_strlit("--role");
    reveal_strlit("--set-home");
    reveal_strlit("--shell");
    reveal_strlit("--signal");
    reveal_strlit("--stdin");
    reveal_strlit("--type");
    reveal_strlit("--unset");
    reveal_strlit("--user");
    reveal_strlit("--verbose");
    reveal_strlit("--wait");
}

/// A long option of a wrapping program with its value attached.
proof fn wrapper_attached_option(name: Seq<char>, w: Seq<char>, n: Seq<char>, v: Seq<char>)
    requires
        is_wrapper(name),
        is_wrapper_value_name(name, n),
        w == n + "="@ + v,
    ensures
        option_arity(frontend_named(name)->0, w) == OptionArity::Alone,
        w != "--"@,
{
    reveal_strlit("=");
    reveal_strlit("--");
    wrapper_tables(name, n);
    wrapper_long_option(name, n);
    long_names_are_something(name, n);
    long_names_are_bare(name, n, 0);
    first_equals(w, n, v);
    assert(w[0] == '-' && w[1] == '-');
    assert(w.subrange(0, 2) =~= "--"@);
}

/// The first `=` of a text that has none before it.
proof fn first_equals(w: Seq<char>, n: Seq<char>, v: Seq<char>)
    requires
        w == n + "="@ + v,
        !n.contains('='),
    ensures
        next_index(w, 0, '=') == n.len(),
        w.subrange(0, n.len() as int) == n,
        w.len() > n.len(),
{
    reveal_strlit("=");
    next_index_is_first(w, 0, '=');
    let e = next_index(w, 0, '=');
    assert(w[n.len() as int] == '=');
    if e < n.len() {
        assert(n[e] == '=');
    }
    assert(w.subrange(0, n.len() as int) =~= n);
}

/// An assignment is one.
pub proof fn assignment_word(w: Seq<char>)
    requires
        is_assignment_word(w),
    ensures
        env_assignment(w),
        w.len() > 0,
        w[0] != '-',
{
    let (n, v) = choose|n: Seq<char>, v: Seq<char>|
        is_variable_name(n) && w == #[trigger] (n + "="@ + v);
    if n.contains('=') {
        let j = choose|j: int| 0 <= j < n.len() && n[j] == '=';
        assert(is_alnum(n[j]) || n[j] == '_');
    }
    first_equals(w, n, v);
    assert(w[0] == n[0]);
}

/// What the words behind a wrapping program are.
#[verifier::rlimit(40)]
proof fn wrapper_word(name: Seq<char>, w: Seq<char>)
    requires
        is_wrapper(name),
    ensures
        is_wrapper_flag(name, w) ==> option_arity(frontend_named(name)->0, w) == OptionArity::Alone
            && w != "--"@,
        takes_wrapper_value(name, w) && !is_wrapper_flag(name, w) ==> option_arity(
            frontend_named(name)->0,
            w,
        ) == OptionArity::TakesNext && w != "--"@,
{
    let kind = frontend_named(name)->0;
    wrapper_tables(name, w);
    if is_wrapper_flag(name, w) {
        if is_wrapper_name(name, w) {
            wrapper_long_option(name, w);
        } else if exists|n: Seq<char>, v: Seq<char>|
            is_wrapper_value_name(name, n) && w == #[trigger] (n + "="@ + v) {
            let (n, v) = choose|n: Seq<char>, v: Seq<char>|
                is_wrapper_value_name(name, n) && w == #[trigger] (n + "="@ + v);
            wrapper_attached_option(name, w, n, v);
        } else if exists|l: Seq<char>|
            are_letters_of(l, wrapper_letters(name)) && l.len() > 0 && w == #[trigger] ("-"@ + l) {
            let l = choose|l: Seq<char>|
                are_letters_of(l, wrapper_letters(name)) && l.len() > 0 && w == #[trigger] ("-"@
                    + l);
            assert(w =~= "-"@ + l + Seq::empty());
            wrapper_cluster(name, kind, w, l, Seq::empty());
        } else if exists|l: Seq<char>, c: char, v: Seq<char>|
            are_letters_of(l, wrapper_letters(name)) && wrapper_value_letters(name).contains(c)
                && v.len() > 0 && w == #[trigger] ("-"@ + l + seq![c] + v) {
            let (l, c, v) = choose|l: Seq<char>, c: char, v: Seq<char>|
                are_letters_of(l, wrapper_letters(name)) && wrapper_value_letters(name).contains(c)
                    && v.len() > 0 && w == #[trigger] ("-"@ + l + seq![c] + v);
            assert(w =~= "-"@ + l + (seq![c] + v));
            assert((seq![c] + v)[0] == c);
            wrapper_cluster(name, kind, w, l, seq![c] + v);
        } else {
            assignment_word(w);
            reveal_strlit("-");
            reveal_strlit("--");
            assert(starts(w, "-"@) ==> w.subrange(0, 1)[0] == '-');
            assert(starts(w, "--"@) ==> w.subrange(0, 2)[0] == '-');
        }
    } else if takes_wrapper_value(name, w) {
        if is_wrapper_value_name(name, w) {
            wrapper_long_option(name, w);
        } else {
            let (l, c) = choose|l: Seq<char>, c: char|
                are_letters_of(l, wrapper_letters(name)) && wrapper_value_letters(name).contains(c)
                    && w == #[trigger] ("-"@ + l).push(c);
            assert(w =~= "-"@ + l + seq![c]);
            wrapper_cluster(name, kind, w, l, seq![c]);
        }
    }
}

/// Behind its options a wrapping program comes to its command.
#[verifier::rlimit(40)]
proof fn wrapper_comes_to_its_command(
    c: Seq<char>,
    toks: Seq<NormalizeToken>,
    name: Seq<char>,
    words: Seq<Seq<char>>,
    i: int,
    at: int,
)
    requires
        are_tokens_of(c, toks, words),
        is_wrapper(name),
        0 <= i <= at < words.len(),
        are_wrapper_options(name, words, i, at),
        words[at][0] != '-',
        !env_assignment(words[at]),
    ensures
        behind_options(c, toks, i, frontend_named(name)->0) == Some(at),
    decreases at - i,
{
    let w = words[i];
    let kind = frontend_named(name)->0;
    wrapper_is_fixed(c, toks, words, i);
    wrapper_word(name, w);
    wrapper_tables(name, w);
    if i < at {
        if is_wrapper_flag(name, w) {
            wrapper_comes_to_its_command(c, toks, name, words, i + 1, at);
        } else {
            wrapper_is_fixed(c, toks, words, i + 1);
            wrapper_comes_to_its_command(c, toks, name, words, i + 2, at);
        }
    } else {
        reveal_strlit("-");
        reveal_strlit("--");
        assert(starts(w, "-"@) ==> w.subrange(0, 1)[0] == '-');
        assert(starts(w, "--"@) ==> w.subrange(0, 2)[0] == '-');
        assert(option_arity(kind, w) == OptionArity::Command);
    }
}

/// A plain word is fixed.
proof fn wrapper_is_fixed(c: Seq<char>, toks: Seq<NormalizeToken>, words: Seq<Seq<char>>, i: int)
    requires
        are_tokens_of(c, toks, words),
        0 <= i < words.len(),
    ensures
        toks[i].word(),
        toks[i].of(c) == words[i],
        !is_dynamic(words[i]),
        fixed_word(c, toks, i) == Some(words[i]),
        words[i].len() > 0,
{
    assert(toks[i].word());
    assert(is_plain_word(words[i]));
    plain_word_stands_for_itself(words[i]);
    plain_word_is_itself(words[i]);
}

/// The name of a wrapping program is a plain word without a directory that sets
/// and opens nothing.
#[verifier::rlimit(60)]
proof fn wrapper_is_a_word(name: Seq<char>)
    requires
        is_wrapper(name),
    ensures
        is_plain_word(name),
        !env_assignment(name),
        basename(name) == name,
        name != "do"@ && name != "then"@ && name != "else"@,
{
    reveal_strlit("sudo");
    reveal_strlit("doas");
    reveal_strlit("env");
    reveal_strlit("command");
    reveal_strlit("nice");
    reveal_strlit("ionice");
    reveal_strlit("timeout");
    reveal_strlit("stdbuf");
    reveal_strlit("setsid");
    reveal_strlit("exec");
    reveal_strlit("time");
    reveal_strlit("nohup");
    reveal_strlit("builtin");
    reveal_strlit("unbuffer");
    reveal_strlit("busybox");
    reveal_strlit("mise");
    reveal_strlit("do");
    reveal_strlit("then");
    reveal_strlit("else");
    reveal_strlit("/");
    assert(name[0] != ' ' && name[1] != ' ' && name[2] != ' ');
    assert forall|j: int| 0 <= j < name.len() implies 'a' <= #[trigger] name[j] <= 'z' by {
        wrapper_is_of_letters(name, j);
    }
    assert forall|j: int| 0 <= j < name.len() implies is_plain(#[trigger] name[j]) by {
        assert('a' <= name[j] <= 'z');
    }
    next_index_is_first(name, 0, '=');
    let e = next_index(name, 0, '=');
    if e < name.len() {
        assert('a' <= name[e] <= 'z');
    }
    letters_have_no_directory(name, name.len() as int);
    assert(basename(name) =~= name);
}

/// The name of a wrapping program is of letters.
#[verifier::rlimit(60)]
proof fn wrapper_is_of_letters(name: Seq<char>, j: int)
    requires
        is_wrapper(name),
        0 <= j < name.len(),
    ensures
        'a' <= name[j] <= 'z',
{
    reveal_strlit("sudo");
    reveal_strlit("doas");
    reveal_strlit("env");
    reveal_strlit("command");
    reveal_strlit("nice");
    reveal_strlit("ionice");
    reveal_strlit("timeout");
    reveal_strlit("stdbuf");
    reveal_strlit("setsid");
    reveal_strlit("exec");
    reveal_strlit("time");
    reveal_strlit("nohup");
    reveal_strlit("builtin");
    reveal_strlit("unbuffer");
    reveal_strlit("busybox");
    reveal_strlit("mise");
    reveal_strlit("do");
    reveal_strlit("then");
    reveal_strlit("else");
    reveal_strlit("/");
}

/// Letters have no directory before them.
proof fn letters_have_no_directory(name: Seq<char>, to: int)
    requires
        0 <= to <= name.len(),
        forall|j: int| 0 <= j < name.len() ==> 'a' <= #[trigger] name[j] <= 'z',
    ensures
        basename_start(name, to) == 0,
    decreases to,
{
    if to > 0 {
        assert('a' <= name[to - 1] <= 'z');
        letters_have_no_directory(name, to - 1);
    }
}

/// The words before the command that a wrapping program runs: its name, its
/// options, and for `timeout` the time that it gives.
pub open spec fn are_wrapping_words(head: Seq<Seq<char>>) -> bool {
    &&& head.len() > 0
    &&& is_wrapper(head[0])
    &&& if head[0] == "timeout"@ {
        head.len() > 1 && are_wrapper_options(head[0], head, 1, head.len() - 1)
            && head.last()[0] != '-' && !env_assignment(head.last())
    } else {
        are_wrapper_options(head[0], head, 1, head.len() as int)
    }
}

/// Options stand before a command as they stand alone.
proof fn options_stand_before(name: Seq<char>, head: Seq<Seq<char>>, tail: Seq<Seq<char>>, i: int, at: int)
    requires
        0 <= i <= at <= head.len(),
        are_wrapper_options(name, head, i, at),
    ensures
        are_wrapper_options(name, head + tail, i, at),
    decreases at - i,
{
    if i < at {
        assert((head + tail)[i] == head[i]);
        if is_wrapper_flag(name, head[i]) {
            options_stand_before(name, head, tail, i + 1, at);
        } else {
            options_stand_before(name, head, tail, i + 2, at);
        }
    }
}

/// A wrapping program runs the command behind it.
#[verifier::rlimit(40)]
proof fn wrapper_runs_its_command(head: Seq<Seq<char>>, command: Seq<Seq<char>>)
    requires
        are_plain_words(head),
        are_plain_words(command),
        are_wrapping_words(head),
        command.len() > 0,
        is_program(command[0]),
        command[0][0] != '-',
        spaced(head + command, 0).len() <= usize::MAX,
    ensures
        unwrapped(spaced(head + command, 0)) == Some(spaced(command, 0)),
        spaced(command, 0).len() < spaced(head + command, 0).len(),
{
    let words = head + command;
    let c = spaced(words, 0);
    let at = head.len() as int;
    let name = head[0];
    plain_words_in_a_row(head, command);
    plain_words_are_tokens(words, ShellDialect::Posix);
    let toks = tokens(c, ShellDialect::Posix);
    assert forall|m: int| 0 <= m < toks.len() implies (#[trigger] toks[m]).word() && toks[m].of(c)
        == words[m] by {
        assert(toks[m].word());
    }
    assert(words[0] == name && words[at] == command[0]);
    wrapper_is_a_word(name);
    wrapper_tables(name, name);
    wrapper_is_fixed(c, toks, words, 0);
    if name == "timeout"@ {
        assert(words[at - 1] == head.last());
        options_stand_before(name, head, command, 1, at - 1);
        wrapper_comes_to_its_command(c, toks, name, words, 1, at - 1);
        wrapper_is_fixed(c, toks, words, at - 1);
    } else {
        options_stand_before(name, head, command, 1, at);
        wrapper_comes_to_its_command(c, toks, name, words, 1, at);
    }
    assert forall|k: int| 0 <= k < command.len() implies words[k + at] == #[trigger] command[k] by {}
    spaced_behind(words, at, command, 0);
    assert(toks[at].word() && rest(c, toks[at].start as int) == spaced(words, at));
    assert(wrapped_index(c, toks) == Some(at));
    spaced_in_a_row(head, command, 0);
}

/// A wrapping program with its options leaves what is decided of the command
/// behind it as it is, but for the place, which is no longer told.
#[verifier::rlimit(40)]
pub proof fn wrapping_programs_hide_nothing(
    head: Seq<Seq<char>>,
    command: Seq<Seq<char>>,
    ex: Seq<ExemptionView>,
)
    requires
        are_plain_words(head),
        are_plain_words(command),
        are_wrapping_words(head),
        command.len() > 0,
        is_program(command[0]),
        command[0][0] != '-',
        spaced(head + command, 0).len() <= usize::MAX,
    ensures
        rm_command_verdict(spaced(head + command, 0), ex) == rm_command_verdict(
            spaced(command, 0),
            ex,
        ).placeless(),
{
    let words = head + command;
    let c = spaced(words, 0);
    let d = spaced(command, 0);
    let name = head[0];
    plain_words_in_a_row(head, command);
    wrapper_runs_its_command(head, command);
    plain_command_is_bare(command, (MAX_RM_EXECUTION_FRONTENDS - 1) as nat);
    plain_command_is_bare(command, MAX_RM_EXECUTION_FRONTENDS as nat);
    plain_words_are_one_command(words, ShellDialect::Unknown);
    plain_words_are_one_command(command, ShellDialect::Unknown);
    wrapper_is_a_word(name);
    assert(words[0] == name);
    wrapped_command_is_bare(words, command);
    assert(segment_verdict(c, false, ex) == bare_verdict(d, false, ex).placeless());
    assert(segment_verdict(d, false, ex) == bare_verdict(d, false, ex));
}

/// A wrapped command is read without what wraps it.
#[verifier::rlimit(40)]
proof fn wrapped_command_is_bare(words: Seq<Seq<char>>, command: Seq<Seq<char>>)
    requires
        are_plain_words(words),
        are_plain_words(command),
        words.len() > 0,
        command.len() > 0,
        is_program(command[0]),
        is_plain_word(words[0]),
        !env_assignment(words[0]),
        words[0] != "do"@ && words[0] != "then"@ && words[0] != "else"@,
        spaced(words, 0).len() <= usize::MAX,
        unwrapped(spaced(words, 0)) == Some(spaced(command, 0)),
        spaced(command, 0).len() < spaced(words, 0).len(),
    ensures
        openers_end(spaced(words, 0), 0) == 0,
        behind_prefixes(spaced(words, 0)) == (0int, false),
        rest(spaced(words, 0), 0) == spaced(words, 0),
        bare_command(spaced(words, 0), MAX_RM_EXECUTION_FRONTENDS as nat) == (
            spaced(command, 0),
            true,
        ),
        without_wrappers(spaced(words, 0)) == spaced(command, 0),
{
    let c = spaced(words, 0);
    let d = spaced(command, 0);
    let w = words[0];
    spaced_is_plain(words, 0);
    plain_is_not_white(c[0]);
    assert(white_end(c, 0) == 0);
    reveal_strlit("do");
    reveal_strlit("then");
    reveal_strlit("else");
    reserved_word_is_the_first(words, "do"@);
    reserved_word_is_the_first(words, "then"@);
    reserved_word_is_the_first(words, "else"@);
    plain_words_are_tokens(words, ShellDialect::Unknown);
    plain_words_are_one_command(words, ShellDialect::Unknown);
    let toks = tokens(c, ShellDialect::Unknown);
    assert(toks[0].word() && toks[0].of(c) == w);
    plain_word_stands_for_itself(w);
    assert(rest(c, 0) =~= c);
    plain_command_is_bare(command, (MAX_RM_EXECUTION_FRONTENDS - 1) as nat);
    assert(peeled(d, (MAX_WRAPPER_LAYERS - 1) as nat) == d);
    assert(without_wrappers(c) == d);
    plain_words_are_tokens(command, ShellDialect::Posix);
    let other = tokens(d, ShellDialect::Posix);
    assert(other[0].word() && other[0].of(d) == command[0]);
    plain_word_stands_for_itself(command[0]);
    assert(program_word(command[0]) == command[0]);
    assert(other[0].of(d) == d.subrange(0, other[0].end as int));
    assert(command[0] + rest(d, other[0].end as int) =~= d);
    assert(normalized(c) == d);
}

} // verus!
