//! Programs that run another command, and what they run.

use vstd::prelude::*;
use crate::shell::decode::{decode_posix, posix_decoded};
use crate::shell::token::{tokenize_for_shell_dialect, tokens, NormalizeToken, ShellDialect};
use crate::text::{
    alnum, alpha, basename, basename_start, chars_of, component_start, copy_of, ends, ends_str,
    from_index, has_char, index_from, is_alnum, is_alpha, is_name_text, is_str, last_component,
    name_text, next_index, push_all, rest, starts, starts_str, text_of, trim, trimmed,
};
use vstd::slice::slice_subrange;

verus! {

/// How many layers of wrapping programs are peeled off.
pub const MAX_WRAPPER_LAYERS: usize = 16;

/// An assignment of an environment variable: `NAME=value`, where the name is
/// made of ASCII letters, digits and underscores and starts with no digit.
pub open spec fn env_assignment(s: Seq<char>) -> bool {
    let e = next_index(s, 0, '=');
    e < s.len() && e > 0 && (is_alpha(s[0]) || s[0] == '_') && is_name_text(s.subrange(0, e))
}

/// Whether a word assigns an environment variable.
pub fn is_env_assignment(s: &[char]) -> (r: bool)
    ensures
        r == env_assignment(s@),
{
    let e = index_from(s, 0, '=');
    e < s.len() && e > 0 && (alpha(s[0]) || s[0] == '_') && name_text(slice_subrange(s, 0, e))
}

/// A program that runs the command given in its arguments.
#[derive(Debug, Clone, Copy, PartialEq, Eq, Structural)]
pub enum Frontend {
    Sudo,
    Doas,
    Env,
    Command,
    Nice,
    Ionice,
    Timeout,
    Stdbuf,
    Setsid,
    Mise,
    Exec,
    Time,
    /// A program that takes no options of its own before the command.
    Plain,
}

/// The wrapping program of the given name.
pub open spec fn frontend_named(name: Seq<char>) -> Option<Frontend> {
    if name == "sudo"@ {
        Some(Frontend::Sudo)
    } else if name == "doas"@ {
        Some(Frontend::Doas)
    } else if name == "env"@ {
        Some(Frontend::Env)
    } else if name == "command"@ {
        Some(Frontend::Command)
    } else if name == "nice"@ {
        Some(Frontend::Nice)
    } else if name == "ionice"@ {
        Some(Frontend::Ionice)
    } else if name == "timeout"@ {
        Some(Frontend::Timeout)
    } else if name == "stdbuf"@ {
        Some(Frontend::Stdbuf)
    } else if name == "setsid"@ {
        Some(Frontend::Setsid)
    } else if name == "mise"@ {
        Some(Frontend::Mise)
    } else if name == "exec"@ {
        Some(Frontend::Exec)
    } else if name == "time"@ {
        Some(Frontend::Time)
    } else if name == "nohup"@ || name == "builtin"@ || name == "unbuffer"@ || name == "busybox"@ {
        Some(Frontend::Plain)
    } else {
        None
    }
}

/// The wrapping program of the given name.
pub fn find_frontend(name: &[char]) -> (r: Option<Frontend>)
    ensures
        r == frontend_named(name@),
{
    if is_str(name, "sudo") {
        Some(Frontend::Sudo)
    } else if is_str(name, "doas") {
        Some(Frontend::Doas)
    } else if is_str(name, "env") {
        Some(Frontend::Env)
    } else if is_str(name, "command") {
        Some(Frontend::Command)
    } else if is_str(name, "nice") {
        Some(Frontend::Nice)
    } else if is_str(name, "ionice") {
        Some(Frontend::Ionice)
    } else if is_str(name, "timeout") {
        Some(Frontend::Timeout)
    } else if is_str(name, "stdbuf") {
        Some(Frontend::Stdbuf)
    } else if is_str(name, "setsid") {
        Some(Frontend::Setsid)
    } else if is_str(name, "mise") {
        Some(Frontend::Mise)
    } else if is_str(name, "exec") {
        Some(Frontend::Exec)
    } else if is_str(name, "time") {
        Some(Frontend::Time)
    } else if is_str(name, "nohup") || is_str(name, "builtin") || is_str(name, "unbuffer")
        || is_str(name, "busybox") {
        Some(Frontend::Plain)
    } else {
        None
    }
}

/// Whether a program of the given name runs the command in its arguments.
pub fn is_posix_execution_frontend_basename(name: &[char]) -> (r: bool)
    ensures
        r == (frontend_named(name@) is Some),
{
    find_frontend(name).is_some()
}

/// What a word behind a wrapping program is.
#[derive(Debug, Clone, Copy, PartialEq, Eq, Structural)]
pub enum OptionArity {
    /// No option: the wrapped command starts here.
    Command,
    /// An option that is complete.
    Alone,
    /// An option whose value is the next word.
    TakesNext,
    /// An option that is not modeled, or with which nothing is run.
    Unknown,
}

/// The letters of an option cluster from the `i`th on: letters of `flags` stand
/// alone, and a letter of `values` takes what follows it as its value.
pub open spec fn cluster_arity(w: Seq<char>, i: int, flags: Seq<char>, values: Seq<char>) -> OptionArity
    decreases w.len() - i,
{
    if i < 0 || i >= w.len() {
        OptionArity::Alone
    } else if values.contains(w[i]) {
        if i + 1 == w.len() {
            OptionArity::TakesNext
        } else {
            OptionArity::Alone
        }
    } else if flags.contains(w[i]) {
        cluster_arity(w, i + 1, flags, values)
    } else {
        OptionArity::Unknown
    }
}

/// The arity of a cluster of short options.
fn read_cluster(w: &[char], flags: &str, values: &str) -> (r: OptionArity)
    requires
        w.len() >= 1,
    ensures
        r == cluster_arity(w@, 1, flags@, values@),
{
    let f = chars_of(flags);
    let v = chars_of(values);
    let mut i: usize = 1;
    while i < w.len()
        invariant
            1 <= i <= w.len(),
            f@ == flags@,
            v@ == values@,
            cluster_arity(w@, 1, flags@, values@) == cluster_arity(w@, i as int, flags@, values@),
        decreases w.len() - i,
    {
        if has_char(v.as_slice(), w[i]) {
            return if i + 1 == w.len() {
                OptionArity::TakesNext
            } else {
                OptionArity::Alone
            };
        }
        if !has_char(f.as_slice(), w[i]) {
            return OptionArity::Unknown;
        }
        i += 1;
    }
    OptionArity::Alone
}

/// A long option without a value of its own.
pub open spec fn is_long_flag(kind: Frontend, w: Seq<char>) -> bool {
    match kind {
        Frontend::Sudo => w == "--askpass"@ || w == "--background"@ || w == "--bell"@ || w
            == "--preserve-env"@ || w == "--login"@ || w == "--non-interactive"@ || w
            == "--preserve-groups"@ || w == "--stdin"@ || w == "--set-home"@ || w == "--shell"@ || w
            == "--reset-timestamp"@ || w == "--no-update"@,
        Frontend::Env => w == "--ignore-environment"@ || w == "--debug"@,
        Frontend::Ionice => w == "--ignore"@,
        Frontend::Timeout => w == "--foreground"@ || w == "--preserve-status"@ || w == "--verbose"@,
        Frontend::Setsid => w == "--ctty"@ || w == "--fork"@ || w == "--wait"@,
        Frontend::Mise => w == "--quiet"@ || w == "--verbose"@ || w == "--yes"@ || w == "--raw"@,
        _ => false,
    }
}

/// A long option whose value is the next word.
pub open spec fn is_long_value(kind: Frontend, w: Seq<char>) -> bool {
    match kind {
        Frontend::Sudo => w == "--user"@ || w == "--group"@ || w == "--host"@ || w == "--prompt"@
            || w == "--chdir"@ || w == "--chroot"@ || w == "--role"@ || w == "--type"@ || w
            == "--close-from"@ || w == "--other-user"@ || w == "--command-timeout"@,
        Frontend::Env => w == "--unset"@ || w == "--chdir"@,
        Frontend::Nice => w == "--adjustment"@,
        Frontend::Ionice => w == "--class"@ || w == "--classdata"@,
        Frontend::Timeout => w == "--kill-after"@ || w == "--signal"@,
        Frontend::Stdbuf => w == "--input"@ || w == "--output"@ || w == "--error"@,
        Frontend::Mise => w == "--cd"@ || w == "--jobs"@ || w == "--env"@,
        _ => false,
    }
}

/// A long option with an attached value.
pub open spec fn is_long_attached(kind: Frontend, w: Seq<char>) -> bool {
    let e = next_index(w, 0, '=');
    e < w.len() && (is_long_value(kind, w.subrange(0, e)) || (kind == Frontend::Sudo && w.subrange(
        0,
        e,
    ) == "--preserve-env"@))
}

/// Whether the word is a long option without a value of its own.
fn long_flag(kind: Frontend, w: &[char]) -> (r: bool)
    ensures
        r == is_long_flag(kind, w@),
{
    match kind {
        Frontend::Sudo => is_str(w, "--askpass") || is_str(w, "--background") || is_str(w, "--bell")
            || is_str(w, "--preserve-env") || is_str(w, "--login") || is_str(w, "--non-interactive")
            || is_str(w, "--preserve-groups") || is_str(w, "--stdin") || is_str(w, "--set-home")
            || is_str(w, "--shell") || is_str(w, "--reset-timestamp") || is_str(w, "--no-update"),
        Frontend::Env => is_str(w, "--ignore-environment") || is_str(w, "--debug"),
        Frontend::Ionice => is_str(w, "--ignore"),
        Frontend::Timeout => is_str(w, "--foreground") || is_str(w, "--preserve-status") || is_str(
            w,
            "--verbose",
        ),
        Frontend::Setsid => is_str(w, "--ctty") || is_str(w, "--fork") || is_str(w, "--wait"),
        Frontend::Mise => is_str(w, "--quiet") || is_str(w, "--verbose") || is_str(w, "--yes")
            || is_str(w, "--raw"),
        _ => false,
    }
}

/// Whether the word is a long option whose value is the next word.
fn long_value(kind: Frontend, w: &[char]) -> (r: bool)
    ensures
        r == is_long_value(kind, w@),
{
    match kind {
        Frontend::Sudo => is_str(w, "--user") || is_str(w, "--group") || is_str(w, "--host")
            || is_str(w, "--prompt") || is_str(w, "--chdir") || is_str(w, "--chroot") || is_str(
            w,
            "--role",
        ) || is_str(w, "--type") || is_str(w, "--close-from") || is_str(w, "--other-user")
            || is_str(w, "--command-timeout"),
        Frontend::Env => is_str(w, "--unset") || is_str(w, "--chdir"),
        Frontend::Nice => is_str(w, "--adjustment"),
        Frontend::Ionice => is_str(w, "--class") || is_str(w, "--classdata"),
        Frontend::Timeout => is_str(w, "--kill-after") || is_str(w, "--signal"),
        Frontend::Stdbuf => is_str(w, "--input") || is_str(w, "--output") || is_str(w, "--error"),
        Frontend::Mise => is_str(w, "--cd") || is_str(w, "--jobs") || is_str(w, "--env"),
        _ => false,
    }
}

/// The short options of a wrapping program that stand alone.
pub open spec fn short_flags(kind: Frontend) -> Seq<char> {
    match kind {
        Frontend::Sudo => "AbBEHikNnPSs"@,
        Frontend::Doas => "ns"@,
        Frontend::Env => "iv0"@,
        Frontend::Command => "p"@,
        Frontend::Nice => "0123456789"@,
        Frontend::Ionice => "t"@,
        Frontend::Timeout => "fpv"@,
        Frontend::Setsid => "cfw"@,
        Frontend::Mise => "qvy"@,
        Frontend::Exec => "cl"@,
        Frontend::Time => "apv"@,
        _ => ""@,
    }
}

/// The short options of a wrapping program that take a value.
pub open spec fn short_values(kind: Frontend) -> Seq<char> {
    match kind {
        Frontend::Sudo => "CDghpRrtTuU"@,
        Frontend::Doas => "uC"@,
        Frontend::Env => "uC"@,
        Frontend::Nice => "n"@,
        Frontend::Ionice => "cn"@,
        Frontend::Timeout => "ks"@,
        Frontend::Stdbuf => "ioe"@,
        Frontend::Mise => "CjE"@,
        Frontend::Exec => "a"@,
        Frontend::Time => "fo"@,
        _ => ""@,
    }
}

/// What a word behind a wrapping program is. Words of assignments belong to
/// `env` and `sudo`, and tool versions to `mise`.
pub open spec fn option_arity(kind: Frontend, w: Seq<char>) -> OptionArity {
    if starts(w, "--"@) {
        if is_long_flag(kind, w) || is_long_attached(kind, w) {
            OptionArity::Alone
        } else if is_long_value(kind, w) {
            OptionArity::TakesNext
        } else {
            OptionArity::Unknown
        }
    } else if w == "-"@ {
        if kind == Frontend::Env {
            OptionArity::Alone
        } else {
            OptionArity::Unknown
        }
    } else if starts(w, "-"@) {
        cluster_arity(w, 1, short_flags(kind), short_values(kind))
    } else if (kind == Frontend::Env || kind == Frontend::Sudo || kind == Frontend::Doas)
        && env_assignment(w) {
        OptionArity::Alone
    } else if kind == Frontend::Mise && w.contains('@') {
        OptionArity::Alone
    } else {
        OptionArity::Command
    }
}

/// What a word behind a wrapping program is.
fn classify_option(kind: Frontend, w: &[char]) -> (r: OptionArity)
    ensures
        r == option_arity(kind, w@),
{
    if starts_str(w, "--") {
        if long_flag(kind, w) {
            return OptionArity::Alone;
        }
        let e = index_from(w, 0, '=');
        if e < w.len() {
            let name = slice_subrange(w, 0, e);
            if long_value(kind, name) || (kind == Frontend::Sudo && is_str(
                name,
                "--preserve-env",
            )) {
                return OptionArity::Alone;
            }
        }
        if long_value(kind, w) {
            OptionArity::TakesNext
        } else {
            OptionArity::Unknown
        }
    } else if is_str(w, "-") {
        if kind == Frontend::Env {
            OptionArity::Alone
        } else {
            OptionArity::Unknown
        }
    } else if starts_str(w, "-") {
        proof {
            reveal_strlit("-");
        }
        match kind {
            Frontend::Sudo => read_cluster(w, "AbBEHikNnPSs", "CDghpRrtTuU"),
            Frontend::Doas => read_cluster(w, "ns", "uC"),
            Frontend::Env => read_cluster(w, "iv0", "uC"),
            Frontend::Command => read_cluster(w, "p", ""),
            Frontend::Nice => read_cluster(w, "0123456789", "n"),
            Frontend::Ionice => read_cluster(w, "t", "cn"),
            Frontend::Timeout => read_cluster(w, "fpv", "ks"),
            Frontend::Stdbuf => read_cluster(w, "", "ioe"),
            Frontend::Setsid => read_cluster(w, "cfw", ""),
            Frontend::Mise => read_cluster(w, "qvy", "CjE"),
            Frontend::Exec => read_cluster(w, "cl", "a"),
            Frontend::Time => read_cluster(w, "apv", "fo"),
            Frontend::Plain => read_cluster(w, "", ""),
        }
    } else if (kind == Frontend::Env || kind == Frontend::Sudo || kind == Frontend::Doas)
        && is_env_assignment(w) {
        OptionArity::Alone
    } else if kind == Frontend::Mise && has_char(w, '@') {
        OptionArity::Alone
    } else {
        OptionArity::Command
    }
}

/// Whether a raw word holds a `$` or a back-quote.
pub open spec fn is_dynamic(raw: Seq<char>) -> bool {
    raw.contains('$') || raw.contains('`')
}

/// The word at position `i` of the tokens, decoded; nothing when no word is
/// there or it may be expanded.
pub open spec fn fixed_word(s: Seq<char>, toks: Seq<NormalizeToken>, i: int) -> Option<Seq<char>> {
    if 0 <= i < toks.len() && toks[i].word() && !is_dynamic(toks[i].of(s)) {
        Some(posix_decoded(toks[i].of(s)))
    } else {
        None
    }
}

/// The word at position `i` of the tokens, decoded.
fn get_fixed_word(s: &[char], toks: &Vec<NormalizeToken>, i: usize) -> (r: Option<Vec<char>>)
    requires
        forall|k: int| 0 <= k < toks@.len() ==> (#[trigger] toks@[k]).fits(s@.len() as int),
    ensures
        match r {
            Some(w) => fixed_word(s@, toks@, i as int) == Some(w@),
            None => fixed_word(s@, toks@, i as int) is None,
        },
{
    if i >= toks.len() || !toks[i].is_word() {
        return None;
    }
    let t = toks[i];
    assert(toks@[i as int].fits(s@.len() as int));
    let raw = t.text(s);
    if has_char(raw, '$') || has_char(raw, '`') {
        return None;
    }
    Some(decode_posix(raw))
}

/// The token behind the options of a wrapping program, from the `i`th token on.
pub open spec fn behind_options(s: Seq<char>, toks: Seq<NormalizeToken>, i: int, kind: Frontend) -> Option<int>
    decreases toks.len() - i,
{
    if i >= 0 && i < toks.len() && toks[i].word() && is_dynamic(toks[i].of(s)) {
        if starts(toks[i].of(s), "-"@) {
            None
        } else {
            Some(i)
        }
    } else {
        match fixed_word(s, toks, i) {
            None => None,
            Some(w) => if w == "--"@ {
                Some(i + 1)
            } else {
                match option_arity(kind, w) {
                    OptionArity::Command => Some(i),
                    OptionArity::Alone => behind_options(s, toks, i + 1, kind),
                    OptionArity::TakesNext => if fixed_word(s, toks, i + 1) is Some {
                        behind_options(s, toks, i + 2, kind)
                    } else {
                        None
                    },
                    OptionArity::Unknown => None,
                }
            },
        }
    }
}

/// The token behind the options of a wrapping program.
fn skip_options(s: &[char], toks: &Vec<NormalizeToken>, start: usize, kind: Frontend) -> (r: Option<
    usize,
>)
    requires
        start <= toks.len(),
        forall|k: int| 0 <= k < toks@.len() ==> (#[trigger] toks@[k]).fits(s@.len() as int),
    ensures
        match r {
            Some(i) => behind_options(s@, toks@, start as int, kind) == Some(i as int) && i
                <= toks.len(),
            None => behind_options(s@, toks@, start as int, kind) is None,
        },
{
    let mut i: usize = start;
    while i < toks.len()
        invariant
            start <= i <= toks.len(),
            forall|k: int| 0 <= k < toks@.len() ==> (#[trigger] toks@[k]).fits(s@.len() as int),
            behind_options(s@, toks@, start as int, kind) == behind_options(
                s@,
                toks@,
                i as int,
                kind,
            ),
        decreases toks.len() - i,
    {
        if toks[i].is_word() {
            let t = toks[i];
            assert(toks@[i as int].fits(s@.len() as int));
            let raw = t.text(s);
            if has_char(raw, '$') || has_char(raw, '`') {
                return if starts_str(raw, "-") {
                    None
                } else {
                    Some(i)
                };
            }
        }
        match get_fixed_word(s, toks, i) {
            None => {
                return None;
            },
            Some(w) => {
                if is_str(w.as_slice(), "--") {
                    return Some(i + 1);
                }
                match classify_option(kind, w.as_slice()) {
                    OptionArity::Command => {
                        return Some(i);
                    },
                    OptionArity::Alone => {
                        i += 1;
                    },
                    OptionArity::TakesNext => {
                        if get_fixed_word(s, toks, i + 1).is_none() {
                            return None;
                        }
                        i += 2;
                    },
                    OptionArity::Unknown => {
                        return None;
                    },
                }
            },
        }
    }
    None
}

/// The token at which the command wrapped by the first word starts: nothing
/// when the first word is no wrapping program, or when its arguments leave open
/// where the command starts.
pub open spec fn wrapped_index(s: Seq<char>, toks: Seq<NormalizeToken>) -> Option<int> {
    match fixed_word(s, toks, 0) {
        None => None,
        Some(first) => match frontend_named(basename(first)) {
            None => None,
            Some(kind) => {
                let from: int = if kind == Frontend::Mise {
                    2
                } else {
                    1
                };
                if kind == Frontend::Mise && fixed_word(s, toks, 1) != Some("exec"@)
                    && fixed_word(s, toks, 1) != Some("x"@) {
                    None
                } else {
                    match behind_options(s, toks, from, kind) {
                        None => None,
                        Some(i) => {
                            let j = if kind == Frontend::Timeout {
                                if fixed_word(s, toks, i) is Some {
                                    i + 1
                                } else {
                                    -1
                                }
                            } else {
                                i
                            };
                            if 0 <= j < toks.len() && toks[j].word() {
                                Some(j)
                            } else {
                                None
                            }
                        },
                    }
                }
            },
        },
    }
}

/// The token at which the command wrapped by the first word starts.
fn find_wrapped(s: &[char], toks: &Vec<NormalizeToken>) -> (r: Option<usize>)
    requires
        forall|k: int| 0 <= k < toks@.len() ==> (#[trigger] toks@[k]).fits(s@.len() as int),
    ensures
        match r {
            Some(i) => wrapped_index(s@, toks@) == Some(i as int) && i < toks.len(),
            None => wrapped_index(s@, toks@) is None,
        },
{
    let first = match get_fixed_word(s, toks, 0) {
        None => {
            return None;
        },
        Some(w) => w,
    };
    let kind = match find_frontend(last_component(first.as_slice())) {
        None => {
            return None;
        },
        Some(k) => k,
    };
    let from: usize = if kind == Frontend::Mise {
        match get_fixed_word(s, toks, 1) {
            None => {
                return None;
            },
            Some(w) => {
                if !is_str(w.as_slice(), "exec") && !is_str(w.as_slice(), "x") {
                    return None;
                }
            },
        }
        2
    } else {
        1
    };
    match skip_options(s, toks, from, kind) {
        None => None,
        Some(i) => {
            let j: usize = if kind == Frontend::Timeout {
                if get_fixed_word(s, toks, i).is_none() {
                    return None;
                }
                i + 1
            } else {
                i
            };
            if j < toks.len() && toks[j].is_word() {
                Some(j)
            } else {
                None
            }
        },
    }
}

/// The command wrapped by the first word of `s`, when there is one.
pub open spec fn unwrapped(s: Seq<char>) -> Option<Seq<char>> {
    let toks = tokens(s, ShellDialect::Posix);
    match wrapped_index(s, toks) {
        Some(i) => Some(rest(s, toks[i].start as int)),
        None => None,
    }
}

/// The command wrapped by the first word of `s`, when there is one.
pub fn strip_posix_execution_frontend<'a>(s: &'a [char]) -> (r: Option<&'a [char]>)
    ensures
        match r {
            Some(t) => unwrapped(s@) == Some(t@),
            None => unwrapped(s@) is None,
        },
{
    let toks = tokenize_for_shell_dialect(s, ShellDialect::Posix);
    match find_wrapped(s, &toks) {
        Some(i) => {
            assert(toks@[i as int].fits(s@.len() as int));
            Some(from_index(s, toks[i].start))
        },
        None => None,
    }
}

/// `s` with at most `layers` wrapping programs peeled off.
pub open spec fn peeled(s: Seq<char>, layers: nat) -> Seq<char>
    decreases layers,
{
    if layers == 0 {
        s
    } else {
        match unwrapped(s) {
            Some(t) => peeled(t, (layers - 1) as nat),
            None => s,
        }
    }
}

/// `s` without the programs that wrap its command.
pub open spec fn without_wrappers(s: Seq<char>) -> Seq<char> {
    peeled(s, MAX_WRAPPER_LAYERS as nat)
}

/// `s` without the programs that wrap its command.
pub fn strip_wrapper_prefixes<'a>(s: &'a [char]) -> (r: &'a [char])
    ensures
        r@ == without_wrappers(s@),
{
    let mut t = s;
    let mut n: usize = 0;
    while n < MAX_WRAPPER_LAYERS
        invariant
            0 <= n <= MAX_WRAPPER_LAYERS,
            without_wrappers(s@) == peeled(t@, (MAX_WRAPPER_LAYERS - n) as nat),
        decreases MAX_WRAPPER_LAYERS - n,
    {
        match strip_posix_execution_frontend(t) {
            Some(u) => {
                t = u;
            },
            None => {
                return t;
            },
        }
        n += 1;
    }
    t
}

/// Whether a word is a program in a `bin` or `sbin` directory, spelled without
/// quotes or escapes.
pub open spec fn in_bin_directory(w: Seq<char>) -> bool {
    let b = basename_start(w, w.len() as int);
    &&& starts(w, "/"@)
    &&& b >= 1
    &&& b < w.len()
    &&& !w.contains('\\') && !w.contains('\'') && !w.contains('"')
    &&& ends(w.subrange(0, b - 1), "/bin"@) || ends(w.subrange(0, b - 1), "/sbin"@)
}

/// Whether a word holds a quote or an escape.
pub open spec fn is_quoted_word(w: Seq<char>) -> bool {
    w.contains('\\') || w.contains('\'') || w.contains('"')
}

/// A character of the plain spelling of a program.
pub open spec fn is_program_char(c: char) -> bool {
    is_alnum(c) || c == '/' || c == '.' || c == '_' || c == '-' || c == '+'
}

/// The plain spelling of a program: one that means the same with and without
/// quotes.
pub open spec fn is_program_text(w: Seq<char>) -> bool {
    w.len() > 0 && forall|k: int| 0 <= k < w.len() ==> is_program_char(#[trigger] w[k])
}

/// Whether the word is the plain spelling of a program.
fn program_text(w: &[char]) -> (r: bool)
    ensures
        r == is_program_text(w@),
{
    let mut i: usize = 0;
    while i < w.len()
        invariant
            0 <= i <= w.len(),
            forall|k: int| 0 <= k < i ==> is_program_char(#[trigger] w@[k]),
        decreases w.len() - i,
    {
        let c = w[i];
        if !(alnum(c) || c == '/' || c == '.' || c == '_' || c == '-' || c == '+') {
            assert(!is_program_char(w@[i as int]));
            return false;
        }
        i += 1;
    }
    w.len() > 0
}

/// The word that names a program without quotes and escapes, where that is a plain
/// spelling of it.
pub open spec fn unquoted_program(w: Seq<char>) -> Seq<char> {
    if is_quoted_word(w) && is_program_text(posix_decoded(w)) {
        posix_decoded(w)
    } else {
        w
    }
}

/// The word that names a program, by its last path component where it stands in a
/// `bin` or `sbin` directory.
pub open spec fn program_word(w: Seq<char>) -> Seq<char> {
    let d = unquoted_program(w);
    if in_bin_directory(d) {
        basename(d)
    } else {
        d
    }
}

/// A command whose program is named without quotes and without the directory of
/// system programs, without the programs that wrap it.
pub open spec fn normalized(s: Seq<char>) -> Seq<char> {
    let t = without_wrappers(trimmed(s));
    let toks = tokens(t, ShellDialect::Posix);
    if toks.len() > 0 && toks[0].word() {
        program_word(toks[0].of(t)) + rest(t, toks[0].end as int)
    } else {
        t
    }
}

/// The word that names a program, plainly where it can be.
fn name_program(w: &[char]) -> (r: Vec<char>)
    ensures
        r@ == program_word(w@),
{
    let mut d = copy_of(w);
    if has_char(w, '\\') || has_char(w, '\'') || has_char(w, '"') {
        let decoded = decode_posix(w);
        if program_text(decoded.as_slice()) {
            d = decoded;
        }
    }
    let v = d.as_slice();
    let b = component_start(v);
    if starts_str(v, "/") && b >= 1 && b < v.len() && !has_char(v, '\\') && !has_char(v, '\'')
        && !has_char(v, '"') {
        let dir = slice_subrange(v, 0, b - 1);
        if ends_str(dir, "/bin") || ends_str(dir, "/sbin") {
            return copy_of(last_component(v));
        }
    }
    d
}

/// A command without wrapping programs, whose program is named plainly.
pub fn normalize_text(s: &[char]) -> (r: Vec<char>)
    ensures
        r@ == normalized(s@),
{
    let t = strip_wrapper_prefixes(trim(s));
    let toks = tokenize_for_shell_dialect(t, ShellDialect::Posix);
    if toks.len() > 0 && toks[0].is_word() {
        let first = toks[0];
        assert(toks@[0].fits(t@.len() as int));
        let mut out = name_program(first.text(t));
        push_all(&mut out, from_index(t, first.end));
        return out;
    }
    copy_of(t)
}

/// A command without wrapping programs and without the directory of its program.
pub fn normalize_command(command: &str) -> (r: String)
    ensures
        r@ == normalized(command@),
{
    let s = chars_of(command);
    let n = normalize_text(s.as_slice());
    text_of(n.as_slice())
}

} // verus!
