//! Removals that another program runs.

use vstd::prelude::*;
use vstd::slice::slice_subrange;
use crate::filesystem::executable::{rm_certainty, text_certainty, RmExecutableCertainty};
use crate::filesystem::paths::{strip_outer_quotes, unquoted};
use crate::filesystem::powershell::{
    expression_argv, find_first_word, first_word_from, powershell_call_expression_argv,
    powershell_call_target_is_static_literal, remove_item_verdict, static_target, text_remove_item,
};
use crate::filesystem::redirect::{
    consumes_next, redirection, redirects_stdin, shell_redirection_consumes_next_word,
    shell_redirection_prefix, starts_with_shell_stdin_redirection,
};
use crate::filesystem::segment::{
    exemption_views, parse_normalized_rm_command_segment, plain_notes, plain_verdict,
    rm_unverified_deny, suppression_views, unverified_deny, ExemptionView, RmParseDecision,
    SuppressionView, TargetExemption, TargetSuppression,
};
use crate::shell::decode::{decode_posix, posix_decoded};
use crate::shell::token::{
    advance, onward, tokenize_for_normalization, tokenize_for_shell_dialect, tokens, NormalizeToken,
    ShellDialect,
};
use crate::shell::wrappers::{
    env_assignment, is_env_assignment, normalize_text, normalized, strip_posix_execution_frontend,
    strip_wrapper_prefixes, unwrapped, without_wrappers,
};
use crate::text::{
    basename, chars_of, contains_text, copy_of, from_index, has_str, is_str, last_component,
    push_all, push_str, rest, same, starts, starts_str, trim, trim_start, trimmed, trimmed_start,
};

verus! {

/// How many wrapping programs are taken off.
pub const MAX_RM_EXECUTION_FRONTENDS: usize = 16;

/// A command without wrapping programs and the directory of its program, `left`
/// layers at most, and whether anything was taken off.
pub open spec fn bare_command(s: Seq<char>, left: nat) -> (Seq<char>, bool)
    decreases left,
{
    if left == 0 {
        (s, false)
    } else if normalized(s) != s {
        (bare_command(normalized(s), (left - 1) as nat).0, true)
    } else {
        match unwrapped(s) {
            Some(t) => (bare_command(t, (left - 1) as nat).0, true),
            None => (s, false),
        }
    }
}

/// A command without wrapping programs and the directory of its program, and
/// whether anything was taken off.
pub fn normalize_rm_execution_frontends(s: &[char]) -> (r: (Vec<char>, bool))
    ensures
        (r.0@, r.1) == bare_command(s@, MAX_RM_EXECUTION_FRONTENDS as nat),
{
    let mut current = copy_of(s);
    let mut changed = false;
    let mut left: usize = MAX_RM_EXECUTION_FRONTENDS;
    let ghost target = bare_command(s@, MAX_RM_EXECUTION_FRONTENDS as nat);
    while left > 0
        invariant
            left <= MAX_RM_EXECUTION_FRONTENDS,
            target.0 == bare_command(current@, left as nat).0,
            changed ==> target.1,
            !changed ==> target.1 == bare_command(current@, left as nat).1,
        ensures
            target == (current@, changed),
        decreases left,
    {
        let n = normalize_text(current.as_slice());
        if !same(n.as_slice(), current.as_slice()) {
            current = n;
        } else {
            let t = match strip_posix_execution_frontend(current.as_slice()) {
                None => {
                    break ;
                },
                Some(t) => copy_of(t),
            };
            current = t;
        }
        changed = true;
        left -= 1;
    }
    (current, changed)
}

/// A command without wrapping programs, `left` layers at most.
pub open spec fn unwrapped_command(s: Seq<char>, left: nat) -> Seq<char>
    decreases left,
{
    if left == 0 {
        s
    } else if without_wrappers(s) != s {
        unwrapped_command(without_wrappers(s), (left - 1) as nat)
    } else {
        match unwrapped(s) {
            Some(t) => unwrapped_command(t, (left - 1) as nat),
            None => s,
        }
    }
}

/// A command without wrapping programs.
pub fn strip_rm_dynamic_frontends<'a>(s: &'a [char]) -> (r: &'a [char])
    ensures
        r@ == unwrapped_command(s@, MAX_RM_EXECUTION_FRONTENDS as nat),
{
    let mut current = s;
    let mut left: usize = MAX_RM_EXECUTION_FRONTENDS;
    while left > 0
        invariant
            left <= MAX_RM_EXECUTION_FRONTENDS,
            unwrapped_command(s@, MAX_RM_EXECUTION_FRONTENDS as nat) == unwrapped_command(
                current@,
                left as nat,
            ),
        ensures
            current@ == unwrapped_command(s@, MAX_RM_EXECUTION_FRONTENDS as nat),
        decreases left,
    {
        let stripped = strip_wrapper_prefixes(current);
        if !same(stripped, current) {
            current = stripped;
        } else {
            match strip_posix_execution_frontend(current) {
                None => {
                    break ;
                },
                Some(t) => {
                    current = t;
                },
            }
        }
        left -= 1;
    }
    current
}

/// Where the program of a command stands behind assignments and redirections,
/// from the `i`th token on, and whether one of these redirects the standard
/// input. `saw` tells that one stood before.
pub open spec fn prefixes_from(
    s: Seq<char>,
    toks: Seq<NormalizeToken>,
    i: int,
    saw: bool,
    stdin: bool,
) -> (int, bool)
    decreases toks.len() - i,
{
    if 0 <= i < toks.len() && toks[i].word() && env_assignment(toks[i].of(s)) {
        prefixes_from(s, toks, i + 1, true, stdin)
    } else if 0 <= i < toks.len() && toks[i].word() && redirection(toks[i].of(s)) is Some {
        let more = stdin || redirects_stdin(toks[i].of(s));
        if !consumes_next(toks[i].of(s)) {
            prefixes_from(s, toks, i + 1, true, more)
        } else if i + 1 >= toks.len() || !toks[i + 1].word() {
            (0, more)
        } else {
            prefixes_from(s, toks, i + 2, true, more)
        }
    } else if !saw {
        (0, false)
    } else if 0 <= i < toks.len() {
        (toks[i].start as int, stdin)
    } else {
        (0, stdin)
    }
}

/// Where the program of a command stands behind assignments and redirections, and
/// whether one of these redirects the standard input.
pub open spec fn behind_prefixes(s: Seq<char>) -> (int, bool) {
    prefixes_from(s, tokens(s, ShellDialect::Unknown), 0, false, false)
}

/// Where the program of a command stands behind assignments and redirections, and
/// whether one of these redirects the standard input.
pub fn strip_leading_rm_prefixes(s: &[char]) -> (r: (usize, bool))
    ensures
        (r.0 as int, r.1) == behind_prefixes(s@),
        r.0 <= s.len(),
{
    let toks = tokenize_for_normalization(s);
    let mut i: usize = 0;
    let mut saw = false;
    let mut stdin = false;
    let mut open = true;
    while open && i < toks.len()
        invariant
            0 <= i <= toks.len(),
            toks@ == tokens(s@, ShellDialect::Unknown),
            forall|k: int| 0 <= k < toks@.len() ==> (#[trigger] toks@[k]).fits(s@.len() as int),
            behind_prefixes(s@) == prefixes_from(s@, toks@, i as int, saw, stdin),
            !open ==> i < toks.len() && !(toks@[i as int].word() && (env_assignment(
                toks@[i as int].of(s@),
            ) || redirection(toks@[i as int].of(s@)) is Some)),
        decreases toks.len() - i, (if open { 1int } else { 0int }),
    {
        let t = toks[i];
        assert(toks@[i as int].fits(s@.len() as int));
        if !t.is_word() {
            open = false;
            continue ;
        }
        let text = t.text(s);
        if is_env_assignment(text) {
            saw = true;
            i += 1;
            continue ;
        }
        if shell_redirection_prefix(text).is_none() {
            open = false;
            continue ;
        }
        if starts_with_shell_stdin_redirection(text) {
            stdin = true;
        }
        if !shell_redirection_consumes_next_word(text) {
            saw = true;
            i += 1;
            continue ;
        }
        if i + 1 >= toks.len() || !toks[i + 1].is_word() {
            return (0, stdin);
        }
        saw = true;
        i += 2;
    }
    if !saw {
        return (0, false);
    }
    if i < toks.len() {
        assert(toks@[i as int].fits(s@.len() as int));
        (toks[i].start, stdin)
    } else {
        (0, stdin)
    }
}

/// What is decided of a command whose program is computed: it is denied where its
/// arguments would be denied of `rm`.
pub open spec fn unverified_verdict(
    command: Seq<char>,
    automated: bool,
    dialect: ShellDialect,
    ex: Seq<ExemptionView>,
) -> RmParseDecision {
    let t = trimmed(command);
    let called = dialect == ShellDialect::PowerShell && t.len() > 0 && t[0] == '&' && trimmed_start(
        rest(t, 1),
    ).len() > 0;
    let c = if called {
        trimmed_start(rest(t, 1))
    } else {
        t
    };
    let argv = if called {
        expression_argv(c)
    } else {
        None
    };
    let (from, stdin) = behind_prefixes(c);
    let n = unwrapped_command(rest(c, from), MAX_RM_EXECUTION_FRONTENDS as nat);
    let toks = tokens(n, dialect);
    let i = first_word_from(toks, 0);
    let raw = toks[i].of(n);
    let expression = called && (argv is Some || !static_target(raw));
    let candidate = "rm"@ + (match argv {
        Some(a) => a,
        None => rest(n, toks[i].end as int),
    });
    if i >= toks.len() {
        RmParseDecision::NoMatch
    } else if rm_certainty(raw, dialect) != RmExecutableCertainty::MayBeRm && !expression {
        RmParseDecision::NoMatch
    } else if plain_verdict(candidate, automated || stdin, ex) is Deny || (dialect
        == ShellDialect::PowerShell && remove_item_verdict(
        candidate,
        automated || stdin,
    ) is Deny) {
        unverified_deny()
    } else {
        RmParseDecision::NoMatch
    }
}

/// What exemptions suppress of a command whose program is computed.
pub open spec fn unverified_notes(
    command: Seq<char>,
    automated: bool,
    dialect: ShellDialect,
    ex: Seq<ExemptionView>,
) -> Seq<SuppressionView> {
    let t = trimmed(command);
    let called = dialect == ShellDialect::PowerShell && t.len() > 0 && t[0] == '&' && trimmed_start(
        rest(t, 1),
    ).len() > 0;
    let c = if called {
        trimmed_start(rest(t, 1))
    } else {
        t
    };
    let argv = if called {
        expression_argv(c)
    } else {
        None
    };
    let (from, stdin) = behind_prefixes(c);
    let n = unwrapped_command(rest(c, from), MAX_RM_EXECUTION_FRONTENDS as nat);
    let toks = tokens(n, dialect);
    let i = first_word_from(toks, 0);
    let raw = toks[i].of(n);
    let expression = called && (argv is Some || !static_target(raw));
    let candidate = "rm"@ + (match argv {
        Some(a) => a,
        None => rest(n, toks[i].end as int),
    });
    if i >= toks.len() || (rm_certainty(raw, dialect) != RmExecutableCertainty::MayBeRm
        && !expression) {
        Seq::empty()
    } else {
        plain_notes(candidate, automated || stdin, ex)
    }
}

/// Whether a decision denies.
fn denies(d: RmParseDecision) -> (r: bool)
    ensures
        r == (d is Deny),
{
    match d {
        RmParseDecision::Deny(_) => true,
        _ => false,
    }
}

/// What is decided of a command whose program is computed.
pub fn parse_unverified_rm_command_segment(
    command: &[char],
    automated: bool,
    dialect: ShellDialect,
    ex: &Vec<TargetExemption>,
    noted: &mut Vec<TargetSuppression>,
) -> (r: RmParseDecision)
    ensures
        r == unverified_verdict(command@, automated, dialect, exemption_views(ex@)),
        suppression_views(final(noted)@) == suppression_views(old(noted)@) + unverified_notes(
            command@,
            automated,
            dialect,
            exemption_views(ex@),
        ),
{
    let t = trim(command);
    let mut called = false;
    let mut c = t;
    if dialect == ShellDialect::PowerShell && t.len() > 0 && t[0] == '&' {
        let behind = trim_start(from_index(t, 1));
        if behind.len() > 0 {
            called = true;
            c = behind;
        }
    }
    let argv = if called {
        powershell_call_expression_argv(c)
    } else {
        None
    };
    let (from, stdin) = strip_leading_rm_prefixes(c);
    let n = strip_rm_dynamic_frontends(from_index(c, from));
    let toks = tokenize_for_shell_dialect(n, dialect);
    let i = find_first_word(&toks);
    if i >= toks.len() {
        return RmParseDecision::NoMatch;
    }
    assert(toks@[i as int].fits(n@.len() as int));
    let program = toks[i];
    let raw = program.text(n);
    let expression = called && (argv.is_some() || !powershell_call_target_is_static_literal(raw));
    if text_certainty(raw, dialect) != RmExecutableCertainty::MayBeRm && !expression {
        return RmParseDecision::NoMatch;
    }
    let mut candidate = chars_of("rm");
    match argv {
        Some(a) => {
            push_all(&mut candidate, a);
        },
        None => {
            push_all(&mut candidate, from_index(n, program.end));
        },
    }
    let plain = parse_normalized_rm_command_segment(
        candidate.as_slice(),
        automated || stdin,
        ex,
        noted,
    );
    if denies(plain) || (dialect == ShellDialect::PowerShell && denies(
        text_remove_item(candidate.as_slice(), automated || stdin),
    )) {
        rm_unverified_deny()
    } else {
        RmParseDecision::NoMatch
    }
}

/// What is decided of a command that another program runs, with `suffix` behind
/// its arguments.
pub open spec fn nested_verdict(command: Seq<char>, suffix: Seq<char>, ex: Seq<ExemptionView>) -> RmParseDecision {
    let (from, stdin) = behind_prefixes(command);
    let candidate = bare_command(rest(command, from), MAX_RM_EXECUTION_FRONTENDS as nat).0 + suffix;
    let plain = plain_verdict(candidate, stdin, ex);
    if plain is NoMatch {
        unverified_verdict(candidate, stdin, ShellDialect::Posix, ex).placeless()
    } else {
        plain.placeless()
    }
}

/// What exemptions suppress of a command that another program runs.
pub open spec fn nested_notes(command: Seq<char>, suffix: Seq<char>, ex: Seq<ExemptionView>) -> Seq<
    SuppressionView,
> {
    let (from, stdin) = behind_prefixes(command);
    let candidate = bare_command(rest(command, from), MAX_RM_EXECUTION_FRONTENDS as nat).0 + suffix;
    plain_notes(candidate, stdin, ex) + if plain_verdict(candidate, stdin, ex) is NoMatch {
        unverified_notes(candidate, stdin, ShellDialect::Posix, ex)
    } else {
        Seq::empty()
    }
}

/// What is decided of a command that another program runs, with `suffix` behind
/// its arguments.
pub fn parse_nested_rm_execution(
    command: &[char],
    suffix: &str,
    ex: &Vec<TargetExemption>,
    noted: &mut Vec<TargetSuppression>,
) -> (r: RmParseDecision)
    ensures
        r == nested_verdict(command@, suffix@, exemption_views(ex@)),
        suppression_views(final(noted)@) == suppression_views(old(noted)@) + nested_notes(
            command@,
            suffix@,
            exemption_views(ex@),
        ),
{
    let (from, stdin) = strip_leading_rm_prefixes(command);
    let (bare, _changed) = normalize_rm_execution_frontends(from_index(command, from));
    let mut candidate = bare;
    push_str(&mut candidate, suffix);
    let plain = parse_normalized_rm_command_segment(candidate.as_slice(), stdin, ex, noted);
    match plain {
        RmParseDecision::NoMatch => parse_unverified_rm_command_segment(
            candidate.as_slice(),
            stdin,
            ShellDialect::Posix,
            ex,
            noted,
        ).without_span(),
        _ => plain.without_span(),
    }
}

/// What a word behind `xargs` is.
#[derive(Debug, Clone, Copy, PartialEq, Eq, Structural)]
pub enum XargsWord {
    /// The command follows.
    Terminator,
    /// No command is run, or the word is not known.
    Stop,
    /// An option.
    Flag,
    /// An option whose value is the next word.
    TakesNext,
    /// The command.
    Command,
}

/// An option of `xargs` that is a word of its own.
pub open spec fn xargs_flag(s: Seq<char>) -> bool {
    s == "-0"@ || s == "--null"@ || s == "-o"@ || s == "--open-tty"@ || s == "-p"@ || s
        == "--interactive"@ || s == "-r"@ || s == "--no-run-if-empty"@ || s == "-t"@ || s
        == "--verbose"@ || s == "-x"@ || s == "--exit"@ || s == "--show-limits"@
}

/// An option of `xargs` whose value is the next word.
pub open spec fn xargs_takes_next(s: Seq<char>) -> bool {
    s == "-a"@ || s == "--arg-file"@ || s == "-d"@ || s == "--delimiter"@ || s == "-E"@ || s == "-I"@
        || s == "-L"@ || s == "-n"@ || s == "-P"@ || s == "-s"@ || s == "--max-lines"@ || s
        == "--max-args"@ || s == "--max-procs"@ || s == "--max-chars"@ || s == "--process-slot-var"@
}

/// Whether a word starts with `prefix` and goes on.
pub open spec fn goes_on(s: Seq<char>, prefix: Seq<char>) -> bool {
    starts(s, prefix) && s.len() > prefix.len()
}

/// An option of `xargs` with its value behind a `=`.
pub open spec fn xargs_attached(s: Seq<char>) -> bool {
    goes_on(s, "--arg-file="@) || goes_on(s, "--delimiter="@) || goes_on(s, "--eof="@) || goes_on(
        s,
        "--replace="@,
    ) || goes_on(s, "--max-lines="@) || goes_on(s, "--max-args="@) || goes_on(s, "--max-procs="@)
        || goes_on(s, "--max-chars="@) || goes_on(s, "--process-slot-var="@)
}

/// An option of `xargs` whose value may be left out.
pub open spec fn xargs_optional(s: Seq<char>) -> bool {
    s == "-e"@ || s == "-i"@ || s == "-l"@ || s == "--eof"@ || s == "--replace"@
}

/// What a cluster of short options of `xargs` is, from its `i`th character on.
pub open spec fn xargs_cluster(s: Seq<char>, i: int) -> XargsWord
    decreases s.len() - i,
{
    if i < 0 || i >= s.len() {
        XargsWord::Flag
    } else if s[i] == '0' || s[i] == 'o' || s[i] == 'p' || s[i] == 'r' || s[i] == 't' || s[i] == 'x' {
        xargs_cluster(s, i + 1)
    } else if s[i] == 'e' || s[i] == 'i' || s[i] == 'l' {
        XargsWord::Flag
    } else if s[i] == 'a' || s[i] == 'd' || s[i] == 'E' || s[i] == 'I' || s[i] == 'L' || s[i] == 'n'
        || s[i] == 'P' || s[i] == 's' {
        if i + 1 == s.len() {
            XargsWord::TakesNext
        } else {
            XargsWord::Flag
        }
    } else {
        XargsWord::Stop
    }
}

/// What a word behind `xargs` is.
pub open spec fn xargs_word(s: Seq<char>) -> XargsWord {
    if s == "--"@ {
        XargsWord::Terminator
    } else if s == "--help"@ || s == "--version"@ {
        XargsWord::Stop
    } else if xargs_flag(s) || xargs_attached(s) || xargs_optional(s) {
        XargsWord::Flag
    } else if xargs_takes_next(s) {
        XargsWord::TakesNext
    } else if s.len() > 1 && s[0] == '-' {
        xargs_cluster(s, 1)
    } else {
        XargsWord::Command
    }
}

/// The number of the token from the `i`th on with which the command of `xargs`
/// starts.
pub open spec fn xargs_command_from(s: Seq<char>, toks: Seq<NormalizeToken>, i: int) -> Option<int>
    decreases toks.len() - i,
{
    if i < 0 || i >= toks.len() || !toks[i].word() {
        None
    } else {
        match xargs_word(unquoted(toks[i].of(s))) {
            XargsWord::Terminator => if i + 1 < toks.len() {
                Some(i + 1)
            } else {
                None
            },
            XargsWord::Stop => None,
            XargsWord::Flag => xargs_command_from(s, toks, i + 1),
            XargsWord::TakesNext => xargs_command_from(
                s,
                toks,
                onward(i, i + 2, toks.len() as int),
            ),
            XargsWord::Command => Some(i),
        }
    }
}

/// Whether a word starts with `prefix` and goes on.
fn word_goes_on(s: &[char], prefix: &str) -> (r: bool)
    ensures
        r == goes_on(s@, prefix@),
{
    starts_str(s, prefix) && s.len() > chars_of(prefix).len()
}

/// What a cluster of short options of `xargs` is.
fn classify_xargs_cluster(s: &[char]) -> (r: XargsWord)
    requires
        s.len() > 0,
    ensures
        r == xargs_cluster(s@, 1),
{
    let mut i: usize = 1;
    while i < s.len()
        invariant
            1 <= i <= s.len(),
            xargs_cluster(s@, 1) == xargs_cluster(s@, i as int),
        decreases s.len() - i,
    {
        let c = s[i];
        if c == '0' || c == 'o' || c == 'p' || c == 'r' || c == 't' || c == 'x' {
            i += 1;
            continue ;
        }
        if c == 'e' || c == 'i' || c == 'l' {
            return XargsWord::Flag;
        }
        if c == 'a' || c == 'd' || c == 'E' || c == 'I' || c == 'L' || c == 'n' || c == 'P' || c
            == 's' {
            return if i + 1 == s.len() {
                XargsWord::TakesNext
            } else {
                XargsWord::Flag
            };
        }
        return XargsWord::Stop;
    }
    XargsWord::Flag
}

/// What a word behind `xargs` is.
fn classify_xargs_word(s: &[char]) -> (r: XargsWord)
    ensures
        r == xargs_word(s@),
{
    if is_str(s, "--") {
        return XargsWord::Terminator;
    }
    if is_str(s, "--help") || is_str(s, "--version") {
        return XargsWord::Stop;
    }
    if is_str(s, "-0") || is_str(s, "--null") || is_str(s, "-o") || is_str(s, "--open-tty")
        || is_str(s, "-p") || is_str(s, "--interactive") || is_str(s, "-r") || is_str(
        s,
        "--no-run-if-empty",
    ) || is_str(s, "-t") || is_str(s, "--verbose") || is_str(s, "-x") || is_str(s, "--exit")
        || is_str(s, "--show-limits") {
        return XargsWord::Flag;
    }
    if word_goes_on(s, "--arg-file=") || word_goes_on(s, "--delimiter=") || word_goes_on(s, "--eof=")
        || word_goes_on(s, "--replace=") || word_goes_on(s, "--max-lines=") || word_goes_on(
        s,
        "--max-args=",
    ) || word_goes_on(s, "--max-procs=") || word_goes_on(s, "--max-chars=") || word_goes_on(
        s,
        "--process-slot-var=",
    ) {
        return XargsWord::Flag;
    }
    if is_str(s, "-e") || is_str(s, "-i") || is_str(s, "-l") || is_str(s, "--eof") || is_str(
        s,
        "--replace",
    ) {
        return XargsWord::Flag;
    }
    if is_str(s, "-a") || is_str(s, "--arg-file") || is_str(s, "-d") || is_str(s, "--delimiter")
        || is_str(s, "-E") || is_str(s, "-I") || is_str(s, "-L") || is_str(s, "-n") || is_str(s, "-P")
        || is_str(s, "-s") || is_str(s, "--max-lines") || is_str(s, "--max-args") || is_str(
        s,
        "--max-procs",
    ) || is_str(s, "--max-chars") || is_str(s, "--process-slot-var") {
        return XargsWord::TakesNext;
    }
    if s.len() > 1 && s[0] == '-' {
        return classify_xargs_cluster(s);
    }
    XargsWord::Command
}

/// The number of the token with which the command of `xargs` starts.
pub fn xargs_command_index(s: &[char], toks: &Vec<NormalizeToken>) -> (r: Option<usize>)
    requires
        forall|k: int| 0 <= k < toks@.len() ==> (#[trigger] toks@[k]).fits(s@.len() as int),
    ensures
        match r {
            Some(i) => xargs_command_from(s@, toks@, 1) == Some(i as int) && i < toks.len(),
            None => xargs_command_from(s@, toks@, 1) is None,
        },
{
    let mut i: usize = 1;
    while i < toks.len() && toks[i].is_word()
        invariant
            1 <= i,
            forall|k: int| 0 <= k < toks@.len() ==> (#[trigger] toks@[k]).fits(s@.len() as int),
            xargs_command_from(s@, toks@, 1) == xargs_command_from(s@, toks@, i as int),
        decreases toks.len() + 1 - i,
    {
        let t = toks[i];
        assert(toks@[i as int].fits(s@.len() as int));
        match classify_xargs_word(strip_outer_quotes(t.text(s)).1) {
            XargsWord::Terminator => {
                return if i + 1 < toks.len() {
                    Some(i + 1)
                } else {
                    None
                };
            },
            XargsWord::Stop => {
                return None;
            },
            XargsWord::Flag => {
                i += 1;
            },
            XargsWord::TakesNext => {
                i = advance(i, 2, toks.len());
            },
            XargsWord::Command => {
                return Some(i);
            },
        }
    }
    None
}

/// A word that ends the command of `-exec`.
pub open spec fn ends_exec(word: Seq<char>) -> bool {
    let w = unquoted(word);
    w == ";"@ || w == "\\;"@ || w == "+"@
}

/// Whether a word ends the command of `-exec`.
pub fn find_exec_terminator(word: &[char]) -> (r: bool)
    ensures
        r == ends_exec(word@),
{
    let w = strip_outer_quotes(word).1;
    is_str(w, ";") || is_str(w, "\\;") || is_str(w, "+")
}

/// The number of the token from the `i`th on with which the command of `-exec`
/// ends.
pub open spec fn exec_end_from(s: Seq<char>, toks: Seq<NormalizeToken>, i: int) -> int
    decreases toks.len() - i,
{
    if i < 0 || i >= toks.len() || !toks[i].word() || ends_exec(unquoted(toks[i].of(s))) {
        i
    } else {
        exec_end_from(s, toks, i + 1)
    }
}

/// What is decided of the command of `-exec` in the tokens from the `i`th on up to
/// the `end`th.
#[verifier::opaque]
pub open spec fn exec_verdict(
    s: Seq<char>,
    toks: Seq<NormalizeToken>,
    i: int,
    end: int,
    ex: Seq<ExemptionView>,
) -> RmParseDecision {
    let stop = toks[end - 1].end as int;
    let program = posix_decoded(toks[i].of(s));
    let candidate = "rm"@ + s.subrange(toks[i].end as int, stop);
    let nested = nested_verdict(s.subrange(toks[i].start as int, stop), ""@, ex);
    if contains_text(program, "{}"@) && plain_verdict(candidate, false, ex) is Deny {
        unverified_deny()
    } else if nested is Deny {
        nested
    } else {
        RmParseDecision::NoMatch
    }
}

/// What exemptions suppress of the command of `-exec`.
#[verifier::opaque]
pub open spec fn exec_notes(
    s: Seq<char>,
    toks: Seq<NormalizeToken>,
    i: int,
    end: int,
    ex: Seq<ExemptionView>,
) -> Seq<SuppressionView> {
    let stop = toks[end - 1].end as int;
    let program = posix_decoded(toks[i].of(s));
    let candidate = "rm"@ + s.subrange(toks[i].end as int, stop);
    let found = contains_text(program, "{}"@);
    let first = if found {
        plain_notes(candidate, false, ex)
    } else {
        Seq::empty()
    };
    if found && plain_verdict(candidate, false, ex) is Deny {
        first
    } else {
        first + nested_notes(s.subrange(toks[i].start as int, stop), ""@, ex)
    }
}

/// What exemptions suppress of the actions of `find` from the `i`th token on.
pub open spec fn find_notes_from(
    s: Seq<char>,
    toks: Seq<NormalizeToken>,
    i: int,
    ex: Seq<ExemptionView>,
) -> Seq<SuppressionView>
    decreases toks.len() - i,
{
    if i < 0 || i >= toks.len() {
        Seq::empty()
    } else {
        let word = unquoted(toks[i].of(s));
        if !toks[i].word() || !(word == "-exec"@ || word == "-execdir"@) {
            find_notes_from(s, toks, i + 1, ex)
        } else {
            let end = exec_end_from(s, toks, i + 1);
            if end <= i + 1 || end >= toks.len() {
                Seq::empty()
            } else if exec_verdict(s, toks, i + 1, end, ex) is Deny {
                exec_notes(s, toks, i + 1, end, ex)
            } else {
                exec_notes(s, toks, i + 1, end, ex) + find_notes_from(s, toks, end + 1, ex)
            }
        }
    }
}

/// What is decided of the actions of `find` from the `i`th token on.
pub open spec fn find_actions_from(
    s: Seq<char>,
    toks: Seq<NormalizeToken>,
    i: int,
    ex: Seq<ExemptionView>,
) -> RmParseDecision
    decreases toks.len() - i,
{
    if i < 0 || i >= toks.len() {
        RmParseDecision::NoMatch
    } else {
        let word = unquoted(toks[i].of(s));
        if !toks[i].word() || !(word == "-exec"@ || word == "-execdir"@) {
            find_actions_from(s, toks, i + 1, ex)
        } else {
            let end = exec_end_from(s, toks, i + 1);
            if end <= i + 1 || end >= toks.len() {
                RmParseDecision::NoMatch
            } else if exec_verdict(s, toks, i + 1, end, ex) is Deny {
                exec_verdict(s, toks, i + 1, end, ex)
            } else {
                find_actions_from(s, toks, end + 1, ex)
            }
        }
    }
}

/// What is decided of the command of `-exec`. Where its program is the file that
/// was found, that file may be `rm`.
fn decide_exec(
    s: &[char],
    toks: &Vec<NormalizeToken>,
    i: usize,
    end: usize,
    ex: &Vec<TargetExemption>,
    noted: &mut Vec<TargetSuppression>,
) -> (r: RmParseDecision)
    requires
        0 <= i < end <= toks.len(),
        forall|k: int| 0 <= k < toks@.len() ==> (#[trigger] toks@[k]).fits(s@.len() as int),
        forall|j: int, k: int| 0 <= j < k < toks@.len() ==> toks@[j].end <= toks@[k].start,
    ensures
        r == exec_verdict(s@, toks@, i as int, end as int, exemption_views(ex@)),
        suppression_views(final(noted)@) == suppression_views(old(noted)@) + exec_notes(
            s@,
            toks@,
            i as int,
            end as int,
            exemption_views(ex@),
        ),
{
    reveal(exec_verdict);
    reveal(exec_notes);
    assert(toks@[i as int].fits(s@.len() as int));
    assert(toks@[end - 1].fits(s@.len() as int));
    let first = toks[i];
    let stop = toks[end - 1].end;
    assert(first.end <= stop) by {
        if i < end - 1 {
            assert(toks@[i as int].end <= toks@[end - 1].start);
        }
    }
    let program = decode_posix(first.text(s));
    if has_str(program.as_slice(), "{}") {
        let mut candidate = chars_of("rm");
        push_all(&mut candidate, slice_subrange(s, first.end, stop));
        if denies(parse_normalized_rm_command_segment(candidate.as_slice(), false, ex, noted)) {
            return rm_unverified_deny();
        }
    }
    let nested = parse_nested_rm_execution(slice_subrange(s, first.start, stop), "", ex, noted);
    if denies(nested) {
        nested
    } else {
        RmParseDecision::NoMatch
    }
}

/// Where the command of `-exec` ends that starts with the `from`th token.
fn find_exec_end(s: &[char], toks: &Vec<NormalizeToken>, from: usize) -> (r: usize)
    requires
        from <= toks.len(),
        forall|k: int| 0 <= k < toks@.len() ==> (#[trigger] toks@[k]).fits(s@.len() as int),
    ensures
        r == exec_end_from(s@, toks@, from as int),
        from <= r <= toks.len(),
{
    let mut end: usize = from;
    while end < toks.len()
        invariant
            from <= end <= toks.len(),
            forall|k: int| 0 <= k < toks@.len() ==> (#[trigger] toks@[k]).fits(s@.len() as int),
            exec_end_from(s@, toks@, from as int) == exec_end_from(s@, toks@, end as int),
        decreases toks.len() - end,
    {
        let e = toks[end];
        assert(toks@[end as int].fits(s@.len() as int));
        if !e.is_word() || find_exec_terminator(strip_outer_quotes(e.text(s)).1) {
            return end;
        }
        end += 1;
    }
    end
}

/// What is decided of the actions of `find`.
pub fn parse_find_exec_rm_actions(
    s: &[char],
    toks: &Vec<NormalizeToken>,
    ex: &Vec<TargetExemption>,
    noted: &mut Vec<TargetSuppression>,
) -> (r: RmParseDecision)
    requires
        forall|k: int| 0 <= k < toks@.len() ==> (#[trigger] toks@[k]).fits(s@.len() as int),
        forall|j: int, k: int| 0 <= j < k < toks@.len() ==> toks@[j].end <= toks@[k].start,
    ensures
        r == find_actions_from(s@, toks@, 1, exemption_views(ex@)),
        suppression_views(final(noted)@) == suppression_views(old(noted)@) + find_notes_from(
            s@,
            toks@,
            1,
            exemption_views(ex@),
        ),
{
    let ghost views = exemption_views(ex@);
    let ghost all = suppression_views(noted@) + find_notes_from(s@, toks@, 1, views);
    let mut i: usize = 1;
    while i < toks.len()
        invariant
            1 <= i,
            views == exemption_views(ex@),
            forall|k: int| 0 <= k < toks@.len() ==> (#[trigger] toks@[k]).fits(s@.len() as int),
            forall|j: int, k: int| 0 <= j < k < toks@.len() ==> toks@[j].end <= toks@[k].start,
            find_actions_from(s@, toks@, 1, views) == find_actions_from(
                s@,
                toks@,
                i as int,
                views,
            ),
            all == suppression_views(old(noted)@) + find_notes_from(s@, toks@, 1, views),
            all == suppression_views(noted@) + find_notes_from(s@, toks@, i as int, views),
        decreases toks.len() - i,
    {
        let t = toks[i];
        assert(toks@[i as int].fits(s@.len() as int));
        if !t.is_word() {
            i += 1;
            continue ;
        }
        let word = strip_outer_quotes(t.text(s)).1;
        if !(is_str(word, "-exec") || is_str(word, "-execdir")) {
            i += 1;
            continue ;
        }
        let end = find_exec_end(s, toks, i + 1);
        if end <= i + 1 || end >= toks.len() {
            return RmParseDecision::NoMatch;
        }
        let ghost before = suppression_views(noted@);
        let d = decide_exec(s, toks, i + 1, end, ex, noted);
        if denies(d) {
            return d;
        }
        proof {
            let notes = exec_notes(s@, toks@, i + 1, end as int, views);
            let later = find_notes_from(s@, toks@, end + 1, views);
            assert(before + (notes + later) =~= (before + notes) + later);
        }
        i = end + 1;
    }
    RmParseDecision::NoMatch
}

/// What is decided of a command that runs `rm` through `xargs` or `find`.
pub open spec fn argv_verdict(s: Seq<char>, ex: Seq<ExemptionView>) -> RmParseDecision {
    let toks = tokens(s, ShellDialect::Unknown);
    let program = basename(unquoted(toks[0].of(s)));
    if toks.len() == 0 || !toks[0].word() {
        RmParseDecision::NoMatch
    } else if program == "xargs"@ {
        match xargs_command_from(s, toks, 1) {
            None => RmParseDecision::NoMatch,
            Some(i) => if toks[i].word() {
                nested_verdict(
                    rest(s, toks[i].start as int),
                    " -r ./__dcg_xargs_input__"@,
                    ex,
                )
            } else {
                RmParseDecision::NoMatch
            },
        }
    } else if program == "find"@ {
        find_actions_from(s, toks, 1, ex)
    } else {
        RmParseDecision::NoMatch
    }
}

/// What exemptions suppress of a command that runs `rm` through `xargs` or `find`.
pub open spec fn argv_notes(s: Seq<char>, ex: Seq<ExemptionView>) -> Seq<SuppressionView> {
    let toks = tokens(s, ShellDialect::Unknown);
    let program = basename(unquoted(toks[0].of(s)));
    if toks.len() == 0 || !toks[0].word() {
        Seq::empty()
    } else if program == "xargs"@ {
        match xargs_command_from(s, toks, 1) {
            None => Seq::empty(),
            Some(i) => if toks[i].word() {
                nested_notes(
                    rest(s, toks[i].start as int),
                    " -r ./__dcg_xargs_input__"@,
                    ex,
                )
            } else {
                Seq::empty()
            },
        }
    } else if program == "find"@ {
        find_notes_from(s, toks, 1, ex)
    } else {
        Seq::empty()
    }
}

/// What is decided of a command that runs `rm` through `xargs` or `find`. What
/// `xargs` reads may be an option and an operand.
pub fn parse_rm_argv_frontend(
    s: &[char],
    ex: &Vec<TargetExemption>,
    noted: &mut Vec<TargetSuppression>,
) -> (r: RmParseDecision)
    ensures
        r == argv_verdict(s@, exemption_views(ex@)),
        suppression_views(final(noted)@) == suppression_views(old(noted)@) + argv_notes(
            s@,
            exemption_views(ex@),
        ),
{
    let toks = tokenize_for_normalization(s);
    if toks.len() == 0 || !toks[0].is_word() {
        return RmParseDecision::NoMatch;
    }
    assert(toks@[0].fits(s@.len() as int));
    let first = toks[0];
    let program = last_component(strip_outer_quotes(first.text(s)).1);
    if is_str(program, "xargs") {
        match xargs_command_index(s, &toks) {
            None => RmParseDecision::NoMatch,
            Some(i) => {
                assert(toks@[i as int].fits(s@.len() as int));
                if toks[i].is_word() {
                    parse_nested_rm_execution(
                        from_index(s, toks[i].start),
                        " -r ./__dcg_xargs_input__",
                        ex,
                        noted,
                    )
                } else {
                    RmParseDecision::NoMatch
                }
            },
        }
    } else if is_str(program, "find") {
        parse_find_exec_rm_actions(s, &toks, ex, noted)
    } else {
        RmParseDecision::NoMatch
    }
}

} // verus!
