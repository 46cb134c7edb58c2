//! What holds of every suppression that is noted.

use vstd::prelude::*;
use crate::filesystem::command::{
    bare_notes, cmd_arguments_from, cmd_notes, common_notes, dialect_notes, own_notes,
    rm_command_notes, segment_notes, segments_notes,
};
use crate::filesystem::frontends::{
    argv_notes, bare_command, behind_prefixes, exec_end_from, exec_notes, find_notes_from,
    nested_notes, unverified_notes, xargs_command_from, MAX_RM_EXECUTION_FRONTENDS,
};
use crate::filesystem::paths::PathView;
use crate::filesystem::powershell::first_word_from;
use crate::filesystem::segment::{
    all_exempt, exempting_glob, glob_from, plain_notes, rm_notes, rm_word_from, rule_key,
    scanned_notes, suppressed, ExemptionView, RmOptionScanning, SuppressionView,
};
use crate::filesystem::stdin::{automated_stdin, openers_end};
use crate::shell::segments::{segments, Segment};
use crate::shell::token::{tokens, NormalizeToken, ShellDialect};
use crate::text::rest;

verus! {

/// A suppression is by an exemption: one of the same rule, target and glob.
pub open spec fn is_by_exemption(note: SuppressionView, ex: Seq<ExemptionView>) -> bool {
    exists|i: int|
        0 <= i < ex.len() && (#[trigger] ex[i]).rule_id == note.rule_id && ex[i].target
            == note.target && ex[i].glob == note.glob
}

/// All suppressions are by exemptions.
pub open spec fn are_by_exemptions(notes: Seq<SuppressionView>, ex: Seq<ExemptionView>) -> bool {
    forall|k: int| 0 <= k < notes.len() ==> is_by_exemption(#[trigger] notes[k], ex)
}

/// The glob that exempts a target is one of an exemption.
proof fn glob_is_of_an_exemption(ex: Seq<ExemptionView>, rule_id: Seq<char>, target: Seq<char>, i: int)
    ensures
        match glob_from(ex, rule_id, target, i) {
            Some(glob) => is_by_exemption(SuppressionView { rule_id, glob, target }, ex),
            None => true,
        },
    decreases ex.len() - i,
{
    if 0 <= i < ex.len() {
        if ex[i].rule_id == rule_id && ex[i].target == target {
            assert(ex[i].glob == glob_from(ex, rule_id, target, i)->0);
        } else {
            glob_is_of_an_exemption(ex, rule_id, target, i + 1);
        }
    }
}

/// What is suppressed of a rule is by exemptions.
proof fn suppressed_is_by_exemptions(ex: Seq<ExemptionView>, rule: &'static str, paths: Seq<PathView>)
    ensures
        are_by_exemptions(suppressed(ex, rule, paths), ex),
{
    let notes = suppressed(ex, rule, paths);
    assert forall|k: int| 0 <= k < notes.len() implies is_by_exemption(#[trigger] notes[k], ex) by {
        assert(all_exempt(ex, rule, paths));
        assert(exempting_glob(ex, rule, paths[k].unquoted) is Some);
        glob_is_of_an_exemption(ex, rule_key(rule), paths[k].unquoted, 0);
    }
}

/// Two lists of suppressions by exemptions are one.
proof fn both_are_by_exemptions(
    a: Seq<SuppressionView>,
    b: Seq<SuppressionView>,
    ex: Seq<ExemptionView>,
)
    requires
        are_by_exemptions(a, ex),
        are_by_exemptions(b, ex),
    ensures
        are_by_exemptions(a + b, ex),
{
    assert forall|k: int| 0 <= k < (a + b).len() implies is_by_exemption(#[trigger] (a + b)[k], ex) by {
        if k < a.len() {
            assert((a + b)[k] == a[k]);
        } else {
            assert((a + b)[k] == b[k - a.len()]);
        }
    }
}

/// What is noted of the arguments of `rm`, as one kind reads them, is by
/// exemptions.
proof fn scanned_notes_are_by_exemptions(
    s: Seq<char>,
    toks: Seq<NormalizeToken>,
    start: int,
    automated: bool,
    scanning: RmOptionScanning,
    ex: Seq<ExemptionView>,
)
    ensures
        are_by_exemptions(scanned_notes(s, toks, start, automated, scanning, ex), ex),
{
    assert forall|rule: &'static str, paths: Seq<PathView>| are_by_exemptions(
        #[trigger] suppressed(ex, rule, paths),
        ex,
    ) by {
        suppressed_is_by_exemptions(ex, rule, paths);
    }
}

/// What is noted of a command without wrapping programs is by exemptions.
proof fn plain_notes_are_by_exemptions(s: Seq<char>, automated: bool, ex: Seq<ExemptionView>)
    ensures
        are_by_exemptions(plain_notes(s, automated, ex), ex),
{
    let toks = tokens(s, ShellDialect::Unknown);
    let i = rm_word_from(s, toks, 0);
    let gnu = scanned_notes(s, toks, i + 1, automated, RmOptionScanning::GnuPermuted, ex);
    let apple = scanned_notes(
        s,
        toks,
        i + 1,
        automated,
        RmOptionScanning::AppleStopAtFirstOperand,
        ex,
    );
    scanned_notes_are_by_exemptions(
        s,
        toks,
        i + 1,
        automated,
        RmOptionScanning::GnuPermuted,
        ex,
    );
    scanned_notes_are_by_exemptions(
        s,
        toks,
        i + 1,
        automated,
        RmOptionScanning::AppleStopAtFirstOperand,
        ex,
    );
    both_are_by_exemptions(gnu, apple, ex);
    assert(rm_notes(s, toks, i + 1, automated, ex) == gnu + apple);
}

/// What is noted of a command whose program is computed is by exemptions.
proof fn unverified_notes_are_by_exemptions(
    s: Seq<char>,
    automated: bool,
    dialect: ShellDialect,
    ex: Seq<ExemptionView>,
)
    ensures
        are_by_exemptions(unverified_notes(s, automated, dialect, ex), ex),
{
    assert forall|c: Seq<char>, a: bool| are_by_exemptions(#[trigger] plain_notes(c, a, ex), ex) by {
        plain_notes_are_by_exemptions(c, a, ex);
    }
}

/// What is noted of a command that another program runs is by exemptions.
proof fn nested_notes_are_by_exemptions(s: Seq<char>, suffix: Seq<char>, ex: Seq<ExemptionView>)
    ensures
        are_by_exemptions(nested_notes(s, suffix, ex), ex),
{
    let (from, stdin) = behind_prefixes(s);
    let c = bare_command(rest(s, from), MAX_RM_EXECUTION_FRONTENDS as nat).0 + suffix;
    let plain = plain_notes(c, stdin, ex);
    let more = unverified_notes(c, stdin, ShellDialect::Posix, ex);
    plain_notes_are_by_exemptions(c, stdin, ex);
    unverified_notes_are_by_exemptions(c, stdin, ShellDialect::Posix, ex);
    both_are_by_exemptions(plain, more, ex);
    assert(plain + Seq::<SuppressionView>::empty() =~= plain);
}

/// What is noted of the command of `-exec` is by exemptions.
proof fn exec_notes_are_by_exemptions(
    s: Seq<char>,
    toks: Seq<NormalizeToken>,
    i: int,
    end: int,
    ex: Seq<ExemptionView>,
)
    ensures
        are_by_exemptions(exec_notes(s, toks, i, end, ex), ex),
{
    reveal(exec_notes);
    let stop = toks[end - 1].end as int;
    let first = plain_notes("rm"@ + s.subrange(toks[i].end as int, stop), false, ex);
    let nested = nested_notes(s.subrange(toks[i].start as int, stop), ""@, ex);
    plain_notes_are_by_exemptions("rm"@ + s.subrange(toks[i].end as int, stop), false, ex);
    nested_notes_are_by_exemptions(s.subrange(toks[i].start as int, stop), ""@, ex);
    both_are_by_exemptions(first, nested, ex);
    assert(Seq::<SuppressionView>::empty() + nested =~= nested);
}

/// What is noted of the actions of `find` is by exemptions.
proof fn find_notes_are_by_exemptions(
    s: Seq<char>,
    toks: Seq<NormalizeToken>,
    i: int,
    ex: Seq<ExemptionView>,
)
    ensures
        are_by_exemptions(find_notes_from(s, toks, i, ex), ex),
    decreases toks.len() - i,
{
    if 0 <= i < toks.len() {
        let end = exec_end_from(s, toks, i + 1);
        find_notes_are_by_exemptions(s, toks, i + 1, ex);
        exec_notes_are_by_exemptions(s, toks, i + 1, end, ex);
        if i + 1 < end < toks.len() {
            find_notes_are_by_exemptions(s, toks, end + 1, ex);
            both_are_by_exemptions(
                exec_notes(s, toks, i + 1, end, ex),
                find_notes_from(s, toks, end + 1, ex),
                ex,
            );
        }
    }
}

/// What is noted of a command that runs `rm` through another program is by
/// exemptions.
proof fn argv_notes_are_by_exemptions(s: Seq<char>, ex: Seq<ExemptionView>)
    ensures
        are_by_exemptions(argv_notes(s, ex), ex),
{
    let toks = tokens(s, ShellDialect::Unknown);
    find_notes_are_by_exemptions(s, toks, 1, ex);
    if let Some(i) = xargs_command_from(s, toks, 1) {
        nested_notes_are_by_exemptions(
            rest(s, toks[i].start as int),
            " -r ./__dcg_xargs_input__"@,
            ex,
        );
    }
}

/// What is noted of one simple command is by exemptions.
proof fn segment_notes_are_by_exemptions(s: Seq<char>, automated: bool, ex: Seq<ExemptionView>)
    ensures
        are_by_exemptions(segment_notes(s, automated, ex), ex),
{
    let opened = openers_end(s, 0);
    let (prefixed, stdin) = behind_prefixes(rest(s, opened));
    let bare = bare_command(
        rest(rest(s, opened), prefixed),
        MAX_RM_EXECUTION_FRONTENDS as nat,
    ).0;
    plain_notes_are_by_exemptions(bare, automated || stdin, ex);
    argv_notes_are_by_exemptions(bare, ex);
    both_are_by_exemptions(plain_notes(bare, automated || stdin, ex), argv_notes(bare, ex), ex);
    assert(are_by_exemptions(bare_notes(bare, automated || stdin, ex), ex));
}

/// What is noted of the segments of a command is by exemptions.
proof fn segments_notes_are_by_exemptions(
    s: Seq<char>,
    segs: Seq<Segment>,
    i: int,
    ex: Seq<ExemptionView>,
)
    ensures
        are_by_exemptions(segments_notes(s, segs, i, ex), ex),
    decreases segs.len() - i,
{
    if 0 <= i < segs.len() {
        let text = segs[i].of(s);
        let automated = automated_stdin(s, segs[i].start as int, ShellDialect::Posix);
        segment_notes_are_by_exemptions(text, automated, ex);
        segments_notes_are_by_exemptions(s, segs, i + 1, ex);
        both_are_by_exemptions(
            segment_notes(text, automated, ex),
            segments_notes(s, segs, i + 1, ex),
            ex,
        );
    }
}

/// What is noted of a command names only exemptions of the configuration: its
/// rules, its globs and its targets. Without exemptions nothing is noted.
pub proof fn suppressions_are_by_exemptions(s: Seq<char>, ex: Seq<ExemptionView>)
    ensures
        are_by_exemptions(rm_command_notes(s, ex), ex),
        ex.len() == 0 ==> rm_command_notes(s, ex).len() == 0,
{
    segments_notes_are_by_exemptions(s, segments(s, ShellDialect::Unknown), 0, ex);
    segment_notes_are_by_exemptions(s, false, ex);
    if rm_command_notes(s, ex).len() > 0 {
        assert(is_by_exemption(rm_command_notes(s, ex)[0], ex));
    }
}

/// Nor does what is noted of a simple command of any dialect name anything else.
pub proof fn suppressions_are_by_exemptions_in_dialect(
    s: Seq<char>,
    automated: bool,
    dialect: ShellDialect,
    ex: Seq<ExemptionView>,
)
    ensures
        are_by_exemptions(dialect_notes(s, automated, dialect, ex), ex),
        ex.len() == 0 ==> dialect_notes(s, automated, dialect, ex).len() == 0,
{
    let c = cmd_arguments_from(
        s,
        tokens(s, ShellDialect::Cmd),
        first_word_from(tokens(s, ShellDialect::Cmd), 0) + 1,
        false,
        "rm"@,
    );
    plain_notes_are_by_exemptions(c, automated, ex);
    assert(are_by_exemptions(cmd_notes(s, automated, ex), ex));
    assert(are_by_exemptions(own_notes(s, automated, dialect, ex), ex));
    segment_notes_are_by_exemptions(s, automated, ex);
    unverified_notes_are_by_exemptions(s, automated, dialect, ex);
    both_are_by_exemptions(
        segment_notes(s, automated, ex),
        unverified_notes(s, automated, dialect, ex),
        ex,
    );
    both_are_by_exemptions(
        own_notes(s, automated, dialect, ex),
        common_notes(s, automated, dialect, ex),
        ex,
    );
    if dialect_notes(s, automated, dialect, ex).len() > 0 {
        assert(is_by_exemption(dialect_notes(s, automated, dialect, ex)[0], ex));
    }
}

} // verus!
