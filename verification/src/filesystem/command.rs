//! What is decided of the removals in a command.

use vstd::prelude::*;
use crate::filesystem::executable::{rm_certainty, text_certainty, RmExecutableCertainty};
use crate::filesystem::flags::Span;
use crate::filesystem::frontends::{
    argv_notes, argv_verdict, bare_command, behind_prefixes, normalize_rm_execution_frontends,
    parse_rm_argv_frontend, parse_unverified_rm_command_segment, strip_leading_rm_prefixes,
    unverified_notes, unverified_verdict, MAX_RM_EXECUTION_FRONTENDS,
};
use crate::filesystem::powershell::{
    find_first_word, first_word_from, is_assignment, powershell_variable_assignment,
    remove_item_verdict, text_remove_item,
};
use crate::filesystem::segment::{
    exemption_views, parse_normalized_rm_command_segment, plain_notes, plain_verdict,
    suppression_views, ExemptionView, RmParseDecision, RmParseMatch, SuppressionView,
    TargetExemption, TargetSuppression,
};
use crate::filesystem::stdin::{
    automated_stdin, openers_end, strip_leading_posix_group_openers, text_automated_stdin,
};
use crate::shell::decode::{decoded_next, ShellTokenDecoder, ShellTokenRole};
use crate::shell::segments::{segments, split_command_segments, Segment};
use crate::shell::token::{tokenize_for_shell_dialect, tokens, NormalizeToken, ShellDialect};
use crate::text::{
    byte_at, byte_count, byte_len, byte_len_of_part, byte_position, char_behind, char_position,
    chars_of, from_index, has_char, push_all, rest,
};

verus! {

/// What is decided of one simple command, its place counted in characters.
pub open spec fn segment_verdict(s: Seq<char>, automated: bool, ex: Seq<ExemptionView>) -> RmParseDecision {
    let opened = openers_end(s, 0);
    let (prefixed, stdin) = behind_prefixes(rest(s, opened));
    let (bare, changed) = bare_command(
        rest(rest(s, opened), prefixed),
        MAX_RM_EXECUTION_FRONTENDS as nat,
    );
    let decision = bare_verdict(bare, automated || stdin, ex);
    if changed || opened + prefixed != 0 {
        decision.placeless()
    } else {
        decision
    }
}

/// What is decided of a command without wrapping programs and directories.
pub open spec fn bare_verdict(s: Seq<char>, automated: bool, ex: Seq<ExemptionView>) -> RmParseDecision {
    let plain = plain_verdict(s, automated, ex);
    if plain is NoMatch {
        argv_verdict(s, ex)
    } else {
        plain
    }
}

/// What exemptions suppress of a command without wrapping programs and directories.
pub open spec fn bare_notes(s: Seq<char>, automated: bool, ex: Seq<ExemptionView>) -> Seq<
    SuppressionView,
> {
    if plain_verdict(s, automated, ex) is NoMatch {
        plain_notes(s, automated, ex) + argv_notes(s, ex)
    } else {
        plain_notes(s, automated, ex)
    }
}

/// What exemptions suppress of one simple command.
pub open spec fn segment_notes(s: Seq<char>, automated: bool, ex: Seq<ExemptionView>) -> Seq<
    SuppressionView,
> {
    let opened = openers_end(s, 0);
    let (prefixed, stdin) = behind_prefixes(rest(s, opened));
    bare_notes(
        bare_command(
            rest(rest(s, opened), prefixed),
            MAX_RM_EXECUTION_FRONTENDS as nat,
        ).0,
        automated || stdin,
        ex,
    )
}

/// What is decided of a command without wrapping programs and directories.
fn decide_bare(
    s: &[char],
    automated: bool,
    ex: &Vec<TargetExemption>,
    noted: &mut Vec<TargetSuppression>,
) -> (r: RmParseDecision)
    ensures
        r == bare_verdict(s@, automated, exemption_views(ex@)),
        suppression_views(final(noted)@) == suppression_views(old(noted)@) + bare_notes(
            s@,
            automated,
            exemption_views(ex@),
        ),
{
    let plain = parse_normalized_rm_command_segment(s, automated, ex, noted);
    match plain {
        RmParseDecision::NoMatch => {
            let ghost before = suppression_views(old(noted)@);
            let ghost first = plain_notes(s@, automated, exemption_views(ex@));
            let ghost more = argv_notes(s@, exemption_views(ex@));
            let decision = parse_rm_argv_frontend(s, ex, noted);
            assert((before + first) + more =~= before + (first + more));
            decision
        },
        _ => plain,
    }
}

/// What is decided of one simple command, its place counted in characters.
fn decide_segment(
    s: &[char],
    automated: bool,
    ex: &Vec<TargetExemption>,
    noted: &mut Vec<TargetSuppression>,
) -> (r: RmParseDecision)
    ensures
        r == segment_verdict(s@, automated, exemption_views(ex@)),
        suppression_views(final(noted)@) == suppression_views(old(noted)@) + segment_notes(
            s@,
            automated,
            exemption_views(ex@),
        ),
{
    let opened = strip_leading_posix_group_openers(s);
    let inner = from_index(s, opened);
    let (prefixed, stdin) = strip_leading_rm_prefixes(inner);
    let (bare, changed) = normalize_rm_execution_frontends(from_index(inner, prefixed));
    let decision = decide_bare(bare.as_slice(), automated || stdin, ex, noted);
    if changed || opened != 0 || prefixed != 0 {
        decision.without_span()
    } else {
        decision
    }
}

/// A decision with its place counted in bytes.
pub open spec fn in_bytes(d: RmParseDecision, s: Seq<char>) -> RmParseDecision {
    match d {
        RmParseDecision::Deny(hit) => match hit.span {
            Some(span) => RmParseDecision::Deny(
                RmParseMatch {
                    span: Some(
                        Span {
                            start: byte_at(s, span.start as int) as usize,
                            end: byte_at(s, span.end as int) as usize,
                        },
                    ),
                    ..hit
                },
            ),
            None => d,
        },
        _ => d,
    }
}

/// A decision with its place counted in bytes.
fn count_bytes(d: RmParseDecision, s: &[char]) -> (r: RmParseDecision)
    requires
        byte_len(s@) <= usize::MAX,
    ensures
        r == in_bytes(d, s@),
{
    match d {
        RmParseDecision::Deny(hit) => match hit.span {
            Some(span) => RmParseDecision::Deny(
                RmParseMatch {
                    pattern_name: hit.pattern_name,
                    reason: hit.reason,
                    severity: hit.severity,
                    span: Some(
                        Span {
                            start: byte_position(s, span.start),
                            end: byte_position(s, span.end),
                        },
                    ),
                },
            ),
            None => d,
        },
        _ => d,
    }
}

/// What is decided of the segments of a command from the `i`th on: the first
/// denial, or else whether one of them, or one before (`allowed`), is allowed.
pub open spec fn segments_verdict(
    s: Seq<char>,
    segs: Seq<Segment>,
    i: int,
    allowed: bool,
    ex: Seq<ExemptionView>,
) -> RmParseDecision
    decreases segs.len() - i,
{
    if i < 0 || i >= segs.len() {
        if allowed {
            RmParseDecision::Allow
        } else {
            RmParseDecision::NoMatch
        }
    } else {
        let text = segs[i].of(s);
        let d = segment_verdict(
            text,
            automated_stdin(s, segs[i].start as int, ShellDialect::Posix),
            ex,
        );
        if d is Deny {
            in_bytes(d, text)
        } else {
            segments_verdict(s, segs, i + 1, allowed || d is Allow, ex)
        }
    }
}

/// What exemptions suppress of the segments of a command from the `i`th on.
pub open spec fn segments_notes(s: Seq<char>, segs: Seq<Segment>, i: int, ex: Seq<ExemptionView>) -> Seq<
    SuppressionView,
>
    decreases segs.len() - i,
{
    if i < 0 || i >= segs.len() {
        Seq::empty()
    } else {
        let text = segs[i].of(s);
        let automated = automated_stdin(s, segs[i].start as int, ShellDialect::Posix);
        if segment_verdict(text, automated, ex) is Deny {
            segment_notes(text, automated, ex)
        } else {
            segment_notes(text, automated, ex) + segments_notes(s, segs, i + 1, ex)
        }
    }
}

/// What exemptions suppress of the removals in a command of POSIX syntax.
pub open spec fn rm_command_notes(s: Seq<char>, ex: Seq<ExemptionView>) -> Seq<SuppressionView> {
    let segs = segments(s, ShellDialect::Unknown);
    if segs.len() > 1 {
        segments_notes(s, segs, 0, ex)
    } else {
        segment_notes(s, false, ex)
    }
}

/// What is decided of the removals in a command of POSIX syntax. A place is
/// counted in the bytes of the simple command that is denied.
pub open spec fn rm_command_verdict(s: Seq<char>, ex: Seq<ExemptionView>) -> RmParseDecision {
    let segs = segments(s, ShellDialect::Unknown);
    if segs.len() > 1 {
        segments_verdict(s, segs, 0, false, ex)
    } else {
        in_bytes(segment_verdict(s, false, ex), s)
    }
}

/// What is decided of the removals in a command of POSIX syntax, with targets that
/// the configuration exempts. The first denial decides; the command is allowed
/// where a removal in it is. What the exemptions suppress is added to `noted`.
pub fn parse_rm_command_with_exemptions(
    command: &str,
    ex: &Vec<TargetExemption>,
    noted: &mut Vec<TargetSuppression>,
) -> (r: RmParseDecision)
    ensures
        r == rm_command_verdict(command@, exemption_views(ex@)),
        suppression_views(final(noted)@) == suppression_views(old(noted)@) + rm_command_notes(
            command@,
            exemption_views(ex@),
        ),
{
    let chars = chars_of(command);
    let s = chars.as_slice();
    let bound = byte_count(command);
    let segs = split_command_segments(s);
    if segs.len() <= 1 {
        return count_bytes(decide_segment(s, false, ex, noted), s);
    }
    let ghost views = exemption_views(ex@);
    let ghost all = suppression_views(noted@) + rm_command_notes(command@, views);
    let mut allowed = false;
    let mut i: usize = 0;
    while i < segs.len()
        invariant
            0 <= i <= segs.len(),
            views == exemption_views(ex@),
            byte_len(s@) == bound,
            forall|k: int| 0 <= k < segs@.len() ==> (#[trigger] segs@[k]).fits(s@.len() as int),
            rm_command_verdict(command@, views) == segments_verdict(
                s@,
                segs@,
                i as int,
                allowed,
                views,
            ),
            all == suppression_views(old(noted)@) + rm_command_notes(command@, views),
            all == suppression_views(noted@) + segments_notes(s@, segs@, i as int, views),
        decreases segs.len() - i,
    {
        let seg = segs[i];
        assert(segs@[i as int].fits(s@.len() as int));
        let text = seg.text(s);
        let automated = text_automated_stdin(s, seg.start, ShellDialect::Posix);
        let ghost before = suppression_views(noted@);
        let d = decide_segment(text, automated, ex, noted);
        match d {
            RmParseDecision::Deny(_) => {
                proof {
                    byte_len_of_part(s@, seg.start as int, seg.end as int);
                }
                return count_bytes(d, text);
            },
            RmParseDecision::Allow => {
                allowed = true;
            },
            RmParseDecision::NoMatch => {},
        }
        proof {
            let notes = segment_notes(text@, automated, views);
            let later = segments_notes(s@, segs@, i + 1, views);
            assert(before + (notes + later) =~= (before + notes) + later);
        }
        i += 1;
    }
    if allowed {
        RmParseDecision::Allow
    } else {
        RmParseDecision::NoMatch
    }
}

/// What is decided of the removals in a command of POSIX syntax.
pub fn parse_rm_command(command: &str) -> (r: RmParseDecision)
    ensures
        r == rm_command_verdict(command@, Seq::empty()),
{
    let none: Vec<TargetExemption> = Vec::new();
    assert(exemption_views(none@) =~= Seq::<ExemptionView>::empty());
    let mut noted: Vec<TargetSuppression> = Vec::new();
    parse_rm_command_with_exemptions(command, &none, &mut noted)
}

/// What is decided of one simple command. `pipeline_stdin` tells that answers can
/// come from elsewhere than a terminal.
pub fn parse_rm_command_segment(command: &str, pipeline_stdin: bool) -> (r: RmParseDecision)
    ensures
        r == in_bytes(segment_verdict(command@, pipeline_stdin, Seq::empty()), command@),
{
    let none: Vec<TargetExemption> = Vec::new();
    assert(exemption_views(none@) =~= Seq::<ExemptionView>::empty());
    let s = chars_of(command);
    let _bound = byte_count(command);
    let mut noted: Vec<TargetSuppression> = Vec::new();
    let decision = decide_segment(s.as_slice(), pipeline_stdin, &none, &mut noted);
    count_bytes(decision, s.as_slice())
}

/// The arguments behind a program of Cmd from the `i`th token on, a space before
/// each, options decoded, behind `out`.
pub open spec fn cmd_arguments_from(
    s: Seq<char>,
    toks: Seq<NormalizeToken>,
    i: int,
    literal: bool,
    out: Seq<char>,
) -> Seq<char>
    decreases toks.len() - i,
{
    if i < 0 || i >= toks.len() || !toks[i].word() {
        out
    } else {
        let raw = toks[i].of(s);
        if raw[0] == '-' {
            match decoded_next(raw, ShellDialect::Cmd, ShellTokenRole::Syntax, literal) {
                Some(word) => cmd_arguments_from(s, toks, i + 1, literal, out.push(' ') + word),
                None => cmd_arguments_from(s, toks, i + 1, true, out.push(' ') + raw),
            }
        } else {
            cmd_arguments_from(s, toks, i + 1, literal, out.push(' ') + raw)
        }
    }
}

/// What is decided of a Cmd command whose program is `rm` once its escapes are
/// taken away.
pub open spec fn cmd_verdict(s: Seq<char>, automated: bool, ex: Seq<ExemptionView>) -> RmParseDecision {
    let toks = tokens(s, ShellDialect::Cmd);
    let i = first_word_from(toks, 0);
    let program = decoded_next(
        toks[i].of(s),
        ShellDialect::Cmd,
        ShellTokenRole::Syntax,
        false,
    );
    if !s.contains('^') || i >= toks.len() || program is None {
        RmParseDecision::NoMatch
    } else if rm_certainty(program->0, ShellDialect::Cmd) != RmExecutableCertainty::Exact {
        RmParseDecision::NoMatch
    } else {
        plain_verdict(cmd_arguments_from(s, toks, i + 1, false, "rm"@), automated, ex).placeless()
    }
}

/// What exemptions suppress of a Cmd command whose program is `rm` once its escapes
/// are taken away.
pub open spec fn cmd_notes(s: Seq<char>, automated: bool, ex: Seq<ExemptionView>) -> Seq<
    SuppressionView,
> {
    let toks = tokens(s, ShellDialect::Cmd);
    let i = first_word_from(toks, 0);
    let program = decoded_next(
        toks[i].of(s),
        ShellDialect::Cmd,
        ShellTokenRole::Syntax,
        false,
    );
    if !s.contains('^') || i >= toks.len() || program is None {
        Seq::empty()
    } else if rm_certainty(program->0, ShellDialect::Cmd) != RmExecutableCertainty::Exact {
        Seq::empty()
    } else {
        plain_notes(cmd_arguments_from(s, toks, i + 1, false, "rm"@), automated, ex)
    }
}

/// What is decided of a Cmd command whose program is `rm` once its escapes are
/// taken away.
fn parse_cmd_decoded_rm_segment(
    s: &[char],
    automated: bool,
    ex: &Vec<TargetExemption>,
    noted: &mut Vec<TargetSuppression>,
) -> (r: RmParseDecision)
    ensures
        r == cmd_verdict(s@, automated, exemption_views(ex@)),
        suppression_views(final(noted)@) == suppression_views(old(noted)@) + cmd_notes(
            s@,
            automated,
            exemption_views(ex@),
        ),
{
    if !has_char(s, '^') {
        return RmParseDecision::NoMatch;
    }
    let toks = tokenize_for_shell_dialect(s, ShellDialect::Cmd);
    let first = find_first_word(&toks);
    if first >= toks.len() {
        return RmParseDecision::NoMatch;
    }
    assert(toks@[first as int].fits(s@.len() as int));
    let head = toks[first];
    let mut decoder = ShellTokenDecoder::new(ShellDialect::Cmd);
    match decoder.decode(head.text(s), ShellTokenRole::Syntax) {
        None => {
            return RmParseDecision::NoMatch;
        },
        Some(program) => {
            if text_certainty(program.as_slice(), ShellDialect::Cmd)
                != RmExecutableCertainty::Exact {
                return RmParseDecision::NoMatch;
            }
        },
    }
    let mut candidate = chars_of("rm");
    let ghost target = cmd_arguments_from(s@, toks@, first + 1, false, "rm"@);
    let mut i: usize = first + 1;
    while i < toks.len() && toks[i].is_word()
        invariant
            first < i <= toks.len(),
            noted@ == old(noted)@,
            decoder.dialect == ShellDialect::Cmd,
            forall|k: int| 0 <= k < toks@.len() ==> (#[trigger] toks@[k]).fits(s@.len() as int),
            target == cmd_arguments_from(s@, toks@, i as int, decoder.literal, candidate@),
        decreases toks.len() - i,
    {
        let t = toks[i];
        assert(toks@[i as int].fits(s@.len() as int));
        let raw = t.text(s);
        candidate.push(' ');
        if raw[0] == '-' {
            match decoder.decode(raw, ShellTokenRole::Syntax) {
                Some(word) => {
                    push_all(&mut candidate, word.as_slice());
                },
                None => {
                    push_all(&mut candidate, raw);
                },
            }
        } else {
            push_all(&mut candidate, raw);
        }
        i += 1;
    }
    parse_normalized_rm_command_segment(candidate.as_slice(), automated, ex, noted).without_span()
}

/// What is decided of one simple command by what a dialect has of its own.
pub open spec fn own_verdict(
    s: Seq<char>,
    automated: bool,
    dialect: ShellDialect,
    ex: Seq<ExemptionView>,
) -> RmParseDecision {
    match dialect {
        ShellDialect::PowerShell => remove_item_verdict(s, automated),
        ShellDialect::Cmd => cmd_verdict(s, automated, ex),
        _ => RmParseDecision::NoMatch,
    }
}

/// What exemptions suppress of what a dialect has of its own.
pub open spec fn own_notes(
    s: Seq<char>,
    automated: bool,
    dialect: ShellDialect,
    ex: Seq<ExemptionView>,
) -> Seq<SuppressionView> {
    if dialect == ShellDialect::Cmd {
        cmd_notes(s, automated, ex)
    } else {
        Seq::empty()
    }
}

/// What is decided of one simple command by what all dialects have: `rm` as POSIX
/// has it, or else a program that is computed.
pub open spec fn common_verdict(
    s: Seq<char>,
    automated: bool,
    dialect: ShellDialect,
    ex: Seq<ExemptionView>,
) -> RmParseDecision {
    let exact = in_bytes(segment_verdict(s, automated, ex), s);
    if exact is NoMatch {
        unverified_verdict(s, automated, dialect, ex)
    } else {
        exact
    }
}

/// What exemptions suppress of what all dialects have.
pub open spec fn common_notes(
    s: Seq<char>,
    automated: bool,
    dialect: ShellDialect,
    ex: Seq<ExemptionView>,
) -> Seq<SuppressionView> {
    if segment_verdict(s, automated, ex) is NoMatch {
        segment_notes(s, automated, ex) + unverified_notes(s, automated, dialect, ex)
    } else {
        segment_notes(s, automated, ex)
    }
}

/// What is decided of one simple command of a dialect. A PowerShell assignment is
/// no removal; what a dialect has of its own is read first, `rm` as POSIX has it
/// next, and a program that is computed last.
pub open spec fn dialect_verdict(
    s: Seq<char>,
    automated: bool,
    dialect: ShellDialect,
    ex: Seq<ExemptionView>,
) -> RmParseDecision {
    let own = own_verdict(s, automated, dialect, ex);
    if dialect == ShellDialect::PowerShell && is_assignment(s) {
        RmParseDecision::NoMatch
    } else if own is NoMatch {
        common_verdict(s, automated, dialect, ex)
    } else {
        own
    }
}

/// What exemptions suppress of one simple command of a dialect.
pub open spec fn dialect_notes(
    s: Seq<char>,
    automated: bool,
    dialect: ShellDialect,
    ex: Seq<ExemptionView>,
) -> Seq<SuppressionView> {
    if dialect == ShellDialect::PowerShell && is_assignment(s) {
        Seq::empty()
    } else if own_verdict(s, automated, dialect, ex) is NoMatch {
        own_notes(s, automated, dialect, ex) + common_notes(s, automated, dialect, ex)
    } else {
        own_notes(s, automated, dialect, ex)
    }
}

/// What is decided of one simple command by what a dialect has of its own.
fn decide_own(
    s: &[char],
    automated: bool,
    dialect: ShellDialect,
    ex: &Vec<TargetExemption>,
    noted: &mut Vec<TargetSuppression>,
) -> (r: RmParseDecision)
    ensures
        r == own_verdict(s@, automated, dialect, exemption_views(ex@)),
        suppression_views(final(noted)@) == suppression_views(old(noted)@) + own_notes(
            s@,
            automated,
            dialect,
            exemption_views(ex@),
        ),
{
    match dialect {
        ShellDialect::PowerShell => text_remove_item(s, automated),
        ShellDialect::Cmd => parse_cmd_decoded_rm_segment(s, automated, ex, noted),
        _ => RmParseDecision::NoMatch,
    }
}

/// What is decided of one simple command by what all dialects have.
fn decide_common(
    s: &[char],
    automated: bool,
    dialect: ShellDialect,
    ex: &Vec<TargetExemption>,
    noted: &mut Vec<TargetSuppression>,
) -> (r: RmParseDecision)
    requires
        byte_len(s@) <= usize::MAX,
    ensures
        r == common_verdict(s@, automated, dialect, exemption_views(ex@)),
        suppression_views(final(noted)@) == suppression_views(old(noted)@) + common_notes(
            s@,
            automated,
            dialect,
            exemption_views(ex@),
        ),
{
    let exact = count_bytes(decide_segment(s, automated, ex, noted), s);
    match exact {
        RmParseDecision::NoMatch => {
            let ghost before = suppression_views(old(noted)@);
            let ghost first = segment_notes(s@, automated, exemption_views(ex@));
            let ghost more = unverified_notes(s@, automated, dialect, exemption_views(ex@));
            let decision = parse_unverified_rm_command_segment(s, automated, dialect, ex, noted);
            assert((before + first) + more =~= before + (first + more));
            decision
        },
        _ => exact,
    }
}

/// What is decided of one simple command of a dialect, with targets that the
/// configuration exempts. What the exemptions suppress is added to `noted`.
pub fn parse_rm_segment_in_dialect_with_exemptions(
    command: &str,
    pipeline_stdin: bool,
    dialect: ShellDialect,
    ex: &Vec<TargetExemption>,
    noted: &mut Vec<TargetSuppression>,
) -> (r: RmParseDecision)
    ensures
        r == dialect_verdict(command@, pipeline_stdin, dialect, exemption_views(ex@)),
        suppression_views(final(noted)@) == suppression_views(old(noted)@) + dialect_notes(
            command@,
            pipeline_stdin,
            dialect,
            exemption_views(ex@),
        ),
{
    let chars = chars_of(command);
    let s = chars.as_slice();
    let _bound = byte_count(command);
    if dialect == ShellDialect::PowerShell && powershell_variable_assignment(s) {
        return RmParseDecision::NoMatch;
    }
    let own = decide_own(s, pipeline_stdin, dialect, ex, noted);
    match own {
        RmParseDecision::NoMatch => {
            let ghost before = suppression_views(old(noted)@);
            let ghost first = own_notes(s@, pipeline_stdin, dialect, exemption_views(ex@));
            let ghost more = common_notes(s@, pipeline_stdin, dialect, exemption_views(ex@));
            let decision = decide_common(s, pipeline_stdin, dialect, ex, noted);
            assert((before + first) + more =~= before + (first + more));
            decision
        },
        _ => own,
    }
}

/// What is decided of one simple command of a dialect.
pub fn parse_rm_command_segment_in_dialect(
    command: &str,
    pipeline_stdin: bool,
    dialect: ShellDialect,
) -> (r: RmParseDecision)
    ensures
        r == dialect_verdict(command@, pipeline_stdin, dialect, Seq::empty()),
{
    let none: Vec<TargetExemption> = Vec::new();
    assert(exemption_views(none@) =~= Seq::<ExemptionView>::empty());
    let mut noted: Vec<TargetSuppression> = Vec::new();
    parse_rm_segment_in_dialect_with_exemptions(
        command,
        pipeline_stdin,
        dialect,
        &none,
        &mut noted,
    )
}

/// Whether the command that starts at a number of bytes gets its answers from
/// elsewhere than a terminal.
pub fn rm_segment_receives_automated_stdin(
    command: &str,
    segment_start: usize,
    dialect: ShellDialect,
) -> (r: bool)
    ensures
        r == (match char_behind(command@, 0, segment_start as int) {
            Some(k) => automated_stdin(command@, k, dialect),
            None => false,
        }),
{
    let s = chars_of(command);
    match char_position(s.as_slice(), segment_start) {
        Some(k) => text_automated_stdin(s.as_slice(), k, dialect),
        None => false,
    }
}

} // verus!
