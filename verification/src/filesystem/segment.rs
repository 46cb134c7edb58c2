//! What an `rm` command removes.

use vstd::prelude::*;
use crate::filesystem::flags::{
    apple_option, apple_rm_option_token_is_valid, apply_rm_option, dequote_text, dequoted,
    first_span, no_flags, span_or, with_option, RmFlagState, RmFlagTracker, RmOptionDecision, Span,
};
use crate::filesystem::guidance::classifier_names;
use crate::filesystem::paths::{
    path_is_root_home, path_is_safe_for_style, path_views, quote_of, root_home, safe_for_style,
    strip_outer_quotes, unquoted, PathToken, PathView, QuoteKind, RmFlagStyle,
};
use crate::filesystem::redirect::{
    consumes_next, redirection, redirects_stdin, shell_redirection_consumes_next_word,
    shell_redirection_prefix, starts_with_shell_stdin_redirection,
};
use crate::filesystem::rules::{
    RM_BARE_GLOB_NAME, RM_BARE_GLOB_REASON, RM_BARE_GLOB_ROOT_NAME, RM_BARE_GLOB_ROOT_REASON,
    RM_RECURSIVE_FORCE_NAME, RM_RECURSIVE_FORCE_REASON, RM_RECURSIVE_FORCE_ROOT_HOME_NAME,
    RM_RECURSIVE_FORCE_ROOT_HOME_REASON, RM_RECURSIVE_GENERAL_NAME, RM_RECURSIVE_GENERAL_REASON,
    RM_RECURSIVE_ROOT_HOME_NAME, RM_RECURSIVE_ROOT_HOME_REASON, RM_RECURSIVE_UNVERIFIED_NAME,
    RM_RECURSIVE_UNVERIFIED_REASON, RM_RF_GENERAL_NAME, RM_RF_GENERAL_REASON, RM_RF_ROOT_HOME_NAME,
    RM_RF_ROOT_HOME_REASON, RM_R_F_SEPARATE_NAME, RM_R_F_SEPARATE_REASON,
    RM_R_F_SEPARATE_ROOT_HOME_NAME, RM_R_F_SEPARATE_ROOT_HOME_REASON,
};
use crate::pack::Severity;
use crate::shell::token::{onward, tokenize_for_normalization, tokens, NormalizeToken, ShellDialect};
use crate::text::{
    chars_of, copy_of, is_str, push_str, same, starts, starts_str, trim_trailing, without_trailing,
};

verus! {

/// A denied removal.
#[derive(Debug, Clone, Copy)]
pub struct RmParseMatch {
    /// The rule that denies.
    pub pattern_name: &'static str,
    /// Why it denies.
    pub reason: &'static str,
    pub severity: Severity,
    /// Where the flags or the operand stand, where that is known.
    pub span: Option<Span>,
}

/// What is decided of a command.
#[derive(Debug, Clone, Copy)]
pub enum RmParseDecision {
    /// A removal that needs no approval.
    Allow,
    /// A removal that is denied.
    Deny(RmParseMatch),
    /// No removal that is decided on here.
    NoMatch,
}

impl RmParseDecision {
    /// The decision without a place.
    pub open spec fn placeless(self) -> Self {
        match self {
            RmParseDecision::Deny(hit) => RmParseDecision::Deny(RmParseMatch { span: None, ..hit }),
            _ => self,
        }
    }

    /// The decision without a place: where the text that was read is not the
    /// command, a place in it means nothing.
    pub fn without_span(self) -> (r: Self)
        ensures
            r == self.placeless(),
    {
        match self {
            RmParseDecision::Deny(hit) => RmParseDecision::Deny(
                RmParseMatch {
                    pattern_name: hit.pattern_name,
                    reason: hit.reason,
                    severity: hit.severity,
                    span: None,
                },
            ),
            _ => self,
        }
    }
}

/// A target that the configuration exempts from a rule.
pub struct TargetExemption {
    /// The rule, as `core.filesystem:` and its name.
    pub rule_id: Vec<char>,
    /// The text of the target.
    pub target: Vec<char>,
    /// The glob of the configuration that the target matches.
    pub glob: Vec<char>,
}

/// A target that the configuration exempts from a rule.
pub struct ExemptionView {
    pub rule_id: Seq<char>,
    pub target: Seq<char>,
    pub glob: Seq<char>,
}

impl View for TargetExemption {
    type V = ExemptionView;

    open spec fn view(&self) -> ExemptionView {
        ExemptionView { rule_id: self.rule_id@, target: self.target@, glob: self.glob@ }
    }
}

impl TargetExemption {
    /// A target that the configuration exempts from a rule by a glob.
    pub fn new(rule_id: &str, target: &str, glob: &str) -> (r: Self)
        ensures
            r@ == (ExemptionView { rule_id: rule_id@, target: target@, glob: glob@ }),
    {
        TargetExemption { rule_id: chars_of(rule_id), target: chars_of(target), glob: chars_of(glob) }
    }
}

/// The views of a list of exemptions.
pub open spec fn exemption_views(v: Seq<TargetExemption>) -> Seq<ExemptionView> {
    Seq::new(v.len(), |i: int| v[i]@)
}

/// The name by which the configuration knows a rule.
pub open spec fn rule_key(rule: &'static str) -> Seq<char> {
    "core.filesystem:"@ + rule@
}

/// The glob of the first exemption from the `i`th on of a target from a rule.
pub open spec fn glob_from(ex: Seq<ExemptionView>, rule_id: Seq<char>, target: Seq<char>, i: int) -> Option<
    Seq<char>,
>
    decreases ex.len() - i,
{
    if i < 0 || i >= ex.len() {
        None
    } else if ex[i].rule_id == rule_id && ex[i].target == target {
        Some(ex[i].glob)
    } else {
        glob_from(ex, rule_id, target, i + 1)
    }
}

/// The glob that exempts a target from a rule.
pub open spec fn exempting_glob(ex: Seq<ExemptionView>, rule: &'static str, target: Seq<char>) -> Option<
    Seq<char>,
> {
    glob_from(ex, rule_key(rule), target, 0)
}

/// Whether all operands are exempt from a rule. A single-quoted operand never is:
/// nothing in it is expanded, so it does not name what the exemption means.
pub open spec fn all_exempt(ex: Seq<ExemptionView>, rule: &'static str, paths: Seq<PathView>) -> bool {
    &&& paths.len() > 0
    &&& forall|i: int|
        0 <= i < paths.len() ==> (#[trigger] paths[i]).quote != QuoteKind::Single && exempting_glob(
            ex,
            rule,
            paths[i].unquoted,
        ) is Some
}

/// A rule that an exemption kept from denying a target.
pub struct TargetSuppression {
    /// The rule, as `core.filesystem:` and its name.
    pub rule_id: Vec<char>,
    /// The glob of the exemption.
    pub glob: Vec<char>,
    /// The text of the target.
    pub target: Vec<char>,
}

/// A rule that an exemption kept from denying a target.
pub struct SuppressionView {
    pub rule_id: Seq<char>,
    pub glob: Seq<char>,
    pub target: Seq<char>,
}

impl View for TargetSuppression {
    type V = SuppressionView;

    open spec fn view(&self) -> SuppressionView {
        SuppressionView { rule_id: self.rule_id@, glob: self.glob@, target: self.target@ }
    }
}

/// The views of a list of suppressions.
pub open spec fn suppression_views(v: Seq<TargetSuppression>) -> Seq<SuppressionView> {
    Seq::new(v.len(), |i: int| v[i]@)
}

/// What exemptions suppress of a rule on operands: where all are exempt, the rule
/// on each of them, in order; nothing where one is not.
pub open spec fn suppressed(ex: Seq<ExemptionView>, rule: &'static str, paths: Seq<PathView>) -> Seq<
    SuppressionView,
> {
    if all_exempt(ex, rule, paths) {
        Seq::new(
            paths.len(),
            |i: int|
                SuppressionView {
                    rule_id: rule_key(rule),
                    glob: exempting_glob(ex, rule, paths[i].unquoted)->0,
                    target: paths[i].unquoted,
                },
        )
    } else {
        Seq::empty()
    }
}

/// The number of the first exemption of a target from a rule.
fn exemption_for(ex: &Vec<TargetExemption>, rule: &'static str, target: &[char]) -> (r: Option<usize>)
    ensures
        match r {
            Some(i) => i < ex.len() && exempting_glob(exemption_views(ex@), rule, target@) == Some(
                ex@[i as int].glob@,
            ),
            None => exempting_glob(exemption_views(ex@), rule, target@) is None,
        },
{
    let ghost views = exemption_views(ex@);
    let mut id = chars_of("core.filesystem:");
    push_str(&mut id, rule);
    let mut i: usize = 0;
    while i < ex.len()
        invariant
            0 <= i <= ex.len(),
            views == exemption_views(ex@),
            id@ == rule_key(rule),
            exempting_glob(views, rule, target@) == glob_from(views, id@, target@, i as int),
        decreases ex.len() - i,
    {
        assert(views[i as int] == ex@[i as int]@);
        if same(ex[i].rule_id.as_slice(), id.as_slice()) && same(ex[i].target.as_slice(), target) {
            return Some(i);
        }
        i += 1;
    }
    None
}

/// Whether all operands are exempt from a rule: one that is not keeps the rule.
/// Beside the answer stands what the exemptions suppress, for a report.
pub fn rm_targets_exempted_for_rule(
    rule: &'static str,
    paths: &Vec<PathToken>,
    ex: &Vec<TargetExemption>,
) -> (r: (bool, Vec<TargetSuppression>))
    ensures
        r.0 == all_exempt(exemption_views(ex@), rule, path_views(paths@)),
        suppression_views(r.1@) == suppressed(exemption_views(ex@), rule, path_views(paths@)),
{
    let ghost views = path_views(paths@);
    let ghost exs = exemption_views(ex@);
    let mut noted: Vec<TargetSuppression> = Vec::new();
    let mut i: usize = 0;
    while i < paths.len()
        invariant
            0 <= i <= paths.len(),
            noted.len() == i,
            views == path_views(paths@),
            exs == exemption_views(ex@),
            forall|j: int|
                0 <= j < i ==> (#[trigger] views[j]).quote != QuoteKind::Single && exempting_glob(
                    exs,
                    rule,
                    views[j].unquoted,
                ) is Some,
            forall|j: int|
                0 <= j < i ==> (#[trigger] noted@[j])@ == (SuppressionView {
                    rule_id: rule_key(rule),
                    glob: exempting_glob(exs, rule, views[j].unquoted)->0,
                    target: views[j].unquoted,
                }),
        decreases paths.len() - i,
    {
        assert(views[i as int] == paths@[i as int]@);
        let path = &paths[i];
        let found = if path.quote == QuoteKind::Single {
            None
        } else {
            exemption_for(ex, rule, path.unquoted.as_slice())
        };
        match found {
            Some(k) => {
                let mut id = chars_of("core.filesystem:");
                push_str(&mut id, rule);
                noted.push(
                    TargetSuppression {
                        rule_id: id,
                        glob: copy_of(ex[k].glob.as_slice()),
                        target: copy_of(path.unquoted.as_slice()),
                    },
                );
            },
            None => {
                assert(!all_exempt(exs, rule, views));
                let none: Vec<TargetSuppression> = Vec::new();
                assert(suppression_views(none@) =~= Seq::empty());
                return (false, none);
            },
        }
        i += 1;
    }
    assert(paths.len() > 0 ==> all_exempt(exs, rule, views));
    assert(suppression_views(noted@) =~= suppressed(exs, rule, views));
    (paths.len() > 0, noted)
}

/// Whether all operands are exempt from a rule; what the exemptions suppress is
/// added to `noted`.
fn note_exemptions(
    rule: &'static str,
    paths: &Vec<PathToken>,
    ex: &Vec<TargetExemption>,
    noted: &mut Vec<TargetSuppression>,
) -> (r: bool)
    ensures
        r == all_exempt(exemption_views(ex@), rule, path_views(paths@)),
        suppression_views(final(noted)@) == suppression_views(old(noted)@) + suppressed(
            exemption_views(ex@),
            rule,
            path_views(paths@),
        ),
{
    let (all, mut list) = rm_targets_exempted_for_rule(rule, paths, ex);
    let ghost before = noted@;
    let ghost more = list@;
    noted.append(&mut list);
    assert(suppression_views(noted@) =~= suppression_views(before) + suppression_views(more));
    all
}

/// How `rm` looks for options behind its first operand.
#[derive(Debug, Clone, Copy, PartialEq, Eq, Structural)]
pub enum RmOptionScanning {
    /// As GNU does: options may follow operands.
    GnuPermuted,
    /// As Apple and BSD do: the first operand ends the options.
    AppleStopAtFirstOperand,
}

/// The text of an argument: a closing parenthesis at the end of the command is
/// no part of it.
pub open spec fn argument_text(s: Seq<char>, toks: Seq<NormalizeToken>, i: int) -> Seq<char> {
    if i + 1 == toks.len() {
        without_trailing(toks[i].of(s), ')')
    } else {
        toks[i].of(s)
    }
}

/// The number of the word behind the redirection that the `i`th word starts.
pub open spec fn behind_redirection(s: Seq<char>, toks: Seq<NormalizeToken>, i: int) -> int {
    if consumes_next(toks[i].of(s)) && i + 1 < toks.len() && toks[i + 1].word() {
        i + 2
    } else {
        i + 1
    }
}

/// The options and operands of `rm` from the `i`th token on, behind `f` and
/// `paths`; nothing where an option ends the command or makes it fail. `ended`
/// tells that no options follow.
pub open spec fn rm_arguments(
    s: Seq<char>,
    toks: Seq<NormalizeToken>,
    i: int,
    scanning: RmOptionScanning,
    ended: bool,
    f: RmFlagTracker,
    paths: Seq<PathView>,
) -> Option<(RmFlagTracker, Seq<PathView>)>
    decreases toks.len() - i,
{
    if i < 0 || i >= toks.len() || !toks[i].word() {
        Some((f, paths))
    } else if redirection(toks[i].of(s)) is Some {
        rm_arguments(s, toks, behind_redirection(s, toks, i), scanning, ended, f, paths)
    } else {
        let text = argument_text(s, toks, i);
        let flag = dequoted(text);
        let span = Span { start: toks[i].start, end: toks[i].end };
        if text.len() == 0 {
            rm_arguments(s, toks, i + 1, scanning, ended, f, paths)
        } else if !ended && flag == "--"@ {
            rm_arguments(
                s,
                toks,
                i + 1,
                scanning,
                true,
                RmFlagTracker { saw_terminator: true, ..f },
                paths,
            )
        } else if !ended && starts(flag, "-"@) && flag != "-"@ {
            if scanning == RmOptionScanning::AppleStopAtFirstOperand && !apple_option(flag) {
                None
            } else {
                match with_option(flag, span, f) {
                    RmOptionDecision::Continue(g) => rm_arguments(
                        s,
                        toks,
                        i + 1,
                        scanning,
                        ended,
                        g,
                        paths,
                    ),
                    _ => None,
                }
            }
        } else {
            rm_arguments(
                s,
                toks,
                i + 1,
                scanning,
                ended || scanning == RmOptionScanning::AppleStopAtFirstOperand,
                f,
                paths.push(
                    PathView {
                        unquoted: unquoted(text),
                        quote: quote_of(text),
                        start: toks[i].start,
                        end: toks[i].end,
                    },
                ),
            )
        }
    }
}

/// Whether a word of the command from the `i`th token on redirects its standard
/// input.
pub open spec fn stdin_redirected(s: Seq<char>, toks: Seq<NormalizeToken>, i: int) -> bool
    decreases toks.len() - i,
{
    if i < 0 || i >= toks.len() || !toks[i].word() {
        false
    } else {
        redirects_stdin(toks[i].of(s)) || stdin_redirected(s, toks, i + 1)
    }
}

/// The rule on a recursive removal.
pub open spec fn rule_for(critical: bool, style: Option<RmFlagStyle>) -> RmParseMatch {
    let (pattern_name, reason) = match (critical, style) {
        (true, Some(RmFlagStyle::Combined)) => (RM_RF_ROOT_HOME_NAME, RM_RF_ROOT_HOME_REASON),
        (true, Some(RmFlagStyle::Separate)) => (
            RM_R_F_SEPARATE_ROOT_HOME_NAME,
            RM_R_F_SEPARATE_ROOT_HOME_REASON,
        ),
        (true, Some(RmFlagStyle::Long)) => (
            RM_RECURSIVE_FORCE_ROOT_HOME_NAME,
            RM_RECURSIVE_FORCE_ROOT_HOME_REASON,
        ),
        (true, None) => (RM_RECURSIVE_ROOT_HOME_NAME, RM_RECURSIVE_ROOT_HOME_REASON),
        (false, Some(RmFlagStyle::Combined)) => (RM_RF_GENERAL_NAME, RM_RF_GENERAL_REASON),
        (false, Some(RmFlagStyle::Separate)) => (RM_R_F_SEPARATE_NAME, RM_R_F_SEPARATE_REASON),
        (false, Some(RmFlagStyle::Long)) => (RM_RECURSIVE_FORCE_NAME, RM_RECURSIVE_FORCE_REASON),
        (false, None) => (RM_RECURSIVE_GENERAL_NAME, RM_RECURSIVE_GENERAL_REASON),
    };
    RmParseMatch {
        pattern_name,
        reason,
        severity: if critical {
            Severity::Critical
        } else {
            Severity::High
        },
        span: None,
    }
}

/// The style by which operands are trusted.
pub open spec fn path_style(style: Option<RmFlagStyle>) -> RmFlagStyle {
    match style {
        Some(s) => s,
        None => RmFlagStyle::Combined,
    }
}

/// Whether all operands are literal and temporary.
pub open spec fn all_safe(paths: Seq<PathView>, style: RmFlagStyle) -> bool {
    forall|i: int| 0 <= i < paths.len() ==> safe_for_style(#[trigger] paths[i], style)
}

/// Whether an operand is absolute or below a home directory, and not literal and
/// temporary.
pub open spec fn any_critical(paths: Seq<PathView>, style: RmFlagStyle) -> bool {
    exists|i: int|
        0 <= i < paths.len() && root_home(#[trigger] paths[i]) && !safe_for_style(paths[i], style)
}

/// What is decided of a recursive removal.
pub open spec fn recursive_verdict(
    state: RmFlagState,
    paths: Seq<PathView>,
    unattended: bool,
    ex: Seq<ExemptionView>,
) -> RmParseDecision {
    let style = path_style(state.force_style);
    let hit = rule_for(any_critical(paths, style), state.force_style);
    if paths.len() == 0 {
        RmParseDecision::NoMatch
    } else if state.interactive_mode.asks() && !unattended {
        RmParseDecision::Allow
    } else if !state.saw_terminator && all_safe(paths, style) {
        RmParseDecision::Allow
    } else if all_exempt(ex, hit.pattern_name, paths) {
        RmParseDecision::Allow
    } else {
        RmParseDecision::Deny(
            RmParseMatch { span: span_or(state.span, state.recursive_span), ..hit },
        )
    }
}

/// What exemptions suppress of a recursive removal.
pub open spec fn recursive_notes(
    state: RmFlagState,
    paths: Seq<PathView>,
    unattended: bool,
    ex: Seq<ExemptionView>,
) -> Seq<SuppressionView> {
    let style = path_style(state.force_style);
    if (state.interactive_mode.asks() && !unattended) || (!state.saw_terminator && all_safe(
        paths,
        style,
    )) {
        Seq::empty()
    } else {
        suppressed(
            ex,
            rule_for(any_critical(paths, style), state.force_style).pattern_name,
            paths,
        )
    }
}

/// Whether an operand is a glob for everything in the root directory, or in the
/// working directory.
pub open spec fn is_bare_glob(path: PathView, root: bool) -> bool {
    path.quote == QuoteKind::Unquoted && (if root {
        path.unquoted == "/*"@
    } else {
        path.unquoted == "*"@ || path.unquoted == "./*"@
    })
}

/// The number of the first such operand from the `i`th on.
pub open spec fn bare_glob_from(paths: Seq<PathView>, i: int, root: bool) -> int
    decreases paths.len() - i,
{
    if i < 0 || i >= paths.len() {
        paths.len() as int
    } else if is_bare_glob(paths[i], root) {
        i
    } else {
        bare_glob_from(paths, i + 1, root)
    }
}

/// What is decided of a removal that is not recursive.
pub open spec fn bare_glob_verdict(
    paths: Seq<PathView>,
    asks: bool,
    unattended: bool,
    ex: Seq<ExemptionView>,
) -> RmParseDecision {
    let root = bare_glob_from(paths, 0, true);
    let here = bare_glob_from(paths, 0, false);
    if asks && !unattended {
        RmParseDecision::NoMatch
    } else if root < paths.len() {
        if all_exempt(ex, RM_BARE_GLOB_ROOT_NAME, paths) {
            RmParseDecision::NoMatch
        } else {
            RmParseDecision::Deny(
                RmParseMatch {
                    pattern_name: RM_BARE_GLOB_ROOT_NAME,
                    reason: RM_BARE_GLOB_ROOT_REASON,
                    severity: Severity::Critical,
                    span: Some(Span { start: paths[root].start, end: paths[root].end }),
                },
            )
        }
    } else if here < paths.len() {
        if all_exempt(ex, RM_BARE_GLOB_NAME, paths) {
            RmParseDecision::NoMatch
        } else {
            RmParseDecision::Deny(
                RmParseMatch {
                    pattern_name: RM_BARE_GLOB_NAME,
                    reason: RM_BARE_GLOB_REASON,
                    severity: Severity::High,
                    span: Some(Span { start: paths[here].start, end: paths[here].end }),
                },
            )
        }
    } else {
        RmParseDecision::NoMatch
    }
}

/// What exemptions suppress of a removal that is not recursive.
pub open spec fn bare_glob_notes(
    paths: Seq<PathView>,
    asks: bool,
    unattended: bool,
    ex: Seq<ExemptionView>,
) -> Seq<SuppressionView> {
    if asks && !unattended {
        Seq::empty()
    } else if bare_glob_from(paths, 0, true) < paths.len() {
        suppressed(ex, RM_BARE_GLOB_ROOT_NAME, paths)
    } else if bare_glob_from(paths, 0, false) < paths.len() {
        suppressed(ex, RM_BARE_GLOB_NAME, paths)
    } else {
        Seq::empty()
    }
}

/// What is decided of the arguments of `rm` from the `start`th token on, as one
/// kind of `rm` reads them. `automated` tells that answers can come from elsewhere
/// than a terminal.
pub open spec fn scanned_verdict(
    s: Seq<char>,
    toks: Seq<NormalizeToken>,
    start: int,
    automated: bool,
    scanning: RmOptionScanning,
    ex: Seq<ExemptionView>,
) -> RmParseDecision {
    match rm_arguments(s, toks, start, scanning, false, no_flags(), Seq::empty()) {
        None => RmParseDecision::NoMatch,
        Some((f, paths)) => {
            let unattended = automated || stdin_redirected(s, toks, start);
            match f.resolved() {
                Some(state) => recursive_verdict(state, paths, unattended, ex),
                None => bare_glob_verdict(paths, f.interactive_mode.asks(), unattended, ex),
            }
        },
    }
}

/// What exemptions suppress of the arguments of `rm`, as one kind of `rm` reads
/// them.
pub open spec fn scanned_notes(
    s: Seq<char>,
    toks: Seq<NormalizeToken>,
    start: int,
    automated: bool,
    scanning: RmOptionScanning,
    ex: Seq<ExemptionView>,
) -> Seq<SuppressionView> {
    match rm_arguments(s, toks, start, scanning, false, no_flags(), Seq::empty()) {
        None => Seq::empty(),
        Some((f, paths)) => {
            let unattended = automated || stdin_redirected(s, toks, start);
            match f.resolved() {
                Some(state) => recursive_notes(state, paths, unattended, ex),
                None => bare_glob_notes(paths, f.interactive_mode.asks(), unattended, ex),
            }
        },
    }
}

/// What exemptions suppress of the arguments of `rm`: first as GNU reads them, then
/// as Apple does.
pub open spec fn rm_notes(
    s: Seq<char>,
    toks: Seq<NormalizeToken>,
    start: int,
    automated: bool,
    ex: Seq<ExemptionView>,
) -> Seq<SuppressionView> {
    scanned_notes(s, toks, start, automated, RmOptionScanning::GnuPermuted, ex) + scanned_notes(
        s,
        toks,
        start,
        automated,
        RmOptionScanning::AppleStopAtFirstOperand,
        ex,
    )
}

/// What is decided of the arguments of `rm` from the `start`th token on: it is
/// denied where either kind of `rm` would remove what it must not.
pub open spec fn rm_verdict(
    s: Seq<char>,
    toks: Seq<NormalizeToken>,
    start: int,
    automated: bool,
    ex: Seq<ExemptionView>,
) -> RmParseDecision {
    let gnu = scanned_verdict(s, toks, start, automated, RmOptionScanning::GnuPermuted, ex);
    let apple = scanned_verdict(
        s,
        toks,
        start,
        automated,
        RmOptionScanning::AppleStopAtFirstOperand,
        ex,
    );
    if gnu is Deny {
        gnu
    } else if apple is Deny {
        apple
    } else if gnu is Allow || apple is Allow {
        RmParseDecision::Allow
    } else {
        RmParseDecision::NoMatch
    }
}

/// The number of the first token from the `i`th on that separates.
pub open spec fn separator_from(toks: Seq<NormalizeToken>, i: int) -> int
    decreases toks.len() - i,
{
    if i < 0 || i >= toks.len() || !toks[i].word() {
        i
    } else {
        separator_from(toks, i + 1)
    }
}

/// The number of the word `rm` from the `i`th token on that a command starts
/// with.
pub open spec fn rm_word_from(s: Seq<char>, toks: Seq<NormalizeToken>, i: int) -> int
    decreases toks.len() - i,
{
    if i < 0 || i >= toks.len() {
        toks.len() as int
    } else if !toks[i].word() {
        rm_word_from(s, toks, i + 1)
    } else if toks[i].of(s) == "rm"@ {
        i
    } else {
        rm_word_from(s, toks, onward(i, separator_from(toks, i + 1), toks.len() as int))
    }
}

/// What is decided of a command whose program stands without wrapping programs
/// and directories.
pub open spec fn plain_verdict(s: Seq<char>, automated: bool, ex: Seq<ExemptionView>) -> RmParseDecision {
    let toks = tokens(s, ShellDialect::Unknown);
    let i = rm_word_from(s, toks, 0);
    if i < toks.len() {
        rm_verdict(s, toks, i + 1, automated, ex)
    } else {
        RmParseDecision::NoMatch
    }
}

/// What exemptions suppress of a command whose program stands without wrapping
/// programs and directories.
pub open spec fn plain_notes(s: Seq<char>, automated: bool, ex: Seq<ExemptionView>) -> Seq<
    SuppressionView,
> {
    let toks = tokens(s, ShellDialect::Unknown);
    let i = rm_word_from(s, toks, 0);
    if i < toks.len() {
        rm_notes(s, toks, i + 1, automated, ex)
    } else {
        Seq::empty()
    }
}

/// The denial of a recursive removal by a program that is computed.
pub open spec fn unverified_deny() -> RmParseDecision {
    RmParseDecision::Deny(
        RmParseMatch {
            pattern_name: RM_RECURSIVE_UNVERIFIED_NAME,
            reason: RM_RECURSIVE_UNVERIFIED_REASON,
            severity: Severity::High,
            span: None,
        },
    )
}

/// The denial of a recursive removal by a program that is computed.
pub fn rm_unverified_deny() -> (r: RmParseDecision)
    ensures
        r == unverified_deny(),
{
    RmParseDecision::Deny(
        RmParseMatch {
            pattern_name: RM_RECURSIVE_UNVERIFIED_NAME,
            reason: RM_RECURSIVE_UNVERIFIED_REASON,
            severity: Severity::High,
            span: None,
        },
    )
}

/// The rule on a recursive removal.
fn find_rule(critical: bool, style: Option<RmFlagStyle>) -> (r: RmParseMatch)
    ensures
        r == rule_for(critical, style),
{
    let (pattern_name, reason) = match (critical, style) {
        (true, Some(RmFlagStyle::Combined)) => (RM_RF_ROOT_HOME_NAME, RM_RF_ROOT_HOME_REASON),
        (true, Some(RmFlagStyle::Separate)) => (
            RM_R_F_SEPARATE_ROOT_HOME_NAME,
            RM_R_F_SEPARATE_ROOT_HOME_REASON,
        ),
        (true, Some(RmFlagStyle::Long)) => (
            RM_RECURSIVE_FORCE_ROOT_HOME_NAME,
            RM_RECURSIVE_FORCE_ROOT_HOME_REASON,
        ),
        (true, None) => (RM_RECURSIVE_ROOT_HOME_NAME, RM_RECURSIVE_ROOT_HOME_REASON),
        (false, Some(RmFlagStyle::Combined)) => (RM_RF_GENERAL_NAME, RM_RF_GENERAL_REASON),
        (false, Some(RmFlagStyle::Separate)) => (RM_R_F_SEPARATE_NAME, RM_R_F_SEPARATE_REASON),
        (false, Some(RmFlagStyle::Long)) => (RM_RECURSIVE_FORCE_NAME, RM_RECURSIVE_FORCE_REASON),
        (false, None) => (RM_RECURSIVE_GENERAL_NAME, RM_RECURSIVE_GENERAL_REASON),
    };
    RmParseMatch {
        pattern_name,
        reason,
        severity: if critical {
            Severity::Critical
        } else {
            Severity::High
        },
        span: None,
    }
}

/// What is decided of a recursive removal. It is allowed where it asks at a
/// terminal, and where all its operands are literal and temporary and no `--`
/// stands before them.
fn decide_recursive(
    state: RmFlagState,
    paths: &Vec<PathToken>,
    unattended: bool,
    ex: &Vec<TargetExemption>,
    noted: &mut Vec<TargetSuppression>,
) -> (r: RmParseDecision)
    ensures
        r == recursive_verdict(state, path_views(paths@), unattended, exemption_views(ex@)),
        suppression_views(final(noted)@) == suppression_views(old(noted)@) + recursive_notes(
            state,
            path_views(paths@),
            unattended,
            exemption_views(ex@),
        ),
{
    let ghost views = path_views(paths@);
    if paths.len() == 0 {
        return RmParseDecision::NoMatch;
    }
    if state.interactive_mode.prompts() && !unattended {
        return RmParseDecision::Allow;
    }
    let style = match state.force_style {
        Some(s) => s,
        None => RmFlagStyle::Combined,
    };
    let mut safe = true;
    let mut critical = false;
    let mut i: usize = 0;
    while i < paths.len()
        invariant
            0 <= i <= paths.len(),
            views == path_views(paths@),
            safe == forall|j: int| 0 <= j < i ==> safe_for_style(#[trigger] views[j], style),
            critical == exists|j: int|
                0 <= j < i && root_home(#[trigger] views[j]) && !safe_for_style(views[j], style),
        decreases paths.len() - i,
    {
        assert(views[i as int] == paths@[i as int]@);
        if !path_is_safe_for_style(&paths[i], style) {
            safe = false;
            if path_is_root_home(&paths[i]) {
                critical = true;
            }
        }
        i += 1;
    }
    if !state.saw_terminator && safe {
        return RmParseDecision::Allow;
    }
    let hit = find_rule(critical, state.force_style);
    if note_exemptions(hit.pattern_name, paths, ex, noted) {
        return RmParseDecision::Allow;
    }
    RmParseDecision::Deny(
        RmParseMatch {
            pattern_name: hit.pattern_name,
            reason: hit.reason,
            severity: hit.severity,
            span: first_span(state.span, state.recursive_span),
        },
    )
}

/// The number of the first operand that is a glob for everything in the root
/// directory, or in the working directory.
fn find_bare_glob(paths: &Vec<PathToken>, root: bool) -> (r: usize)
    ensures
        r == bare_glob_from(path_views(paths@), 0, root),
        r <= paths.len(),
{
    let ghost views = path_views(paths@);
    let mut i: usize = 0;
    while i < paths.len()
        invariant
            0 <= i <= paths.len(),
            views == path_views(paths@),
            bare_glob_from(views, 0, root) == bare_glob_from(views, i as int, root),
        decreases paths.len() - i,
    {
        assert(views[i as int] == paths@[i as int]@);
        let text = paths[i].unquoted.as_slice();
        if paths[i].quote == QuoteKind::Unquoted && (if root {
            is_str(text, "/*")
        } else {
            is_str(text, "*") || is_str(text, "./*")
        }) {
            return i;
        }
        i += 1;
    }
    i
}

/// What is decided of a removal that is not recursive: a glob for everything is
/// denied, since the command does not show what it removes.
pub fn parse_bare_glob_rm(
    paths: &Vec<PathToken>,
    asks: bool,
    unattended: bool,
    ex: &Vec<TargetExemption>,
    noted: &mut Vec<TargetSuppression>,
) -> (r: RmParseDecision)
    ensures
        r == bare_glob_verdict(path_views(paths@), asks, unattended, exemption_views(ex@)),
        suppression_views(final(noted)@) == suppression_views(old(noted)@) + bare_glob_notes(
            path_views(paths@),
            asks,
            unattended,
            exemption_views(ex@),
        ),
{
    if asks && !unattended {
        return RmParseDecision::NoMatch;
    }
    let root = find_bare_glob(paths, true);
    if root < paths.len() {
        assert(path_views(paths@)[root as int] == paths@[root as int]@);
        if note_exemptions(RM_BARE_GLOB_ROOT_NAME, paths, ex, noted) {
            return RmParseDecision::NoMatch;
        }
        return RmParseDecision::Deny(
            RmParseMatch {
                pattern_name: RM_BARE_GLOB_ROOT_NAME,
                reason: RM_BARE_GLOB_ROOT_REASON,
                severity: Severity::Critical,
                span: Some(Span { start: paths[root].start, end: paths[root].end }),
            },
        );
    }
    let here = find_bare_glob(paths, false);
    if here < paths.len() {
        assert(path_views(paths@)[here as int] == paths@[here as int]@);
        if note_exemptions(RM_BARE_GLOB_NAME, paths, ex, noted) {
            return RmParseDecision::NoMatch;
        }
        return RmParseDecision::Deny(
            RmParseMatch {
                pattern_name: RM_BARE_GLOB_NAME,
                reason: RM_BARE_GLOB_REASON,
                severity: Severity::High,
                span: Some(Span { start: paths[here].start, end: paths[here].end }),
            },
        );
    }
    RmParseDecision::NoMatch
}

/// Whether a word of the command from the `start`th token on redirects its
/// standard input.
fn redirects_input(s: &[char], toks: &Vec<NormalizeToken>, start: usize) -> (r: bool)
    requires
        forall|k: int| 0 <= k < toks@.len() ==> (#[trigger] toks@[k]).fits(s@.len() as int),
    ensures
        r == stdin_redirected(s@, toks@, start as int),
{
    let mut i: usize = start;
    while i < toks.len() && toks[i].is_word()
        invariant
            start <= i,
            forall|k: int| 0 <= k < toks@.len() ==> (#[trigger] toks@[k]).fits(s@.len() as int),
            stdin_redirected(s@, toks@, start as int) == stdin_redirected(s@, toks@, i as int),
        decreases toks.len() - i,
    {
        let t = toks[i];
        assert(toks@[i as int].fits(s@.len() as int));
        if starts_with_shell_stdin_redirection(t.text(s)) {
            return true;
        }
        i += 1;
    }
    false
}

/// What is decided of the arguments of `rm`, as one kind of `rm` reads them.
pub fn parse_rm_segment_with_option_scanning(
    s: &[char],
    toks: &Vec<NormalizeToken>,
    start: usize,
    automated: bool,
    scanning: RmOptionScanning,
    ex: &Vec<TargetExemption>,
    noted: &mut Vec<TargetSuppression>,
) -> (r: RmParseDecision)
    requires
        forall|k: int| 0 <= k < toks@.len() ==> (#[trigger] toks@[k]).fits(s@.len() as int),
    ensures
        r == scanned_verdict(
            s@,
            toks@,
            start as int,
            automated,
            scanning,
            exemption_views(ex@),
        ),
        suppression_views(final(noted)@) == suppression_views(old(noted)@) + scanned_notes(
            s@,
            toks@,
            start as int,
            automated,
            scanning,
            exemption_views(ex@),
        ),
{
    proof {
        reveal_strlit("-");
    }
    let ghost target = rm_arguments(
        s@,
        toks@,
        start as int,
        scanning,
        false,
        no_flags(),
        Seq::empty(),
    );
    let mut ended = false;
    let mut f = RmFlagTracker::none();
    let mut paths: Vec<PathToken> = Vec::new();
    assert(path_views(paths@) =~= Seq::<PathView>::empty());
    let mut i: usize = start;
    while i < toks.len() && toks[i].is_word()
        invariant
            start <= i,
            forall|k: int| 0 <= k < toks@.len() ==> (#[trigger] toks@[k]).fits(s@.len() as int),
            "-"@.len() == 1,
            noted@ == old(noted)@,
            target == rm_arguments(
                s@,
                toks@,
                start as int,
                scanning,
                false,
                no_flags(),
                Seq::empty(),
            ),
            target == rm_arguments(
                s@,
                toks@,
                i as int,
                scanning,
                ended,
                f,
                path_views(paths@),
            ),
        decreases toks.len() - i,
    {
        let t = toks[i];
        assert(toks@[i as int].fits(s@.len() as int));
        let raw = t.text(s);
        if shell_redirection_prefix(raw).is_some() {
            if shell_redirection_consumes_next_word(raw) && i + 1 < toks.len() && toks[i
                + 1].is_word() {
                i += 2;
            } else {
                i += 1;
            }
            continue ;
        }
        let text = if i + 1 == toks.len() {
            trim_trailing(raw, ')')
        } else {
            raw
        };
        if text.len() == 0 {
            i += 1;
            continue ;
        }
        if !ended {
            let rewritten = dequote_text(text);
            let flag = match &rewritten {
                Some(v) => v.as_slice(),
                None => text,
            };
            if is_str(flag, "--") {
                ended = true;
                f.saw_terminator = true;
                i += 1;
                continue ;
            }
            if starts_str(flag, "-") && !is_str(flag, "-") {
                if scanning == RmOptionScanning::AppleStopAtFirstOperand
                    && !apple_rm_option_token_is_valid(flag) {
                    return RmParseDecision::NoMatch;
                }
                match apply_rm_option(flag, Span { start: t.start, end: t.end }, f) {
                    RmOptionDecision::Continue(g) => {
                        f = g;
                    },
                    _ => {
                        return RmParseDecision::NoMatch;
                    },
                }
                i += 1;
                continue ;
            }
        }
        let (quote, inner) = strip_outer_quotes(text);
        let ghost before = path_views(paths@);
        let path = PathToken { unquoted: copy_of(inner), quote, start: t.start, end: t.end };
        let ghost view = path@;
        paths.push(path);
        assert(path_views(paths@) =~= before.push(view));
        if scanning == RmOptionScanning::AppleStopAtFirstOperand {
            ended = true;
        }
        i += 1;
    }
    let unattended = automated || redirects_input(s, toks, start);
    match f.resolve() {
        Some(state) => decide_recursive(state, &paths, unattended, ex, noted),
        None => parse_bare_glob_rm(
            &paths,
            f.interactive_mode.prompts(),
            unattended,
            ex,
            noted,
        ),
    }
}

/// What is decided of the arguments of `rm`. What GNU and Apple read otherwise
/// is denied where either would remove what it must not.
pub fn parse_rm_segment(
    s: &[char],
    toks: &Vec<NormalizeToken>,
    start: usize,
    automated: bool,
    ex: &Vec<TargetExemption>,
    noted: &mut Vec<TargetSuppression>,
) -> (r: RmParseDecision)
    requires
        forall|k: int| 0 <= k < toks@.len() ==> (#[trigger] toks@[k]).fits(s@.len() as int),
    ensures
        r == rm_verdict(s@, toks@, start as int, automated, exemption_views(ex@)),
        suppression_views(final(noted)@) == suppression_views(old(noted)@) + rm_notes(
            s@,
            toks@,
            start as int,
            automated,
            exemption_views(ex@),
        ),
{
    let gnu = parse_rm_segment_with_option_scanning(
        s,
        toks,
        start,
        automated,
        RmOptionScanning::GnuPermuted,
        ex,
        noted,
    );
    let apple = parse_rm_segment_with_option_scanning(
        s,
        toks,
        start,
        automated,
        RmOptionScanning::AppleStopAtFirstOperand,
        ex,
        noted,
    );
    match gnu {
        RmParseDecision::Deny(_) => gnu,
        RmParseDecision::Allow => match apple {
            RmParseDecision::Deny(_) => apple,
            _ => RmParseDecision::Allow,
        },
        RmParseDecision::NoMatch => apple,
    }
}

/// What is decided of a command whose program stands without wrapping programs
/// and directories.
pub fn parse_normalized_rm_command_segment(
    s: &[char],
    automated: bool,
    ex: &Vec<TargetExemption>,
    noted: &mut Vec<TargetSuppression>,
) -> (r: RmParseDecision)
    ensures
        r == plain_verdict(s@, automated, exemption_views(ex@)),
        suppression_views(final(noted)@) == suppression_views(old(noted)@) + plain_notes(
            s@,
            automated,
            exemption_views(ex@),
        ),
{
    let toks = tokenize_for_normalization(s);
    let mut i: usize = 0;
    while i < toks.len()
        invariant
            0 <= i <= toks.len(),
            toks@ == tokens(s@, ShellDialect::Unknown),
            forall|k: int| 0 <= k < toks@.len() ==> (#[trigger] toks@[k]).fits(s@.len() as int),
            noted@ == old(noted)@,
            rm_word_from(s@, toks@, 0) == rm_word_from(s@, toks@, i as int),
        decreases toks.len() - i,
    {
        let t = toks[i];
        assert(toks@[i as int].fits(s@.len() as int));
        if !t.is_word() {
            i += 1;
            continue ;
        }
        if is_str(t.text(s), "rm") {
            return parse_rm_segment(s, &toks, i + 1, automated, ex, noted);
        }
        let ghost from = i + 1;
        let mut j: usize = i + 1;
        while j < toks.len() && toks[j].is_word()
            invariant
                from <= j <= toks.len(),
                separator_from(toks@, from) == separator_from(toks@, j as int),
            decreases toks.len() - j,
        {
            j += 1;
        }
        i = j;
    }
    RmParseDecision::NoMatch
}

/// A removal is denied exactly where the GNU or the Apple reading of its options
/// denies it.
pub proof fn either_reading_denies(
    s: Seq<char>,
    toks: Seq<NormalizeToken>,
    start: int,
    automated: bool,
    ex: Seq<ExemptionView>,
)
    ensures
        rm_verdict(s, toks, start, automated, ex) is Deny <==> (scanned_verdict(
            s,
            toks,
            start,
            automated,
            RmOptionScanning::GnuPermuted,
            ex,
        ) is Deny || scanned_verdict(
            s,
            toks,
            start,
            automated,
            RmOptionScanning::AppleStopAtFirstOperand,
            ex,
        ) is Deny),
{
}

/// One operand that is not trusted as temporary denies a whole recursive removal
/// that nobody watches and that no exemption covers, whatever the others are.
pub proof fn one_unsafe_operand_denies(
    state: RmFlagState,
    paths: Seq<PathView>,
    i: int,
    unattended: bool,
    ex: Seq<ExemptionView>,
)
    requires
        0 <= i < paths.len(),
        !safe_for_style(paths[i], path_style(state.force_style)),
        !state.interactive_mode.asks() || unattended,
        !all_exempt(
            ex,
            rule_for(
                any_critical(paths, path_style(state.force_style)),
                state.force_style,
            ).pattern_name,
            paths,
        ),
    ensures
        recursive_verdict(state, paths, unattended, ex) is Deny,
{
}

/// Behind `--`, no operand of a recursive removal is trusted as temporary: without
/// a prompt and without an exemption the removal is denied.
pub proof fn terminator_ends_trust(
    state: RmFlagState,
    paths: Seq<PathView>,
    unattended: bool,
)
    requires
        paths.len() > 0,
        state.saw_terminator,
        !state.interactive_mode.asks() || unattended,
    ensures
        recursive_verdict(state, paths, unattended, Seq::empty()) is Deny,
{
    let critical = any_critical(paths, path_style(state.force_style));
    nothing_is_exempt(rule_for(critical, state.force_style).pattern_name, paths);
}

/// A denied recursive removal is critical exactly where an operand is absolute or
/// below a home directory and not temporary.
pub proof fn critical_operand_decides_severity(
    state: RmFlagState,
    paths: Seq<PathView>,
    unattended: bool,
    ex: Seq<ExemptionView>,
)
    ensures
        match recursive_verdict(state, paths, unattended, ex) {
            RmParseDecision::Deny(hit) => hit.severity == if any_critical(
                paths,
                path_style(state.force_style),
            ) {
                Severity::Critical
            } else {
                Severity::High
            },
            _ => true,
        },
{
}

/// An exemption of some operands only is none: unless every operand is exempt, a
/// recursive removal is decided as without exemptions.
pub proof fn exemptions_hold_for_all_or_none(
    state: RmFlagState,
    paths: Seq<PathView>,
    i: int,
    unattended: bool,
    ex: Seq<ExemptionView>,
)
    requires
        0 <= i < paths.len(),
        paths[i].quote == QuoteKind::Single || exempting_glob(
            ex,
            rule_for(
                any_critical(paths, path_style(state.force_style)),
                state.force_style,
            ).pattern_name,
            paths[i].unquoted,
        ) is None,
    ensures
        recursive_verdict(state, paths, unattended, ex) == recursive_verdict(
            state,
            paths,
            unattended,
            Seq::empty(),
        ),
{
    let rule = rule_for(
        any_critical(paths, path_style(state.force_style)),
        state.force_style,
    ).pattern_name;
    nothing_is_exempt(rule, paths);
}

/// Without exemptions nothing is exempt.
proof fn nothing_is_exempt(rule: &'static str, paths: Seq<PathView>)
    ensures
        !all_exempt(Seq::empty(), rule, paths),
{
    if paths.len() > 0 {
        assert(exempting_glob(Seq::empty(), rule, paths[0].unquoted) is None);
    }
}

/// A decision `with` exemptions against that `without` them: they never deny, and
/// what is not denied without them is decided the same.
pub open spec fn only_allows(with: RmParseDecision, without: RmParseDecision) -> bool {
    &&& with is Deny ==> without is Deny
    &&& !(without is Deny) ==> with == without
}

/// Exemptions never deny a removal in a plain command.
pub proof fn plain_exemptions_only_allow(s: Seq<char>, automated: bool, ex: Seq<ExemptionView>)
    ensures
        only_allows(plain_verdict(s, automated, ex), plain_verdict(s, automated, Seq::empty())),
{
    let toks = tokens(s, ShellDialect::Unknown);
    let start = rm_word_from(s, toks, 0) + 1;
    scanned_exemptions_only_allow(s, toks, start, automated, RmOptionScanning::GnuPermuted, ex);
    scanned_exemptions_only_allow(
        s,
        toks,
        start,
        automated,
        RmOptionScanning::AppleStopAtFirstOperand,
        ex,
    );
}

/// Exemptions never deny a removal whose options are read in one way.
proof fn scanned_exemptions_only_allow(
    s: Seq<char>,
    toks: Seq<NormalizeToken>,
    start: int,
    automated: bool,
    scanning: RmOptionScanning,
    ex: Seq<ExemptionView>,
)
    ensures
        only_allows(
            scanned_verdict(s, toks, start, automated, scanning, ex),
            scanned_verdict(s, toks, start, automated, scanning, Seq::empty()),
        ),
{
    match rm_arguments(s, toks, start, scanning, false, no_flags(), Seq::empty()) {
        None => {},
        Some((f, paths)) => {
            if let Some(state) = f.resolved() {
                let critical = any_critical(paths, path_style(state.force_style));
                nothing_is_exempt(rule_for(critical, state.force_style).pattern_name, paths);
            }
            nothing_is_exempt(RM_BARE_GLOB_ROOT_NAME, paths);
            nothing_is_exempt(RM_BARE_GLOB_NAME, paths);
        },
    }
}

/// Whether a denial is by a rule that the arguments of a removal can meet.
pub open spec fn by_known_rule(d: RmParseDecision) -> bool {
    match d {
        RmParseDecision::Deny(hit) => classifier_names().contains(hit.pattern_name),
        _ => true,
    }
}

/// A removal in a plain command is denied by a known rule only.
pub proof fn plain_denials_are_by_known_rules(s: Seq<char>, automated: bool, ex: Seq<ExemptionView>)
    ensures
        by_known_rule(plain_verdict(s, automated, ex)),
        by_known_rule(unverified_deny()),
{
    let names = classifier_names();
    assert(names[0] == RM_RF_ROOT_HOME_NAME);
    assert(names[1] == RM_R_F_SEPARATE_ROOT_HOME_NAME);
    assert(names[2] == RM_RECURSIVE_FORCE_ROOT_HOME_NAME);
    assert(names[3] == RM_RF_GENERAL_NAME);
    assert(names[4] == RM_R_F_SEPARATE_NAME);
    assert(names[5] == RM_RECURSIVE_FORCE_NAME);
    assert(names[6] == RM_RECURSIVE_ROOT_HOME_NAME);
    assert(names[7] == RM_RECURSIVE_GENERAL_NAME);
    assert(names[8] == RM_RECURSIVE_UNVERIFIED_NAME);
    assert(names[10] == RM_BARE_GLOB_NAME);
    assert(names[11] == RM_BARE_GLOB_ROOT_NAME);
}

} // verus!
