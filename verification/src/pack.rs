//! A pack: the rules on one kind of command, and what they tell.

use vstd::prelude::*;
use crate::filesystem::command::{parse_rm_command, rm_command_verdict};
use crate::filesystem::guidance::{classifier_guidance, classifier_rule_guidance};
use crate::filesystem::segment::RmParseDecision;
use crate::git::branch::{branch_decision, text_branch_decision};
use crate::git::options::BranchCommandDecision;
use crate::git::texts::{BRANCH_DYNAMIC_RULE, BRANCH_FORCE_DELETE_NAME};
use crate::pattern::{matches_text, CompiledRegex};
use crate::shell::segments::{segments, split_command_segments, Segment};
use crate::shell::token::ShellDialect;
use crate::text::{chars_of, contains_text, has_str, is_str, lower_text, lowered, text_of};

verus! {

/// How bad a finding is.
#[derive(Debug, Clone, Copy, PartialEq, Eq, Structural)]
pub enum Severity {
    /// Cannot be undone, and found with certainty.
    Critical,
    /// Dangerous, more or less by its context.
    High,
    /// Worth a warning.
    Medium,
    /// Worth a note.
    Low,
}

/// The systems that a suggestion is for.
#[derive(Debug, Clone, Copy, PartialEq, Eq, Structural)]
pub enum Platform {
    All,
    Linux,
    MacOS,
    Windows,
}

/// A safer command.
#[derive(Debug, Clone, Copy)]
pub struct PatternSuggestion {
    pub command: &'static str,
    pub description: &'static str,
    pub platform: Platform,
    /// Whether the command needs approval too.
    pub gated: bool,
}

/// A safer command on every system.
pub open spec fn suggestion(command: &'static str, description: &'static str) -> PatternSuggestion {
    PatternSuggestion { command, description, platform: Platform::All, gated: false }
}

/// A safer command that needs approval too.
pub open spec fn gated_suggestion(command: &'static str, description: &'static str) -> PatternSuggestion {
    PatternSuggestion { command, description, platform: Platform::All, gated: true }
}

/// A safer command on one system.
pub open spec fn suggestion_on(
    command: &'static str,
    description: &'static str,
    platform: Platform,
) -> PatternSuggestion {
    PatternSuggestion { command, description, platform, gated: false }
}

impl PatternSuggestion {
    /// A safer command on every system.
    pub fn new(command: &'static str, description: &'static str) -> (r: Self)
        ensures
            r == suggestion(command, description),
    {
        PatternSuggestion { command, description, platform: Platform::All, gated: false }
    }

    /// A safer command that needs approval too.
    pub fn gated(command: &'static str, description: &'static str) -> (r: Self)
        ensures
            r == gated_suggestion(command, description),
    {
        PatternSuggestion { command, description, platform: Platform::All, gated: true }
    }

    /// A safer command on one system.
    pub fn with_platform(
        command: &'static str,
        description: &'static str,
        platform: Platform,
    ) -> (r: Self)
        ensures
            r == suggestion_on(command, description, platform),
    {
        PatternSuggestion { command, description, platform, gated: false }
    }
}

/// A pattern of commands that need no look.
pub struct SafePattern {
    pub name: &'static str,
    pub regex: CompiledRegex,
}

/// A pattern of commands that need no look.
pub struct SafeView {
    pub name: &'static str,
    pub pattern: Seq<char>,
}

impl View for SafePattern {
    type V = SafeView;

    open spec fn view(&self) -> SafeView {
        SafeView { name: self.name, pattern: self.regex.text() }
    }
}

impl SafePattern {
    /// A pattern of commands that need no look.
    pub fn new(name: &'static str, pattern: &'static str) -> (r: Self)
        ensures
            r@ == (SafeView { name, pattern: pattern@ }),
    {
        SafePattern { name, regex: CompiledRegex::new(pattern) }
    }
}

/// The views of a list of safe patterns.
pub open spec fn safe_views(v: Seq<SafePattern>) -> Seq<SafeView> {
    Seq::new(v.len(), |i: int| v[i]@)
}

/// A rule: a pattern of commands that are denied, and what is told of them.
pub struct DestructivePattern {
    pub name: Option<&'static str>,
    pub regex: CompiledRegex,
    pub reason: &'static str,
    pub severity: Severity,
    pub explanation: Option<&'static str>,
    pub suggestions: Vec<PatternSuggestion>,
}

/// A rule: a pattern of commands that are denied, and what is told of them.
pub struct RuleView {
    pub name: Option<&'static str>,
    pub pattern: Seq<char>,
    pub reason: &'static str,
    pub severity: Severity,
    pub explanation: Option<&'static str>,
    pub suggestions: Seq<PatternSuggestion>,
}

impl View for DestructivePattern {
    type V = RuleView;

    open spec fn view(&self) -> RuleView {
        RuleView {
            name: self.name,
            pattern: self.regex.text(),
            reason: self.reason,
            severity: self.severity,
            explanation: self.explanation,
            suggestions: self.suggestions@,
        }
    }
}

/// A rule.
pub open spec fn rule(
    name: &'static str,
    pattern: &'static str,
    reason: &'static str,
    severity: Severity,
    explanation: &'static str,
    suggestions: Seq<PatternSuggestion>,
) -> RuleView {
    RuleView {
        name: Some(name),
        pattern: pattern@,
        reason,
        severity,
        explanation: Some(explanation),
        suggestions,
    }
}

impl DestructivePattern {
    /// A rule.
    pub fn new(
        name: &'static str,
        pattern: &'static str,
        reason: &'static str,
        severity: Severity,
        explanation: &'static str,
        suggestions: Vec<PatternSuggestion>,
    ) -> (r: Self)
        ensures
            r@ == rule(name, pattern, reason, severity, explanation, suggestions@),
    {
        DestructivePattern {
            name: Some(name),
            regex: CompiledRegex::new(pattern),
            reason,
            severity,
            explanation: Some(explanation),
            suggestions,
        }
    }
}

/// The views of a list of rules.
pub open spec fn rule_views(v: Seq<DestructivePattern>) -> Seq<RuleView> {
    Seq::new(v.len(), |i: int| v[i]@)
}

/// What is found in a command.
#[derive(Debug, Clone, Copy)]
pub struct DestructiveMatch {
    /// The rule that denies.
    pub name: Option<&'static str>,
    /// Why it denies.
    pub reason: &'static str,
    pub severity: Severity,
    /// What to know of it.
    pub explanation: Option<&'static str>,
}

/// The rules on one kind of command.
pub struct Pack {
    pub id: String,
    pub name: &'static str,
    pub description: &'static str,
    /// A command that holds none of these needs no look.
    pub keywords: Vec<&'static str>,
    pub safe_patterns: Vec<SafePattern>,
    pub destructive_patterns: Vec<DestructivePattern>,
}

/// Which rules are looked at.
#[derive(Debug, Clone, Copy, PartialEq, Eq, Structural)]
pub enum RuleFilter {
    All,
    /// Those that no allowed removal in the same command may hide.
    BeforeRemoval,
    /// All but the one on branches, which the arguments of the command decide.
    ExceptBranch,
}

/// Whether a rule goes before an allowed removal in the same command.
pub open spec fn goes_before_removal(name: Seq<char>) -> bool {
    name == "cp-sensitive-then-delete"@ || name == "ln-symlink-sensitive-then-delete"@ || name
        == "rsync-sensitive-then-delete"@ || name == "redirect-truncate-root-home"@ || name
        == "redirect-truncate-dynamic-path"@
}

/// Whether a rule goes before an allowed removal in the same command: the removal
/// must not hide what the rule is about.
pub fn is_pre_rm_propagation_rule(name: Option<&str>) -> (r: bool)
    ensures
        r == (name is Some && goes_before_removal((name->0)@)),
{
    match name {
        None => false,
        Some(n) => {
            let chars = chars_of(n);
            let s = chars.as_slice();
            is_str(s, "cp-sensitive-then-delete") || is_str(s, "ln-symlink-sensitive-then-delete")
                || is_str(s, "rsync-sensitive-then-delete") || is_str(
                s,
                "redirect-truncate-root-home",
            ) || is_str(s, "redirect-truncate-dynamic-path")
        },
    }
}

/// Whether a rule is looked at.
pub open spec fn passes(filter: RuleFilter, name: Option<&'static str>) -> bool {
    match filter {
        RuleFilter::All => true,
        RuleFilter::BeforeRemoval => name is Some && goes_before_removal((name->0)@),
        RuleFilter::ExceptBranch => !(name is Some && (name->0)@ == BRANCH_FORCE_DELETE_NAME@),
    }
}

/// The number of the first rule from the `i`th on that matches a text.
pub open spec fn rule_from(rules: Seq<RuleView>, i: int, text: Seq<char>, filter: RuleFilter) -> int
    decreases rules.len() - i,
{
    if i < 0 || i >= rules.len() {
        rules.len() as int
    } else if passes(filter, rules[i].name) && matches_text(rules[i].pattern, text) {
        i
    } else {
        rule_from(rules, i + 1, text, filter)
    }
}

/// The number of the first rule from the `i`th on with the given name.
pub open spec fn named_from(rules: Seq<RuleView>, i: int, name: Seq<char>) -> int
    decreases rules.len() - i,
{
    if i < 0 || i >= rules.len() {
        rules.len() as int
    } else if rules[i].name is Some && (rules[i].name->0)@ == name {
        i
    } else {
        named_from(rules, i + 1, name)
    }
}

/// What a rule finds.
pub open spec fn finding(rules: Seq<RuleView>, i: int) -> Option<DestructiveMatch> {
    if 0 <= i < rules.len() {
        Some(
            DestructiveMatch {
                name: rules[i].name,
                reason: rules[i].reason,
                severity: rules[i].severity,
                explanation: rules[i].explanation,
            },
        )
    } else {
        None
    }
}

/// Whether a safe pattern matches a text.
pub open spec fn is_safe(safe: Seq<SafeView>, text: Seq<char>) -> bool {
    exists|i: int| 0 <= i < safe.len() && matches_text((#[trigger] safe[i]).pattern, text)
}

/// What the rules on Git find in one text. The arguments of a branch command are
/// read; only where they cannot be, the pattern on branches is matched.
pub open spec fn git_finding(rules: Seq<RuleView>, safe: Seq<SafeView>, text: Seq<char>) -> Option<
    DestructiveMatch,
> {
    if is_safe(safe, text) {
        None
    } else {
        finding(
            rules,
            match branch_decision(text, ShellDialect::Unknown) {
                BranchCommandDecision::Destructive => named_from(
                    rules,
                    0,
                    BRANCH_FORCE_DELETE_NAME@,
                ),
                BranchCommandDecision::DestructiveDynamic => named_from(
                    rules,
                    0,
                    BRANCH_DYNAMIC_RULE@,
                ),
                BranchCommandDecision::Unparsed => rule_from(rules, 0, text, RuleFilter::All),
                _ => rule_from(rules, 0, text, RuleFilter::ExceptBranch),
            },
        )
    }
}

/// What the rules on Git find in the segments of a command from the `i`th on, and
/// then in the whole command.
pub open spec fn git_findings_from(
    rules: Seq<RuleView>,
    safe: Seq<SafeView>,
    s: Seq<char>,
    segs: Seq<Segment>,
    i: int,
) -> Option<DestructiveMatch>
    decreases segs.len() - i,
{
    if i < 0 || i >= segs.len() {
        git_finding(rules, safe, s)
    } else {
        let found = git_finding(rules, safe, segs[i].of(s));
        if found is Some {
            found
        } else {
            git_findings_from(rules, safe, s, segs, i + 1)
        }
    }
}

/// What a pack tells of a rule.
pub open spec fn guidance(pack_id: Seq<char>, rules: Seq<RuleView>, name: Seq<char>) -> (
    Option<&'static str>,
    Seq<PatternSuggestion>,
) {
    let i = named_from(rules, 0, name);
    if i < rules.len() {
        (rules[i].explanation, rules[i].suggestions)
    } else if pack_id == "core.filesystem"@ {
        match classifier_guidance(name) {
            Some((explanation, suggestions)) => (Some(explanation), suggestions),
            None => (None, Seq::empty()),
        }
    } else {
        (None, Seq::empty())
    }
}

/// What the patterns on files find in one text that holds no denied removal. A
/// removal that is allowed, and a text that a safe pattern matches, are let pass.
pub open spec fn file_finding(rules: Seq<RuleView>, safe: Seq<SafeView>, text: Seq<char>) -> Option<
    DestructiveMatch,
> {
    if rm_command_verdict(text, Seq::empty()) is Allow || is_safe(safe, text) {
        None
    } else {
        finding(rules, rule_from(rules, 0, text, RuleFilter::All))
    }
}

/// What the patterns on files find in the segments of a command from the `i`th on,
/// and then in the whole command.
pub open spec fn file_findings_from(
    rules: Seq<RuleView>,
    safe: Seq<SafeView>,
    s: Seq<char>,
    segs: Seq<Segment>,
    i: int,
) -> Option<DestructiveMatch>
    decreases segs.len() - i,
{
    if i < 0 || i >= segs.len() {
        file_finding(rules, safe, s)
    } else {
        let found = file_finding(rules, safe, segs[i].of(s));
        if found is Some {
            found
        } else {
            file_findings_from(rules, safe, s, segs, i + 1)
        }
    }
}

/// What the rules on files find in a command. Some rules go before all; removals
/// are decided by their arguments; only then the patterns are matched.
pub open spec fn filesystem_finding(
    pack_id: Seq<char>,
    rules: Seq<RuleView>,
    safe: Seq<SafeView>,
    s: Seq<char>,
) -> Option<DestructiveMatch> {
    let before = rule_from(rules, 0, s, RuleFilter::BeforeRemoval);
    if before < rules.len() {
        finding(rules, before)
    } else {
        match rm_command_verdict(s, Seq::empty()) {
            RmParseDecision::Deny(hit) => Some(
                DestructiveMatch {
                    name: Some(hit.pattern_name),
                    reason: hit.reason,
                    severity: hit.severity,
                    explanation: guidance(pack_id, rules, hit.pattern_name@).0,
                },
            ),
            _ => file_findings_from(rules, safe, s, segments(s, ShellDialect::Unknown), 0),
        }
    }
}

/// Whether a text holds a keyword, in letters of either case.
pub open spec fn holds_keyword(keywords: Seq<&'static str>, s: Seq<char>) -> bool {
    exists|i: int| 0 <= i < keywords.len() && contains_text(lowered(s), (#[trigger] keywords[i])@)
}

/// What a pack finds in a command.
pub open spec fn pack_finding(
    pack_id: Seq<char>,
    keywords: Seq<&'static str>,
    rules: Seq<RuleView>,
    safe: Seq<SafeView>,
    s: Seq<char>,
) -> Option<DestructiveMatch> {
    if !holds_keyword(keywords, s) {
        None
    } else if pack_id == "core.filesystem"@ {
        filesystem_finding(pack_id, rules, safe, s)
    } else if pack_id == "core.git"@ {
        git_findings_from(rules, safe, s, segments(s, ShellDialect::Unknown), 0)
    } else if is_safe(safe, s) {
        None
    } else {
        finding(rules, rule_from(rules, 0, s, RuleFilter::All))
    }
}

/// A copy of a list of suggestions.
pub fn copy_suggestions(v: &Vec<PatternSuggestion>) -> (r: Vec<PatternSuggestion>)
    ensures
        r@ == v@,
{
    let mut out: Vec<PatternSuggestion> = Vec::new();
    let mut i: usize = 0;
    while i < v.len()
        invariant
            0 <= i <= v.len(),
            out@ == v@.subrange(0, i as int),
        decreases v.len() - i,
    {
        out.push(v[i]);
        i += 1;
        assert(out@ =~= v@.subrange(0, i as int));
    }
    assert(out@ =~= v@);
    out
}

impl Pack {
    /// The rules.
    pub open spec fn rules(&self) -> Seq<RuleView> {
        rule_views(self.destructive_patterns@)
    }

    /// The safe patterns.
    pub open spec fn safe(&self) -> Seq<SafeView> {
        safe_views(self.safe_patterns@)
    }

    /// Whether a command holds a keyword of the pack, in letters of either case.
    pub fn might_match(&self, command: &str) -> (r: bool)
        ensures
            r == holds_keyword(self.keywords@, command@),
    {
        let chars = chars_of(command);
        let s = lower_text(chars.as_slice());
        let mut i: usize = 0;
        while i < self.keywords.len()
            invariant
                0 <= i <= self.keywords.len(),
                s@ == lowered(command@),
                forall|j: int|
                    0 <= j < i ==> !contains_text(s@, (#[trigger] self.keywords@[j])@),
            decreases self.keywords.len() - i,
        {
            if has_str(s.as_slice(), self.keywords[i]) {
                return true;
            }
            i += 1;
        }
        false
    }

    /// Whether a safe pattern of the pack matches a command.
    pub fn matches_safe(&self, command: &str) -> (r: bool)
        ensures
            r == is_safe(self.safe(), command@),
    {
        let ghost views = self.safe();
        let mut i: usize = 0;
        while i < self.safe_patterns.len()
            invariant
                0 <= i <= self.safe_patterns.len(),
                views == safe_views(self.safe_patterns@),
                forall|j: int|
                    0 <= j < i ==> !matches_text((#[trigger] views[j]).pattern, command@),
            decreases self.safe_patterns.len() - i,
        {
            assert(views[i as int] == self.safe_patterns@[i as int]@);
            if self.safe_patterns[i].regex.is_match(command) {
                return true;
            }
            i += 1;
        }
        false
    }

    /// The number of the first rule that matches a command.
    fn find_rule(&self, command: &str, filter: RuleFilter) -> (r: usize)
        ensures
            r == rule_from(self.rules(), 0, command@, filter),
            r <= self.destructive_patterns.len(),
    {
        let ghost views = self.rules();
        let mut i: usize = 0;
        while i < self.destructive_patterns.len()
            invariant
                0 <= i <= self.destructive_patterns.len(),
                views == rule_views(self.destructive_patterns@),
                rule_from(views, 0, command@, filter) == rule_from(
                    views,
                    i as int,
                    command@,
                    filter,
                ),
            decreases self.destructive_patterns.len() - i,
        {
            let p = &self.destructive_patterns[i];
            assert(views[i as int] == p@);
            let looked_at = match filter {
                RuleFilter::All => true,
                RuleFilter::BeforeRemoval => is_pre_rm_propagation_rule(p.name),
                RuleFilter::ExceptBranch => match p.name {
                    Some(n) => !is_str(chars_of(n).as_slice(), BRANCH_FORCE_DELETE_NAME),
                    None => true,
                },
            };
            if looked_at && p.regex.is_match(command) {
                return i;
            }
            i += 1;
        }
        i
    }

    /// The number of the first rule with the given name.
    fn find_named(&self, name: &str) -> (r: usize)
        ensures
            r == named_from(self.rules(), 0, name@),
            r <= self.destructive_patterns.len(),
    {
        let ghost views = self.rules();
        let mut i: usize = 0;
        while i < self.destructive_patterns.len()
            invariant
                0 <= i <= self.destructive_patterns.len(),
                views == rule_views(self.destructive_patterns@),
                named_from(views, 0, name@) == named_from(views, i as int, name@),
            decreases self.destructive_patterns.len() - i,
        {
            let p = &self.destructive_patterns[i];
            assert(views[i as int] == p@);
            if let Some(n) = p.name {
                if is_str(chars_of(n).as_slice(), name) {
                    return i;
                }
            }
            i += 1;
        }
        i
    }

    /// What a rule finds.
    fn found(&self, i: usize) -> (r: Option<DestructiveMatch>)
        ensures
            r == finding(self.rules(), i as int),
    {
        if i < self.destructive_patterns.len() {
            let p = &self.destructive_patterns[i];
            assert(self.rules()[i as int] == p@);
            Some(
                DestructiveMatch {
                    name: p.name,
                    reason: p.reason,
                    severity: p.severity,
                    explanation: p.explanation,
                },
            )
        } else {
            None
        }
    }

    /// What the patterns of the rules find in a command.
    pub fn matches_destructive(&self, command: &str) -> (r: Option<DestructiveMatch>)
        ensures
            r == finding(self.rules(), rule_from(self.rules(), 0, command@, RuleFilter::All)),
    {
        self.found(self.find_rule(command, RuleFilter::All))
    }

    /// What the rules on Git find in one text.
    fn check_git_text(&self, text: &[char]) -> (r: Option<DestructiveMatch>)
        ensures
            r == git_finding(self.rules(), self.safe(), text@),
    {
        let line = text_of(text);
        let command = line.as_str();
        if self.matches_safe(command) {
            return None;
        }
        let i = match text_branch_decision(text, ShellDialect::Unknown) {
            BranchCommandDecision::Destructive => self.find_named(BRANCH_FORCE_DELETE_NAME),
            BranchCommandDecision::DestructiveDynamic => self.find_named(BRANCH_DYNAMIC_RULE),
            BranchCommandDecision::Unparsed => self.find_rule(command, RuleFilter::All),
            _ => self.find_rule(command, RuleFilter::ExceptBranch),
        };
        self.found(i)
    }

    /// What the rules on Git find in a command.
    fn check_git(&self, s: &[char]) -> (r: Option<DestructiveMatch>)
        ensures
            r == git_findings_from(
                self.rules(),
                self.safe(),
                s@,
                segments(s@, ShellDialect::Unknown),
                0,
            ),
    {
        let segs = split_command_segments(s);
        let mut i: usize = 0;
        while i < segs.len()
            invariant
                0 <= i <= segs.len(),
                segs@ == segments(s@, ShellDialect::Unknown),
                forall|k: int| 0 <= k < segs@.len() ==> (#[trigger] segs@[k]).fits(s@.len() as int),
                git_findings_from(self.rules(), self.safe(), s@, segs@, 0) == git_findings_from(
                    self.rules(),
                    self.safe(),
                    s@,
                    segs@,
                    i as int,
                ),
            decreases segs.len() - i,
        {
            let seg = segs[i];
            assert(segs@[i as int].fits(s@.len() as int));
            let found = self.check_git_text(seg.text(s));
            if found.is_some() {
                return found;
            }
            i += 1;
        }
        self.check_git_text(s)
    }

    /// What the patterns on files find in one text.
    fn check_files_text(&self, text: &[char]) -> (r: Option<DestructiveMatch>)
        ensures
            r == file_finding(self.rules(), self.safe(), text@),
    {
        let line = text_of(text);
        let command = line.as_str();
        match parse_rm_command(command) {
            RmParseDecision::Allow => None,
            _ => {
                if self.matches_safe(command) {
                    None
                } else {
                    self.matches_destructive(command)
                }
            },
        }
    }

    /// What the patterns on files find in a command.
    fn check_files(&self, s: &[char]) -> (r: Option<DestructiveMatch>)
        ensures
            r == file_findings_from(
                self.rules(),
                self.safe(),
                s@,
                segments(s@, ShellDialect::Unknown),
                0,
            ),
    {
        let segs = split_command_segments(s);
        let mut i: usize = 0;
        while i < segs.len()
            invariant
                0 <= i <= segs.len(),
                segs@ == segments(s@, ShellDialect::Unknown),
                forall|k: int| 0 <= k < segs@.len() ==> (#[trigger] segs@[k]).fits(s@.len() as int),
                file_findings_from(self.rules(), self.safe(), s@, segs@, 0) == file_findings_from(
                    self.rules(),
                    self.safe(),
                    s@,
                    segs@,
                    i as int,
                ),
            decreases segs.len() - i,
        {
            let seg = segs[i];
            assert(segs@[i as int].fits(s@.len() as int));
            let found = self.check_files_text(seg.text(s));
            if found.is_some() {
                return found;
            }
            i += 1;
        }
        self.check_files_text(s)
    }

    /// What the rules on files find in a command.
    fn check_filesystem(&self, command: &str) -> (r: Option<DestructiveMatch>)
        ensures
            r == filesystem_finding(self.id@, self.rules(), self.safe(), command@),
    {
        let before = self.find_rule(command, RuleFilter::BeforeRemoval);
        if before < self.destructive_patterns.len() {
            return self.found(before);
        }
        match parse_rm_command(command) {
            RmParseDecision::Deny(hit) => {
                let (explanation, _suggestions) = self.rule_guidance(hit.pattern_name);
                Some(
                    DestructiveMatch {
                        name: Some(hit.pattern_name),
                        reason: hit.reason,
                        severity: hit.severity,
                        explanation,
                    },
                )
            },
            _ => {
                let s = chars_of(command);
                self.check_files(s.as_slice())
            },
        }
    }

    /// What the pack finds in a command. A command without a keyword needs no
    /// look.
    pub fn check(&self, command: &str) -> (r: Option<DestructiveMatch>)
        ensures
            r == pack_finding(self.id@, self.keywords@, self.rules(), self.safe(), command@),
    {
        if !self.might_match(command) {
            return None;
        }
        let id = chars_of(self.id.as_str());
        if is_str(id.as_slice(), "core.filesystem") {
            return self.check_filesystem(command);
        }
        if is_str(id.as_slice(), "core.git") {
            let s = chars_of(command);
            return self.check_git(s.as_slice());
        }
        if self.matches_safe(command) {
            None
        } else {
            self.matches_destructive(command)
        }
    }

    /// What the pack tells of a rule: what to know of it, and safer commands. A
    /// rule without a pattern has its own text.
    pub fn rule_guidance(&self, name: &str) -> (r: (Option<&'static str>, Vec<PatternSuggestion>))
        ensures
            (r.0, r.1@) == guidance(self.id@, self.rules(), name@),
    {
        let i = self.find_named(name);
        if i < self.destructive_patterns.len() {
            let p = &self.destructive_patterns[i];
            assert(self.rules()[i as int] == p@);
            return (p.explanation, copy_suggestions(&p.suggestions));
        }
        let id = chars_of(self.id.as_str());
        if is_str(id.as_slice(), "core.filesystem") {
            if let Some((explanation, suggestions)) = classifier_rule_guidance(name) {
                return (Some(explanation), suggestions);
            }
        }
        let none: Vec<PatternSuggestion> = Vec::new();
        assert(none@ =~= Seq::<PatternSuggestion>::empty());
        (None, none)
    }
}

/// A command that holds no keyword of a pack is not found by it.
pub proof fn no_keyword_no_finding(
    pack_id: Seq<char>,
    keywords: Seq<&'static str>,
    rules: Seq<RuleView>,
    safe: Seq<SafeView>,
    s: Seq<char>,
)
    requires
        !holds_keyword(keywords, s),
    ensures
        pack_finding(pack_id, keywords, rules, safe, s) is None,
{
}

/// The Git pack looks at the segments of a command that holds a keyword.
proof fn git_pack_looks_at_segments(
    keywords: Seq<&'static str>,
    rules: Seq<RuleView>,
    safe: Seq<SafeView>,
    s: Seq<char>,
)
    requires
        holds_keyword(keywords, s),
    ensures
        pack_finding("core.git"@, keywords, rules, safe, s) == git_findings_from(
            rules,
            safe,
            s,
            segments(s, ShellDialect::Unknown),
            0,
        ),
{
    reveal_strlit("core.git");
    reveal_strlit("core.filesystem");
    assert("core.git"@.len() != "core.filesystem"@.len());
}

/// What is found in a later segment of a Git command is found.
proof fn git_segment_is_looked_at(
    rules: Seq<RuleView>,
    safe: Seq<SafeView>,
    s: Seq<char>,
    segs: Seq<Segment>,
    i: int,
    k: int,
)
    requires
        0 <= i <= k < segs.len(),
        git_finding(rules, safe, segs[k].of(s)) is Some,
    ensures
        git_findings_from(rules, safe, s, segs, i) is Some,
    decreases k - i,
{
    if i < k {
        git_segment_is_looked_at(rules, safe, s, segs, i + 1, k);
    }
}

/// What is found in the whole of a Git command is found.
proof fn whole_git_command_is_looked_at(
    rules: Seq<RuleView>,
    safe: Seq<SafeView>,
    s: Seq<char>,
    segs: Seq<Segment>,
    i: int,
)
    requires
        0 <= i <= segs.len(),
        git_finding(rules, safe, s) is Some,
    ensures
        git_findings_from(rules, safe, s, segs, i) is Some,
    decreases segs.len() - i,
{
    if i < segs.len() {
        whole_git_command_is_looked_at(rules, safe, s, segs, i + 1);
    }
}

/// What the Git pack finds in a command or in one of its segments, it finds in the
/// command: neither what stands beside a segment nor a safe pattern on another
/// part hides it.
pub proof fn git_findings_are_kept(
    keywords: Seq<&'static str>,
    rules: Seq<RuleView>,
    safe: Seq<SafeView>,
    s: Seq<char>,
    k: int,
)
    requires
        holds_keyword(keywords, s),
        git_finding(rules, safe, s) is Some || (0 <= k < segments(s, ShellDialect::Unknown).len()
            && git_finding(rules, safe, segments(s, ShellDialect::Unknown)[k].of(s)) is Some),
    ensures
        pack_finding("core.git"@, keywords, rules, safe, s) is Some,
{
    let segs = segments(s, ShellDialect::Unknown);
    git_pack_looks_at_segments(keywords, rules, safe, s);
    if git_finding(rules, safe, s) is Some {
        whole_git_command_is_looked_at(rules, safe, s, segs, 0);
    } else {
        git_segment_is_looked_at(rules, safe, s, segs, 0, k);
    }
}

/// What is found in a later segment of a command on files is found.
proof fn file_segment_is_looked_at(
    rules: Seq<RuleView>,
    safe: Seq<SafeView>,
    s: Seq<char>,
    segs: Seq<Segment>,
    i: int,
    k: int,
)
    requires
        0 <= i <= k < segs.len(),
        file_finding(rules, safe, segs[k].of(s)) is Some,
    ensures
        file_findings_from(rules, safe, s, segs, i) is Some,
    decreases k - i,
{
    if i < k {
        file_segment_is_looked_at(rules, safe, s, segs, i + 1, k);
    }
}

/// The filesystem pack looks at a command that holds a keyword.
proof fn filesystem_pack_looks_at_files(
    keywords: Seq<&'static str>,
    rules: Seq<RuleView>,
    safe: Seq<SafeView>,
    s: Seq<char>,
)
    requires
        holds_keyword(keywords, s),
    ensures
        pack_finding("core.filesystem"@, keywords, rules, safe, s) == filesystem_finding(
            "core.filesystem"@,
            rules,
            safe,
            s,
        ),
{
}

/// A denied removal is a finding.
proof fn denied_removal_is_found(rules: Seq<RuleView>, safe: Seq<SafeView>, s: Seq<char>)
    requires
        rm_command_verdict(s, Seq::empty()) is Deny,
    ensures
        filesystem_finding("core.filesystem"@, rules, safe, s) is Some,
{
    let before = rule_from(rules, 0, s, RuleFilter::BeforeRemoval);
    first_matching_rule_decides(rules, 0, s, RuleFilter::BeforeRemoval);
    if before < rules.len() {
        assert(finding(rules, before) is Some);
    }
}

/// What the patterns find in a command without a denied removal is a finding.
proof fn files_are_looked_at(rules: Seq<RuleView>, safe: Seq<SafeView>, s: Seq<char>)
    requires
        !(rm_command_verdict(s, Seq::empty()) is Deny),
        file_findings_from(rules, safe, s, segments(s, ShellDialect::Unknown), 0) is Some,
    ensures
        filesystem_finding("core.filesystem"@, rules, safe, s) is Some,
{
    let before = rule_from(rules, 0, s, RuleFilter::BeforeRemoval);
    first_matching_rule_decides(rules, 0, s, RuleFilter::BeforeRemoval);
    if before < rules.len() {
        assert(finding(rules, before) is Some);
    }
}

/// What the filesystem pack finds in one of the segments of a command, it finds in
/// the command, and so it does a denied removal.
pub proof fn file_findings_are_kept(
    keywords: Seq<&'static str>,
    rules: Seq<RuleView>,
    safe: Seq<SafeView>,
    s: Seq<char>,
    k: int,
)
    requires
        holds_keyword(keywords, s),
        rm_command_verdict(s, Seq::empty()) is Deny || (0 <= k < segments(
            s,
            ShellDialect::Unknown,
        ).len() && file_finding(rules, safe, segments(s, ShellDialect::Unknown)[k].of(s)) is Some),
    ensures
        pack_finding("core.filesystem"@, keywords, rules, safe, s) is Some,
{
    filesystem_pack_looks_at_files(keywords, rules, safe, s);
    if rm_command_verdict(s, Seq::empty()) is Deny {
        denied_removal_is_found(rules, safe, s);
    } else {
        file_segment_is_looked_at(rules, safe, s, segments(s, ShellDialect::Unknown), 0, k);
        files_are_looked_at(rules, safe, s);
    }
}

/// What is found in a Git command is found by a rule of the pack.
proof fn git_finding_is_by_a_rule(
    rules: Seq<RuleView>,
    safe: Seq<SafeView>,
    s: Seq<char>,
    segs: Seq<Segment>,
    i: int,
)
    ensures
        match git_findings_from(rules, safe, s, segs, i) {
            Some(found) => is_by_a_rule(rules, found),
            None => true,
        },
    decreases segs.len() - i,
{
    if 0 <= i < segs.len() {
        git_finding_is_by_a_rule(rules, safe, s, segs, i + 1);
    }
}

/// What is found in a command on files by its patterns is found by a rule of the
/// pack.
proof fn file_finding_is_by_a_rule(
    rules: Seq<RuleView>,
    safe: Seq<SafeView>,
    s: Seq<char>,
    segs: Seq<Segment>,
    i: int,
)
    ensures
        match file_findings_from(rules, safe, s, segs, i) {
            Some(found) => is_by_a_rule(rules, found),
            None => true,
        },
    decreases segs.len() - i,
{
    if 0 <= i < segs.len() {
        file_finding_is_by_a_rule(rules, safe, s, segs, i + 1);
    }
}

/// Whether a finding is that of a rule.
pub open spec fn is_by_a_rule(rules: Seq<RuleView>, found: DestructiveMatch) -> bool {
    exists|i: int| #[trigger] finding(rules, i) == Some(found)
}

/// Everything that a pack finds is found by a rule of it, or is a removal that is
/// denied for its arguments.
pub proof fn findings_are_by_rules(
    pack_id: Seq<char>,
    keywords: Seq<&'static str>,
    rules: Seq<RuleView>,
    safe: Seq<SafeView>,
    s: Seq<char>,
)
    ensures
        match pack_finding(pack_id, keywords, rules, safe, s) {
            Some(found) => is_by_a_rule(rules, found) || (match rm_command_verdict(
                s,
                Seq::empty(),
            ) {
                RmParseDecision::Deny(hit) => pack_id == "core.filesystem"@ && found.name == Some(
                    hit.pattern_name,
                ) && found.reason == hit.reason && found.severity == hit.severity,
                _ => false,
            }),
            None => true,
        },
{
    let segs = segments(s, ShellDialect::Unknown);
    git_finding_is_by_a_rule(rules, safe, s, segs, 0);
    file_finding_is_by_a_rule(rules, safe, s, segs, 0);
}

/// Where a name is the name of a rule, the first rule of that name is found.
pub proof fn named_rule_is_found(rules: Seq<RuleView>, i: int, k: int, name: Seq<char>)
    requires
        0 <= i <= k < rules.len(),
        rules[k].name is Some,
        (rules[k].name->0)@ == name,
    ensures
        i <= named_from(rules, i, name) <= k,
        rules[named_from(rules, i, name)].name is Some,
        (rules[named_from(rules, i, name)].name->0)@ == name,
    decreases k - i,
{
    if !(rules[i].name is Some && (rules[i].name->0)@ == name) {
        named_rule_is_found(rules, i + 1, k, name);
    }
}

/// The rule that decides is the first that is looked at and matches: it does, and
/// none before it does.
pub proof fn first_matching_rule_decides(rules: Seq<RuleView>, i: int, s: Seq<char>, filter: RuleFilter)
    requires
        0 <= i <= rules.len(),
    ensures
        i <= rule_from(rules, i, s, filter) <= rules.len(),
        rule_from(rules, i, s, filter) < rules.len() ==> passes(
            filter,
            rules[rule_from(rules, i, s, filter)].name,
        ) && matches_text(rules[rule_from(rules, i, s, filter)].pattern, s),
        forall|k: int|
            i <= k < rule_from(rules, i, s, filter) ==> !(passes(filter, (#[trigger] rules[k]).name)
                && matches_text(rules[k].pattern, s)),
    decreases rules.len() - i,
{
    if i < rules.len() && !(passes(filter, rules[i].name) && matches_text(rules[i].pattern, s)) {
        first_matching_rule_decides(rules, i + 1, s, filter);
    }
}

} // verus!
