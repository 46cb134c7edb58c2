//! The options of `rm`.

use vstd::prelude::*;
use vstd::slice::slice_subrange;
use crate::filesystem::paths::RmFlagStyle;
use crate::text::{
    chars_of, from_index, has_char, index_from, is_str, next_index, rest, starts, starts_str,
};

verus! {

/// Where something stands in a command: `start..end`. While a command is read it
/// counts characters. In what `parse_rm_command`, `parse_rm_command_segment` and
/// `parse_rm_command_segment_in_dialect` return, and their forms with exemptions,
/// it counts bytes.
#[derive(Debug, Clone, Copy, PartialEq, Eq, Structural)]
pub struct Span {
    pub start: usize,
    pub end: usize,
}

/// When `rm` asks before it removes.
#[derive(Debug, Clone, Copy, PartialEq, Eq, Structural)]
pub enum RmInteractiveMode {
    Default,
    Never,
    Once,
    Always,
}

impl RmInteractiveMode {
    /// Whether `rm` asks.
    pub open spec fn asks(self) -> bool {
        self == RmInteractiveMode::Once || self == RmInteractiveMode::Always
    }

    /// Whether `rm` asks.
    pub fn prompts(self) -> (r: bool)
        ensures
            r == self.asks(),
    {
        matches!(self, RmInteractiveMode::Once | RmInteractiveMode::Always)
    }
}

/// The flags of a recursive removal.
#[derive(Debug, Clone, Copy)]
pub struct RmFlagState {
    /// How force is written together with recursion; nothing without force.
    pub force_style: Option<RmFlagStyle>,
    pub recursive_span: Option<Span>,
    pub span: Option<Span>,
    pub saw_terminator: bool,
    pub interactive_mode: RmInteractiveMode,
}

/// The options that were read so far, and where each first stood.
#[derive(Debug, Clone, Copy)]
pub struct RmFlagTracker {
    pub combined_span: Option<Span>,
    pub short_recursive_span: Option<Span>,
    pub short_force_span: Option<Span>,
    pub long_recursive_span: Option<Span>,
    pub long_force_span: Option<Span>,
    pub saw_terminator: bool,
    pub interactive_mode: RmInteractiveMode,
}

/// No options.
pub open spec fn no_flags() -> RmFlagTracker {
    RmFlagTracker {
        combined_span: None,
        short_recursive_span: None,
        short_force_span: None,
        long_recursive_span: None,
        long_force_span: None,
        saw_terminator: false,
        interactive_mode: RmInteractiveMode::Default,
    }
}

/// The first of two spans that is there.
pub open spec fn span_or(a: Option<Span>, b: Option<Span>) -> Option<Span> {
    if a is Some {
        a
    } else {
        b
    }
}

/// The first of two spans that is there.
pub fn first_span(a: Option<Span>, b: Option<Span>) -> (r: Option<Span>)
    ensures
        r == span_or(a, b),
{
    if a.is_some() {
        a
    } else {
        b
    }
}

impl RmFlagTracker {
    /// Whether recursion was asked for.
    pub open spec fn recursive(self) -> bool {
        self.short_recursive_span is Some || self.long_recursive_span is Some
    }

    /// Whether force was asked for.
    pub open spec fn forced(self) -> bool {
        self.short_force_span is Some || self.long_force_span is Some
    }

    /// How force is written together with recursion.
    pub open spec fn style(self) -> Option<RmFlagStyle> {
        if !self.forced() {
            None
        } else if self.combined_span is Some {
            Some(RmFlagStyle::Combined)
        } else if self.long_recursive_span is Some && self.long_force_span is Some {
            Some(RmFlagStyle::Long)
        } else {
            Some(RmFlagStyle::Separate)
        }
    }

    /// The flags of a recursive removal; nothing where recursion was not asked
    /// for.
    pub open spec fn resolved(self) -> Option<RmFlagState> {
        if !self.recursive() {
            None
        } else {
            let recursive_span = span_or(self.short_recursive_span, self.long_recursive_span);
            Some(
                RmFlagState {
                    force_style: self.style(),
                    recursive_span,
                    span: span_or(self.combined_span, recursive_span),
                    saw_terminator: self.saw_terminator,
                    interactive_mode: self.interactive_mode,
                },
            )
        }
    }

    /// No options.
    pub fn none() -> (r: Self)
        ensures
            r == no_flags(),
    {
        RmFlagTracker {
            combined_span: None,
            short_recursive_span: None,
            short_force_span: None,
            long_recursive_span: None,
            long_force_span: None,
            saw_terminator: false,
            interactive_mode: RmInteractiveMode::Default,
        }
    }

    /// The flags of a recursive removal. Short and long forms mixed count as
    /// separate.
    pub fn resolve(self) -> (r: Option<RmFlagState>)
        ensures
            r == self.resolved(),
    {
        let recursive_span = first_span(self.short_recursive_span, self.long_recursive_span);
        if recursive_span.is_none() {
            return None;
        }
        let forced = self.short_force_span.is_some() || self.long_force_span.is_some();
        let force_style = if !forced {
            None
        } else if self.combined_span.is_some() {
            Some(RmFlagStyle::Combined)
        } else if self.long_recursive_span.is_some() && self.long_force_span.is_some() {
            Some(RmFlagStyle::Long)
        } else {
            Some(RmFlagStyle::Separate)
        };
        Some(
            RmFlagState {
                force_style,
                recursive_span,
                span: first_span(self.combined_span, recursive_span),
                saw_terminator: self.saw_terminator,
                interactive_mode: self.interactive_mode,
            },
        )
    }
}

/// The long options of `rm`.
#[derive(Debug, Clone, Copy, PartialEq, Eq, Structural)]
pub enum RmLongOption {
    Dir,
    Force,
    Help,
    Interactive,
    NoPreserveRoot,
    OneFileSystem,
    PreserveRoot,
    PresumeInputTty,
    Recursive,
    Verbose,
    Version,
}

/// The number of long options.
pub const RM_LONG_OPTIONS: usize = 11;

/// The long option of a number.
pub open spec fn long_option(i: int) -> RmLongOption {
    if i == 0 {
        RmLongOption::Dir
    } else if i == 1 {
        RmLongOption::Force
    } else if i == 2 {
        RmLongOption::Help
    } else if i == 3 {
        RmLongOption::Interactive
    } else if i == 4 {
        RmLongOption::NoPreserveRoot
    } else if i == 5 {
        RmLongOption::OneFileSystem
    } else if i == 6 {
        RmLongOption::PreserveRoot
    } else if i == 7 {
        RmLongOption::PresumeInputTty
    } else if i == 8 {
        RmLongOption::Recursive
    } else if i == 9 {
        RmLongOption::Verbose
    } else {
        RmLongOption::Version
    }
}

/// The name of a long option.
pub open spec fn long_name(option: RmLongOption) -> Seq<char> {
    match option {
        RmLongOption::Dir => "dir"@,
        RmLongOption::Force => "force"@,
        RmLongOption::Help => "help"@,
        RmLongOption::Interactive => "interactive"@,
        RmLongOption::NoPreserveRoot => "no-preserve-root"@,
        RmLongOption::OneFileSystem => "one-file-system"@,
        RmLongOption::PreserveRoot => "preserve-root"@,
        RmLongOption::PresumeInputTty => "presume-input-tty"@,
        RmLongOption::Recursive => "recursive"@,
        RmLongOption::Verbose => "verbose"@,
        RmLongOption::Version => "version"@,
    }
}

/// Whether `name` is the long option's name.
pub open spec fn names_option(name: Seq<char>, i: int) -> bool {
    0 <= i < RM_LONG_OPTIONS && long_name(long_option(i)) == name
}

/// Whether `name` begins the long option's name.
pub open spec fn begins_option(name: Seq<char>, i: int) -> bool {
    0 <= i < RM_LONG_OPTIONS && starts(long_name(long_option(i)), name)
}

/// Whether `option` is what `name` stands for: the option of that name, or the
/// only one whose name it begins.
pub open spec fn stands_for(name: Seq<char>, option: RmLongOption) -> bool {
    ||| name == long_name(option)
    ||| {
        &&& starts(long_name(option), name)
        &&& forall|i: int| !(#[trigger] names_option(name, i))
        &&& forall|i: int| #[trigger] begins_option(name, i) ==> long_option(i) == option
    }
}

/// The long option of a number.
fn nth_option(i: usize) -> (r: RmLongOption)
    ensures
        r == long_option(i as int),
{
    match i {
        0 => RmLongOption::Dir,
        1 => RmLongOption::Force,
        2 => RmLongOption::Help,
        3 => RmLongOption::Interactive,
        4 => RmLongOption::NoPreserveRoot,
        5 => RmLongOption::OneFileSystem,
        6 => RmLongOption::PreserveRoot,
        7 => RmLongOption::PresumeInputTty,
        8 => RmLongOption::Recursive,
        9 => RmLongOption::Verbose,
        _ => RmLongOption::Version,
    }
}

/// The name of a long option.
fn option_name(option: RmLongOption) -> (r: &'static str)
    ensures
        r@ == long_name(option),
{
    match option {
        RmLongOption::Dir => "dir",
        RmLongOption::Force => "force",
        RmLongOption::Help => "help",
        RmLongOption::Interactive => "interactive",
        RmLongOption::NoPreserveRoot => "no-preserve-root",
        RmLongOption::OneFileSystem => "one-file-system",
        RmLongOption::PreserveRoot => "preserve-root",
        RmLongOption::PresumeInputTty => "presume-input-tty",
        RmLongOption::Recursive => "recursive",
        RmLongOption::Verbose => "verbose",
        RmLongOption::Version => "version",
    }
}

/// Every long option has a number.
proof fn option_has_number(option: RmLongOption) -> (i: int)
    ensures
        0 <= i < RM_LONG_OPTIONS,
        long_option(i) == option,
{
    match option {
        RmLongOption::Dir => 0,
        RmLongOption::Force => 1,
        RmLongOption::Help => 2,
        RmLongOption::Interactive => 3,
        RmLongOption::NoPreserveRoot => 4,
        RmLongOption::OneFileSystem => 5,
        RmLongOption::PreserveRoot => 6,
        RmLongOption::PresumeInputTty => 7,
        RmLongOption::Recursive => 8,
        RmLongOption::Verbose => 9,
        RmLongOption::Version => 10,
    }
}

/// A name stands for one long option at most.
pub proof fn name_stands_for_one_option(name: Seq<char>, a: RmLongOption, b: RmLongOption)
    requires
        stands_for(name, a),
        stands_for(name, b),
    ensures
        a == b,
{
    reveal_strlit("dir");
    reveal_strlit("force");
    reveal_strlit("help");
    reveal_strlit("interactive");
    reveal_strlit("no-preserve-root");
    reveal_strlit("one-file-system");
    reveal_strlit("preserve-root");
    reveal_strlit("presume-input-tty");
    reveal_strlit("recursive");
    reveal_strlit("verbose");
    reveal_strlit("version");
    let i = option_has_number(a);
    let j = option_has_number(b);
    if name == long_name(a) {
        assert(names_option(name, i));
        if name == long_name(b) {
            assert(long_name(a).len() == long_name(b).len());
            assert(long_name(a)[3] == long_name(b)[3]);
        } else {
            assert(!names_option(name, i));
        }
    } else if name == long_name(b) {
        assert(names_option(name, j));
        assert(!names_option(name, j));
    } else {
        assert(begins_option(name, i));
        assert(begins_option(name, j));
    }
}

/// The long option that `name` stands for: the option of that name, or the only
/// one whose name it begins.
pub fn resolve_rm_long_option(name: &[char]) -> (r: Option<RmLongOption>)
    ensures
        match r {
            Some(option) => stands_for(name@, option),
            None => forall|option: RmLongOption| !(#[trigger] stands_for(name@, option)),
        },
{
    let mut i: usize = 0;
    while i < RM_LONG_OPTIONS
        invariant
            0 <= i <= RM_LONG_OPTIONS,
            forall|j: int| 0 <= j < i ==> !(#[trigger] names_option(name@, j)),
        decreases RM_LONG_OPTIONS - i,
    {
        let option = nth_option(i);
        if is_str(name, option_name(option)) {
            return Some(option);
        }
        i += 1;
    }
    let mut found: Option<RmLongOption> = None;
    let ghost mut at: int = 0;
    let mut k: usize = 0;
    while k < RM_LONG_OPTIONS
        invariant
            0 <= k <= RM_LONG_OPTIONS,
            forall|j: int| !(#[trigger] names_option(name@, j)),
            match found {
                Some(option) => begins_option(name@, at) && long_option(at) == option && 0 <= at < k
                    && forall|j: int|
                    0 <= j < k && #[trigger] begins_option(name@, j) ==> j == at,
                None => forall|j: int| 0 <= j < k ==> !(#[trigger] begins_option(name@, j)),
            },
        decreases RM_LONG_OPTIONS - k,
    {
        let option = nth_option(k);
        let full = chars_of(option_name(option));
        if crate::text::at_text(full.as_slice(), 0, name) {
            assert(begins_option(name@, k as int));
            if found.is_some() {
                proof {
                    assert forall|other: RmLongOption| !(#[trigger] stands_for(name@, other)) by {
                        let n = option_has_number(other);
                        assert(!names_option(name@, n));
                        assert(begins_option(name@, at));
                        assert(long_option(at) != long_option(k as int));
                    }
                }
                return None;
            }
            found = Some(option);
            proof {
                at = k as int;
            }
        }
        k += 1;
    }
    proof {
        match found {
            Some(option) => {
                assert forall|j: int| #[trigger]
                    begins_option(name@, j) implies long_option(j) == option by {}
                assert(stands_for(name@, option));
            },
            None => {
                assert forall|other: RmLongOption| !(#[trigger] stands_for(name@, other)) by {
                    let n = option_has_number(other);
                    assert(!names_option(name@, n));
                    assert(!begins_option(name@, n));
                }
            },
        }
    }
    found
}

/// The values of `--interactive`, and the mode each sets.
pub open spec fn mode_value(i: int) -> Seq<char> {
    if i == 0 {
        "never"@
    } else if i == 1 {
        "no"@
    } else if i == 2 {
        "none"@
    } else if i == 3 {
        "once"@
    } else if i == 4 {
        "always"@
    } else {
        "yes"@
    }
}

/// The mode that the value of a number sets.
pub open spec fn mode_of(i: int) -> RmInteractiveMode {
    if i <= 2 {
        RmInteractiveMode::Never
    } else if i == 3 {
        RmInteractiveMode::Once
    } else {
        RmInteractiveMode::Always
    }
}

/// The mode that the values from the `i`th on which begin with `value` agree on,
/// where those before agree on `found`.
pub open spec fn mode_from(value: Seq<char>, i: int, found: Option<RmInteractiveMode>) -> Option<
    RmInteractiveMode,
>
    decreases 6 - i,
{
    if i < 0 || i >= 6 {
        found
    } else if starts(mode_value(i), value) {
        if found is Some && found->0 != mode_of(i) {
            None
        } else {
            mode_from(value, i + 1, Some(mode_of(i)))
        }
    } else {
        mode_from(value, i + 1, found)
    }
}

/// The mode that a value of `--interactive`, or the beginning of one, sets.
pub open spec fn interactive_mode(value: Seq<char>) -> Option<RmInteractiveMode> {
    if value.len() == 0 {
        None
    } else {
        mode_from(value, 0, None)
    }
}

/// The mode that a value of `--interactive` sets. The beginning of a value is
/// taken where all values that it begins set the same mode.
pub fn parse_rm_interactive_mode(value: &[char]) -> (r: Option<RmInteractiveMode>)
    ensures
        r == interactive_mode(value@),
{
    if value.len() == 0 {
        return None;
    }
    let mut found: Option<RmInteractiveMode> = None;
    let mut i: usize = 0;
    while i < 6
        invariant
            0 <= i <= 6,
            value@.len() > 0,
            interactive_mode(value@) == mode_from(value@, i as int, found),
        decreases 6 - i,
    {
        let full = chars_of(
            match i {
                0 => "never",
                1 => "no",
                2 => "none",
                3 => "once",
                4 => "always",
                _ => "yes",
            },
        );
        let mode = if i <= 2 {
            RmInteractiveMode::Never
        } else if i == 3 {
            RmInteractiveMode::Once
        } else {
            RmInteractiveMode::Always
        };
        if crate::text::at_text(full.as_slice(), 0, value) {
            if let Some(m) = found {
                if m != mode {
                    return None;
                }
            }
            found = Some(mode);
        }
        i += 1;
    }
    found
}

/// What comes of an option word.
#[derive(Debug, Clone, Copy)]
pub enum RmOptionDecision {
    /// The options read so far.
    Continue(RmFlagTracker),
    /// The option ends the command without a removal.
    Terminal,
    /// The option is not known, or not unambiguous; `rm` fails.
    Invalid,
}

/// A short option that neither recurses, forces nor asks.
pub open spec fn is_neutral(c: char) -> bool {
    c == 'd' || c == 'E' || c == 'P' || c == 'v' || c == 'W' || c == 'x'
}

/// The options behind a cluster of short options, from its `i`th character on.
pub open spec fn short_from(s: Seq<char>, i: int, span: Span, f: RmFlagTracker) -> Option<
    RmFlagTracker,
>
    decreases s.len() - i,
{
    if i < 0 || i >= s.len() {
        Some(f)
    } else if s[i] == 'r' || s[i] == 'R' {
        short_from(
            s,
            i + 1,
            span,
            RmFlagTracker {
                short_recursive_span: span_or(f.short_recursive_span, Some(span)),
                ..f
            },
        )
    } else if s[i] == 'f' {
        short_from(
            s,
            i + 1,
            span,
            RmFlagTracker {
                short_force_span: span_or(f.short_force_span, Some(span)),
                interactive_mode: RmInteractiveMode::Never,
                ..f
            },
        )
    } else if s[i] == 'i' {
        short_from(
            s,
            i + 1,
            span,
            RmFlagTracker { interactive_mode: RmInteractiveMode::Always, ..f },
        )
    } else if s[i] == 'I' {
        short_from(
            s,
            i + 1,
            span,
            RmFlagTracker { interactive_mode: RmInteractiveMode::Once, ..f },
        )
    } else if is_neutral(s[i]) {
        short_from(s, i + 1, span, f)
    } else {
        None
    }
}

/// What comes of a cluster of short options.
pub open spec fn with_short(s: Seq<char>, span: Span, f: RmFlagTracker) -> RmOptionDecision {
    if s.len() == 0 {
        RmOptionDecision::Invalid
    } else {
        match short_from(s, 0, span, f) {
            None => RmOptionDecision::Invalid,
            Some(g) => RmOptionDecision::Continue(
                if (s.contains('r') || s.contains('R')) && s.contains('f') {
                    RmFlagTracker { combined_span: span_or(g.combined_span, Some(span)), ..g }
                } else {
                    g
                },
            ),
        }
    }
}

/// The name and the value of a long option.
pub open spec fn name_and_value(s: Seq<char>) -> (Seq<char>, Option<Seq<char>>) {
    let e = next_index(s, 0, '=');
    if e < s.len() {
        (s.subrange(0, e), Some(rest(s, e + 1)))
    } else {
        (s, None)
    }
}

/// What comes of a long option that is known.
pub open spec fn with_known(
    option: RmLongOption,
    value: Option<Seq<char>>,
    span: Span,
    f: RmFlagTracker,
) -> RmOptionDecision {
    match option {
        RmLongOption::Interactive => {
            let mode = match value {
                Some(v) => interactive_mode(v),
                None => Some(RmInteractiveMode::Always),
            };
            match mode {
                Some(m) => RmOptionDecision::Continue(RmFlagTracker { interactive_mode: m, ..f }),
                None => RmOptionDecision::Invalid,
            }
        },
        RmLongOption::PreserveRoot => if value is Some && ((value->0).len() == 0 || !starts(
            "all"@,
            value->0,
        )) {
            RmOptionDecision::Invalid
        } else {
            RmOptionDecision::Continue(f)
        },
        _ => if value is Some {
            RmOptionDecision::Invalid
        } else {
            match option {
                RmLongOption::Recursive => RmOptionDecision::Continue(
                    RmFlagTracker {
                        long_recursive_span: span_or(f.long_recursive_span, Some(span)),
                        ..f
                    },
                ),
                RmLongOption::Force => RmOptionDecision::Continue(
                    RmFlagTracker {
                        long_force_span: span_or(f.long_force_span, Some(span)),
                        interactive_mode: RmInteractiveMode::Never,
                        ..f
                    },
                ),
                RmLongOption::Help | RmLongOption::Version => RmOptionDecision::Terminal,
                _ => RmOptionDecision::Continue(f),
            }
        },
    }
}

/// What comes of a long option without its dashes.
pub open spec fn with_long(s: Seq<char>, span: Span, f: RmFlagTracker) -> RmOptionDecision {
    let (name, value) = name_and_value(s);
    if exists|option: RmLongOption| #[trigger] stands_for(name, option) {
        with_known(choose|option: RmLongOption| #[trigger] stands_for(name, option), value, span, f)
    } else {
        RmOptionDecision::Invalid
    }
}

/// What comes of an option word.
pub open spec fn with_option(s: Seq<char>, span: Span, f: RmFlagTracker) -> RmOptionDecision {
    if starts(s, "--"@) {
        with_long(rest(s, 2), span, f)
    } else {
        with_short(rest(s, 1), span, f)
    }
}

/// What comes of a cluster of short options.
fn apply_rm_short_options(s: &[char], span: Span, f: RmFlagTracker) -> (r: RmOptionDecision)
    ensures
        r == with_short(s@, span, f),
{
    if s.len() == 0 {
        return RmOptionDecision::Invalid;
    }
    let mut g = f;
    let mut i: usize = 0;
    while i < s.len()
        invariant
            0 <= i <= s.len(),
            s@.len() > 0,
            short_from(s@, 0, span, f) == short_from(s@, i as int, span, g),
        decreases s.len() - i,
    {
        let c = s[i];
        if c == 'r' || c == 'R' {
            g.short_recursive_span = first_span(g.short_recursive_span, Some(span));
        } else if c == 'f' {
            g.short_force_span = first_span(g.short_force_span, Some(span));
            g.interactive_mode = RmInteractiveMode::Never;
        } else if c == 'i' {
            g.interactive_mode = RmInteractiveMode::Always;
        } else if c == 'I' {
            g.interactive_mode = RmInteractiveMode::Once;
        } else if !(c == 'd' || c == 'E' || c == 'P' || c == 'v' || c == 'W' || c == 'x') {
            return RmOptionDecision::Invalid;
        }
        i += 1;
    }
    if (has_char(s, 'r') || has_char(s, 'R')) && has_char(s, 'f') {
        g.combined_span = first_span(g.combined_span, Some(span));
    }
    RmOptionDecision::Continue(g)
}

/// What comes of a long option without its dashes.
pub fn apply_rm_long_option(s: &[char], span: Span, f: RmFlagTracker) -> (r: RmOptionDecision)
    ensures
        r == with_long(s@, span, f),
{
    let e = index_from(s, 0, '=');
    let has_value = e < s.len();
    let name = if has_value {
        slice_subrange(s, 0, e)
    } else {
        s
    };
    let ghost value = name_and_value(s@).1;
    let option = match resolve_rm_long_option(name) {
        None => {
            return RmOptionDecision::Invalid;
        },
        Some(o) => o,
    };
    proof {
        assert(stands_for(name@, option));
        name_stands_for_one_option(
            name@,
            option,
            choose|o: RmLongOption| #[trigger] stands_for(name@, o),
        );
    }
    let mut g = f;
    match option {
        RmLongOption::Interactive => {
            let mode = if has_value {
                parse_rm_interactive_mode(from_index(s, e + 1))
            } else {
                Some(RmInteractiveMode::Always)
            };
            match mode {
                Some(m) => {
                    g.interactive_mode = m;
                },
                None => {
                    return RmOptionDecision::Invalid;
                },
            }
        },
        RmLongOption::PreserveRoot => {
            if has_value {
                let v = from_index(s, e + 1);
                let all = chars_of("all");
                if v.len() == 0 || !crate::text::at_text(all.as_slice(), 0, v) {
                    return RmOptionDecision::Invalid;
                }
            }
        },
        _ => {
            if has_value {
                return RmOptionDecision::Invalid;
            }
            match option {
                RmLongOption::Recursive => {
                    g.long_recursive_span = first_span(g.long_recursive_span, Some(span));
                },
                RmLongOption::Force => {
                    g.long_force_span = first_span(g.long_force_span, Some(span));
                    g.interactive_mode = RmInteractiveMode::Never;
                },
                RmLongOption::Help | RmLongOption::Version => {
                    return RmOptionDecision::Terminal;
                },
                _ => {},
            }
        },
    }
    RmOptionDecision::Continue(g)
}

/// What comes of an option word. An option of its own or in a cluster is read in
/// order, so that the last of force and asking decides.
pub fn apply_rm_option(s: &[char], span: Span, f: RmFlagTracker) -> (r: RmOptionDecision)
    requires
        s.len() > 0,
    ensures
        r == with_option(s@, span, f),
{
    proof {
        reveal_strlit("--");
    }
    if starts_str(s, "--") {
        apply_rm_long_option(from_index(s, 2), span, f)
    } else {
        apply_rm_short_options(from_index(s, 1), span, f)
    }
}

/// A short option of the Apple `rm`.
pub open spec fn is_apple_flag(c: char) -> bool {
    c == 'd' || c == 'f' || c == 'i' || c == 'I' || c == 'P' || c == 'R' || c == 'r' || c == 'v' || c
        == 'W' || c == 'x'
}

/// A cluster of short options of the Apple `rm`.
pub open spec fn apple_option(s: Seq<char>) -> bool {
    &&& s.len() > 1
    &&& s[0] == '-'
    &&& forall|i: int| 1 <= i < s.len() ==> is_apple_flag(#[trigger] s[i])
}

/// Whether a word is a cluster of short options of the Apple `rm`, which has no
/// long options.
pub fn apple_rm_option_token_is_valid(s: &[char]) -> (r: bool)
    ensures
        r == apple_option(s@),
{
    if s.len() <= 1 || s[0] != '-' {
        return false;
    }
    let mut i: usize = 1;
    while i < s.len()
        invariant
            1 <= i <= s.len(),
            forall|j: int| 1 <= j < i ==> is_apple_flag(#[trigger] s@[j]),
        decreases s.len() - i,
    {
        let c = s[i];
        if !(c == 'd' || c == 'f' || c == 'i' || c == 'I' || c == 'P' || c == 'R' || c == 'r' || c
            == 'v' || c == 'W' || c == 'x') {
            assert(!is_apple_flag(s@[i as int]));
            return false;
        }
        i += 1;
    }
    true
}

/// A word whose quotes and escapes are taken away from position `i` on, behind
/// `out`; nothing where a quote does not end. `mode` is 0 outside of quotes, 1
/// in single and 2 in double quotes.
pub open spec fn dequoted_from(s: Seq<char>, i: int, mode: int, out: Seq<char>) -> Option<Seq<char>>
    decreases s.len() - i,
{
    if i < 0 || i >= s.len() {
        if mode == 0 {
            Some(out)
        } else {
            None
        }
    } else if mode == 1 {
        if s[i] == '\'' {
            dequoted_from(s, i + 1, 0, out)
        } else {
            dequoted_from(s, i + 1, 1, out.push(s[i]))
        }
    } else if mode == 2 {
        if s[i] == '"' {
            dequoted_from(s, i + 1, 0, out)
        } else if s[i] == '\\' {
            if i + 1 >= s.len() {
                None
            } else if s[i + 1] == '"' || s[i + 1] == '\\' || s[i + 1] == '$' || s[i + 1] == '`' {
                dequoted_from(s, i + 2, 2, out.push(s[i + 1]))
            } else {
                dequoted_from(s, i + 2, 2, out.push('\\').push(s[i + 1]))
            }
        } else {
            dequoted_from(s, i + 1, 2, out.push(s[i]))
        }
    } else if s[i] == '\'' {
        dequoted_from(s, i + 1, 1, out)
    } else if s[i] == '"' {
        dequoted_from(s, i + 1, 2, out)
    } else if s[i] == '\\' {
        if i + 1 >= s.len() {
            None
        } else {
            dequoted_from(s, i + 2, 0, out.push(s[i + 1]))
        }
    } else {
        dequoted_from(s, i + 1, 0, out.push(s[i]))
    }
}

/// An option word as `rm` gets it. A word with a quote that does not end stays as
/// it is.
pub open spec fn dequoted(s: Seq<char>) -> Seq<char> {
    match dequoted_from(s, 0, 0, Seq::empty()) {
        Some(t) => t,
        None => s,
    }
}

/// Whether a word holds a quote or an escape.
pub open spec fn has_quotes(s: Seq<char>) -> bool {
    s.contains('\'') || s.contains('"') || s.contains('\\')
}

/// Whether a word holds quotes or escapes, and all its quotes end.
pub open spec fn is_rewritten(s: Seq<char>) -> bool {
    has_quotes(s) && dequoted_from(s, 0, 0, Seq::empty()) is Some
}

/// A word without quotes and escapes is what `rm` gets.
proof fn plain_word_stays(s: Seq<char>, i: int)
    requires
        0 <= i <= s.len(),
        !has_quotes(s),
    ensures
        dequoted_from(s, i, 0, s.subrange(0, i)) == Some(s),
    decreases s.len() - i,
{
    if i < s.len() {
        assert(s.contains(s[i]));
        assert(s.subrange(0, i).push(s[i]) =~= s.subrange(0, i + 1));
        plain_word_stays(s, i + 1);
    } else {
        assert(s.subrange(0, i) =~= s);
    }
}

/// The text of an option word as `rm` gets it; nothing where it is the word
/// itself.
pub fn dequote_text(s: &[char]) -> (r: Option<Vec<char>>)
    ensures
        match r {
            Some(t) => dequoted(s@) == t@ && is_rewritten(s@),
            None => dequoted(s@) == s@ && !is_rewritten(s@),
        },
{
    if !(has_char(s, '\'') || has_char(s, '"') || has_char(s, '\\')) {
        proof {
            plain_word_stays(s@, 0);
            assert(s@.subrange(0, 0) =~= Seq::<char>::empty());
        }
        return None;
    }
    let mut out: Vec<char> = Vec::new();
    let mut mode: u8 = 0;
    let mut i: usize = 0;
    while i < s.len()
        invariant
            0 <= i <= s.len(),
            mode <= 2,
            has_quotes(s@),
            dequoted_from(s@, 0, 0, Seq::empty()) == dequoted_from(s@, i as int, mode as int, out@),
        decreases s.len() - i,
    {
        let c = s[i];
        if mode == 1 {
            if c == '\'' {
                mode = 0;
            } else {
                out.push(c);
            }
            i += 1;
        } else if mode == 2 {
            if c == '"' {
                mode = 0;
                i += 1;
            } else if c == '\\' {
                if i + 1 >= s.len() {
                    return None;
                }
                let e = s[i + 1];
                if !(e == '"' || e == '\\' || e == '$' || e == '`') {
                    out.push('\\');
                }
                out.push(e);
                i += 2;
            } else {
                out.push(c);
                i += 1;
            }
        } else if c == '\'' {
            mode = 1;
            i += 1;
        } else if c == '"' {
            mode = 2;
            i += 1;
        } else if c == '\\' {
            if i + 1 >= s.len() {
                return None;
            }
            out.push(s[i + 1]);
            i += 2;
        } else {
            out.push(c);
            i += 1;
        }
    }
    if mode == 0 {
        Some(out)
    } else {
        None
    }
}

/// A word that was kept or rewritten.
#[derive(Debug)]
pub enum Dequoted<'a> {
    Borrowed(&'a str),
    Owned(String),
}

impl<'a> Dequoted<'a> {
    /// The text of the word.
    pub open spec fn text(&self) -> Seq<char> {
        match self {
            Dequoted::Borrowed(s) => s@,
            Dequoted::Owned(s) => s@,
        }
    }

    /// The text of the word.
    pub fn as_str(&self) -> (r: &str)
        ensures
            r@ == self.text(),
    {
        match self {
            Dequoted::Borrowed(s) => s,
            Dequoted::Owned(s) => s.as_str(),
        }
    }
}

/// An option word as `rm` gets it: quotes that stand in it join its parts. A
/// word without quotes, and one with a quote that does not end, is kept.
pub fn dequote_rm_flag_token<'a>(token: &'a str) -> (r: Dequoted<'a>)
    ensures
        r.text() == dequoted(token@),
        r is Owned <==> is_rewritten(token@),
{
    let s = chars_of(token);
    match dequote_text(s.as_slice()) {
        None => Dequoted::Borrowed(token),
        Some(t) => Dequoted::Owned(crate::text::text_of(t.as_slice())),
    }
}

/// A word without quotes and escapes is unchanged by the shell.
pub proof fn unquoted_word_is_unchanged(s: Seq<char>)
    requires
        !has_quotes(s),
    ensures
        dequoted(s) == s,
{
    plain_word_stays(s, 0);
    assert(s.subrange(0, 0) =~= Seq::<char>::empty());
}

/// The last letter of a cluster that is taken decides whether `rm` asks, whatever
/// options were read before.
proof fn last_letter_decides(s: Seq<char>, i: int, c: char, span: Span, f: RmFlagTracker)
    requires
        0 <= i <= s.len(),
        short_from(s.push(c), i, span, f) is Some,
        c == 'f' || c == 'i' || c == 'I',
    ensures
        (short_from(s.push(c), i, span, f)->0).interactive_mode == prompts_of(c),
    decreases s.len() - i,
{
    let t = s.push(c);
    if i == s.len() {
        reveal_with_fuel(short_from, 2);
    } else {
        assert(t[i] == s[i]);
        if s[i] == 'r' || s[i] == 'R' {
            last_letter_decides(
                s,
                i + 1,
                c,
                span,
                RmFlagTracker {
                    short_recursive_span: span_or(f.short_recursive_span, Some(span)),
                    ..f
                },
            );
        } else if s[i] == 'f' {
            last_letter_decides(
                s,
                i + 1,
                c,
                span,
                RmFlagTracker {
                    short_force_span: span_or(f.short_force_span, Some(span)),
                    interactive_mode: RmInteractiveMode::Never,
                    ..f
                },
            );
        } else if s[i] == 'i' {
            last_letter_decides(
                s,
                i + 1,
                c,
                span,
                RmFlagTracker { interactive_mode: RmInteractiveMode::Always, ..f },
            );
        } else if s[i] == 'I' {
            last_letter_decides(
                s,
                i + 1,
                c,
                span,
                RmFlagTracker { interactive_mode: RmInteractiveMode::Once, ..f },
            );
        } else if is_neutral(s[i]) {
            last_letter_decides(s, i + 1, c, span, f);
        }
    }
}

/// The prompts that a short option asks for.
pub open spec fn prompts_of(c: char) -> RmInteractiveMode {
    if c == 'f' {
        RmInteractiveMode::Never
    } else if c == 'i' {
        RmInteractiveMode::Always
    } else {
        RmInteractiveMode::Once
    }
}

/// The last of `-f`, `-i` and `-I` decides whether `rm` asks, whatever options
/// stand before it.
pub proof fn last_prompt_option_wins(s: Seq<char>, c: char, span: Span, f: RmFlagTracker)
    requires
        c == 'f' || c == 'i' || c == 'I',
        starts(s, "-"@),
        !starts(s.push(c), "--"@),
    ensures
        match with_option(s.push(c), span, f) {
            RmOptionDecision::Continue(g) => g.interactive_mode == prompts_of(c),
            RmOptionDecision::Terminal => false,
            RmOptionDecision::Invalid => true,
        },
{
    reveal_strlit("-");
    let letters = rest(s, 1);
    assert(rest(s.push(c), 1) =~= letters.push(c));
    if short_from(letters.push(c), 0, span, f) is Some {
        last_letter_decides(letters, 0, c, span, f);
    }
}

/// Options that were read are not taken back.
pub open spec fn keeps_options(f: RmFlagTracker, g: RmFlagTracker) -> bool {
    &&& f.combined_span is Some ==> g.combined_span == f.combined_span
    &&& f.short_recursive_span is Some ==> g.short_recursive_span == f.short_recursive_span
    &&& f.short_force_span is Some ==> g.short_force_span == f.short_force_span
    &&& f.long_recursive_span is Some ==> g.long_recursive_span == f.long_recursive_span
    &&& f.long_force_span is Some ==> g.long_force_span == f.long_force_span
    &&& f.saw_terminator ==> g.saw_terminator
}

/// The letters of a cluster take no option back.
proof fn letters_keep_options(s: Seq<char>, i: int, span: Span, f: RmFlagTracker)
    requires
        short_from(s, i, span, f) is Some,
    ensures
        keeps_options(f, short_from(s, i, span, f)->0),
    decreases s.len() - i,
{
    if i < 0 || i >= s.len() {
    } else if s[i] == 'r' || s[i] == 'R' {
        letters_keep_options(
            s,
            i + 1,
            span,
            RmFlagTracker {
                short_recursive_span: span_or(f.short_recursive_span, Some(span)),
                ..f
            },
        );
    } else if s[i] == 'f' {
        letters_keep_options(
            s,
            i + 1,
            span,
            RmFlagTracker {
                short_force_span: span_or(f.short_force_span, Some(span)),
                interactive_mode: RmInteractiveMode::Never,
                ..f
            },
        );
    } else if s[i] == 'i' {
        letters_keep_options(
            s,
            i + 1,
            span,
            RmFlagTracker { interactive_mode: RmInteractiveMode::Always, ..f },
        );
    } else if s[i] == 'I' {
        letters_keep_options(
            s,
            i + 1,
            span,
            RmFlagTracker { interactive_mode: RmInteractiveMode::Once, ..f },
        );
    } else if is_neutral(s[i]) {
        letters_keep_options(s, i + 1, span, f);
    }
}

/// An option that was read is never taken back by a later one: what recurses and
/// forces goes on to, and the first word that asked for it stays on record.
pub proof fn options_stay_read(s: Seq<char>, span: Span, f: RmFlagTracker)
    ensures
        match with_option(s, span, f) {
            RmOptionDecision::Continue(g) => keeps_options(f, g),
            _ => true,
        },
{
    if !starts(s, "--"@) && short_from(rest(s, 1), 0, span, f) is Some {
        letters_keep_options(rest(s, 1), 0, span, f);
    }
}

/// A single quote that is never closed is never left.
proof fn open_single_quote_stays_open(s: Seq<char>, i: int, out: Seq<char>)
    requires
        0 <= i <= s.len(),
        forall|k: int| i <= k < s.len() ==> s[k] != '\'',
    ensures
        dequoted_from(s, i, 1, out) is None,
    decreases s.len() - i,
{
    if i < s.len() {
        open_single_quote_stays_open(s, i + 1, out.push(s[i]));
    }
}

/// The characters before a quote are read one by one.
proof fn open_quote_is_reached(s: Seq<char>, i: int, at: int)
    requires
        0 <= i <= at < s.len(),
        s[at] == '\'',
        forall|k: int|
            0 <= k < s.len() && k != at ==> s[k] != '\'' && s[k] != '"' && s[k] != '\\',
    ensures
        dequoted_from(s, i, 0, s.subrange(0, i)) is None,
    decreases at - i,
{
    if i < at {
        assert(s.subrange(0, i).push(s[i]) =~= s.subrange(0, i + 1));
        open_quote_is_reached(s, i + 1, at);
    } else {
        open_single_quote_stays_open(s, at + 1, s.subrange(0, at));
    }
}

/// A word whose quote is left open is kept as it is, and so matches no option: it
/// is never mended into one.
pub proof fn unbalanced_word_is_left_alone(s: Seq<char>, at: int)
    requires
        0 <= at < s.len(),
        s[at] == '\'',
        forall|k: int|
            0 <= k < s.len() && k != at ==> s[k] != '\'' && s[k] != '"' && s[k] != '\\',
    ensures
        dequoted(s) == s,
{
    open_quote_is_reached(s, 0, at);
    assert(s.subrange(0, 0) =~= Seq::<char>::empty());
}

} // verus!
