//! Regular expressions, as the `fancy_regex` crate reads them.

use vstd::prelude::*;
use crate::shell::token::{at, get};
use crate::text::chars_of;

verus! {

/// The compiled expressions of `fancy_regex`.
#[verifier::external_type_specification]
#[verifier::external_body]
pub struct ExRegex(fancy_regex::Regex);

/// The errors of `fancy_regex`.
#[verifier::external_type_specification]
#[verifier::external_body]
pub struct ExRegexError(fancy_regex::Error);

/// The most characters of a pattern that is compiled.
pub const MAX_PATTERN_LEN: usize = 4096;

/// A character of a pattern: ASCII, and neither a control character nor DEL.
pub open spec fn is_printable(c: char) -> bool {
    ' ' <= c && c <= '~'
}

/// Whether a character may stand behind a backslash: a punctuation mark, one of
/// the letters of the usual classes and control characters, outside a class one
/// of the letters of the word boundary, and outside every class and group the
/// number of a group.
pub open spec fn escape_allowed(c: char, in_class: bool, depth: int) -> bool {
    ||| is_printable(c) && !('a' <= c && c <= 'z') && !('A' <= c && c <= 'Z') && !('0' <= c && c
        <= '9')
    ||| c == 's' || c == 'S' || c == 'w' || c == 'W' || c == 'd' || c == 'D'
    ||| c == 't' || c == 'n' || c == 'r'
    ||| !in_class && (c == 'b' || c == 'B')
    ||| !in_class && depth == 0 && '1' <= c && c <= '9'
}

/// How many characters open the group at position `i`: a group that captures or
/// does not, one that looks ahead or behind, or one that ignores case; zero for a
/// group of another kind.
pub open spec fn opening_len(p: Seq<char>, i: int) -> int {
    if at(p, i + 1) != Some('?') {
        1
    } else if at(p, i + 2) == Some(':') || at(p, i + 2) == Some('=') || at(p, i + 2) == Some('!') {
        3
    } else if at(p, i + 2) == Some('<') && (at(p, i + 3) == Some('=') || at(p, i + 3) == Some('!')) {
        4
    } else if at(p, i + 2) == Some('i') && at(p, i + 3) == Some(':') {
        4
    } else {
        0
    }
}

/// Where the members of a class begin that is opened in front of position `i`: a
/// caret, and a bracket that comes first, close nothing.
pub open spec fn class_start(p: Seq<char>, i: int) -> int {
    let j = if at(p, i) == Some('^') {
        i + 1
    } else {
        i
    };
    if at(p, j) == Some(']') {
        j + 1
    } else {
        j
    }
}

/// Whether the rest of a pattern from position `i` is supported, inside `nest`
/// classes and `depth` groups.
pub open spec fn supported_from(p: Seq<char>, i: int, nest: int, depth: int) -> bool
    decreases p.len() - i,
{
    if i < 0 || i >= p.len() {
        nest == 0 && depth == 0
    } else if !is_printable(p[i]) {
        false
    } else if p[i] == '\\' {
        i + 1 < p.len() && escape_allowed(p[i + 1], nest > 0, depth) && supported_from(
            p,
            i + 2,
            nest,
            depth,
        )
    } else if nest > 0 {
        if p[i] == '[' {
            supported_from(p, i + 1, nest + 1, depth)
        } else if p[i] == ']' {
            supported_from(p, i + 1, nest - 1, depth)
        } else {
            supported_from(p, i + 1, nest, depth)
        }
    } else if p[i] == '[' {
        supported_from(p, class_start(p, i + 1), 1, depth)
    } else if p[i] == '(' {
        opening_len(p, i) > 0 && supported_from(p, i + opening_len(p, i), 0, depth + 1)
    } else if p[i] == ')' {
        depth > 0 && supported_from(p, i + 1, 0, depth - 1)
    } else if p[i] == '{' {
        false
    } else if (p[i] == '?' || p[i] == '*' || p[i] == '+') && at(p, i + 1) == Some('+') {
        false
    } else {
        supported_from(p, i + 1, 0, depth)
    }
}

/// Whether a pattern is of the forms that are compiled: printable ASCII of a
/// bounded length, every class and group closed, no counted or possessive
/// repetition, no named, atomic or conditional group, and a group referred to
/// only outside every group. On these `fancy_regex` neither counts past the
/// length of the pattern nor reads a group that is still open.
pub open spec fn supported(p: Seq<char>) -> bool {
    p.len() <= MAX_PATTERN_LEN && supported_from(p, 0, 0, 0)
}

/// Whether a character may stand behind a backslash.
fn allows_escape(c: char, in_class: bool, depth: usize) -> (r: bool)
    ensures
        r == escape_allowed(c, in_class, depth as int),
{
    (' ' <= c && c <= '~' && !('a' <= c && c <= 'z') && !('A' <= c && c <= 'Z') && !('0' <= c && c
        <= '9')) || c == 's' || c == 'S' || c == 'w' || c == 'W' || c == 'd' || c == 'D' || c == 't'
        || c == 'n' || c == 'r' || (!in_class && (c == 'b' || c == 'B')) || (!in_class && depth == 0
        && '1' <= c && c <= '9')
}

/// How many characters open the group at position `i`.
fn group_opening(p: &[char], i: usize) -> (r: usize)
    requires
        i < p.len() <= MAX_PATTERN_LEN,
    ensures
        r == opening_len(p@, i as int),
{
    if get(p, i + 1) != Some('?') {
        1
    } else if get(p, i + 2) == Some(':') || get(p, i + 2) == Some('=') || get(p, i + 2) == Some('!') {
        3
    } else if get(p, i + 2) == Some('<') && (get(p, i + 3) == Some('=') || get(p, i + 3) == Some(
        '!',
    )) {
        4
    } else if get(p, i + 2) == Some('i') && get(p, i + 3) == Some(':') {
        4
    } else {
        0
    }
}

/// Where the members of a class begin.
fn class_members(p: &[char], i: usize) -> (r: usize)
    requires
        i <= p.len() <= MAX_PATTERN_LEN,
    ensures
        r == class_start(p@, i as int),
        r <= p.len(),
{
    let j: usize = if get(p, i) == Some('^') {
        i + 1
    } else {
        i
    };
    if get(p, j) == Some(']') {
        j + 1
    } else {
        j
    }
}

/// Whether a pattern is of the forms that are compiled.
pub fn is_supported(pattern: &str) -> (r: bool)
    ensures
        r == supported(pattern@),
{
    let chars = chars_of(pattern);
    let p = chars.as_slice();
    if p.len() > MAX_PATTERN_LEN {
        return false;
    }
    let mut i: usize = 0;
    let mut nest: usize = 0;
    let mut depth: usize = 0;
    while i < p.len()
        invariant
            p@ == pattern@,
            p.len() <= MAX_PATTERN_LEN,
            0 <= i <= p.len(),
            nest <= i,
            depth <= i,
            supported_from(p@, 0, 0, 0) == supported_from(p@, i as int, nest as int, depth as int),
        decreases p.len() - i,
    {
        let c = p[i];
        if !(' ' <= c && c <= '~') {
            return false;
        }
        if c == '\\' {
            if i + 1 >= p.len() || !allows_escape(p[i + 1], nest > 0, depth) {
                return false;
            }
            i += 2;
        } else if nest > 0 {
            if c == '[' {
                nest += 1;
            } else if c == ']' {
                nest -= 1;
            }
            i += 1;
        } else if c == '[' {
            nest = 1;
            i = class_members(p, i + 1);
        } else if c == '(' {
            let n = group_opening(p, i);
            if n == 0 {
                return false;
            }
            depth += 1;
            i += n;
        } else if c == ')' {
            if depth == 0 {
                return false;
            }
            depth -= 1;
            i += 1;
        } else if c == '{' || ((c == '?' || c == '*' || c == '+') && get(p, i + 1) == Some('+')) {
            return false;
        } else {
            i += 1;
        }
    }
    nest == 0 && depth == 0
}

/// What `fancy_regex::Regex::new` makes of a pattern; nothing where it gives an
/// error.
pub uninterp spec fn compiled(pattern: Seq<char>) -> Option<fancy_regex::Regex>;

/// What `fancy_regex::Regex::is_match` answers for a text; nothing where it gives
/// up with an error.
pub uninterp spec fn answer(regex: fancy_regex::Regex, text: Seq<char>) -> Option<bool>;

/// Whether an expression was compiled from a supported pattern.
pub open spec fn from_supported(regex: fancy_regex::Regex) -> bool {
    exists|p: Seq<char>| supported(p) && #[trigger] compiled(p) == Some(regex)
}

/// `fancy_regex::Regex::new` compiles a pattern with the default options. What
/// comes of it, an expression or an error, depends on the pattern alone. On a
/// supported pattern it returns: it multiplies sizes by the counts of counted
/// repetitions, which such a pattern does not have.
pub assume_specification[ fancy_regex::Regex::new ](re: &str) -> (r: fancy_regex::Result<
    fancy_regex::Regex,
>)
    requires
        supported(re@),
    ensures
        match r {
            Ok(regex) => compiled(re@) == Some(regex),
            Err(_) => compiled(re@) is None,
        },
;

/// `fancy_regex::Regex::is_match` searches a text for a match of the expression,
/// with a bound on its backtracking. What it answers depends on the expression
/// and the text alone. On the expression of a supported pattern it returns: it
/// reads a group by its two ends, and where the reference stands outside every
/// group both are those of one match of the group.
pub assume_specification[ fancy_regex::Regex::is_match ](
    regex: &fancy_regex::Regex,
    text: &str,
) -> (r: fancy_regex::Result<bool>)
    requires
        from_supported(*regex),
    ensures
        match r {
            Ok(found) => answer(*regex, text@) == Some(found),
            Err(_) => answer(*regex, text@) is None,
        },
;

/// Whether a pattern is supported and can be compiled.
pub open spec fn compiles(pattern: Seq<char>) -> bool {
    supported(pattern) && compiled(pattern) is Some
}

/// Whether a pattern matches a text. A pattern that is not supported or cannot be
/// compiled, and one whose search gives up, matches nothing.
pub open spec fn matches_text(pattern: Seq<char>, text: Seq<char>) -> bool {
    compiles(pattern) && answer(compiled(pattern)->0, text) == Some(true)
}

/// A pattern with its compiled expression.
pub struct CompiledRegex {
    pattern: &'static str,
    regex: Option<fancy_regex::Regex>,
}

impl CompiledRegex {
    /// The expression is the compiled pattern, where the pattern is supported.
    #[verifier::type_invariant]
    closed spec fn agrees(&self) -> bool {
        self.regex == if supported(self.pattern@) {
            compiled(self.pattern@)
        } else {
            None
        }
    }

    /// The text of the pattern.
    pub closed spec fn text(&self) -> Seq<char> {
        self.pattern@
    }

    /// A pattern with its compiled expression. One that is not supported is kept
    /// without an expression, as is one that cannot be compiled.
    pub fn new(pattern: &'static str) -> (r: CompiledRegex)
        ensures
            r.text() == pattern@,
    {
        if !is_supported(pattern) {
            return CompiledRegex { pattern, regex: None };
        }
        match fancy_regex::Regex::new(pattern) {
            Ok(regex) => CompiledRegex { pattern, regex: Some(regex) },
            Err(_) => CompiledRegex { pattern, regex: None },
        }
    }

    /// The text of the pattern.
    pub fn as_str(&self) -> (r: &'static str)
        ensures
            r@ == self.text(),
    {
        self.pattern
    }

    /// Whether the pattern is supported and could be compiled.
    pub fn is_compiled(&self) -> (r: bool)
        ensures
            r == compiles(self.text()),
    {
        proof {
            use_type_invariant(self);
        }
        self.regex.is_some()
    }

    /// Whether the pattern matches a text.
    pub fn is_match(&self, text: &str) -> (r: bool)
        ensures
            r == matches_text(self.text(), text@),
    {
        proof {
            use_type_invariant(self);
        }
        match &self.regex {
            Some(regex) => match regex.is_match(text) {
                Ok(found) => found,
                Err(_) => false,
            },
            None => false,
        }
    }
}

} // verus!
