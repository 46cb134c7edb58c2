//! Whether the program of a command is `rm`.

use vstd::prelude::*;
use vstd::slice::slice_subrange;
use crate::filesystem::paths::{strip_outer_quotes, unquoted};
use crate::git::expansion::{bracket_end, skip_brackets};
use crate::shell::parts::{parts_form, parts_may_form};
use crate::shell::token::{advance, at, get, onward, skip_ticks, tick_end, ShellDialect};
use crate::text::{
    alnum, alpha, basename, chars_of, copy_of, has_char, index_from, is_alnum, is_alpha, is_str,
    last_component, next_index, texts,
};

verus! {

/// Whether a program is `rm`.
#[derive(Debug, Clone, Copy, PartialEq, Eq, Structural)]
pub enum RmExecutableCertainty {
    Exact,
    /// The shell computes its name, which may be `rm`.
    MayBeRm,
    Other,
}

/// What stands in a name for text that the shell computes.
pub const RM_DYNAMIC_WILDCARD: char = '\0';

/// Where the name at position `i` ends.
pub open spec fn name_end(s: Seq<char>, i: int) -> int
    decreases s.len() - i,
{
    if i < 0 || i >= s.len() || !(is_alnum(s[i]) || s[i] == '_') {
        i
    } else {
        name_end(s, i + 1)
    }
}

/// The position behind the quote that ends the text at position `i`.
pub open spec fn quote_end(s: Seq<char>, i: int, quote: char) -> int
    decreases s.len() - i,
{
    if i < 0 || i >= s.len() {
        s.len() as int
    } else if s[i] == '\\' {
        quote_end(s, onward(i, i + 2, s.len() as int), quote)
    } else if s[i] == quote {
        i + 1
    } else {
        quote_end(s, i + 1, quote)
    }
}

/// Where the expansion ends whose `$` stands before position `i`.
pub open spec fn dollar_end(s: Seq<char>, i: int) -> int {
    match at(s, i) {
        None => i,
        Some(c) => if c == '{' {
            bracket_end(s, i + 1, '{', '}', 1)
        } else if c == '(' {
            bracket_end(s, i + 1, '(', ')', 1)
        } else if c == '\'' || c == '"' {
            quote_end(s, i + 1, c)
        } else if is_alpha(c) || c == '_' {
            name_end(s, i)
        } else {
            i + 1
        },
    }
}

/// A POSIX word from position `i` on without its quotes, with a mark for each
/// expansion, behind `out`, and whether it has an expansion.
pub open spec fn posix_pattern_from(
    s: Seq<char>,
    i: int,
    single: bool,
    double: bool,
    dynamic: bool,
    out: Seq<char>,
) -> (Seq<char>, bool)
    decreases s.len() - i,
{
    if i < 0 || i >= s.len() {
        (out, dynamic)
    } else if single {
        if s[i] == '\'' {
            posix_pattern_from(s, i + 1, false, double, dynamic, out)
        } else {
            posix_pattern_from(s, i + 1, true, double, dynamic, out.push(s[i]))
        }
    } else if s[i] == '\'' && !double {
        posix_pattern_from(s, i + 1, true, double, dynamic, out)
    } else if s[i] == '"' {
        posix_pattern_from(s, i + 1, false, !double, dynamic, out)
    } else if s[i] == '\\' {
        if i + 1 < s.len() {
            posix_pattern_from(s, i + 2, false, double, dynamic, out.push(s[i + 1]))
        } else {
            posix_pattern_from(s, i + 1, false, double, dynamic, out)
        }
    } else if s[i] == '$' {
        posix_pattern_from(
            s,
            onward(i, dollar_end(s, i + 1), s.len() as int),
            false,
            double,
            true,
            out.push(RM_DYNAMIC_WILDCARD),
        )
    } else if s[i] == '`' {
        posix_pattern_from(
            s,
            onward(i, tick_end(s, i + 1), s.len() as int),
            false,
            double,
            true,
            out.push(RM_DYNAMIC_WILDCARD),
        )
    } else {
        posix_pattern_from(s, i + 1, false, double, dynamic, out.push(s[i]))
    }
}

/// A PowerShell word from position `i` on without its quotes, with a mark for
/// each expansion, behind `out`, and whether it has an expansion.
pub open spec fn powershell_pattern_from(
    s: Seq<char>,
    i: int,
    single: bool,
    double: bool,
    dynamic: bool,
    out: Seq<char>,
) -> (Seq<char>, bool)
    decreases s.len() - i,
{
    if i < 0 || i >= s.len() {
        (out, dynamic)
    } else if single {
        if s[i] == '\'' {
            if at(s, i + 1) == Some('\'') {
                powershell_pattern_from(s, i + 2, true, double, dynamic, out.push('\''))
            } else {
                powershell_pattern_from(s, i + 1, false, double, dynamic, out)
            }
        } else {
            powershell_pattern_from(s, i + 1, true, double, dynamic, out.push(s[i]))
        }
    } else if s[i] == '\'' && !double {
        powershell_pattern_from(s, i + 1, true, double, dynamic, out)
    } else if s[i] == '"' {
        powershell_pattern_from(s, i + 1, false, !double, dynamic, out)
    } else if s[i] == '`' {
        if i + 1 < s.len() {
            powershell_pattern_from(s, i + 2, false, double, dynamic, out.push(s[i + 1]))
        } else {
            powershell_pattern_from(s, i + 1, false, double, dynamic, out)
        }
    } else if s[i] == '$' {
        powershell_pattern_from(
            s,
            onward(i, dollar_end(s, i + 1), s.len() as int),
            false,
            double,
            true,
            out.push(RM_DYNAMIC_WILDCARD),
        )
    } else {
        powershell_pattern_from(s, i + 1, false, double, dynamic, out.push(s[i]))
    }
}

/// A Cmd word from position `i` on without its quotes, with a mark for each
/// variable, behind `out`, and whether it has a variable.
pub open spec fn cmd_pattern_from(s: Seq<char>, i: int, dynamic: bool, out: Seq<char>) -> (
    Seq<char>,
    bool,
)
    decreases s.len() - i,
{
    if i < 0 || i >= s.len() {
        (out, dynamic)
    } else if s[i] == '"' {
        cmd_pattern_from(s, i + 1, dynamic, out)
    } else if s[i] == '^' {
        if i + 1 < s.len() {
            cmd_pattern_from(s, i + 2, dynamic, out.push(s[i + 1]))
        } else {
            cmd_pattern_from(s, i + 1, dynamic, out)
        }
    } else if s[i] == '%' || s[i] == '!' {
        let close = next_index(s, i + 1, s[i]);
        if i < close < s.len() {
            cmd_pattern_from(s, close + 1, true, out.push(RM_DYNAMIC_WILDCARD))
        } else {
            (out.push(s[i]), dynamic)
        }
    } else {
        cmd_pattern_from(s, i + 1, dynamic, out.push(s[i]))
    }
}

/// The pattern of a word, where it has an expansion.
pub open spec fn dynamic_pattern(pattern: (Seq<char>, bool)) -> Option<Seq<char>> {
    if pattern.1 {
        Some(pattern.0)
    } else {
        None
    }
}

/// The name of a program without its quotes, with a mark for each expansion,
/// where it has one.
pub open spec fn executable_pattern(s: Seq<char>, dialect: ShellDialect) -> Option<Seq<char>> {
    let posix = dynamic_pattern(posix_pattern_from(s, 0, false, false, false, Seq::empty()));
    let powershell = dynamic_pattern(
        powershell_pattern_from(s, 0, false, false, false, Seq::empty()),
    );
    let cmd = dynamic_pattern(cmd_pattern_from(s, 0, false, Seq::empty()));
    match dialect {
        ShellDialect::Posix => posix,
        ShellDialect::PowerShell => powershell,
        ShellDialect::Cmd => cmd,
        ShellDialect::Unknown => if posix is Some {
            posix
        } else if powershell is Some {
            powershell
        } else {
            cmd
        },
    }
}

/// The parts of a pattern between its marks from position `i` on, behind `out`; the
/// part being read starts at `start`.
pub open spec fn pattern_parts_from(s: Seq<char>, i: int, start: int, out: Seq<Seq<char>>) -> Seq<
    Seq<char>,
>
    decreases s.len() - i,
{
    if i < 0 || i >= s.len() {
        out.push(s.subrange(start, s.len() as int))
    } else if s[i] == RM_DYNAMIC_WILDCARD {
        pattern_parts_from(s, i + 1, i + 1, out.push(s.subrange(start, i)))
    } else {
        pattern_parts_from(s, i + 1, start, out)
    }
}

/// Whether a pattern can become `rm`: with some text in place of each mark it is.
/// Without a mark it is to be `rm` or empty.
pub open spec fn may_become_rm(pattern: Seq<char>) -> bool {
    if pattern.contains(RM_DYNAMIC_WILDCARD) {
        parts_may_form(pattern_parts_from(pattern, 0, 0, Seq::empty()), "rm"@)
    } else {
        pattern.len() == 0 || pattern == "rm"@
    }
}

/// Whether a program is `rm`.
pub open spec fn rm_certainty(raw: Seq<char>, dialect: ShellDialect) -> RmExecutableCertainty {
    match executable_pattern(raw, dialect) {
        Some(pattern) => if may_become_rm(pattern) {
            RmExecutableCertainty::MayBeRm
        } else {
            RmExecutableCertainty::Other
        },
        None => if basename(unquoted(raw)) == "rm"@ {
            RmExecutableCertainty::Exact
        } else {
            RmExecutableCertainty::Other
        },
    }
}

/// Where the expansion ends whose `$` stands before position `i`.
fn skip_symbolic_expansion(s: &[char], i: usize) -> (r: usize)
    requires
        1 <= i <= s.len(),
    ensures
        r == dollar_end(s@, i as int),
        i <= r <= s.len(),
{
    if i >= s.len() {
        return i;
    }
    let c = s[i];
    if c == '{' {
        return skip_brackets(s, i + 1, '{', '}');
    }
    if c == '(' {
        return skip_brackets(s, i + 1, '(', ')');
    }
    if c == '\'' || c == '"' {
        let mut j: usize = i + 1;
        while j < s.len()
            invariant
                i < j <= s.len(),
                dollar_end(s@, i as int) == quote_end(s@, j as int, c),
            decreases s.len() - j,
        {
            if s[j] == '\\' {
                j = advance(j, 2, s.len());
            } else if s[j] == c {
                return j + 1;
            } else {
                j += 1;
            }
        }
        return j;
    }
    if alpha(c) || c == '_' {
        let mut j: usize = i;
        while j < s.len() && (alnum(s[j]) || s[j] == '_')
            invariant
                i <= j <= s.len(),
                name_end(s@, i as int) == name_end(s@, j as int),
            decreases s.len() - j,
        {
            j += 1;
        }
        return j;
    }
    i + 1
}

/// A POSIX word without its quotes, with a mark for each expansion, where it has
/// one.
pub fn symbolic_posix_executable_pattern(s: &[char]) -> (r: Option<Vec<char>>)
    ensures
        match r {
            Some(p) => dynamic_pattern(posix_pattern_from(s@, 0, false, false, false, Seq::empty()))
                == Some(p@),
            None => dynamic_pattern(
                posix_pattern_from(s@, 0, false, false, false, Seq::empty()),
            ) is None,
        },
{
    let mut out: Vec<char> = Vec::new();
    let mut single = false;
    let mut double = false;
    let mut dynamic = false;
    let mut i: usize = 0;
    while i < s.len()
        invariant
            0 <= i <= s.len(),
            posix_pattern_from(s@, 0, false, false, false, Seq::empty()) == posix_pattern_from(
                s@,
                i as int,
                single,
                double,
                dynamic,
                out@,
            ),
        decreases s.len() - i,
    {
        let c = s[i];
        if single {
            if c == '\'' {
                single = false;
            } else {
                out.push(c);
            }
            i += 1;
        } else if c == '\'' && !double {
            single = true;
            i += 1;
        } else if c == '"' {
            double = !double;
            i += 1;
        } else if c == '\\' {
            if i + 1 < s.len() {
                out.push(s[i + 1]);
                i += 2;
            } else {
                i += 1;
            }
        } else if c == '$' {
            dynamic = true;
            out.push(RM_DYNAMIC_WILDCARD);
            i = skip_symbolic_expansion(s, i + 1);
        } else if c == '`' {
            dynamic = true;
            out.push(RM_DYNAMIC_WILDCARD);
            i = skip_ticks(s, i + 1);
        } else {
            out.push(c);
            i += 1;
        }
    }
    if dynamic {
        Some(out)
    } else {
        None
    }
}

/// A PowerShell word without its quotes, with a mark for each expansion, where it
/// has one.
pub fn symbolic_powershell_executable_pattern(s: &[char]) -> (r: Option<Vec<char>>)
    ensures
        match r {
            Some(p) => dynamic_pattern(
                powershell_pattern_from(s@, 0, false, false, false, Seq::empty()),
            ) == Some(p@),
            None => dynamic_pattern(
                powershell_pattern_from(s@, 0, false, false, false, Seq::empty()),
            ) is None,
        },
{
    let mut out: Vec<char> = Vec::new();
    let mut single = false;
    let mut double = false;
    let mut dynamic = false;
    let mut i: usize = 0;
    while i < s.len()
        invariant
            0 <= i <= s.len(),
            powershell_pattern_from(s@, 0, false, false, false, Seq::empty())
                == powershell_pattern_from(s@, i as int, single, double, dynamic, out@),
        decreases s.len() - i,
    {
        let c = s[i];
        if single {
            if c == '\'' {
                if get(s, i + 1) == Some('\'') {
                    out.push('\'');
                    i += 2;
                } else {
                    single = false;
                    i += 1;
                }
            } else {
                out.push(c);
                i += 1;
            }
        } else if c == '\'' && !double {
            single = true;
            i += 1;
        } else if c == '"' {
            double = !double;
            i += 1;
        } else if c == '`' {
            if i + 1 < s.len() {
                out.push(s[i + 1]);
                i += 2;
            } else {
                i += 1;
            }
        } else if c == '$' {
            dynamic = true;
            out.push(RM_DYNAMIC_WILDCARD);
            i = skip_symbolic_expansion(s, i + 1);
        } else {
            out.push(c);
            i += 1;
        }
    }
    if dynamic {
        Some(out)
    } else {
        None
    }
}

/// A Cmd word without its quotes, with a mark for each variable, where it has
/// one.
pub fn symbolic_cmd_executable_pattern(s: &[char]) -> (r: Option<Vec<char>>)
    ensures
        match r {
            Some(p) => dynamic_pattern(cmd_pattern_from(s@, 0, false, Seq::empty())) == Some(p@),
            None => dynamic_pattern(cmd_pattern_from(s@, 0, false, Seq::empty())) is None,
        },
{
    let mut out: Vec<char> = Vec::new();
    let mut dynamic = false;
    let mut i: usize = 0;
    while i < s.len()
        invariant
            0 <= i <= s.len(),
            cmd_pattern_from(s@, 0, false, Seq::empty()) == cmd_pattern_from(
                s@,
                i as int,
                dynamic,
                out@,
            ),
        decreases s.len() - i,
    {
        let c = s[i];
        if c == '"' {
            i += 1;
        } else if c == '^' {
            if i + 1 < s.len() {
                out.push(s[i + 1]);
                i += 2;
            } else {
                i += 1;
            }
        } else if c == '%' || c == '!' {
            let close = index_from(s, i + 1, c);
            if close < s.len() {
                dynamic = true;
                out.push(RM_DYNAMIC_WILDCARD);
                i = close + 1;
            } else {
                out.push(c);
                return if dynamic {
                    Some(out)
                } else {
                    None
                };
            }
        } else {
            out.push(c);
            i += 1;
        }
    }
    if dynamic {
        Some(out)
    } else {
        None
    }
}

/// The parts of a pattern between its marks.
fn pattern_parts(s: &[char]) -> (r: Vec<Vec<char>>)
    ensures
        texts(r@) == pattern_parts_from(s@, 0, 0, Seq::empty()),
        r.len() >= 1,
{
    let mut out: Vec<Vec<char>> = Vec::new();
    assert(texts(out@) =~= Seq::<Seq<char>>::empty());
    let mut start: usize = 0;
    let mut i: usize = 0;
    while i < s.len()
        invariant
            0 <= start <= i <= s.len(),
            pattern_parts_from(s@, 0, 0, Seq::empty()) == pattern_parts_from(
                s@,
                i as int,
                start as int,
                texts(out@),
            ),
        decreases s.len() - i,
    {
        if s[i] == RM_DYNAMIC_WILDCARD {
            let ghost before = texts(out@);
            out.push(copy_of(slice_subrange(s, start, i)));
            assert(texts(out@) =~= before.push(s@.subrange(start as int, i as int)));
            start = i + 1;
        }
        i += 1;
    }
    let ghost before = texts(out@);
    out.push(copy_of(slice_subrange(s, start, s.len())));
    assert(texts(out@) =~= before.push(s@.subrange(start as int, s@.len() as int)));
    out
}

/// Whether a pattern can become `rm`.
pub fn wildcard_pattern_may_equal_rm(pattern: &[char]) -> (r: bool)
    ensures
        r == may_become_rm(pattern@),
{
    if !has_char(pattern, RM_DYNAMIC_WILDCARD) {
        return pattern.len() == 0 || is_str(pattern, "rm");
    }
    let parts = pattern_parts(pattern);
    let target = chars_of("rm");
    parts_form(&parts, target.as_slice())
}

/// The name of a program without its quotes, with a mark for each expansion,
/// where it has one.
fn find_pattern(s: &[char], dialect: ShellDialect) -> (r: Option<Vec<char>>)
    ensures
        match r {
            Some(p) => executable_pattern(s@, dialect) == Some(p@),
            None => executable_pattern(s@, dialect) is None,
        },
{
    match dialect {
        ShellDialect::Posix => symbolic_posix_executable_pattern(s),
        ShellDialect::PowerShell => symbolic_powershell_executable_pattern(s),
        ShellDialect::Cmd => symbolic_cmd_executable_pattern(s),
        ShellDialect::Unknown => match symbolic_posix_executable_pattern(s) {
            Some(p) => Some(p),
            None => match symbolic_powershell_executable_pattern(s) {
                Some(p) => Some(p),
                None => symbolic_cmd_executable_pattern(s),
            },
        },
    }
}

/// Whether a program is `rm`, over texts.
pub fn text_certainty(raw: &[char], dialect: ShellDialect) -> (r: RmExecutableCertainty)
    ensures
        r == rm_certainty(raw@, dialect),
{
    match find_pattern(raw, dialect) {
        Some(pattern) => {
            if wildcard_pattern_may_equal_rm(pattern.as_slice()) {
                RmExecutableCertainty::MayBeRm
            } else {
                RmExecutableCertainty::Other
            }
        },
        None => {
            if is_str(last_component(strip_outer_quotes(raw).1), "rm") {
                RmExecutableCertainty::Exact
            } else {
                RmExecutableCertainty::Other
            }
        },
    }
}

/// Whether a program is `rm`: for certain, possibly once the shell has expanded
/// its name, or not.
pub fn rm_executable_certainty(raw_executable: &str, dialect: ShellDialect) -> (r: RmExecutableCertainty)
    ensures
        r == rm_certainty(raw_executable@, dialect),
{
    let s = chars_of(raw_executable);
    text_certainty(s.as_slice(), dialect)
}

} // verus!
