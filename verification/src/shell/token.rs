//! Cutting a command line into words and separators, for each shell dialect.

use vstd::prelude::*;
use vstd::slice::slice_subrange;
use crate::text::{index_from, is_white, next_index, white};

verus! {

/// The shell whose grammar a command line follows.
#[derive(Debug, Clone, Copy, PartialEq, Eq, Structural)]
pub enum ShellDialect {
    Posix,
    PowerShell,
    Cmd,
    /// No dialect is proven; cut as POSIX.
    Unknown,
}

/// What a token is.
#[derive(Debug, Clone, Copy, PartialEq, Eq, Structural)]
pub enum NormalizeTokenKind {
    Word,
    Separator,
}

/// A word or separator of a command line: the characters `start..end`.
#[derive(Debug, Clone, Copy, PartialEq, Eq, Structural)]
pub struct NormalizeToken {
    pub kind: NormalizeTokenKind,
    pub start: usize,
    pub end: usize,
}

impl NormalizeToken {
    /// Whether the token lies within a text of `len` characters and is not empty.
    pub open spec fn fits(self, len: int) -> bool {
        self.start < self.end <= len
    }

    /// The characters of the token.
    pub open spec fn of(self, s: Seq<char>) -> Seq<char> {
        s.subrange(self.start as int, self.end as int)
    }

    /// Whether the token is a word.
    pub open spec fn word(self) -> bool {
        self.kind == NormalizeTokenKind::Word
    }

    /// Whether the token is a word.
    pub fn is_word(&self) -> (r: bool)
        ensures
            r == self.word(),
    {
        self.kind == NormalizeTokenKind::Word
    }

    /// The characters of the token.
    pub fn text<'a>(&self, s: &'a [char]) -> (r: &'a [char])
        requires
            self.fits(s@.len() as int),
        ensures
            r@ == self.of(s@),
    {
        slice_subrange(s, self.start, self.end)
    }
}

/// The position behind `i` that a scan goes on from: `j` when it lies behind
/// `i` and within the text, the end of the text otherwise.
pub open spec fn onward(i: int, j: int, len: int) -> int {
    if i < j <= len {
        j
    } else {
        len
    }
}

/// The position `n` characters behind `i`, no further than the end.
pub fn advance(i: usize, n: usize, len: usize) -> (r: usize)
    requires
        i < len,
        n > 0,
    ensures
        r == onward(i as int, i + n, len as int),
        i < r <= len,
{
    if n <= len - i {
        i + n
    } else {
        len
    }
}

/// The character at position `i`, if there is one.
pub open spec fn at(s: Seq<char>, i: int) -> Option<char> {
    if 0 <= i < s.len() {
        Some(s[i])
    } else {
        None
    }
}

/// The character at position `i`, if there is one.
pub fn get(s: &[char], i: usize) -> (r: Option<char>)
    ensures
        r == at(s@, i as int),
{
    if i < s.len() {
        Some(s[i])
    } else {
        None
    }
}

/// The position behind the back-quote that closes the substitution whose body
/// is at `i`.
pub open spec fn tick_end(s: Seq<char>, i: int) -> int
    decreases s.len() - i,
{
    if i < 0 || i >= s.len() {
        s.len() as int
    } else if s[i] == '\\' {
        tick_end(s, onward(i, i + 2, s.len() as int))
    } else if s[i] == '`' {
        i + 1
    } else {
        tick_end(s, i + 1)
    }
}

/// The position behind the back-quote that closes the substitution whose body
/// is at `i`.
pub fn skip_ticks(s: &[char], i: usize) -> (r: usize)
    requires
        i <= s.len(),
    ensures
        r == tick_end(s@, i as int),
        i <= r <= s.len(),
        i < s.len() ==> i < r,
{
    let mut j: usize = i;
    while j < s.len()
        invariant
            i <= j <= s.len(),
            tick_end(s@, i as int) == tick_end(s@, j as int),
        decreases s.len() - j,
    {
        if s[j] == '\\' {
            j = advance(j, 2, s.len());
        } else if s[j] == '`' {
            return j + 1;
        } else {
            j += 1;
        }
    }
    j
}

/// The number of characters of the POSIX separator at `i`; 0 when none is there.
pub open spec fn posix_separator(s: Seq<char>, i: int) -> int {
    if i < 0 || i >= s.len() {
        0
    } else if s[i] == '\n' || s[i] == '(' || s[i] == ')' {
        1
    } else if s[i] == '\r' {
        if at(s, i + 1) == Some('\n') {
            2
        } else {
            1
        }
    } else if s[i] == ';' {
        if at(s, i + 1) == Some(';') {
            2
        } else {
            1
        }
    } else if s[i] == '&' {
        if at(s, i + 1) == Some('&') {
            2
        } else if at(s, i + 1) == Some('>') {
            0
        } else {
            1
        }
    } else if s[i] == '|' {
        if at(s, i + 1) == Some('|') || at(s, i + 1) == Some('&') {
            2
        } else {
            1
        }
    } else {
        0
    }
}

/// The number of characters of the POSIX separator at `i`; 0 when none is there.
fn posix_separator_len(s: &[char], i: usize) -> (r: usize)
    requires
        i < s.len(),
    ensures
        r == posix_separator(s@, i as int),
        i + r <= s.len(),
{
    let c = s[i];
    let next = if i + 1 < s.len() {
        Some(s[i + 1])
    } else {
        None
    };
    if c == '\n' || c == '(' || c == ')' {
        1
    } else if c == '\r' {
        if next == Some('\n') {
            2
        } else {
            1
        }
    } else if c == ';' {
        if next == Some(';') {
            2
        } else {
            1
        }
    } else if c == '&' {
        if next == Some('&') {
            2
        } else if next == Some('>') {
            0
        } else {
            1
        }
    } else if c == '|' {
        if next == Some('|') || next == Some('&') {
            2
        } else {
            1
        }
    } else {
        0
    }
}

/// Where the POSIX word that is being read at `i` ends.
///
/// `open` holds what is open around position `i`, innermost last: `true` for
/// double quotes, `false` for the parentheses of a substitution. A word ends at
/// white space or a separator that stands outside all of them.
pub open spec fn posix_word_end(s: Seq<char>, i: int, open: Seq<bool>) -> int
    decreases s.len() - i,
{
    if i < 0 || i >= s.len() {
        s.len() as int
    } else {
        let quoted = open.len() > 0 && open.last();
        let nested = open.len() > 0 && !open.last();
        let next = at(s, i + 1);
        if s[i] == '\\' {
            let n: int = if next == Some('\r') && at(s, i + 2) == Some('\n') {
                3
            } else {
                2
            };
            posix_word_end(s, onward(i, i + n, s.len() as int), open)
        } else if s[i] == '\'' && !quoted {
            posix_word_end(
                s,
                onward(i, next_index(s, i + 1, '\'') + 1, s.len() as int),
                open,
            )
        } else if s[i] == '"' {
            posix_word_end(s, i + 1, if quoted {
                open.drop_last()
            } else {
                open.push(true)
            })
        } else if s[i] == '`' {
            posix_word_end(s, onward(i, tick_end(s, i + 1), s.len() as int), open)
        } else if s[i] == '$' && next == Some('(') {
            posix_word_end(s, i + 2, open.push(false))
        } else if (s[i] == '<' || s[i] == '>') && !quoted && next == Some('(') {
            posix_word_end(s, i + 2, open.push(false))
        } else if s[i] == '(' && nested {
            posix_word_end(s, i + 1, open.push(false))
        } else if s[i] == ')' && nested {
            posix_word_end(s, i + 1, open.drop_last())
        } else if open.len() == 0 && ((s[i] == '>' && (next == Some('&') || next == Some('|')))
            || (s[i] == '<' && next == Some('&'))) {
            posix_word_end(s, i + 2, open)
        } else if open.len() == 0 && (is_white(s[i]) || posix_separator(s, i) > 0) {
            i
        } else {
            posix_word_end(s, i + 1, open)
        }
    }
}

/// Where the POSIX word that starts at `start` ends.
fn skip_posix_word(s: &[char], start: usize) -> (r: usize)
    requires
        start < s.len(),
        !is_white(s@[start as int]),
        posix_separator(s@, start as int) == 0,
    ensures
        r == posix_word_end(s@, start as int, Seq::empty()),
        start < r <= s.len(),
{
    let mut i: usize = start;
    let mut open: Vec<bool> = Vec::new();
    while i < s.len()
        invariant
            start <= i <= s.len(),
            start < s.len(),
            !is_white(s@[start as int]),
            posix_separator(s@, start as int) == 0,
            posix_word_end(s@, start as int, Seq::empty()) == posix_word_end(s@, i as int, open@),
            i == start ==> open@.len() == 0,
        decreases s.len() - i,
    {
        let c = s[i];
        let quoted = open.len() > 0 && open[open.len() - 1];
        let nested = open.len() > 0 && !open[open.len() - 1];
        let next = get(s, i + 1);
        if c == '\\' {
            let n: usize = if next == Some('\r') && s.len() - i > 2 && s[i + 2] == '\n' {
                3
            } else {
                2
            };
            i = advance(i, n, s.len());
        } else if c == '\'' && !quoted {
            let j = index_from(s, i + 1, '\'');
            i = if j < s.len() {
                j + 1
            } else {
                j
            };
        } else if c == '"' {
            if quoted {
                open.pop();
            } else {
                open.push(true);
            }
            i += 1;
        } else if c == '`' {
            i = skip_ticks(s, i + 1);
        } else if c == '$' && next == Some('(') {
            open.push(false);
            i += 2;
        } else if (c == '<' || c == '>') && !quoted && next == Some('(') {
            open.push(false);
            i += 2;
        } else if c == '(' && nested {
            open.push(false);
            i += 1;
        } else if c == ')' && nested {
            open.pop();
            i += 1;
        } else if open.len() == 0 && ((c == '>' && (next == Some('&') || next == Some('|'))) || (c
            == '<' && next == Some('&'))) {
            i += 2;
        } else if open.len() == 0 && (white(c) || posix_separator_len(s, i) > 0) {
            return i;
        } else {
            i += 1;
        }
    }
    i
}

/// The number of characters of the PowerShell separator at `i`; 0 when none is
/// there. At the start of a statement `&` is the call operator, not a separator.
pub open spec fn powershell_separator(s: Seq<char>, i: int, at_start: bool) -> int {
    if i < 0 || i >= s.len() {
        0
    } else if s[i] == '\n' || s[i] == ';' {
        1
    } else if s[i] == '\r' {
        if at(s, i + 1) == Some('\n') {
            2
        } else {
            1
        }
    } else if s[i] == '&' {
        if at(s, i + 1) == Some('&') {
            2
        } else if at_start {
            0
        } else {
            1
        }
    } else if s[i] == '|' {
        if at(s, i + 1) == Some('|') {
            2
        } else {
            1
        }
    } else {
        0
    }
}

/// The number of characters of the PowerShell separator at `i`; 0 when none is
/// there.
fn powershell_separator_len(s: &[char], i: usize, at_start: bool) -> (r: usize)
    requires
        i < s.len(),
    ensures
        r == powershell_separator(s@, i as int, at_start),
        i + r <= s.len(),
{
    let c = s[i];
    let next = if i + 1 < s.len() {
        Some(s[i + 1])
    } else {
        None
    };
    if c == '\n' || c == ';' {
        1
    } else if c == '\r' {
        if next == Some('\n') {
            2
        } else {
            1
        }
    } else if c == '&' {
        if next == Some('&') {
            2
        } else if at_start {
            0
        } else {
            1
        }
    } else if c == '|' {
        if next == Some('|') {
            2
        } else {
            1
        }
    } else {
        0
    }
}

/// Where the PowerShell word that is being read at `i` ends; `open` as in
/// [`posix_word_end`], with every parenthesis in a group opening one more.
pub open spec fn powershell_word_end(s: Seq<char>, i: int, open: Seq<bool>) -> int
    decreases s.len() - i,
{
    if i < 0 || i >= s.len() {
        s.len() as int
    } else {
        let quoted = open.len() > 0 && open.last();
        let nested = open.len() > 0 && !open.last();
        if s[i] == '`' {
            powershell_word_end(s, onward(i, i + 2, s.len() as int), open)
        } else if s[i] == '\'' && !quoted {
            powershell_word_end(
                s,
                onward(i, next_index(s, i + 1, '\'') + 1, s.len() as int),
                open,
            )
        } else if s[i] == '"' {
            powershell_word_end(s, i + 1, if quoted {
                open.drop_last()
            } else {
                open.push(true)
            })
        } else if s[i] == '$' && at(s, i + 1) == Some('(') {
            powershell_word_end(s, i + 2, open.push(false))
        } else if s[i] == '(' && nested {
            powershell_word_end(s, i + 1, open.push(false))
        } else if s[i] == ')' && nested {
            powershell_word_end(s, i + 1, open.drop_last())
        } else if open.len() == 0 && (is_white(s[i]) || powershell_separator(s, i, false) > 0) {
            i
        } else {
            powershell_word_end(s, i + 1, open)
        }
    }
}

/// Where the PowerShell word that starts at `start` ends.
fn skip_powershell_word(s: &[char], start: usize) -> (r: usize)
    requires
        start < s.len(),
        !is_white(s@[start as int]),
        powershell_separator(s@, start as int, false) == 0,
    ensures
        r == powershell_word_end(s@, start as int, Seq::empty()),
        start < r <= s.len(),
{
    let mut i: usize = start;
    let mut open: Vec<bool> = Vec::new();
    while i < s.len()
        invariant
            start <= i <= s.len(),
            start < s.len(),
            !is_white(s@[start as int]),
            powershell_separator(s@, start as int, false) == 0,
            powershell_word_end(s@, start as int, Seq::empty()) == powershell_word_end(
                s@,
                i as int,
                open@,
            ),
            i == start ==> open@.len() == 0,
        decreases s.len() - i,
    {
        let c = s[i];
        let quoted = open.len() > 0 && open[open.len() - 1];
        let nested = open.len() > 0 && !open[open.len() - 1];
        if c == '`' {
            i = advance(i, 2, s.len());
        } else if c == '\'' && !quoted {
            let j = index_from(s, i + 1, '\'');
            i = if j < s.len() {
                j + 1
            } else {
                j
            };
        } else if c == '"' {
            if quoted {
                open.pop();
            } else {
                open.push(true);
            }
            i += 1;
        } else if c == '$' && get(s, i + 1) == Some('(') {
            open.push(false);
            i += 2;
        } else if c == '(' && nested {
            open.push(false);
            i += 1;
        } else if c == ')' && nested {
            open.pop();
            i += 1;
        } else if open.len() == 0 && (white(c) || powershell_separator_len(s, i, false) > 0) {
            return i;
        } else {
            i += 1;
        }
    }
    i
}

/// The number of characters of the Cmd separator at `i`; 0 when none is there.
pub open spec fn cmd_separator(s: Seq<char>, i: int) -> int {
    if i < 0 || i >= s.len() {
        0
    } else if s[i] == '\n' || s[i] == '(' || s[i] == ')' {
        1
    } else if s[i] == '\r' {
        if at(s, i + 1) == Some('\n') {
            2
        } else {
            1
        }
    } else if s[i] == '&' || s[i] == '|' {
        if at(s, i + 1) == Some(s[i]) {
            2
        } else {
            1
        }
    } else {
        0
    }
}

/// The number of characters of the Cmd separator at `i`; 0 when none is there.
fn cmd_separator_len(s: &[char], i: usize) -> (r: usize)
    requires
        i < s.len(),
    ensures
        r == cmd_separator(s@, i as int),
        i + r <= s.len(),
{
    let c = s[i];
    let next = if i + 1 < s.len() {
        Some(s[i + 1])
    } else {
        None
    };
    if c == '\n' || c == '(' || c == ')' {
        1
    } else if c == '\r' {
        if next == Some('\n') {
            2
        } else {
            1
        }
    } else if c == '&' || c == '|' {
        if next == Some(c) {
            2
        } else {
            1
        }
    } else {
        0
    }
}

/// Where the Cmd word that is being read at `i` ends, `quoted` telling whether
/// double quotes are open there.
pub open spec fn cmd_word_end(s: Seq<char>, i: int, quoted: bool) -> int
    decreases s.len() - i,
{
    if i < 0 || i >= s.len() {
        s.len() as int
    } else if s[i] == '"' {
        cmd_word_end(s, i + 1, !quoted)
    } else if quoted {
        cmd_word_end(s, i + 1, quoted)
    } else if s[i] == '^' {
        cmd_word_end(s, onward(i, i + 2, s.len() as int), quoted)
    } else if (s[i] == '>' || s[i] == '<') && at(s, i + 1) == Some('&') {
        cmd_word_end(s, i + 2, quoted)
    } else if is_white(s[i]) || cmd_separator(s, i) > 0 {
        i
    } else {
        cmd_word_end(s, i + 1, quoted)
    }
}

/// Where the Cmd word that starts at `start` ends.
fn skip_cmd_word(s: &[char], start: usize) -> (r: usize)
    requires
        start < s.len(),
        !is_white(s@[start as int]),
        cmd_separator(s@, start as int) == 0,
    ensures
        r == cmd_word_end(s@, start as int, false),
        start < r <= s.len(),
{
    let mut i: usize = start;
    let mut quoted = false;
    while i < s.len()
        invariant
            start <= i <= s.len(),
            start < s.len(),
            !is_white(s@[start as int]),
            cmd_separator(s@, start as int) == 0,
            cmd_word_end(s@, start as int, false) == cmd_word_end(s@, i as int, quoted),
        decreases s.len() - i,
    {
        let c = s[i];
        if c == '"' {
            quoted = !quoted;
            i += 1;
        } else if quoted {
            i += 1;
        } else if c == '^' {
            i = advance(i, 2, s.len());
        } else if (c == '>' || c == '<') && get(s, i + 1) == Some('&') {
            i += 2;
        } else if white(c) || cmd_separator_len(s, i) > 0 {
            return i;
        } else {
            i += 1;
        }
    }
    i
}

/// Whether what comes next starts a statement: nothing stands before it, or a
/// separator does.
pub open spec fn starts_statement(out: Seq<NormalizeToken>) -> bool {
    out.len() == 0 || !out.last().word()
}

/// The number of characters of the separator at `i`, with the tokens before it.
pub open spec fn separator(s: Seq<char>, i: int, dialect: ShellDialect, out: Seq<NormalizeToken>) -> int {
    match dialect {
        ShellDialect::Posix | ShellDialect::Unknown => posix_separator(s, i),
        ShellDialect::PowerShell => powershell_separator(s, i, starts_statement(out)),
        ShellDialect::Cmd => cmd_separator(s, i),
    }
}

/// Where the word that starts at `i` ends.
pub open spec fn word_end(s: Seq<char>, i: int, dialect: ShellDialect) -> int {
    match dialect {
        ShellDialect::Posix | ShellDialect::Unknown => posix_word_end(s, i, Seq::empty()),
        ShellDialect::PowerShell => if at(s, i) == Some('&') {
            i + 1
        } else {
            powershell_word_end(s, i, Seq::empty())
        },
        ShellDialect::Cmd => cmd_word_end(s, i, false),
    }
}

/// The tokens of `s` from position `i` on, behind the tokens `out`.
pub open spec fn tokens_from(
    s: Seq<char>,
    i: int,
    dialect: ShellDialect,
    out: Seq<NormalizeToken>,
) -> Seq<NormalizeToken>
    decreases s.len() - i,
{
    if i < 0 || i >= s.len() {
        out
    } else {
        let n = separator(s, i, dialect, out);
        if n > 0 {
            tokens_from(
                s,
                i + n,
                dialect,
                out.push(
                    NormalizeToken {
                        kind: NormalizeTokenKind::Separator,
                        start: i as usize,
                        end: (i + n) as usize,
                    },
                ),
            )
        } else if is_white(s[i]) {
            tokens_from(s, i + 1, dialect, out)
        } else {
            let j = onward(i, word_end(s, i, dialect), s.len() as int);
            tokens_from(
                s,
                j,
                dialect,
                out.push(
                    NormalizeToken {
                        kind: NormalizeTokenKind::Word,
                        start: i as usize,
                        end: j as usize,
                    },
                ),
            )
        }
    }
}

/// The words and separators of a command line, in order.
pub open spec fn tokens(s: Seq<char>, dialect: ShellDialect) -> Seq<NormalizeToken> {
    tokens_from(s, 0, dialect, Seq::empty())
}

/// The words and separators of a command line, in order.
pub fn tokenize_for_shell_dialect(s: &[char], dialect: ShellDialect) -> (r: Vec<NormalizeToken>)
    ensures
        r@ == tokens(s@, dialect),
        forall|k: int| 0 <= k < r@.len() ==> (#[trigger] r@[k]).fits(s@.len() as int),
        forall|j: int, k: int| 0 <= j < k < r@.len() ==> r@[j].end <= r@[k].start,
{
    let mut out: Vec<NormalizeToken> = Vec::new();
    let mut i: usize = 0;
    while i < s.len()
        invariant
            0 <= i <= s.len(),
            tokens(s@, dialect) == tokens_from(s@, i as int, dialect, out@),
            forall|k: int| 0 <= k < out@.len() ==> (#[trigger] out@[k]).fits(i as int),
            forall|j: int, k: int| 0 <= j < k < out@.len() ==> out@[j].end <= out@[k].start,
        decreases s.len() - i,
    {
        let start = out.len() == 0 || !out[out.len() - 1].is_word();
        let n: usize = match dialect {
            ShellDialect::Posix | ShellDialect::Unknown => posix_separator_len(s, i),
            ShellDialect::PowerShell => powershell_separator_len(s, i, start),
            ShellDialect::Cmd => cmd_separator_len(s, i),
        };
        if n > 0 {
            out.push(
                NormalizeToken { kind: NormalizeTokenKind::Separator, start: i, end: i + n },
            );
            i += n;
        } else if white(s[i]) {
            i += 1;
        } else {
            let j: usize = match dialect {
                ShellDialect::Posix | ShellDialect::Unknown => skip_posix_word(s, i),
                ShellDialect::PowerShell => if s[i] == '&' {
                    i + 1
                } else {
                    skip_powershell_word(s, i)
                },
                ShellDialect::Cmd => skip_cmd_word(s, i),
            };
            out.push(NormalizeToken { kind: NormalizeTokenKind::Word, start: i, end: j });
            i = j;
        }
    }
    out
}

/// The words and separators of a command line whose dialect is not proven.
pub fn tokenize_for_normalization(s: &[char]) -> (r: Vec<NormalizeToken>)
    ensures
        r@ == tokens(s@, ShellDialect::Unknown),
        forall|k: int| 0 <= k < r@.len() ==> (#[trigger] r@[k]).fits(s@.len() as int),
        forall|j: int, k: int| 0 <= j < k < r@.len() ==> r@[j].end <= r@[k].start,
{
    tokenize_for_shell_dialect(s, ShellDialect::Unknown)
}

} // verus!
