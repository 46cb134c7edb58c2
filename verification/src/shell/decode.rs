//! What a word means once the shell has removed quotes and escapes.

use vstd::prelude::*;
use crate::shell::token::{at, get, onward, ShellDialect};
use crate::text::{copy_of, is_str};

verus! {

/// The place that a word takes in a command.
#[derive(Debug, Clone, Copy, PartialEq, Eq, Structural)]
pub enum ShellTokenRole {
    /// An executable, subcommand or option.
    Syntax,
    /// The value of an option or a parameter.
    Data,
}

/// The value of a hexadecimal digit, 16 for any other character.
pub open spec fn hex_value(c: char) -> int {
    if '0' <= c && c <= '9' {
        (c as u32) - ('0' as u32)
    } else if 'a' <= c && c <= 'f' {
        (c as u32) - ('a' as u32) + 10
    } else if 'A' <= c && c <= 'F' {
        (c as u32) - ('A' as u32) + 10
    } else {
        16
    }
}

/// The value of a hexadecimal digit, 16 for any other character.
fn hex_of(c: char) -> (r: u32)
    ensures
        r == hex_value(c),
        r <= 16,
{
    if '0' <= c && c <= '9' {
        (c as u32) - ('0' as u32)
    } else if 'a' <= c && c <= 'f' {
        (c as u32) - ('a' as u32) + 10
    } else if 'A' <= c && c <= 'F' {
        (c as u32) - ('A' as u32) + 10
    } else {
        16
    }
}

/// The number of digits to the given base that stand at `i`, at most `max`.
pub open spec fn digit_run(s: Seq<char>, i: int, base: int, max: nat) -> nat
    decreases max,
{
    if max == 0 || i < 0 || i >= s.len() || hex_value(s[i]) >= base {
        0
    } else {
        1 + digit_run(s, i + 1, base, (max - 1) as nat)
    }
}

/// The value of the `n` digits at `i` to the given base, put behind `value`.
pub open spec fn run_value(s: Seq<char>, i: int, base: int, n: nat, value: int) -> int
    decreases n,
{
    if n == 0 {
        value
    } else {
        run_value(s, i + 1, base, (n - 1) as nat, value * base + hex_value(s[i]))
    }
}

/// The character with the given code, if there is one.
pub open spec fn scalar(code: int) -> Option<char> {
    if 0 <= code < 0xD800 || 0xE000 <= code <= 0x10FFFF {
        Some(code as char)
    } else {
        None
    }
}

/// `char::from_u32` gives the character with the code, if there is one.
#[verifier::external_body]
fn scalar_of(code: u32) -> (r: Option<char>)
    ensures
        r == scalar(code as int),
{
    char::from_u32(code)
}

/// Reads at most `max` digits to the given base at `i`: how many there are and
/// their value.
fn read_digits(s: &[char], i: usize, base: u32, max: usize) -> (r: (usize, u64))
    requires
        i <= s.len(),
        2 <= base <= 16,
        max <= 8,
    ensures
        r.0 == digit_run(s@, i as int, base as int, max as nat),
        r.1 == run_value(s@, i as int, base as int, r.0 as nat, 0),
        r.0 <= s.len() - i,
        r.0 <= max,
{
    let mut n: usize = 0;
    let mut value: u64 = 0;
    assert(0x1_0000_0000u64 <= u64::MAX / 32);
    while n < max && i + n < s.len() && hex_of(s[i + n]) < base
        invariant
            0 <= n <= max,
            max <= 8,
            2 <= base <= 16,
            i + n <= s.len(),
            n + digit_run(s@, i + n, base as int, (max - n) as nat) == digit_run(
                s@,
                i as int,
                base as int,
                max as nat,
            ),
            n <= digit_run(s@, i as int, base as int, max as nat),
            forall|m: nat| #[trigger]
                run_value(s@, i + n, base as int, m, value as int) == run_value(
                    s@,
                    i as int,
                    base as int,
                    n as nat + m,
                    0,
                ),
            n == 0 ==> value == 0,
            n == 1 ==> value < 0x10,
            n == 2 ==> value < 0x100,
            n == 3 ==> value < 0x1000,
            n == 4 ==> value < 0x1_0000,
            n == 5 ==> value < 0x10_0000,
            n == 6 ==> value < 0x100_0000,
            n == 7 ==> value < 0x1000_0000,
        decreases max - n,
    {
        let d = hex_of(s[i + n]);
        let ghost before = value;
        assert(value * base <= value * 16) by (nonlinear_arith)
            requires
                base <= 16,
        ;
        value = value * (base as u64) + (d as u64);
        proof {
            assert forall|m: nat| #[trigger]
                run_value(s@, i + n + 1, base as int, m, value as int) == run_value(
                s@,
                i as int,
                base as int,
                (n + 1) as nat + m,
                0,
            ) by {
                assert(run_value(s@, i + n, base as int, m + 1, before as int) == run_value(
                    s@,
                    i as int,
                    base as int,
                    n as nat + (m + 1),
                    0,
                ));
            }
        }
        n += 1;
    }
    assert(run_value(s@, i + n, base as int, 0, value as int) == value);
    (n, value)
}

/// The code of the character that the escape at `i` (behind the backslash of an
/// ANSI-C quoted string) stands for, -1 for none, and the position behind it.
pub open spec fn ansi_escape(s: Seq<char>, i: int) -> (int, int) {
    if i < 0 || i >= s.len() {
        ('\\' as int, s.len() as int)
    } else {
        let c = s[i];
        if c == 'a' {
            (7, i + 1)
        } else if c == 'b' {
            (8, i + 1)
        } else if c == 'e' || c == 'E' {
            (27, i + 1)
        } else if c == 'f' {
            (12, i + 1)
        } else if c == 'n' {
            (10, i + 1)
        } else if c == 'r' {
            (13, i + 1)
        } else if c == 't' {
            (9, i + 1)
        } else if c == 'v' {
            (11, i + 1)
        } else if '0' <= c && c <= '7' {
            let n = digit_run(s, i, 8, 3);
            (run_value(s, i, 8, n, 0), i + n)
        } else if c == 'x' || c == 'u' || c == 'U' {
            let n = digit_run(
                s,
                i + 1,
                16,
                if c == 'x' {
                    2
                } else if c == 'u' {
                    4
                } else {
                    8
                },
            );
            (run_value(s, i + 1, 16, n, 0), i + 1 + n)
        } else {
            ((c as u32) as int, i + 1)
        }
    }
}

/// The text so far with the character of the given code behind it; unchanged
/// when no character has the code or it is the null character.
pub open spec fn with_code(out: Seq<char>, code: int) -> Seq<char> {
    match scalar(code) {
        Some(c) => if code == 0 {
            out
        } else {
            out.push(c)
        },
        None => out,
    }
}

/// What a POSIX word decodes to from position `i` on, behind `out`. `mode` is 0
/// outside quotes, 1 in single quotes, 2 in double quotes and 3 in ANSI-C quotes.
pub open spec fn posix_decoded_from(s: Seq<char>, i: int, mode: int, out: Seq<char>) -> Seq<char>
    decreases s.len() - i,
{
    if i < 0 || i >= s.len() {
        out
    } else {
        let c = s[i];
        let next = at(s, i + 1);
        if mode == 1 {
            if c == '\'' {
                posix_decoded_from(s, i + 1, 0, out)
            } else {
                posix_decoded_from(s, i + 1, 1, out.push(c))
            }
        } else if mode == 3 {
            if c == '\'' {
                posix_decoded_from(s, i + 1, 0, out)
            } else if c == '\\' {
                let (code, j) = ansi_escape(s, i + 1);
                posix_decoded_from(s, onward(i, j, s.len() as int), 3, with_code(out, code))
            } else {
                posix_decoded_from(s, i + 1, 3, out.push(c))
            }
        } else if mode == 2 {
            if c == '"' {
                posix_decoded_from(s, i + 1, 0, out)
            } else if c == '\\' && next == Some('\n') {
                posix_decoded_from(s, i + 2, 2, out)
            } else if c == '\\' && (next == Some('$') || next == Some('`') || next == Some('"')
                || next == Some('\\')) {
                posix_decoded_from(s, i + 2, 2, out.push(s[i + 1]))
            } else {
                posix_decoded_from(s, i + 1, 2, out.push(c))
            }
        } else if c == '\\' {
            match next {
                Some(n) => posix_decoded_from(
                    s,
                    i + 2,
                    0,
                    if n == '\n' {
                        out
                    } else {
                        out.push(n)
                    },
                ),
                None => out.push('\\'),
            }
        } else if c == '\'' {
            posix_decoded_from(s, i + 1, 1, out)
        } else if c == '"' {
            posix_decoded_from(s, i + 1, 2, out)
        } else if c == '$' && next == Some('\'') {
            posix_decoded_from(s, i + 2, 3, out)
        } else if c == '$' && next == Some('"') {
            posix_decoded_from(s, i + 2, 2, out)
        } else {
            posix_decoded_from(s, i + 1, 0, out.push(c))
        }
    }
}

/// What a POSIX word decodes to: quotes and escapes removed, nothing expanded.
pub open spec fn posix_decoded(s: Seq<char>) -> Seq<char> {
    posix_decoded_from(s, 0, 0, Seq::empty())
}

/// The escape at `i` of an ANSI-C quoted string.
fn read_ansi_escape(s: &[char], i: usize) -> (r: (u64, usize))
    requires
        i <= s.len(),
    ensures
        (r.0 as int, r.1 as int) == ansi_escape(s@, i as int),
        i <= r.1 <= s.len(),
{
    if i >= s.len() {
        return (92, s.len());
    }
    let c = s[i];
    if c == 'a' {
        (7, i + 1)
    } else if c == 'b' {
        (8, i + 1)
    } else if c == 'e' || c == 'E' {
        (27, i + 1)
    } else if c == 'f' {
        (12, i + 1)
    } else if c == 'n' {
        (10, i + 1)
    } else if c == 'r' {
        (13, i + 1)
    } else if c == 't' {
        (9, i + 1)
    } else if c == 'v' {
        (11, i + 1)
    } else if '0' <= c && c <= '7' {
        let (n, value) = read_digits(s, i, 8, 3);
        (value, i + n)
    } else if c == 'x' || c == 'u' || c == 'U' {
        let max: usize = if c == 'x' {
            2
        } else if c == 'u' {
            4
        } else {
            8
        };
        let (n, value) = read_digits(s, i + 1, 16, max);
        (value, i + 1 + n)
    } else {
        ((c as u32) as u64, i + 1)
    }
}

/// What a POSIX word decodes to.
pub fn decode_posix(s: &[char]) -> (r: Vec<char>)
    ensures
        r@ == posix_decoded(s@),
{
    let mut out: Vec<char> = Vec::new();
    let mut i: usize = 0;
    let mut mode: u8 = 0;
    while i < s.len()
        invariant
            0 <= i <= s.len(),
            mode <= 3,
            posix_decoded(s@) == posix_decoded_from(s@, i as int, mode as int, out@),
        decreases s.len() - i,
    {
        let c = s[i];
        let next = get(s, i + 1);
        if mode == 1 {
            if c == '\'' {
                mode = 0;
            } else {
                out.push(c);
            }
            i += 1;
        } else if mode == 3 {
            if c == '\'' {
                mode = 0;
                i += 1;
            } else if c == '\\' {
                let (code, j) = read_ansi_escape(s, i + 1);
                if code != 0 && code <= 0x10FFFF {
                    if let Some(ch) = scalar_of(code as u32) {
                        out.push(ch);
                    }
                }
                i = j;
            } else {
                out.push(c);
                i += 1;
            }
        } else if mode == 2 {
            if c == '"' {
                mode = 0;
                i += 1;
            } else if c == '\\' && next == Some('\n') {
                i += 2;
            } else if c == '\\' && (next == Some('$') || next == Some('`') || next == Some('"')
                || next == Some('\\')) {
                out.push(s[i + 1]);
                i += 2;
            } else {
                out.push(c);
                i += 1;
            }
        } else if c == '\\' {
            match next {
                Some(n) => {
                    if n != '\n' {
                        out.push(n);
                    }
                    i += 2;
                },
                None => {
                    out.push('\\');
                    return out;
                },
            }
        } else if c == '\'' {
            mode = 1;
            i += 1;
        } else if c == '"' {
            mode = 2;
            i += 1;
        } else if c == '$' && next == Some('\'') {
            mode = 3;
            i += 2;
        } else if c == '$' && next == Some('"') {
            mode = 2;
            i += 2;
        } else {
            out.push(c);
            i += 1;
        }
    }
    out
}

/// The character that a back-quoted letter stands for in a PowerShell string.
pub open spec fn powershell_escape(c: char) -> char {
    if c == '0' {
        '\0'
    } else if c == 'a' {
        '\u{7}'
    } else if c == 'b' {
        '\u{8}'
    } else if c == 'e' {
        '\u{1b}'
    } else if c == 'f' {
        '\u{c}'
    } else if c == 'n' {
        '\n'
    } else if c == 'r' {
        '\r'
    } else if c == 't' {
        '\t'
    } else if c == 'v' {
        '\u{b}'
    } else {
        c
    }
}

/// The character that a back-quoted letter stands for in a PowerShell string.
pub fn escape_powershell(c: char) -> (r: char)
    ensures
        r == powershell_escape(c),
{
    if c == '0' {
        '\0'
    } else if c == 'a' {
        '\u{7}'
    } else if c == 'b' {
        '\u{8}'
    } else if c == 'e' {
        '\u{1b}'
    } else if c == 'f' {
        '\u{c}'
    } else if c == 'n' {
        '\n'
    } else if c == 'r' {
        '\r'
    } else if c == 't' {
        '\t'
    } else if c == 'v' {
        '\u{b}'
    } else {
        c
    }
}

/// What a PowerShell word decodes to from position `i` on, behind `out`. `mode`
/// is 0 outside quotes, 1 in single quotes and 2 in double quotes.
pub open spec fn powershell_decoded_from(s: Seq<char>, i: int, mode: int, out: Seq<char>) -> Seq<
    char,
>
    decreases s.len() - i,
{
    if i < 0 || i >= s.len() {
        out
    } else {
        let c = s[i];
        let next = at(s, i + 1);
        if mode == 1 {
            if c == '\'' && next == Some('\'') {
                powershell_decoded_from(s, i + 2, 1, out.push('\''))
            } else if c == '\'' {
                powershell_decoded_from(s, i + 1, 0, out)
            } else {
                powershell_decoded_from(s, i + 1, 1, out.push(c))
            }
        } else if c == '`' {
            match next {
                Some(n) => powershell_decoded_from(
                    s,
                    i + 2,
                    mode,
                    out.push(
                        if mode == 2 {
                            powershell_escape(n)
                        } else {
                            n
                        },
                    ),
                ),
                None => out,
            }
        } else if mode == 2 {
            if c == '"' && next == Some('"') {
                powershell_decoded_from(s, i + 2, 2, out.push('"'))
            } else if c == '"' {
                powershell_decoded_from(s, i + 1, 0, out)
            } else {
                powershell_decoded_from(s, i + 1, 2, out.push(c))
            }
        } else if c == '\'' {
            powershell_decoded_from(s, i + 1, 1, out)
        } else if c == '"' {
            powershell_decoded_from(s, i + 1, 2, out)
        } else {
            powershell_decoded_from(s, i + 1, 0, out.push(c))
        }
    }
}

/// What a PowerShell word decodes to: quotes and escapes removed, nothing
/// expanded.
pub open spec fn powershell_decoded(s: Seq<char>) -> Seq<char> {
    powershell_decoded_from(s, 0, 0, Seq::empty())
}

/// What a PowerShell word decodes to.
pub fn decode_powershell(s: &[char]) -> (r: Vec<char>)
    ensures
        r@ == powershell_decoded(s@),
{
    let mut out: Vec<char> = Vec::new();
    let mut i: usize = 0;
    let mut mode: u8 = 0;
    while i < s.len()
        invariant
            0 <= i <= s.len(),
            mode <= 2,
            powershell_decoded(s@) == powershell_decoded_from(s@, i as int, mode as int, out@),
        decreases s.len() - i,
    {
        let c = s[i];
        let next = get(s, i + 1);
        if mode == 1 {
            if c == '\'' && next == Some('\'') {
                out.push('\'');
                i += 2;
            } else if c == '\'' {
                mode = 0;
                i += 1;
            } else {
                out.push(c);
                i += 1;
            }
        } else if c == '`' {
            match next {
                Some(n) => {
                    out.push(
                        if mode == 2 {
                            escape_powershell(n)
                        } else {
                            n
                        },
                    );
                    i += 2;
                },
                None => {
                    return out;
                },
            }
        } else if mode == 2 {
            if c == '"' && next == Some('"') {
                out.push('"');
                i += 2;
            } else if c == '"' {
                mode = 0;
                i += 1;
            } else {
                out.push(c);
                i += 1;
            }
        } else if c == '\'' {
            mode = 1;
            i += 1;
        } else if c == '"' {
            mode = 2;
            i += 1;
        } else {
            out.push(c);
            i += 1;
        }
    }
    out
}

/// What a Cmd word decodes to from position `i` on, behind `out`.
pub open spec fn cmd_decoded_from(s: Seq<char>, i: int, quoted: bool, out: Seq<char>) -> Seq<char>
    decreases s.len() - i,
{
    if i < 0 || i >= s.len() {
        out
    } else if s[i] == '"' {
        cmd_decoded_from(s, i + 1, !quoted, out)
    } else if s[i] == '^' && !quoted {
        match at(s, i + 1) {
            Some(n) => cmd_decoded_from(s, i + 2, quoted, out.push(n)),
            None => out,
        }
    } else {
        cmd_decoded_from(s, i + 1, quoted, out.push(s[i]))
    }
}

/// What a Cmd word decodes to: double quotes and carets removed, nothing
/// expanded.
pub open spec fn cmd_decoded(s: Seq<char>) -> Seq<char> {
    cmd_decoded_from(s, 0, false, Seq::empty())
}

/// What a Cmd word decodes to.
pub fn decode_cmd(s: &[char]) -> (r: Vec<char>)
    ensures
        r@ == cmd_decoded(s@),
{
    let mut out: Vec<char> = Vec::new();
    let mut i: usize = 0;
    let mut quoted = false;
    while i < s.len()
        invariant
            0 <= i <= s.len(),
            cmd_decoded(s@) == cmd_decoded_from(s@, i as int, quoted, out@),
        decreases s.len() - i,
    {
        if s[i] == '"' {
            quoted = !quoted;
            i += 1;
        } else if s[i] == '^' && !quoted {
            match get(s, i + 1) {
                Some(n) => {
                    out.push(n);
                    i += 2;
                },
                None => {
                    return out;
                },
            }
        } else {
            out.push(s[i]);
            i += 1;
        }
    }
    out
}

/// What a word decodes to in a dialect. Words of no proven dialect stand for
/// themselves.
pub open spec fn decoded_word(raw: Seq<char>, dialect: ShellDialect) -> Seq<char> {
    match dialect {
        ShellDialect::Posix => posix_decoded(raw),
        ShellDialect::PowerShell => powershell_decoded(raw),
        ShellDialect::Cmd => cmd_decoded(raw),
        ShellDialect::Unknown => raw,
    }
}

/// What a word decodes to in a dialect.
pub fn decode_word(raw: &[char], dialect: ShellDialect) -> (r: Vec<char>)
    ensures
        r@ == decoded_word(raw@, dialect),
{
    match dialect {
        ShellDialect::Posix => decode_posix(raw),
        ShellDialect::PowerShell => decode_powershell(raw),
        ShellDialect::Cmd => decode_cmd(raw),
        ShellDialect::Unknown => copy_of(raw),
    }
}

/// Whether a word ends decoding: PowerShell's stop-parsing token `--%`, behind
/// which every word stands for itself.
pub open spec fn stops_parsing(raw: Seq<char>, dialect: ShellDialect, role: ShellTokenRole) -> bool {
    dialect == ShellDialect::PowerShell && role == ShellTokenRole::Syntax && raw == "--%"@
}

/// What the next word of a command decodes to, `literal` telling whether
/// decoding has ended before it; `None` for the token that ends it.
pub open spec fn decoded_next(
    raw: Seq<char>,
    dialect: ShellDialect,
    role: ShellTokenRole,
    literal: bool,
) -> Option<Seq<char>> {
    if literal {
        Some(raw)
    } else if stops_parsing(raw, dialect, role) {
        None
    } else {
        Some(decoded_word(raw, dialect))
    }
}

/// Decodes the words of one command, in order.
#[derive(Debug, Clone, Copy)]
pub struct ShellTokenDecoder {
    pub dialect: ShellDialect,
    pub literal: bool,
}

impl ShellTokenDecoder {
    /// A decoder that has seen no word yet.
    pub fn new(dialect: ShellDialect) -> (r: Self)
        ensures
            r.dialect == dialect,
            !r.literal,
    {
        ShellTokenDecoder { dialect, literal: false }
    }

    /// What the next word decodes to; `None` for the token that ends decoding.
    pub fn decode(&mut self, raw: &[char], role: ShellTokenRole) -> (r: Option<Vec<char>>)
        ensures
            final(self).dialect == old(self).dialect,
            final(self).literal == (old(self).literal || stops_parsing(
                raw@,
                old(self).dialect,
                role,
            )),
            match r {
                Some(v) => decoded_next(raw@, old(self).dialect, role, old(self).literal) == Some(
                    v@,
                ),
                None => decoded_next(raw@, old(self).dialect, role, old(self).literal) is None,
            },
    {
        if self.literal {
            return Some(copy_of(raw));
        }
        if self.dialect == ShellDialect::PowerShell && role == ShellTokenRole::Syntax && is_str(
            raw,
            "--%",
        ) {
            self.literal = true;
            return None;
        }
        Some(decode_word(raw, self.dialect))
    }
}

/// The characters of a word that stand for themselves are read one by one.
proof fn plain_characters_are_read(s: Seq<char>, i: int)
    requires
        0 <= i <= s.len(),
        forall|k: int|
            0 <= k < s.len() ==> s[k] != '\\' && s[k] != '\'' && s[k] != '"' && s[k] != '$',
    ensures
        posix_decoded_from(s, i, 0, s.subrange(0, i)) == s,
    decreases s.len() - i,
{
    if i < s.len() {
        assert(s.subrange(0, i).push(s[i]) =~= s.subrange(0, i + 1));
        plain_characters_are_read(s, i + 1);
    } else {
        assert(s.subrange(0, i) =~= s);
    }
}

/// A POSIX word without quotes, escapes and expansions decodes to itself.
pub proof fn plain_word_decodes_to_itself(s: Seq<char>)
    requires
        forall|k: int|
            0 <= k < s.len() ==> s[k] != '\\' && s[k] != '\'' && s[k] != '"' && s[k] != '$',
    ensures
        posix_decoded(s) == s,
{
    plain_characters_are_read(s, 0);
    assert(s.subrange(0, 0) =~= Seq::<char>::empty());
}

} // verus!
