//! Cutting a command line into the simple commands that it runs.

use vstd::prelude::*;
use vstd::slice::slice_subrange;
use crate::shell::token::{
    advance, at, get, onward, skip_ticks, tick_end, tokenize_for_shell_dialect, tokens,
    NormalizeToken, ShellDialect,
};
use crate::text::{index_from, next_index};

verus! {

/// How deep command substitutions are followed.
pub const MAX_SUBSTITUTION_DEPTH: usize = 32;

/// A simple command of a command line: the characters `start..end`.
#[derive(Debug, Clone, Copy, PartialEq, Eq, Structural)]
pub struct Segment {
    pub start: usize,
    pub end: usize,
}

impl Segment {
    /// Whether the segment lies within a text of `len` characters.
    pub open spec fn fits(self, len: int) -> bool {
        self.start <= self.end <= len
    }

    /// The characters of the segment.
    pub open spec fn of(self, s: Seq<char>) -> Seq<char> {
        s.subrange(self.start as int, self.end as int)
    }

    /// The characters of the segment.
    pub fn text<'a>(&self, s: &'a [char]) -> (r: &'a [char])
        requires
            self.fits(s@.len() as int),
        ensures
            r@ == self.of(s@),
    {
        slice_subrange(s, self.start, self.end)
    }
}

/// The position behind the parenthesis that closes the group around position
/// `i`; `open` holds what is open there, as in
/// [`crate::shell::token::posix_word_end`].
pub open spec fn group_end(s: Seq<char>, i: int, open: Seq<bool>) -> int
    decreases s.len() - i,
{
    if i < 0 || i >= s.len() {
        s.len() as int
    } else if open.len() == 0 {
        i
    } else if s[i] == '\\' {
        group_end(s, onward(i, i + 2, s.len() as int), open)
    } else if s[i] == '\'' && !open.last() {
        group_end(s, onward(i, next_index(s, i + 1, '\'') + 1, s.len() as int), open)
    } else if s[i] == '"' {
        group_end(
            s,
            i + 1,
            if open.last() {
                open.drop_last()
            } else {
                open.push(true)
            },
        )
    } else if s[i] == '`' {
        group_end(s, onward(i, tick_end(s, i + 1), s.len() as int), open)
    } else if s[i] == '$' && at(s, i + 1) == Some('(') {
        group_end(s, i + 2, open.push(false))
    } else if s[i] == '(' && !open.last() {
        group_end(s, i + 1, open.push(false))
    } else if s[i] == ')' && !open.last() {
        group_end(s, i + 1, open.drop_last())
    } else {
        group_end(s, i + 1, open)
    }
}

/// The position behind the parenthesis that closes the group whose body starts
/// at `start`.
fn skip_group(s: &[char], start: usize) -> (r: usize)
    requires
        start <= s.len(),
    ensures
        r == group_end(s@, start as int, seq![false]),
        start <= r <= s.len(),
{
    let mut i: usize = start;
    let mut open: Vec<bool> = Vec::new();
    open.push(false);
    assert(open@ =~= seq![false]);
    while i < s.len() && open.len() > 0
        invariant
            start <= i <= s.len(),
            group_end(s@, start as int, seq![false]) == group_end(s@, i as int, open@),
        decreases s.len() - i,
    {
        let c = s[i];
        let quoted = open[open.len() - 1];
        if c == '\\' {
            i = advance(i, 2, s.len());
        } else if c == '\'' && !quoted {
            let j = index_from(s, i + 1, '\'');
            i = if j < s.len() {
                j + 1
            } else {
                j
            };
        } else if c == '"' {
            if quoted {
                open.pop();
            } else {
                open.push(true);
            }
            i += 1;
        } else if c == '`' {
            i = skip_ticks(s, i + 1);
        } else if c == '$' && get(s, i + 1) == Some('(') {
            open.push(false);
            i += 2;
        } else if c == '(' && !quoted {
            open.push(false);
            i += 1;
        } else if c == ')' && !quoted {
            open.pop();
            i += 1;
        } else {
            i += 1;
        }
    }
    i
}

/// The end of a body whose closing character stands just before `end`.
pub open spec fn body_end(start: int, end: int) -> int {
    if end > start {
        end - 1
    } else {
        start
    }
}

/// The bodies of the command substitutions in the word `i..end`, behind `out`.
pub open spec fn bodies_from(
    s: Seq<char>,
    i: int,
    end: int,
    quoted: bool,
    out: Seq<Segment>,
) -> Seq<Segment>
    decreases end - i,
{
    if i < 0 || i >= end || end > s.len() {
        out
    } else if s[i] == '\\' {
        bodies_from(s, onward(i, i + 2, end), end, quoted, out)
    } else if s[i] == '\'' && !quoted {
        bodies_from(s, onward(i, next_index(s, i + 1, '\'') + 1, end), end, quoted, out)
    } else if s[i] == '"' {
        bodies_from(s, i + 1, end, !quoted, out)
    } else if s[i] == '`' {
        let j = onward(i, tick_end(s, i + 1), end);
        bodies_from(
            s,
            j,
            end,
            quoted,
            out.push(Segment { start: (i + 1) as usize, end: body_end(i + 1, j) as usize }),
        )
    } else if (s[i] == '$' || (!quoted && (s[i] == '<' || s[i] == '>'))) && i + 2 <= end
        && s[i + 1] == '(' {
        let j = onward(i + 1, group_end(s, i + 2, seq![false]), end);
        bodies_from(
            s,
            j,
            end,
            quoted,
            out.push(Segment { start: (i + 2) as usize, end: body_end(i + 2, j) as usize }),
        )
    } else {
        bodies_from(s, i + 1, end, quoted, out)
    }
}

/// The bodies of the command substitutions in a word.
fn substitution_bodies(s: &[char], start: usize, end: usize) -> (r: Vec<Segment>)
    requires
        start <= end <= s.len(),
    ensures
        r@ == bodies_from(s@, start as int, end as int, false, Seq::empty()),
        forall|k: int| 0 <= k < r@.len() ==> (#[trigger] r@[k]).fits(s@.len() as int),
{
    let mut out: Vec<Segment> = Vec::new();
    let mut i: usize = start;
    let mut quoted = false;
    while i < end
        invariant
            start <= i <= end <= s.len(),
            bodies_from(s@, start as int, end as int, false, Seq::empty()) == bodies_from(
                s@,
                i as int,
                end as int,
                quoted,
                out@,
            ),
            forall|k: int| 0 <= k < out@.len() ==> (#[trigger] out@[k]).fits(s@.len() as int),
        decreases end - i,
    {
        let c = s[i];
        if c == '\\' {
            i = advance(i, 2, end);
        } else if c == '\'' && !quoted {
            let j = index_from(s, i + 1, '\'');
            i = if j < end {
                j + 1
            } else {
                end
            };
        } else if c == '"' {
            quoted = !quoted;
            i += 1;
        } else if c == '`' {
            let t = skip_ticks(s, i + 1);
            let j = if t <= end && t > i {
                t
            } else {
                end
            };
            out.push(
                Segment {
                    start: i + 1,
                    end: if j > i + 1 {
                        j - 1
                    } else {
                        i + 1
                    },
                },
            );
            i = j;
        } else if (c == '$' || (!quoted && (c == '<' || c == '>'))) && end - i >= 2 && s[i + 1]
            == '(' {
            let t = skip_group(s, i + 2);
            let j = if t <= end && t > i + 1 {
                t
            } else {
                end
            };
            out.push(
                Segment {
                    start: i + 2,
                    end: if j > i + 2 {
                        j - 1
                    } else {
                        i + 2
                    },
                },
            );
            i = j;
        } else {
            i += 1;
        }
    }
    out
}

/// Whether the commands inside a word's substitutions are cut out as well.
pub open spec fn follows_substitutions(dialect: ShellDialect) -> bool {
    dialect == ShellDialect::Posix || dialect == ShellDialect::Unknown
}

/// `out` with the segment `start..end` behind it, unless none is open
/// (`start` is negative).
pub open spec fn closed(out: Seq<Segment>, base: int, start: int, end: int) -> Seq<Segment> {
    if start < 0 {
        out
    } else {
        out.push(Segment { start: (base + start) as usize, end: (base + end) as usize })
    }
}

/// The segments of the commands in the bodies from the `j`th on, behind `out`.
pub open spec fn body_segments(
    s: Seq<char>,
    base: int,
    dialect: ShellDialect,
    depth: nat,
    bodies: Seq<Segment>,
    j: int,
    out: Seq<Segment>,
) -> Seq<Segment>
    decreases depth, 0int, bodies.len() - j,
{
    if j < 0 || j >= bodies.len() || depth == 0 {
        out
    } else {
        body_segments(
            s,
            base,
            dialect,
            depth,
            bodies,
            j + 1,
            segments_at(
                bodies[j].of(s),
                base + bodies[j].start,
                dialect,
                (depth - 1) as nat,
                out,
            ),
        )
    }
}

/// The segments of the tokens from the `k`th on, behind `out`, while the segment
/// `start..end` is open.
pub open spec fn token_segments(
    s: Seq<char>,
    base: int,
    dialect: ShellDialect,
    depth: nat,
    toks: Seq<NormalizeToken>,
    k: int,
    start: int,
    end: int,
    out: Seq<Segment>,
) -> Seq<Segment>
    decreases depth, 1int, toks.len() - k,
{
    if k < 0 || k >= toks.len() {
        closed(out, base, start, end)
    } else if !toks[k].word() {
        token_segments(
            s,
            base,
            dialect,
            depth,
            toks,
            k + 1,
            -1,
            -1,
            closed(out, base, start, end),
        )
    } else {
        let inner = if follows_substitutions(dialect) {
            body_segments(
                s,
                base,
                dialect,
                depth,
                bodies_from(
                    s,
                    toks[k].start as int,
                    toks[k].end as int,
                    false,
                    Seq::empty(),
                ),
                0,
                out,
            )
        } else {
            out
        };
        token_segments(
            s,
            base,
            dialect,
            depth,
            toks,
            k + 1,
            if start < 0 {
                toks[k].start as int
            } else {
                start
            },
            toks[k].end as int,
            inner,
        )
    }
}

/// The segments of the text `s` that stands at position `base` of a command
/// line, behind `out`.
pub open spec fn segments_at(
    s: Seq<char>,
    base: int,
    dialect: ShellDialect,
    depth: nat,
    out: Seq<Segment>,
) -> Seq<Segment>
    decreases depth, 2int, 0int,
{
    token_segments(s, base, dialect, depth, tokens(s, dialect), 0, -1, -1, out)
}

/// The simple commands of a command line: the words between separators, and
/// before each of them the commands in its substitutions.
pub open spec fn segments(s: Seq<char>, dialect: ShellDialect) -> Seq<Segment> {
    segments_at(s, 0, dialect, MAX_SUBSTITUTION_DEPTH as nat, Seq::empty())
}

/// Adds the segments of the text `lo..hi` of a command line.
fn add_segments(s: &[char], lo: usize, hi: usize, dialect: ShellDialect, depth: usize, out: &mut Vec<
    Segment,
>)
    requires
        lo <= hi <= s.len(),
        forall|k: int| 0 <= k < old(out)@.len() ==> (#[trigger] old(out)@[k]).fits(s@.len() as int),
    ensures
        final(out)@ == segments_at(
            s@.subrange(lo as int, hi as int),
            lo as int,
            dialect,
            depth as nat,
            old(out)@,
        ),
        forall|k: int|
            0 <= k < final(out)@.len() ==> (#[trigger] final(out)@[k]).fits(s@.len() as int),
    decreases depth,
{
    let part = slice_subrange(s, lo, hi);
    let toks = tokenize_for_shell_dialect(part, dialect);
    let mut k: usize = 0;
    let mut open: Option<(usize, usize)> = None;
    let ghost target = segments_at(part@, lo as int, dialect, depth as nat, old(out)@);
    while k < toks.len()
        invariant
            0 <= k <= toks.len(),
            lo <= hi <= s.len(),
            part@ == s@.subrange(lo as int, hi as int),
            forall|j: int| 0 <= j < toks@.len() ==> (#[trigger] toks@[j]).fits(part@.len() as int),
            forall|j: int|
                0 <= j < out@.len() ==> (#[trigger] out@[j]).fits(s@.len() as int),
            open matches Some(o) ==> o.0 <= o.1 <= part@.len() && (k < toks@.len() ==> o.1
                <= toks@[k as int].start),
            forall|a: int, b: int| 0 <= a < b < toks@.len() ==> toks@[a].end <= toks@[b].start,
            target == token_segments(
                part@,
                lo as int,
                dialect,
                depth as nat,
                toks@,
                k as int,
                match open {
                    Some(o) => o.0 as int,
                    None => -1,
                },
                match open {
                    Some(o) => o.1 as int,
                    None => -1,
                },
                out@,
            ),
        decreases toks.len() - k,
    {
        let t = toks[k];
        if !t.is_word() {
            if let Some(o) = open {
                out.push(Segment { start: lo + o.0, end: lo + o.1 });
            }
            open = None;
        } else {
            if (dialect == ShellDialect::Posix || dialect == ShellDialect::Unknown) {
                let bodies = substitution_bodies(part, t.start, t.end);
                let ghost before = out@;
                if depth > 0 {
                    let mut j: usize = 0;
                    while j < bodies.len()
                        invariant
                            0 <= j <= bodies.len(),
                            depth > 0,
                            lo <= hi <= s.len(),
                            part@ == s@.subrange(lo as int, hi as int),
                            forall|a: int|
                                0 <= a < bodies@.len() ==> (#[trigger] bodies@[a]).fits(
                                    part@.len() as int,
                                ),
                            forall|a: int|
                                0 <= a < out@.len() ==> (#[trigger] out@[a]).fits(s@.len() as int),
                            body_segments(
                                part@,
                                lo as int,
                                dialect,
                                depth as nat,
                                bodies@,
                                0,
                                before,
                            ) == body_segments(
                                part@,
                                lo as int,
                                dialect,
                                depth as nat,
                                bodies@,
                                j as int,
                                out@,
                            ),
                        decreases bodies.len() - j,
                    {
                        let b = bodies[j];
                        assert(b.fits(part@.len() as int));
                        assert(b.of(part@) =~= s@.subrange(lo + b.start, lo + b.end));
                        add_segments(s, lo + b.start, lo + b.end, dialect, depth - 1, out);
                        j += 1;
                    }
                }
                assert(body_segments(
                    part@,
                    lo as int,
                    dialect,
                    depth as nat,
                    bodies@,
                    0,
                    before,
                ) == out@);
            }
            open = match open {
                Some(o) => Some((o.0, t.end)),
                None => Some((t.start, t.end)),
            };
        }
        k += 1;
    }
    if let Some(o) = open {
        out.push(Segment { start: lo + o.0, end: lo + o.1 });
    }
}

/// The simple commands of a command line in a dialect.
pub fn split_command_segments_in_dialect(s: &[char], dialect: ShellDialect) -> (r: Vec<Segment>)
    ensures
        r@ == segments(s@, dialect),
        forall|k: int| 0 <= k < r@.len() ==> (#[trigger] r@[k]).fits(s@.len() as int),
{
    let mut out: Vec<Segment> = Vec::new();
    assert(s@.subrange(0, s@.len() as int) =~= s@);
    add_segments(s, 0, s.len(), dialect, MAX_SUBSTITUTION_DEPTH, &mut out);
    out
}

/// The simple commands of a command line whose dialect is not proven.
pub fn split_command_segments(s: &[char]) -> (r: Vec<Segment>)
    ensures
        r@ == segments(s@, ShellDialect::Unknown),
        forall|k: int| 0 <= k < r@.len() ==> (#[trigger] r@[k]).fits(s@.len() as int),
{
    split_command_segments_in_dialect(s, ShellDialect::Unknown)
}

/// Whether the last segment is the whole text: one simple command, with nothing
/// around it.
pub open spec fn is_single(s: Seq<char>, dialect: ShellDialect) -> bool {
    let segs = segments(s, dialect);
    segs.len() > 0 ==> segs.last().of(s) == s
}

/// Whether the last segment is the whole text.
pub fn single(s: &[char], dialect: ShellDialect) -> (r: bool)
    ensures
        r == is_single(s@, dialect),
{
    let segs = split_command_segments_in_dialect(s, dialect);
    if segs.len() == 0 {
        return true;
    }
    let last = segs[segs.len() - 1];
    assert(last.fits(s@.len() as int));
    crate::text::same(last.text(s), s)
}

} // verus!
