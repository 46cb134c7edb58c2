//! Texts of which only parts are known.

use vstd::prelude::*;
use crate::text::{
    at_text, ends, find_from, find_text, found_no_later, found_stands_there, rest, starts, texts,
};

verus! {

/// The literal parts from the `k`th on with the texts of `fill` between them.
pub open spec fn woven(parts: Seq<Seq<char>>, fill: Seq<Seq<char>>, k: int) -> Seq<char>
    decreases parts.len() - k,
{
    if k < 0 || k + 1 >= parts.len() {
        parts.last()
    } else {
        parts[k] + fill[k] + woven(parts, fill, k + 1)
    }
}

/// Whether a word with these literal parts may become `candidate`: with some text
/// in each place between two of them it is the candidate. A single part, with no
/// place to fill, is to stand at both ends of the candidate.
pub open spec fn parts_may_form(parts: Seq<Seq<char>>, candidate: Seq<char>) -> bool {
    if parts.len() < 2 {
        starts(candidate, parts[0]) && ends(candidate, parts[0]) && 2 * parts[0].len()
            <= candidate.len()
    } else {
        exists|fill: Seq<Seq<char>>|
            fill.len() + 1 == parts.len() && #[trigger] woven(parts, fill, 0) == candidate
    }
}

/// Where the matching of the literal parts `k..last` against `candidate` ends
/// when each stands as early as it can from `offset` on; -1 when one is missing.
spec fn middle_end(parts: Seq<Seq<char>>, k: int, last: int, candidate: Seq<char>, offset: int) -> int
    decreases last - k,
{
    if k >= last {
        offset
    } else {
        let p = find_from(candidate, offset, parts[k]);
        if p < 0 {
            -1
        } else {
            middle_end(parts, k + 1, last, candidate, p + parts[k].len())
        }
    }
}

/// Whether the literal parts, each as early as it can stand, leave room for the
/// last at the end.
spec fn parts_fit_early(parts: Seq<Seq<char>>, candidate: Seq<char>) -> bool {
    let first = parts[0];
    let last = parts.last();
    let end = middle_end(parts, 1, parts.len() - 1, candidate, first.len() as int);
    &&& starts(candidate, first)
    &&& ends(candidate, last)
    &&& 0 <= end <= candidate.len() - last.len()
}

/// Where parts stand in the candidate at all, they stand there when each is
/// matched as early as it can be: `from` is where the reading has come to, no
/// further than `to`, behind which the filled parts stand.
proof fn early_matching_finds(
    parts: Seq<Seq<char>>,
    fill: Seq<Seq<char>>,
    k: int,
    candidate: Seq<char>,
    from: int,
    to: int,
)
    requires
        1 <= k < parts.len(),
        fill.len() + 1 == parts.len(),
        0 <= from <= to <= candidate.len(),
        rest(candidate, to) == fill[k - 1] + woven(parts, fill, k),
    ensures
        0 <= middle_end(parts, k, parts.len() - 1, candidate, from) <= candidate.len()
            - parts.last().len(),
        ends(candidate, parts.last()),
    decreases parts.len() - k,
{
    let tail = rest(candidate, to);
    let gap = fill[k - 1];
    let g = gap.len() as int;
    let at = to + g;
    if k + 1 >= parts.len() {
        assert(tail.len() == gap.len() + parts.last().len());
        assert(candidate.subrange(at, candidate.len() as int) =~= tail.subrange(
            g,
            tail.len() as int,
        ));
        assert(tail.subrange(g, tail.len() as int) =~= parts.last());
    } else {
        let part = parts[k];
        let after = fill[k] + woven(parts, fill, k + 1);
        assert(woven(parts, fill, k) =~= part + after);
        assert(tail.len() == gap.len() + part.len() + after.len());
        assert(candidate.subrange(at, at + part.len()) =~= tail.subrange(
            g,
            g + part.len(),
        ));
        assert(tail.subrange(g, g + part.len()) =~= part);
        found_no_later(candidate, from, at, part);
        assert(rest(candidate, at + part.len()) =~= tail.subrange(
            g + part.len(),
            tail.len() as int,
        ));
        assert(tail.subrange(g + part.len(), tail.len() as int) =~= after);
        early_matching_finds(
            parts,
            fill,
            k + 1,
            candidate,
            find_from(candidate, from, part) + part.len(),
            at + part.len(),
        );
    }
}

/// Parts that are found one behind the other are the candidate with what stands
/// between them: the texts between, those before the place `k - 1` left open.
proof fn found_parts_are_woven(parts: Seq<Seq<char>>, k: int, candidate: Seq<char>, from: int) -> (fill:
    Seq<Seq<char>>)
    requires
        1 <= k < parts.len(),
        0 <= from <= candidate.len(),
        0 <= middle_end(parts, k, parts.len() - 1, candidate, from) <= candidate.len()
            - parts.last().len(),
        ends(candidate, parts.last()),
    ensures
        fill.len() + 1 == parts.len(),
        from <= candidate.len(),
        rest(candidate, from) == fill[k - 1] + woven(parts, fill, k),
    decreases parts.len() - k,
{
    let n = parts.len() - 1;
    if k + 1 >= parts.len() {
        let end = candidate.len() - parts.last().len();
        let gap = candidate.subrange(from, end);
        let fill = Seq::new(n as nat, |i: int| gap);
        assert(rest(candidate, from) =~= gap + parts.last());
        fill
    } else {
        let part = parts[k];
        let p = find_from(candidate, from, part);
        found_stands_there(candidate, from, part);
        let later = found_parts_are_woven(parts, k + 1, candidate, p + part.len());
        let gap = candidate.subrange(from, p);
        let fill = later.update(k - 1, gap);
        woven_needs_later_fill(parts, later, fill, k);
        assert(fill[k] == later[k]);
        assert(rest(candidate, from) =~= gap + (part + rest(candidate, p + part.len())));
        assert(woven(parts, later, k) =~= part + (later[k] + woven(parts, later, k + 1)));
        fill
    }
}

/// The parts from the `k`th on do not depend on what stands before them.
proof fn woven_needs_later_fill(parts: Seq<Seq<char>>, a: Seq<Seq<char>>, b: Seq<Seq<char>>, k: int)
    requires
        0 <= k,
        forall|i: int| k <= i < parts.len() - 1 ==> a[i] == b[i],
    ensures
        woven(parts, a, k) == woven(parts, b, k),
    decreases parts.len() - k,
{
    if k + 1 < parts.len() {
        woven_needs_later_fill(parts, a, b, k + 1);
    }
}

/// To match each part as early as it can stand is to find out whether there are
/// texts that fill the places between them.
proof fn early_matching_is_exact(parts: Seq<Seq<char>>, candidate: Seq<char>)
    requires
        parts.len() >= 1,
    ensures
        parts_fit_early(parts, candidate) == parts_may_form(parts, candidate),
{
    if parts.len() >= 2 {
        let first = parts[0];
        if parts_may_form(parts, candidate) {
            let fill = choose|fill: Seq<Seq<char>>|
                fill.len() + 1 == parts.len() && #[trigger] woven(parts, fill, 0) == candidate;
            let after = fill[0] + woven(parts, fill, 1);
            assert(candidate =~= first + after);
            assert(candidate.subrange(0, first.len() as int) =~= first);
            assert(rest(candidate, first.len() as int) =~= after);
            early_matching_finds(
                parts,
                fill,
                1,
                candidate,
                first.len() as int,
                first.len() as int,
            );
        }
        if parts_fit_early(parts, candidate) {
            let fill = found_parts_are_woven(parts, 1, candidate, first.len() as int);
            assert(candidate =~= first + rest(candidate, first.len() as int));
            assert(woven(parts, fill, 0) =~= first + (fill[0] + woven(parts, fill, 1)));
            assert(woven(parts, fill, 0) == candidate);
        }
    }
}

/// Whether a word with these literal parts may become `candidate`.
pub fn parts_form(parts: &Vec<Vec<char>>, candidate: &[char]) -> (r: bool)
    requires
        parts.len() >= 1,
    ensures
        r == parts_may_form(texts(parts@), candidate@),
{
    let ghost views = texts(parts@);
    proof {
        early_matching_is_exact(views, candidate@);
    }
    let n = parts.len();
    let first = parts[0].as_slice();
    let last = parts[n - 1].as_slice();
    assert(views.last() == last@);
    assert(views[0] == first@);
    if !at_text(candidate, 0, first) {
        return false;
    }
    if last.len() > candidate.len() || !at_text(candidate, candidate.len() - last.len(), last) {
        return false;
    }
    let mut offset: usize = first.len();
    let mut k: usize = 1;
    while k < n - 1
        invariant
            1 <= k,
            n == parts.len(),
            n >= 1,
            views == texts(parts@),
            offset <= candidate.len(),
            parts_fit_early(views, candidate@) == parts_may_form(views, candidate@),
            middle_end(views, 1, n - 1, candidate@, views[0].len() as int) == middle_end(
                views,
                k as int,
                n - 1,
                candidate@,
                offset as int,
            ),
        decreases n - k,
    {
        let part = parts[k].as_slice();
        assert(views[k as int] == part@);
        match find_text(candidate, offset, part) {
            None => {
                assert(middle_end(views, k as int, n - 1, candidate@, offset as int) == -1);
                return false;
            },
            Some(p) => {
                offset = p + part.len();
            },
        }
        k += 1;
    }
    offset <= candidate.len() - last.len()
}

} // verus!
