//! Text as sequences of characters: the comparisons, searches and cuts that
//! the shell analyses are written in.

use vstd::prelude::*;
use vstd::slice::slice_subrange;

verus! {

/// `String::push` appends one character.
pub assume_specification[ String::push ](s: &mut String, c: char)
    ensures
        final(s)@ == old(s)@.push(c),
;

/// The characters of `s`, in order.
pub fn chars_of(s: &str) -> (r: Vec<char>)
    ensures
        r@ == s@,
{
    let mut r: Vec<char> = Vec::new();
    let mut it = s.chars();
    assert(vstd::std_specs::iter::IteratorSpec::remaining(&it) == s@);
    loop
        invariant
            r@ + vstd::std_specs::iter::IteratorSpec::remaining(&it) == s@,
            vstd::std_specs::iter::IteratorSpec::decrease(&it) is Some,
            vstd::std_specs::iter::IteratorSpec::obeys_prophetic_iter_laws(&it),
        ensures
            r@ == s@,
        decreases s@.len() - r@.len(),
    {
        match it.next() {
            Some(c) => {
                r.push(c);
                assert(r@ + vstd::std_specs::iter::IteratorSpec::remaining(&it) =~= s@);
            },
            None => {
                assert(r@ =~= s@);
                break;
            },
        }
    }
    r
}

/// The string whose characters are those of `s`.
pub fn text_of(s: &[char]) -> (r: String)
    ensures
        r@ == s@,
{
    let mut r = String::new();
    let mut i: usize = 0;
    while i < s.len()
        invariant
            0 <= i <= s.len(),
            r@ == s@.subrange(0, i as int),
        decreases s.len() - i,
    {
        r.push(s[i]);
        i += 1;
        assert(s@.subrange(0, i as int) =~= s@.subrange(0, i - 1).push(s@[i - 1]));
    }
    assert(s@.subrange(0, s@.len() as int) =~= s@);
    r
}

/// A copy of the slice.
pub fn copy_of(s: &[char]) -> (r: Vec<char>)
    ensures
        r@ == s@,
{
    let mut r: Vec<char> = Vec::new();
    let mut i: usize = 0;
    while i < s.len()
        invariant
            0 <= i <= s.len(),
            r@ == s@.subrange(0, i as int),
        decreases s.len() - i,
    {
        r.push(s[i]);
        i += 1;
        assert(s@.subrange(0, i as int) =~= s@.subrange(0, i - 1).push(s@[i - 1]));
    }
    assert(s@.subrange(0, s@.len() as int) =~= s@);
    r
}

/// Appends the characters of `s`.
pub fn push_all(out: &mut Vec<char>, s: &[char])
    ensures
        final(out)@ == old(out)@ + s@,
{
    let mut i: usize = 0;
    while i < s.len()
        invariant
            0 <= i <= s.len(),
            out@ == old(out)@ + s@.subrange(0, i as int),
        decreases s.len() - i,
    {
        out.push(s[i]);
        i += 1;
        assert(s@.subrange(0, i as int) =~= s@.subrange(0, i - 1).push(s@[i - 1]));
    }
    assert(s@.subrange(0, s@.len() as int) =~= s@);
}

/// Appends the characters of a string.
pub fn push_str(out: &mut Vec<char>, s: &str)
    ensures
        final(out)@ == old(out)@ + s@,
{
    let v = chars_of(s);
    push_all(out, v.as_slice());
}

/// Whether two texts are equal.
pub fn same(a: &[char], b: &[char]) -> (r: bool)
    ensures
        r == (a@ == b@),
{
    if a.len() != b.len() {
        return false;
    }
    let mut i: usize = 0;
    while i < a.len()
        invariant
            0 <= i <= a.len(),
            a.len() == b.len(),
            forall|j: int| 0 <= j < i ==> a@[j] == b@[j],
        decreases a.len() - i,
    {
        if a[i] != b[i] {
            return false;
        }
        i += 1;
    }
    assert(a@ =~= b@);
    true
}

/// Whether `lit` stands in `s` at position `at`.
pub open spec fn occurs_at(s: Seq<char>, at: int, lit: Seq<char>) -> bool {
    0 <= at && at + lit.len() <= s.len() && s.subrange(at, at + lit.len()) == lit
}

/// Whether `s` begins with `lit`.
pub open spec fn starts(s: Seq<char>, lit: Seq<char>) -> bool {
    occurs_at(s, 0, lit)
}

/// Whether `s` ends with `lit`.
pub open spec fn ends(s: Seq<char>, lit: Seq<char>) -> bool {
    occurs_at(s, s.len() - lit.len(), lit)
}

/// Whether `lit` stands anywhere in `s`.
pub open spec fn contains_text(s: Seq<char>, lit: Seq<char>) -> bool {
    exists|i: int| occurs_at(s, i, lit)
}

/// What is left of `s` from position `from` on.
pub open spec fn rest(s: Seq<char>, from: int) -> Seq<char> {
    s.subrange(from, s.len() as int)
}

/// Whether `lit` stands in `s` at position `at`.
pub fn at_text(s: &[char], at: usize, lit: &[char]) -> (r: bool)
    ensures
        r == occurs_at(s@, at as int, lit@),
{
    if at > s.len() || lit.len() > s.len() - at {
        return false;
    }
    let mut i: usize = 0;
    while i < lit.len()
        invariant
            0 <= i <= lit.len(),
            at + lit.len() <= s.len(),
            forall|j: int| 0 <= j < i ==> s@[at + j] == lit@[j],
        decreases lit.len() - i,
    {
        if s[at + i] != lit[i] {
            assert(s@.subrange(at as int, at + lit@.len())[i as int] != lit@[i as int]);
            return false;
        }
        i += 1;
    }
    assert(s@.subrange(at as int, at + lit@.len()) =~= lit@);
    true
}

/// Whether the literal stands in `s` at position `at`.
pub fn at_str(s: &[char], at: usize, lit: &str) -> (r: bool)
    ensures
        r == occurs_at(s@, at as int, lit@),
{
    if at > s.len() {
        return false;
    }
    let mut i: usize = 0;
    let mut it = lit.chars();
    loop
        invariant
            0 <= at <= s.len(),
            0 <= i <= s.len() - at,
            i <= lit@.len(),
            forall|j: int| 0 <= j < i ==> s@[at + j] == lit@[j],
            vstd::std_specs::iter::IteratorSpec::remaining(&it) == lit@.subrange(
                i as int,
                lit@.len() as int,
            ),
            vstd::std_specs::iter::IteratorSpec::decrease(&it) is Some,
            vstd::std_specs::iter::IteratorSpec::obeys_prophetic_iter_laws(&it),
        decreases s.len() - at - i,
    {
        match it.next() {
            Some(c) => {
                if i >= s.len() - at {
                    return false;
                }
                if s[at + i] != c {
                    assert(at + lit@.len() <= s@.len() ==> s@.subrange(
                        at as int,
                        at + lit@.len(),
                    )[i as int] != lit@[i as int]);
                    return false;
                }
                i += 1;
            },
            None => {
                assert(i == lit@.len());
                assert(s@.subrange(at as int, at + lit@.len()) =~= lit@);
                return true;
            },
        }
    }
}

/// Whether `s` is the literal.
pub fn is_str(s: &[char], lit: &str) -> (r: bool)
    ensures
        r == (s@ == lit@),
{
    let mut i: usize = 0;
    let mut it = lit.chars();
    loop
        invariant
            0 <= i <= s.len(),
            i <= lit@.len(),
            forall|j: int| 0 <= j < i ==> s@[j] == lit@[j],
            vstd::std_specs::iter::IteratorSpec::remaining(&it) == lit@.subrange(
                i as int,
                lit@.len() as int,
            ),
            vstd::std_specs::iter::IteratorSpec::decrease(&it) is Some,
            vstd::std_specs::iter::IteratorSpec::obeys_prophetic_iter_laws(&it),
        decreases s.len() - i,
    {
        match it.next() {
            Some(c) => {
                if i >= s.len() || s[i] != c {
                    return false;
                }
                i += 1;
            },
            None => {
                assert(i == lit@.len());
                if i == s.len() {
                    assert(s@ =~= lit@);
                    return true;
                }
                return false;
            },
        }
    }
}

/// Whether `s` begins with the literal.
pub fn starts_str(s: &[char], lit: &str) -> (r: bool)
    ensures
        r == starts(s@, lit@),
{
    at_str(s, 0, lit)
}

/// Whether `s` ends with the literal.
pub fn ends_str(s: &[char], lit: &str) -> (r: bool)
    ensures
        r == ends(s@, lit@),
{
    let v = chars_of(lit);
    if v.len() > s.len() {
        return false;
    }
    at_text(s, s.len() - v.len(), v.as_slice())
}

/// Whether the literal stands anywhere in `s`.
pub fn has_str(s: &[char], lit: &str) -> (r: bool)
    ensures
        r == contains_text(s@, lit@),
{
    let mut i: usize = 0;
    while i < s.len()
        invariant
            0 <= i <= s.len(),
            forall|j: int| 0 <= j < i ==> !occurs_at(s@, j, lit@),
        decreases s.len() - i,
    {
        if at_str(s, i, lit) {
            return true;
        }
        i += 1;
    }
    let last = at_str(s, i, lit);
    assert(contains_text(s@, lit@) ==> last) by {
        if contains_text(s@, lit@) {
            let k = choose|k: int| occurs_at(s@, k, lit@);
            assert(k == s@.len());
        }
    }
    last
}

/// Whether the character stands anywhere in `s`.
pub fn has_char(s: &[char], c: char) -> (r: bool)
    ensures
        r == s@.contains(c),
{
    let mut i: usize = 0;
    while i < s.len()
        invariant
            0 <= i <= s.len(),
            forall|j: int| 0 <= j < i ==> s@[j] != c,
        decreases s.len() - i,
    {
        if s[i] == c {
            return true;
        }
        i += 1;
    }
    false
}

/// The first position from `from` on that holds `c`; the length when none does.
pub open spec fn next_index(s: Seq<char>, from: int, c: char) -> int
    decreases s.len() - from,
{
    if from >= s.len() || from < 0 {
        s.len() as int
    } else if s[from] == c {
        from
    } else {
        next_index(s, from + 1, c)
    }
}

/// Where [`next_index`] stands, in terms of the characters.
pub proof fn next_index_is_first(s: Seq<char>, from: int, c: char)
    requires
        0 <= from <= s.len(),
    ensures
        from <= next_index(s, from, c) <= s.len(),
        forall|j: int| from <= j < next_index(s, from, c) ==> s[j] != c,
        next_index(s, from, c) < s.len() ==> s[next_index(s, from, c)] == c,
    decreases s.len() - from,
{
    if from < s.len() && s[from] != c {
        next_index_is_first(s, from + 1, c);
    }
}

/// The first position from `from` on that holds `c`; the length when none does.
pub fn index_from(s: &[char], from: usize, c: char) -> (r: usize)
    requires
        from <= s.len(),
    ensures
        r == next_index(s@, from as int, c),
        from <= r <= s.len(),
        r < s.len() ==> s@[r as int] == c,
        forall|j: int| from <= j < r ==> s@[j] != c,
{
    proof {
        next_index_is_first(s@, from as int, c);
    }
    let mut i: usize = from;
    while i < s.len() && s[i] != c
        invariant
            from <= i <= s.len(),
            next_index(s@, from as int, c) == next_index(s@, i as int, c),
            forall|j: int| from <= j < i ==> s@[j] != c,
        decreases s.len() - i,
    {
        i += 1;
    }
    i
}

/// The first position from `from` on at which `lit` stands; -1 when it does not.
pub open spec fn find_from(s: Seq<char>, from: int, lit: Seq<char>) -> int
    decreases s.len() - from + 1,
{
    if from < 0 || from > s.len() {
        -1
    } else if occurs_at(s, from, lit) {
        from
    } else {
        find_from(s, from + 1, lit)
    }
}

/// A text that stands at `at` is found there or before.
pub proof fn found_no_later(s: Seq<char>, from: int, at: int, lit: Seq<char>)
    requires
        0 <= from <= at,
        occurs_at(s, at, lit),
    ensures
        from <= find_from(s, from, lit) <= at,
        occurs_at(s, find_from(s, from, lit), lit),
    decreases at - from,
{
    if !occurs_at(s, from, lit) {
        found_no_later(s, from + 1, at, lit);
    }
}

/// A text that is found stands where it is found.
pub proof fn found_stands_there(s: Seq<char>, from: int, lit: Seq<char>)
    requires
        find_from(s, from, lit) >= 0,
    ensures
        from <= find_from(s, from, lit),
        occurs_at(s, find_from(s, from, lit), lit),
    decreases s.len() - from + 1,
{
    if 0 <= from <= s.len() && !occurs_at(s, from, lit) {
        found_stands_there(s, from + 1, lit);
    }
}

/// The first position from `from` on at which `lit` stands.
pub fn find_text(s: &[char], from: usize, lit: &[char]) -> (r: Option<usize>)
    requires
        from <= s.len(),
    ensures
        match r {
            Some(i) => i == find_from(s@, from as int, lit@) && occurs_at(s@, i as int, lit@),
            None => find_from(s@, from as int, lit@) == -1,
        },
{
    let mut i: usize = from;
    while i < s.len()
        invariant
            from <= i <= s.len(),
            find_from(s@, from as int, lit@) == find_from(s@, i as int, lit@),
        decreases s.len() - i,
    {
        if at_text(s, i, lit) {
            return Some(i);
        }
        i += 1;
    }
    if at_text(s, i, lit) {
        return Some(i);
    }
    assert(find_from(s@, i + 1, lit@) == -1);
    None
}

/// The ASCII lower case of a character.
pub open spec fn lower(c: char) -> char {
    if 'A' <= c && c <= 'Z' {
        ((c as u32) + 32) as char
    } else {
        c
    }
}

/// The ASCII upper case of a character.
pub open spec fn upper(c: char) -> char {
    if 'a' <= c && c <= 'z' {
        ((c as u32) - 32) as char
    } else {
        c
    }
}

/// The ASCII lower case of a text.
pub open spec fn lowered(s: Seq<char>) -> Seq<char> {
    Seq::new(s.len(), |i: int| lower(s[i]))
}

/// The ASCII upper case of a text.
pub open spec fn uppered(s: Seq<char>) -> Seq<char> {
    Seq::new(s.len(), |i: int| upper(s[i]))
}

/// Whether two texts are equal once ASCII case is ignored.
pub open spec fn same_nocase(a: Seq<char>, b: Seq<char>) -> bool {
    lowered(a) == lowered(b)
}

/// The ASCII lower case of a character.
pub fn to_lower(c: char) -> (r: char)
    ensures
        r == lower(c),
{
    if 'A' <= c && c <= 'Z' {
        ((c as u8) + 32) as char
    } else {
        c
    }
}

/// The ASCII upper case of a character.
pub fn to_upper(c: char) -> (r: char)
    ensures
        r == upper(c),
{
    if 'a' <= c && c <= 'z' {
        ((c as u8) - 32) as char
    } else {
        c
    }
}

/// The ASCII lower case of a text.
pub fn lower_text(s: &[char]) -> (r: Vec<char>)
    ensures
        r@ == lowered(s@),
{
    let mut r: Vec<char> = Vec::new();
    let mut i: usize = 0;
    while i < s.len()
        invariant
            0 <= i <= s.len(),
            r@.len() == i,
            forall|j: int| 0 <= j < i ==> r@[j] == lower(s@[j]),
        decreases s.len() - i,
    {
        r.push(to_lower(s[i]));
        i += 1;
    }
    assert(r@ =~= lowered(s@));
    r
}

/// The ASCII upper case of a text.
pub fn upper_text(s: &[char]) -> (r: Vec<char>)
    ensures
        r@ == uppered(s@),
{
    let mut r: Vec<char> = Vec::new();
    let mut i: usize = 0;
    while i < s.len()
        invariant
            0 <= i <= s.len(),
            r@.len() == i,
            forall|j: int| 0 <= j < i ==> r@[j] == upper(s@[j]),
        decreases s.len() - i,
    {
        r.push(to_upper(s[i]));
        i += 1;
    }
    assert(r@ =~= uppered(s@));
    r
}

/// Whether two texts are equal once ASCII case is ignored.
pub fn same_nocase_text(a: &[char], b: &[char]) -> (r: bool)
    ensures
        r == same_nocase(a@, b@),
{
    if a.len() != b.len() {
        assert(lowered(a@).len() != lowered(b@).len());
        return false;
    }
    let mut i: usize = 0;
    while i < a.len()
        invariant
            0 <= i <= a.len(),
            a.len() == b.len(),
            forall|j: int| 0 <= j < i ==> lower(a@[j]) == lower(b@[j]),
        decreases a.len() - i,
    {
        if to_lower(a[i]) != to_lower(b[i]) {
            assert(lowered(a@)[i as int] != lowered(b@)[i as int]);
            return false;
        }
        i += 1;
    }
    assert(lowered(a@) =~= lowered(b@));
    true
}

/// Whether `s` is the literal once ASCII case is ignored.
pub fn is_str_nocase(s: &[char], lit: &str) -> (r: bool)
    ensures
        r == same_nocase(s@, lit@),
{
    let v = chars_of(lit);
    same_nocase_text(s, v.as_slice())
}

/// A character with the Unicode `White_Space` property.
pub open spec fn is_white(c: char) -> bool {
    ||| '\u{9}' <= c && c <= '\u{d}'
    ||| c == ' '
    ||| c == '\u{85}'
    ||| c == '\u{a0}'
    ||| c == '\u{1680}'
    ||| '\u{2000}' <= c && c <= '\u{200a}'
    ||| c == '\u{2028}'
    ||| c == '\u{2029}'
    ||| c == '\u{202f}'
    ||| c == '\u{205f}'
    ||| c == '\u{3000}'
}

/// Whether a character has the Unicode `White_Space` property.
pub fn white(c: char) -> (r: bool)
    ensures
        r == is_white(c),
{
    ('\u{9}' <= c && c <= '\u{d}') || c == ' ' || c == '\u{85}' || c == '\u{a0}' || c == '\u{1680}'
        || ('\u{2000}' <= c && c <= '\u{200a}') || c == '\u{2028}' || c == '\u{2029}'
        || c == '\u{202f}' || c == '\u{205f}' || c == '\u{3000}'
}

/// ASCII white space: space, tab, line feed, form feed and carriage return.
pub open spec fn is_ascii_white(c: char) -> bool {
    c == ' ' || c == '\t' || c == '\n' || c == '\u{c}' || c == '\r'
}

/// Whether a character is ASCII white space.
pub fn ascii_white(c: char) -> (r: bool)
    ensures
        r == is_ascii_white(c),
{
    c == ' ' || c == '\t' || c == '\n' || c == '\u{c}' || c == '\r'
}

/// An ASCII letter.
pub open spec fn is_alpha(c: char) -> bool {
    ('a' <= c && c <= 'z') || ('A' <= c && c <= 'Z')
}

/// An ASCII digit.
pub open spec fn is_digit(c: char) -> bool {
    '0' <= c && c <= '9'
}

/// An ASCII letter or digit.
pub open spec fn is_alnum(c: char) -> bool {
    is_alpha(c) || is_digit(c)
}

/// Whether a character is an ASCII letter.
pub fn alpha(c: char) -> (r: bool)
    ensures
        r == is_alpha(c),
{
    ('a' <= c && c <= 'z') || ('A' <= c && c <= 'Z')
}

/// Whether a character is an ASCII digit.
pub fn digit(c: char) -> (r: bool)
    ensures
        r == is_digit(c),
{
    '0' <= c && c <= '9'
}

/// Whether a character is an ASCII letter or digit.
pub fn alnum(c: char) -> (r: bool)
    ensures
        r == is_alnum(c),
{
    alpha(c) || digit(c)
}

/// Text made of ASCII letters, digits and underscores only.
pub open spec fn is_name_text(s: Seq<char>) -> bool {
    forall|i: int| 0 <= i < s.len() ==> is_alnum(#[trigger] s[i]) || s[i] == '_'
}

/// Whether the text is made of ASCII letters, digits and underscores only.
pub fn name_text(s: &[char]) -> (r: bool)
    ensures
        r == is_name_text(s@),
{
    let mut i: usize = 0;
    while i < s.len()
        invariant
            0 <= i <= s.len(),
            forall|j: int| 0 <= j < i ==> is_alnum(#[trigger] s@[j]) || s@[j] == '_',
        decreases s.len() - i,
    {
        if !alnum(s[i]) && s[i] != '_' {
            return false;
        }
        i += 1;
    }
    true
}

/// Where the leading white space of `s` ends, from `from` on.
pub open spec fn white_end(s: Seq<char>, from: int) -> int
    decreases s.len() - from,
{
    if from < 0 || from >= s.len() || !is_white(s[from]) {
        from
    } else {
        white_end(s, from + 1)
    }
}

/// Where the trailing white space of the first `to` characters begins.
pub open spec fn white_start(s: Seq<char>, to: int) -> int
    decreases to,
{
    if to <= 0 || to > s.len() || !is_white(s[to - 1]) {
        to
    } else {
        white_start(s, to - 1)
    }
}

/// `s` without its leading white space.
pub open spec fn trimmed_start(s: Seq<char>) -> Seq<char> {
    rest(s, white_end(s, 0))
}

/// `s` without its leading and trailing white space.
pub open spec fn trimmed(s: Seq<char>) -> Seq<char> {
    let t = trimmed_start(s);
    t.subrange(0, white_start(t, t.len() as int))
}

/// The first position from `from` on that holds no white space.
pub fn skip_white(s: &[char], from: usize) -> (r: usize)
    requires
        from <= s.len(),
    ensures
        r == white_end(s@, from as int),
        from <= r <= s.len(),
        r < s.len() ==> !is_white(s@[r as int]),
{
    let mut i: usize = from;
    while i < s.len() && white(s[i])
        invariant
            from <= i <= s.len(),
            white_end(s@, from as int) == white_end(s@, i as int),
        decreases s.len() - i,
    {
        i += 1;
    }
    i
}

/// `s` without its leading white space.
pub fn trim_start<'a>(s: &'a [char]) -> (r: &'a [char])
    ensures
        r@ == trimmed_start(s@),
{
    let i = skip_white(s, 0);
    slice_subrange(s, i, s.len())
}

/// `s` without its leading and trailing white space.
pub fn trim<'a>(s: &'a [char]) -> (r: &'a [char])
    ensures
        r@ == trimmed(s@),
{
    let t = trim_start(s);
    let mut j: usize = t.len();
    while j > 0 && white(t[j - 1])
        invariant
            0 <= j <= t.len(),
            white_start(t@, t@.len() as int) == white_start(t@, j as int),
        decreases j,
    {
        j -= 1;
    }
    slice_subrange(t, 0, j)
}

/// Where the leading run of `c` in `s` ends, from `from` on.
pub open spec fn run_end(s: Seq<char>, from: int, c: char) -> int
    decreases s.len() - from,
{
    if from < 0 || from >= s.len() || s[from] != c {
        from
    } else {
        run_end(s, from + 1, c)
    }
}

/// Where the trailing run of `c` in the first `to` characters begins.
pub open spec fn run_start(s: Seq<char>, to: int, c: char) -> int
    decreases to,
{
    if to <= 0 || to > s.len() || s[to - 1] != c {
        to
    } else {
        run_start(s, to - 1, c)
    }
}

/// `s` without the leading run of `c`.
pub open spec fn without_leading(s: Seq<char>, c: char) -> Seq<char> {
    rest(s, run_end(s, 0, c))
}

/// `s` without the trailing run of `c`.
pub open spec fn without_trailing(s: Seq<char>, c: char) -> Seq<char> {
    s.subrange(0, run_start(s, s.len() as int, c))
}

/// `s` without the leading run of `c`.
pub fn trim_leading<'a>(s: &'a [char], c: char) -> (r: &'a [char])
    ensures
        r@ == without_leading(s@, c),
{
    let mut i: usize = 0;
    while i < s.len() && s[i] == c
        invariant
            0 <= i <= s.len(),
            run_end(s@, 0, c) == run_end(s@, i as int, c),
        decreases s.len() - i,
    {
        i += 1;
    }
    slice_subrange(s, i, s.len())
}

/// `s` without the trailing run of `c`.
pub fn trim_trailing<'a>(s: &'a [char], c: char) -> (r: &'a [char])
    ensures
        r@ == without_trailing(s@, c),
{
    let mut j: usize = s.len();
    while j > 0 && s[j - 1] == c
        invariant
            0 <= j <= s.len(),
            run_start(s@, s@.len() as int, c) == run_start(s@, j as int, c),
        decreases j,
    {
        j -= 1;
    }
    slice_subrange(s, 0, j)
}

/// `s` from position `from` on.
pub fn from_index<'a>(s: &'a [char], from: usize) -> (r: &'a [char])
    requires
        from <= s.len(),
    ensures
        r@ == rest(s@, from as int),
{
    slice_subrange(s, from, s.len())
}

/// Where the last path component of the first `to` characters begins: behind
/// the last `/` or `\`.
pub open spec fn basename_start(s: Seq<char>, to: int) -> int
    decreases to,
{
    if to <= 0 || to > s.len() || s[to - 1] == '/' || s[to - 1] == '\\' {
        to
    } else {
        basename_start(s, to - 1)
    }
}

/// The last path component: what follows the last `/` or `\`.
pub open spec fn basename(s: Seq<char>) -> Seq<char> {
    rest(s, basename_start(s, s.len() as int))
}

/// Where the last path component begins.
pub fn component_start(s: &[char]) -> (r: usize)
    ensures
        r == basename_start(s@, s@.len() as int),
        r <= s.len(),
{
    let mut j: usize = s.len();
    while j > 0 && s[j - 1] != '/' && s[j - 1] != '\\'
        invariant
            0 <= j <= s.len(),
            basename_start(s@, s@.len() as int) == basename_start(s@, j as int),
        decreases j,
    {
        j -= 1;
    }
    j
}

/// The last path component: what follows the last `/` or `\`.
pub fn last_component<'a>(s: &'a [char]) -> (r: &'a [char])
    ensures
        r@ == basename(s@),
{
    let j = component_start(s);
    slice_subrange(s, j, s.len())
}

/// The number of bytes of a character in UTF-8.
pub open spec fn width(c: char) -> nat {
    if (c as u32) < 0x80 {
        1
    } else if (c as u32) < 0x800 {
        2
    } else if (c as u32) < 0x1_0000 {
        3
    } else {
        4
    }
}

/// The number of bytes of a text in UTF-8.
pub open spec fn byte_len(s: Seq<char>) -> nat
    decreases s.len(),
{
    if s.len() == 0 {
        0
    } else {
        byte_len(s.drop_last()) + width(s.last())
    }
}

/// A part of a text has no more bytes than the text.
pub proof fn byte_len_of_prefix(s: Seq<char>, n: int)
    requires
        0 <= n <= s.len(),
    ensures
        byte_len(s.subrange(0, n)) <= byte_len(s),
    decreases s.len() - n,
{
    if n < s.len() {
        byte_len_of_prefix(s, n + 1);
        let t = s.subrange(0, n + 1);
        assert(t.drop_last() =~= s.subrange(0, n));
    } else {
        assert(s.subrange(0, n) =~= s);
    }
}

/// The number of bytes of a character in UTF-8.
pub fn width_of(c: char) -> (r: usize)
    ensures
        r == width(c),
{
    let v = c as u32;
    if v < 0x80 {
        1
    } else if v < 0x800 {
        2
    } else if v < 0x1_0000 {
        3
    } else {
        4
    }
}

/// Whether a text has more than `limit` bytes in UTF-8.
pub fn longer_than(s: &[char], limit: usize) -> (r: bool)
    requires
        limit <= 0x1000_0000,
    ensures
        r == (byte_len(s@) > limit),
{
    let mut i: usize = 0;
    let mut n: usize = 0;
    assert(s@.subrange(0, 0).len() == 0);
    while i < s.len()
        invariant
            0 <= i <= s.len(),
            limit <= 0x1000_0000,
            n == byte_len(s@.subrange(0, i as int)),
            n <= limit,
        decreases s.len() - i,
    {
        n += width_of(s[i]);
        i += 1;
        proof {
            let t = s@.subrange(0, i as int);
            assert(t.drop_last() =~= s@.subrange(0, i - 1));
            byte_len_of_prefix(s@, i as int);
        }
        if n > limit {
            return true;
        }
    }
    assert(s@.subrange(0, i as int) =~= s@);
    false
}

/// The bytes of two texts add up.
pub proof fn byte_len_of_sum(a: Seq<char>, b: Seq<char>)
    ensures
        byte_len(a + b) == byte_len(a) + byte_len(b),
    decreases b.len(),
{
    if b.len() == 0 {
        assert(a + b =~= a);
    } else {
        byte_len_of_sum(a, b.drop_last());
        assert((a + b).drop_last() =~= a + b.drop_last());
        assert((a + b).last() == b.last());
    }
}

/// A part of a text has no more bytes than the text.
pub proof fn byte_len_of_part(s: Seq<char>, i: int, j: int)
    requires
        0 <= i <= j <= s.len(),
    ensures
        byte_len(s.subrange(i, j)) <= byte_len(s),
{
    let head = s.subrange(0, i);
    let part = s.subrange(i, j);
    assert(head + part =~= s.subrange(0, j));
    byte_len_of_sum(head, part);
    byte_len_of_prefix(s, j);
}

/// The number of bytes is that of the UTF-8 encoding.
pub proof fn byte_len_is_utf8_len(s: Seq<char>)
    ensures
        byte_len(s) == vstd::utf8::encode_utf8(s).len(),
    decreases s.len(),
{
    if s.len() > 0 {
        let head = seq![s[0]];
        let tail = s.drop_first();
        assert(s =~= head + tail);
        byte_len_of_sum(head, tail);
        byte_len_is_utf8_len(tail);
        assert(head.drop_last() =~= Seq::<char>::empty());
        assert(byte_len(head.drop_last()) == 0);
        assert(byte_len(head) == width(s[0]));
        vstd::utf8::char_is_scalar(s[0]);
        assert(vstd::utf8::encode_scalar(s[0] as u32).len() == width(s[0]));
    }
}

/// The number of bytes of a string.
pub fn byte_count(s: &str) -> (r: usize)
    ensures
        r == byte_len(s@),
{
    proof {
        byte_len_is_utf8_len(s@);
    }
    s.as_bytes().len()
}

/// The number of bytes before the `k`th character.
pub open spec fn byte_at(s: Seq<char>, k: int) -> nat {
    if 0 <= k <= s.len() {
        byte_len(s.subrange(0, k))
    } else {
        byte_len(s)
    }
}

/// The number of bytes before the `k`th character.
pub fn byte_position(s: &[char], k: usize) -> (r: usize)
    requires
        byte_len(s@) <= usize::MAX,
    ensures
        r == byte_at(s@, k as int),
{
    let end = if k <= s.len() {
        k
    } else {
        s.len()
    };
    let mut i: usize = 0;
    let mut n: usize = 0;
    assert(s@.subrange(0, 0).len() == 0);
    while i < end
        invariant
            0 <= i <= end <= s.len(),
            byte_len(s@) <= usize::MAX,
            n == byte_len(s@.subrange(0, i as int)),
        decreases end - i,
    {
        proof {
            let t = s@.subrange(0, i + 1);
            assert(t.drop_last() =~= s@.subrange(0, i as int));
            byte_len_of_prefix(s@, i + 1);
        }
        n += width_of(s[i]);
        i += 1;
    }
    assert(s@.subrange(0, s@.len() as int) =~= s@);
    n
}

/// The number of the character that starts `offset` bytes behind the start of the
/// `k`th.
pub open spec fn char_behind(s: Seq<char>, k: int, offset: int) -> Option<int>
    decreases s.len() - k,
{
    if offset == 0 {
        Some(k)
    } else if k < 0 || k >= s.len() || offset < width(s[k]) {
        None
    } else {
        char_behind(s, k + 1, offset - width(s[k]))
    }
}

/// The character that starts at the bytes before the `k`th is the `k`th.
pub proof fn char_behind_bytes(s: Seq<char>, i: int, k: int)
    requires
        0 <= i <= k <= s.len(),
    ensures
        char_behind(s, i, byte_at(s, k) - byte_at(s, i)) == Some(k),
    decreases k - i,
{
    if i < k {
        char_behind_bytes(s, i + 1, k);
        let t = s.subrange(0, i + 1);
        assert(t.drop_last() =~= s.subrange(0, i));
        let u = s.subrange(0, k);
        assert(u.subrange(0, i + 1) =~= t);
        byte_len_of_prefix(u, i + 1);
    }
}

/// The number of the character that starts at a number of bytes, if one does.
pub fn char_position(s: &[char], offset: usize) -> (r: Option<usize>)
    ensures
        match r {
            Some(k) => char_behind(s@, 0, offset as int) == Some(k as int) && k <= s.len(),
            None => char_behind(s@, 0, offset as int) is None,
        },
{
    let mut k: usize = 0;
    let mut left: usize = offset;
    while left > 0
        invariant
            0 <= k <= s.len(),
            char_behind(s@, 0, offset as int) == char_behind(s@, k as int, left as int),
        decreases left,
    {
        if k >= s.len() {
            return None;
        }
        let w = width_of(s[k]);
        if left < w {
            return None;
        }
        left -= w;
        k += 1;
    }
    Some(k)
}

/// The characters with the codes of the bytes that encode a character in UTF-8.
pub open spec fn byte_chars(c: char) -> Seq<char> {
    let n = c as int;
    if n < 0x80 {
        seq![c]
    } else if n < 0x800 {
        seq![(0xC0 + n / 0x40) as char, (0x80 + n % 0x40) as char]
    } else if n < 0x10000 {
        seq![
            (0xE0 + n / 0x1000) as char,
            (0x80 + (n / 0x40) % 0x40) as char,
            (0x80 + n % 0x40) as char,
        ]
    } else {
        seq![
            (0xF0 + n / 0x40000) as char,
            (0x80 + (n / 0x1000) % 0x40) as char,
            (0x80 + (n / 0x40) % 0x40) as char,
            (0x80 + n % 0x40) as char,
        ]
    }
}

/// Appends the characters with the codes of the bytes of a character.
pub fn push_bytes(out: &mut Vec<char>, c: char)
    ensures
        final(out)@ == old(out)@ + byte_chars(c),
{
    let n = c as u32;
    if n < 0x80 {
        out.push(c);
    } else if n < 0x800 {
        out.push((0xC0 + n / 0x40) as u8 as char);
        out.push((0x80 + n % 0x40) as u8 as char);
    } else if n < 0x10000 {
        out.push((0xE0 + n / 0x1000) as u8 as char);
        out.push((0x80 + (n / 0x40) % 0x40) as u8 as char);
        out.push((0x80 + n % 0x40) as u8 as char);
    } else {
        out.push((0xF0 + n / 0x40000) as u8 as char);
        out.push((0x80 + (n / 0x1000) % 0x40) as u8 as char);
        out.push((0x80 + (n / 0x40) % 0x40) as u8 as char);
        out.push((0x80 + n % 0x40) as u8 as char);
    }
    assert(out@ =~= old(out)@ + byte_chars(c));
}

/// The views of a list of texts.
pub open spec fn texts(v: Seq<Vec<char>>) -> Seq<Seq<char>> {
    Seq::new(v.len(), |i: int| v[i]@)
}

/// The views of a list of strings.
pub open spec fn strings(v: Seq<String>) -> Seq<Seq<char>> {
    Seq::new(v.len(), |i: int| v[i]@)
}

/// The strings with the given texts.
pub fn strings_of(v: &Vec<Vec<char>>) -> (r: Vec<String>)
    ensures
        strings(r@) == texts(v@),
{
    let mut r: Vec<String> = Vec::new();
    let mut i: usize = 0;
    while i < v.len()
        invariant
            0 <= i <= v.len(),
            r@.len() == i,
            forall|j: int| 0 <= j < i ==> r@[j]@ == v@[j]@,
        decreases v.len() - i,
    {
        r.push(text_of(v[i].as_slice()));
        i += 1;
    }
    assert(strings(r@) =~= texts(v@));
    r
}

/// Whether a list of texts holds `s`.
pub fn lists(v: &Vec<Vec<char>>, s: &[char]) -> (r: bool)
    ensures
        r == texts(v@).contains(s@),
{
    let mut i: usize = 0;
    while i < v.len()
        invariant
            0 <= i <= v.len(),
            forall|j: int| 0 <= j < i ==> v@[j]@ != s@,
        decreases v.len() - i,
    {
        if same(v[i].as_slice(), s) {
            assert(texts(v@)[i as int] == s@);
            return true;
        }
        i += 1;
    }
    assert(!texts(v@).contains(s@)) by {
        if texts(v@).contains(s@) {
            let k = choose|k: int| 0 <= k < texts(v@).len() && texts(v@)[k] == s@;
            assert(v@[k]@ == s@);
        }
    }
    false
}

/// Texts joined with single spaces.
pub open spec fn joined(v: Seq<Seq<char>>) -> Seq<char>
    decreases v.len(),
{
    if v.len() == 0 {
        Seq::empty()
    } else if v.len() == 1 {
        v[0]
    } else {
        joined(v.drop_last()) + seq![' '] + v.last()
    }
}

/// Texts joined with single spaces.
pub fn join(v: &Vec<Vec<char>>) -> (r: Vec<char>)
    ensures
        r@ == joined(texts(v@)),
{
    let mut r: Vec<char> = Vec::new();
    let mut i: usize = 0;
    assert(texts(v@).subrange(0, 0).len() == 0);
    while i < v.len()
        invariant
            0 <= i <= v.len(),
            r@ == joined(texts(v@).subrange(0, i as int)),
        decreases v.len() - i,
    {
        if i > 0 {
            r.push(' ');
        }
        push_all(&mut r, v[i].as_slice());
        i += 1;
        proof {
            let t = texts(v@).subrange(0, i as int);
            assert(t.drop_last() =~= texts(v@).subrange(0, i - 1));
            assert(t.last() == v@[i - 1]@);
            if i == 1 {
                assert(r@ =~= t[0]);
            } else {
                assert(r@ =~= joined(t.drop_last()) + seq![' '] + t.last());
            }
        }
    }
    assert(texts(v@).subrange(0, i as int) =~= texts(v@));
    r
}

/// The decimal digits of a number.
pub open spec fn decimal(n: nat) -> Seq<char>
    decreases n,
{
    if n < 10 {
        seq![(('0' as u32) + n) as char]
    } else {
        decimal(n / 10).push((('0' as u32) + n % 10) as char)
    }
}

/// The decimal digits of a number.
pub fn decimal_of(n: usize) -> (r: Vec<char>)
    ensures
        r@ == decimal(n as nat),
    decreases n,
{
    if n < 10 {
        let mut r: Vec<char> = Vec::new();
        r.push((48u8 + (n as u8)) as char);
        assert(r@ =~= decimal(n as nat));
        r
    } else {
        let mut r = decimal_of(n / 10);
        r.push((48u8 + ((n % 10) as u8)) as char);
        r
    }
}

/// The value of the decimal digits in the first `to` characters; -1 when one of
/// them is no digit.
pub open spec fn digits_value(s: Seq<char>, to: int) -> int
    decreases to,
{
    if to <= 0 || to > s.len() {
        0
    } else if digits_value(s, to - 1) < 0 || !is_digit(s[to - 1]) {
        -1
    } else {
        digits_value(s, to - 1) * 10 + ((s[to - 1] as u32) - ('0' as u32))
    }
}

/// The number that a text spells: decimal digits, with an optional `+` before
/// them, and no more than a `usize` holds.
pub open spec fn number(s: Seq<char>) -> Option<usize> {
    let t = if s.len() > 0 && s[0] == '+' {
        rest(s, 1)
    } else {
        s
    };
    let v = digits_value(t, t.len() as int);
    if t.len() == 0 || v < 0 || v > usize::MAX {
        None
    } else {
        Some(v as usize)
    }
}

proof fn digits_value_grows(s: Seq<char>, i: int, j: int)
    requires
        0 <= i <= j <= s.len(),
        digits_value(s, j) >= 0,
    ensures
        0 <= digits_value(s, i) <= digits_value(s, j),
    decreases j - i,
{
    if i < j {
        digits_value_grows(s, i, j - 1);
    }
}

/// The number that a text spells.
pub fn parse_number(s: &[char]) -> (r: Option<usize>)
    ensures
        r == number(s@),
{
    let t = if s.len() > 0 && s[0] == '+' {
        from_index(s, 1)
    } else {
        s
    };
    if t.len() == 0 {
        return None;
    }
    let mut v: usize = 0;
    let mut i: usize = 0;
    while i < t.len()
        invariant
            0 <= i <= t.len(),
            v == digits_value(t@, i as int),
            t@.len() > 0,
            number(s@) == {
                let v = digits_value(t@, t@.len() as int);
                if t@.len() == 0 || v < 0 || v > usize::MAX {
                    None
                } else {
                    Some(v as usize)
                }
            },
        decreases t.len() - i,
    {
        proof {
            if digits_value(t@, t@.len() as int) >= 0 {
                digits_value_grows(t@, i + 1, t@.len() as int);
            }
        }
        if !digit(t[i]) {
            return None;
        }
        let d = ((t[i] as u8) - 48u8) as usize;
        if v > (usize::MAX - d) / 10 {
            assert(v * 10 + d > usize::MAX);
            return None;
        }
        v = v * 10 + d;
        i += 1;
    }
    Some(v)
}

} // verus!
