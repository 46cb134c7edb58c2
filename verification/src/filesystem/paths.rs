//! What the operands of a removal name.

use vstd::prelude::*;
use vstd::slice::slice_subrange;
use crate::text::{
    alpha, copy_of, from_index, has_char, index_from, is_alpha, is_str, is_str_nocase, rest,
    same_nocase, starts, starts_str, texts,
};

verus! {

/// How a word is quoted as a whole.
#[derive(Debug, Clone, Copy, PartialEq, Eq, Structural)]
pub enum QuoteKind {
    Unquoted,
    Single,
    Double,
}

/// How the flags of a forced recursive removal are written.
#[derive(Debug, Clone, Copy, PartialEq, Eq, Structural)]
pub enum RmFlagStyle {
    /// Both in one cluster of short options.
    Combined,
    /// In different words.
    Separate,
    /// Both as long options.
    Long,
}

/// Whether a word stands in the given quotes.
pub open spec fn in_quotes(s: Seq<char>, quote: char) -> bool {
    s.len() >= 2 && s[0] == quote && s.last() == quote
}

/// How a word is quoted as a whole.
pub open spec fn quote_of(s: Seq<char>) -> QuoteKind {
    if in_quotes(s, '"') {
        QuoteKind::Double
    } else if in_quotes(s, '\'') {
        QuoteKind::Single
    } else {
        QuoteKind::Unquoted
    }
}

/// A word without the quotes around it.
pub open spec fn unquoted(s: Seq<char>) -> Seq<char> {
    if quote_of(s) == QuoteKind::Unquoted {
        s
    } else {
        s.subrange(1, s.len() - 1)
    }
}

/// How a word is quoted as a whole, and the word without these quotes.
pub fn strip_outer_quotes<'a>(s: &'a [char]) -> (r: (QuoteKind, &'a [char]))
    ensures
        r.0 == quote_of(s@),
        r.1@ == unquoted(s@),
{
    let n = s.len();
    if n >= 2 {
        if s[0] == '"' && s[n - 1] == '"' {
            return (QuoteKind::Double, slice_subrange(s, 1, n - 1));
        }
        if s[0] == '\'' && s[n - 1] == '\'' {
            return (QuoteKind::Single, slice_subrange(s, 1, n - 1));
        }
    }
    (QuoteKind::Unquoted, s)
}

/// An operand of a removal.
pub struct PathToken {
    /// Its text without the quotes around it.
    pub unquoted: Vec<char>,
    /// Its quotes.
    pub quote: QuoteKind,
    /// Where it stands in the command.
    pub start: usize,
    pub end: usize,
}

/// An operand of a removal.
pub struct PathView {
    pub unquoted: Seq<char>,
    pub quote: QuoteKind,
    pub start: usize,
    pub end: usize,
}

impl View for PathToken {
    type V = PathView;

    open spec fn view(&self) -> PathView {
        PathView { unquoted: self.unquoted@, quote: self.quote, start: self.start, end: self.end }
    }
}

/// The views of a list of operands.
pub open spec fn path_views(v: Seq<PathToken>) -> Seq<PathView> {
    Seq::new(v.len(), |i: int| v[i]@)
}

/// What stands behind the directory of a literal temporary path; on macOS these
/// directories also have a name below `/private`.
pub open spec fn temp_suffix(s: Seq<char>) -> Option<Seq<char>> {
    if starts(s, "/tmp/"@) {
        Some(rest(s, "/tmp/"@.len() as int))
    } else if starts(s, "/var/tmp/"@) {
        Some(rest(s, "/var/tmp/"@.len() as int))
    } else if starts(s, "/private/tmp/"@) {
        Some(rest(s, "/private/tmp/"@.len() as int))
    } else if starts(s, "/private/var/tmp/"@) {
        Some(rest(s, "/private/var/tmp/"@.len() as int))
    } else {
        None
    }
}

/// Whether the characters `i..j` of a path are one of the components that its
/// slashes separate.
pub open spec fn is_component(s: Seq<char>, i: int, j: int) -> bool {
    &&& 0 <= i <= j <= s.len()
    &&& i == 0 || s[i - 1] == '/'
    &&& j == s.len() || s[j] == '/'
    &&& forall|k: int| i <= k < j ==> s[k] != '/'
}

/// Whether a path has a component that names something: one that is neither empty
/// nor `.`.
pub open spec fn names_something(s: Seq<char>) -> bool {
    exists|i: int, j: int| #[trigger] is_component(s, i, j) && i < j && s.subrange(i, j) != "."@
}

/// Whether a path has a component `..`.
pub open spec fn climbs(s: Seq<char>) -> bool {
    exists|i: int, j: int| #[trigger] is_component(s, i, j) && s.subrange(i, j) == ".."@
}

/// A character that expands, quotes or escapes in an unquoted word.
pub open spec fn is_active_unquoted(c: char) -> bool {
    c == '$' || c == '`' || c == '{' || c == '}' || c == '\\' || c == '\'' || c == '"'
}

/// Whether an unquoted path below a temporary directory is literal and stays
/// there.
pub open spec fn static_unquoted(s: Seq<char>) -> bool {
    names_something(s) && !climbs(s) && (forall|i: int|
        0 <= i < s.len() ==> !is_active_unquoted(#[trigger] s[i]))
}

/// Whether double-quoted text from position `i` on is literal.
pub open spec fn literal_in_double_quotes(s: Seq<char>, i: int) -> bool
    decreases s.len() - i,
{
    if i < 0 || i >= s.len() {
        true
    } else if s[i] == '$' || s[i] == '`' || s[i] == '"' {
        false
    } else if s[i] == '\\' {
        if i + 1 >= s.len() {
            false
        } else if s[i + 1] == '$' || s[i + 1] == '`' || s[i + 1] == '"' || s[i + 1] == '\\' {
            literal_in_double_quotes(s, i + 2)
        } else {
            literal_in_double_quotes(s, i + 1)
        }
    } else {
        literal_in_double_quotes(s, i + 1)
    }
}

/// Whether a double-quoted path below a temporary directory is literal and stays
/// there.
pub open spec fn static_double_quoted(s: Seq<char>) -> bool {
    names_something(s) && !climbs(s) && literal_in_double_quotes(s, 0)
}

/// A character that is never part of one literal Windows path.
pub open spec fn is_active_windows(c: char) -> bool {
    c == '$' || c == '`' || c == '%' || c == '{' || c == '}' || c == '\'' || c == '"' || c == ','
        || c == ';'
}

/// Whether a path starts with a drive: `X:\`, `X:/` or `/x/`.
pub open spec fn has_drive(s: Seq<char>) -> bool {
    s.len() >= 3 && ((is_alpha(s[0]) && s[1] == ':' && (s[2] == '\\' || s[2] == '/')) || (s[0]
        == '/' && is_alpha(s[1]) && s[2] == '/'))
}

/// The components of a path from position `i` on, behind `out`; the component
/// being read starts at `start`.
pub open spec fn components_from(s: Seq<char>, i: int, start: int, out: Seq<Seq<char>>) -> Seq<
    Seq<char>,
>
    decreases s.len() - i,
{
    if i < 0 || i >= s.len() {
        out.push(s.subrange(start, s.len() as int))
    } else if s[i] == '/' || s[i] == '\\' {
        components_from(s, i + 1, i + 1, out.push(s.subrange(start, i)))
    } else {
        components_from(s, i + 1, start, out)
    }
}

/// A list of components without the empty ones at its end.
pub open spec fn without_empty_tail(parts: Seq<Seq<char>>) -> Seq<Seq<char>>
    decreases parts.len(),
{
    if parts.len() > 0 && parts.last().len() == 0 {
        without_empty_tail(parts.drop_last())
    } else {
        parts
    }
}

/// Whether the components behind a drive name something below the temporary
/// directory of a user.
pub open spec fn in_user_temp(parts: Seq<Seq<char>>) -> bool {
    &&& parts.len() >= 6
    &&& forall|i: int|
        0 <= i < parts.len() ==> (#[trigger] parts[i]).len() > 0 && parts[i] != "."@ && parts[i]
            != ".."@
    &&& same_nocase(parts[0], "Users"@)
    &&& same_nocase(parts[2], "AppData"@)
    &&& same_nocase(parts[3], "Local"@)
    &&& same_nocase(parts[4], "Temp"@)
}

/// Whether a path is literal and names something below the temporary directory
/// of a Windows user, in the native form or that of a POSIX shell on Windows.
pub open spec fn windows_temp(s: Seq<char>) -> bool {
    let behind = rest(s, 3);
    &&& forall|i: int| 0 <= i < s.len() ==> !is_active_windows(#[trigger] s[i])
    &&& has_drive(s)
    &&& !behind.contains(':')
    &&& in_user_temp(without_empty_tail(components_from(behind, 0, 0, Seq::empty())))
}

/// Whether an unquoted path is literal and temporary.
pub open spec fn safe_unquoted(s: Seq<char>) -> bool {
    (temp_suffix(s) is Some && static_unquoted(temp_suffix(s)->0)) || windows_temp(s)
}

/// Whether a double-quoted path is literal and temporary.
pub open spec fn safe_double_quoted(s: Seq<char>) -> bool {
    (temp_suffix(s) is Some && static_double_quoted(temp_suffix(s)->0)) || windows_temp(s)
}

/// Whether an operand is literal and temporary, as a removal with flags of the
/// given style is trusted with it.
pub open spec fn safe_for_style(path: PathView, style: RmFlagStyle) -> bool {
    match path.quote {
        QuoteKind::Unquoted => safe_unquoted(path.unquoted),
        QuoteKind::Double => style == RmFlagStyle::Combined && safe_double_quoted(path.unquoted),
        QuoteKind::Single => false,
    }
}

/// Whether a path is absolute or below a home directory.
pub open spec fn root_home_text(s: Seq<char>) -> bool {
    starts(s, "/"@) || starts(s, "~"@) || s == "$HOME"@ || starts(s, "$HOME/"@) || s == "${HOME}"@
        || starts(s, "${HOME}/"@)
}

/// Whether an operand is absolute or below a home directory. A backslash before
/// its first character changes nothing.
pub open spec fn root_home(path: PathView) -> bool {
    let s = path.unquoted;
    root_home_text(s) || (s.len() > 1 && s[0] == '\\' && (s[1] == '/' || s[1] == '~'))
}

/// What stands behind the directory of a literal temporary path.
fn find_temp_suffix<'a>(s: &'a [char]) -> (r: Option<&'a [char]>)
    ensures
        match r {
            Some(t) => temp_suffix(s@) == Some(t@),
            None => temp_suffix(s@) is None,
        },
{
    proof {
        reveal_strlit("/tmp/");
        reveal_strlit("/var/tmp/");
        reveal_strlit("/private/tmp/");
        reveal_strlit("/private/var/tmp/");
    }
    if starts_str(s, "/tmp/") {
        Some(from_index(s, 5))
    } else if starts_str(s, "/var/tmp/") {
        Some(from_index(s, 9))
    } else if starts_str(s, "/private/tmp/") {
        Some(from_index(s, 13))
    } else if starts_str(s, "/private/var/tmp/") {
        Some(from_index(s, 17))
    } else {
        None
    }
}

/// Whether a path has a component that names something.
fn temp_path_suffix_has_real_component(s: &[char]) -> (r: bool)
    ensures
        r == names_something(s@),
{
    let mut i: usize = 0;
    loop
        invariant
            0 <= i <= s.len(),
            i == 0 || s@[i - 1] == '/',
            forall|a: int, b: int|
                #[trigger] is_component(s@, a, b) && a < i && a < b ==> s@.subrange(a, b) == "."@,
        decreases s.len() - i,
    {
        let end = index_from(s, i, '/');
        let part = slice_subrange(s, i, end);
        assert(is_component(s@, i as int, end as int));
        if part.len() > 0 && !is_str(part, ".") {
            return true;
        }
        if end >= s.len() {
            return false;
        }
        i = end + 1;
    }
}

/// Whether a path has a component `..`.
pub fn has_dotdot_segment(s: &[char]) -> (r: bool)
    ensures
        r == climbs(s@),
{
    proof {
        reveal_strlit("..");
    }
    let mut i: usize = 0;
    loop
        invariant
            0 <= i <= s.len(),
            i == 0 || s@[i - 1] == '/',
            ".."@.len() == 2,
            forall|a: int, b: int|
                #[trigger] is_component(s@, a, b) && a < i ==> s@.subrange(a, b) != ".."@,
        decreases s.len() - i,
    {
        let end = index_from(s, i, '/');
        assert(is_component(s@, i as int, end as int));
        if is_str(slice_subrange(s, i, end), "..") {
            return true;
        }
        if end >= s.len() {
            return false;
        }
        i = end + 1;
    }
}

/// Whether an unquoted path below a temporary directory is literal and stays
/// there.
fn temp_path_suffix_is_static_unquoted(s: &[char]) -> (r: bool)
    ensures
        r == static_unquoted(s@),
{
    if !temp_path_suffix_has_real_component(s) || has_dotdot_segment(s) {
        return false;
    }
    let mut i: usize = 0;
    while i < s.len()
        invariant
            0 <= i <= s.len(),
            forall|j: int| 0 <= j < i ==> !is_active_unquoted(#[trigger] s@[j]),
        decreases s.len() - i,
    {
        let c = s[i];
        if c == '$' || c == '`' || c == '{' || c == '}' || c == '\\' || c == '\'' || c == '"' {
            assert(is_active_unquoted(s@[i as int]));
            return false;
        }
        i += 1;
    }
    true
}

/// Whether a double-quoted path below a temporary directory is literal and stays
/// there.
fn temp_path_suffix_is_static_double_quoted(s: &[char]) -> (r: bool)
    ensures
        r == static_double_quoted(s@),
{
    if !temp_path_suffix_has_real_component(s) || has_dotdot_segment(s) {
        return false;
    }
    let mut i: usize = 0;
    while i < s.len()
        invariant
            0 <= i <= s.len(),
            literal_in_double_quotes(s@, 0) == literal_in_double_quotes(s@, i as int),
            names_something(s@),
            !climbs(s@),
        decreases s.len() - i,
    {
        let c = s[i];
        if c == '$' || c == '`' || c == '"' {
            return false;
        }
        if c == '\\' {
            if i + 1 >= s.len() {
                return false;
            }
            let e = s[i + 1];
            if e == '$' || e == '`' || e == '"' || e == '\\' {
                i += 2;
                continue ;
            }
        }
        i += 1;
    }
    true
}

/// The components of a path, cut at `/` and `\`.
fn split_components(s: &[char]) -> (r: Vec<Vec<char>>)
    ensures
        texts(r@) == components_from(s@, 0, 0, Seq::empty()),
{
    let mut out: Vec<Vec<char>> = Vec::new();
    assert(texts(out@) =~= Seq::<Seq<char>>::empty());
    let mut start: usize = 0;
    let mut i: usize = 0;
    while i < s.len()
        invariant
            0 <= start <= i <= s.len(),
            components_from(s@, 0, 0, Seq::empty()) == components_from(
                s@,
                i as int,
                start as int,
                texts(out@),
            ),
        decreases s.len() - i,
    {
        if s[i] == '/' || s[i] == '\\' {
            let ghost before = texts(out@);
            out.push(copy_of(slice_subrange(s, start, i)));
            assert(texts(out@) =~= before.push(s@.subrange(start as int, i as int)));
            start = i + 1;
        }
        i += 1;
    }
    let ghost before = texts(out@);
    out.push(copy_of(slice_subrange(s, start, s.len())));
    assert(texts(out@) =~= before.push(s@.subrange(start as int, s@.len() as int)));
    out
}

/// Whether the components behind a drive name something below the temporary
/// directory of a user.
fn names_user_temp(parts: &Vec<Vec<char>>) -> (r: bool)
    ensures
        r == in_user_temp(texts(parts@)),
{
    let ghost views = texts(parts@);
    if parts.len() < 6 {
        return false;
    }
    let mut i: usize = 0;
    while i < parts.len()
        invariant
            0 <= i <= parts.len(),
            views == texts(parts@),
            forall|j: int|
                0 <= j < i ==> (#[trigger] views[j]).len() > 0 && views[j] != "."@ && views[j]
                    != ".."@,
        decreases parts.len() - i,
    {
        assert(views[i as int] == parts@[i as int]@);
        let part = parts[i].as_slice();
        if part.len() == 0 || is_str(part, ".") || is_str(part, "..") {
            return false;
        }
        i += 1;
    }
    assert(views[0] == parts@[0]@ && views[2] == parts@[2]@ && views[3] == parts@[3]@ && views[4]
        == parts@[4]@);
    is_str_nocase(parts[0].as_slice(), "Users") && is_str_nocase(parts[2].as_slice(), "AppData")
        && is_str_nocase(parts[3].as_slice(), "Local") && is_str_nocase(parts[4].as_slice(), "Temp")
}

/// Whether a path is literal and names something below the temporary directory
/// of a Windows user, over texts.
pub fn text_windows_temp(s: &[char]) -> (r: bool)
    ensures
        r == windows_temp(s@),
{
    let mut i: usize = 0;
    while i < s.len()
        invariant
            0 <= i <= s.len(),
            forall|j: int| 0 <= j < i ==> !is_active_windows(#[trigger] s@[j]),
        decreases s.len() - i,
    {
        let c = s[i];
        if c == '$' || c == '`' || c == '%' || c == '{' || c == '}' || c == '\'' || c == '"' || c
            == ',' || c == ';' {
            assert(is_active_windows(s@[i as int]));
            return false;
        }
        i += 1;
    }
    if !(s.len() >= 3 && ((alpha(s[0]) && s[1] == ':' && (s[2] == '\\' || s[2] == '/')) || (s[0]
        == '/' && alpha(s[1]) && s[2] == '/'))) {
        return false;
    }
    let behind = from_index(s, 3);
    if has_char(behind, ':') {
        return false;
    }
    let mut parts = split_components(behind);
    let ghost all = texts(parts@);
    while parts.len() > 0 && parts[parts.len() - 1].len() == 0
        invariant
            without_empty_tail(all) == without_empty_tail(texts(parts@)),
        decreases parts.len(),
    {
        let ghost before = texts(parts@);
        assert(before.last() == parts@.last()@);
        let _ = parts.pop();
        assert(texts(parts@) =~= before.drop_last());
    }
    if parts.len() > 0 {
        assert(texts(parts@).last() == parts@.last()@);
    }
    names_user_temp(&parts)
}

/// Whether a path is literal and names something below the temporary directory
/// of a Windows user: `C:\Users\<user>\AppData\Local\Temp\<more>` with either
/// separator, or `/c/Users/<user>/AppData/Local/Temp/<more>`.
pub fn windows_literal_user_temp_subpath(path: &str) -> (r: bool)
    ensures
        r == windows_temp(path@),
{
    let s = crate::text::chars_of(path);
    text_windows_temp(s.as_slice())
}

/// Whether an unquoted path is literal and temporary.
fn path_is_safe_unquoted(s: &[char]) -> (r: bool)
    ensures
        r == safe_unquoted(s@),
{
    match find_temp_suffix(s) {
        Some(t) => temp_path_suffix_is_static_unquoted(t) || text_windows_temp(s),
        None => text_windows_temp(s),
    }
}

/// Whether a double-quoted path is literal and temporary.
fn path_is_safe_double_quoted(s: &[char]) -> (r: bool)
    ensures
        r == safe_double_quoted(s@),
{
    match find_temp_suffix(s) {
        Some(t) => temp_path_suffix_is_static_double_quoted(t) || text_windows_temp(s),
        None => text_windows_temp(s),
    }
}

/// Whether an operand is literal and temporary, as a removal with flags of the
/// given style is trusted with it. Double quotes are trusted with flags in one
/// cluster only, single quotes never.
pub fn path_is_safe_for_style(path: &PathToken, style: RmFlagStyle) -> (r: bool)
    ensures
        r == safe_for_style(path@, style),
{
    match path.quote {
        QuoteKind::Unquoted => path_is_safe_unquoted(path.unquoted.as_slice()),
        QuoteKind::Double => style == RmFlagStyle::Combined && path_is_safe_double_quoted(
            path.unquoted.as_slice(),
        ),
        QuoteKind::Single => false,
    }
}

/// Whether an operand is absolute or below a home directory.
pub fn path_is_root_home(path: &PathToken) -> (r: bool)
    ensures
        r == root_home(path@),
{
    let s = path.unquoted.as_slice();
    if path_text_is_root_home(s) {
        return true;
    }
    s.len() > 1 && s[0] == '\\' && (s[1] == '/' || s[1] == '~')
}

/// Whether a path is absolute or below a home directory.
fn path_text_is_root_home(s: &[char]) -> (r: bool)
    ensures
        r == root_home_text(s@),
{
    starts_str(s, "/") || starts_str(s, "~") || is_str(s, "$HOME") || starts_str(s, "$HOME/")
        || is_str(s, "${HOME}") || starts_str(s, "${HOME}/")
}

/// What stands between two separators is one of the components, where those
/// before position `i` are read already.
proof fn component_is_read(s: Seq<char>, i: int, start: int, out: Seq<Seq<char>>, a: int, b: int)
    requires
        0 <= start <= i <= s.len(),
        start <= a <= b <= s.len(),
        a == start || s[a - 1] == '/' || s[a - 1] == '\\',
        b == s.len() || s[b] == '/' || s[b] == '\\',
        forall|k: int| a <= k < b ==> s[k] != '/' && s[k] != '\\',
        forall|k: int| start <= k < i ==> s[k] != '/' && s[k] != '\\',
    ensures
        components_from(s, i, start, out).contains(s.subrange(a, b)),
    decreases s.len() - i,
{
    let all = components_from(s, i, start, out);
    if i >= s.len() {
        assert(a == start && b == s.len());
        assert(all.last() == s.subrange(a, b));
        assert(all[all.len() - 1] == s.subrange(a, b));
    } else if s[i] == '/' || s[i] == '\\' {
        let next = out.push(s.subrange(start, i));
        if a == start {
            assert(b == i) by {
                if b < i {
                    assert(s[b] != '/' && s[b] != '\\');
                }
                if b > i {
                    assert(s[i] != '/' && s[i] != '\\');
                }
            }
            read_component_stays(s, i + 1, i + 1, next, out.len() as int);
            assert(all[out.len() as int] == s.subrange(a, b));
        } else {
            assert(a >= i + 1) by {
                if a <= i {
                    assert(s[a - 1] != '/' && s[a - 1] != '\\');
                }
            }
            component_is_read(s, i + 1, i + 1, next, a, b);
        }
    } else {
        component_is_read(s, i + 1, start, out, a, b);
    }
}

/// What was read stays read.
proof fn read_component_stays(s: Seq<char>, i: int, start: int, out: Seq<Seq<char>>, k: int)
    requires
        0 <= k < out.len(),
    ensures
        k < components_from(s, i, start, out).len(),
        components_from(s, i, start, out)[k] == out[k],
    decreases s.len() - i,
{
    if i < 0 || i >= s.len() {
    } else if s[i] == '/' || s[i] == '\\' {
        read_component_stays(s, i + 1, i + 1, out.push(s.subrange(start, i)), k);
    } else {
        read_component_stays(s, i + 1, start, out, k);
    }
}

/// Dropping the empty components at the end drops no other.
proof fn component_is_kept(parts: Seq<Seq<char>>, part: Seq<char>)
    requires
        parts.contains(part),
        part.len() > 0,
    ensures
        without_empty_tail(parts).contains(part),
    decreases parts.len(),
{
    if parts.len() > 0 && parts.last().len() == 0 {
        let k = choose|k: int| 0 <= k < parts.len() && parts[k] == part;
        assert(k < parts.len() - 1);
        assert(parts.drop_last()[k] == part);
        component_is_kept(parts.drop_last(), part);
    }
}

/// A path that climbs to a parent directory anywhere is never trusted as
/// temporary, whatever stands before it and however it is quoted.
pub proof fn climbing_path_is_never_safe(path: PathView, style: RmFlagStyle)
    requires
        climbs(path.unquoted),
    ensures
        !safe_for_style(path, style),
{
    let s = path.unquoted;
    reveal_strlit("..");
    reveal_strlit("/tmp/");
    reveal_strlit("/var/tmp/");
    reveal_strlit("/private/tmp/");
    reveal_strlit("/private/var/tmp/");
    let (i, j) = choose|i: int, j: int|
        #[trigger] is_component(s, i, j) && s.subrange(i, j) == ".."@;
    let part = s.subrange(i, j);
    assert(is_component(s, i, j));
    assert(part.len() == j - i);
    assert(part[0] == s[i] && part[1] == s[i + 1]);
    if let Some(t) = temp_suffix(s) {
        let k = s.len() - t.len();
        let prefix = s.subrange(0, k);
        assert(forall|m: int| 0 <= m < k ==> s[m] != '.') by {
            if starts(s, "/tmp/"@) {
                assert(prefix =~= "/tmp/"@);
                assert(forall|m: int| 0 <= m < k ==> s[m] == prefix[m]);
            } else if starts(s, "/var/tmp/"@) {
                assert(prefix =~= "/var/tmp/"@);
                assert(forall|m: int| 0 <= m < k ==> s[m] == prefix[m]);
            } else if starts(s, "/private/tmp/"@) {
                assert(prefix =~= "/private/tmp/"@);
                assert(forall|m: int| 0 <= m < k ==> s[m] == prefix[m]);
            } else {
                assert(prefix =~= "/private/var/tmp/"@);
                assert(forall|m: int| 0 <= m < k ==> s[m] == prefix[m]);
            }
        }
        assert(i >= k);
        assert(is_component(t, i - k, j - k));
        assert(t.subrange(i - k, j - k) =~= s.subrange(i, j));
        assert(climbs(t));
    }
    if windows_temp(s) {
        let behind = rest(s, 3);
        let parts = components_from(behind, 0, 0, Seq::empty());
        assert(i >= 3);
        assert(behind.subrange(i - 3, j - 3) =~= ".."@);
        component_is_read(behind, 0, 0, Seq::empty(), i - 3, j - 3);
        component_is_kept(parts, ".."@);
        let kept = without_empty_tail(parts);
        let k = choose|k: int| 0 <= k < kept.len() && kept[k] == ".."@;
        assert(kept[k] != ".."@);
    }
}

/// A path that is trusted outside quotes holds nothing that the shell expands.
pub proof fn safe_unquoted_path_expands_nothing(path: PathView, style: RmFlagStyle)
    requires
        path.quote == QuoteKind::Unquoted,
        safe_for_style(path, style),
    ensures
        !path.unquoted.contains('$'),
        !path.unquoted.contains('`'),
        !path.unquoted.contains('{'),
{
    let s = path.unquoted;
    reveal_strlit("/tmp/");
    reveal_strlit("/var/tmp/");
    reveal_strlit("/private/tmp/");
    reveal_strlit("/private/var/tmp/");
    if !windows_temp(s) {
        let t = temp_suffix(s)->0;
        let k = s.len() - t.len();
        let prefix = s.subrange(0, k);
        assert forall|m: int| 0 <= m < s.len() implies !is_active_unquoted(#[trigger] s[m]) by {
            if m < k {
                assert(s[m] == prefix[m]);
                if starts(s, "/tmp/"@) {
                    assert(prefix =~= "/tmp/"@);
                } else if starts(s, "/var/tmp/"@) {
                    assert(prefix =~= "/var/tmp/"@);
                } else if starts(s, "/private/tmp/"@) {
                    assert(prefix =~= "/private/tmp/"@);
                } else {
                    assert(prefix =~= "/private/var/tmp/"@);
                }
            } else {
                assert(s[m] == t[m - k]);
            }
        }
    } else {
        assert forall|m: int| 0 <= m < s.len() implies s[m] != '$' && s[m] != '`' && s[m] != '{' by {
            assert(!is_active_windows(s[m]));
        }
    }
}

} // verus!
