//! What operands a removal is trusted with.

use vstd::prelude::*;
use crate::filesystem::paths::{
    climbs, components_from, in_user_temp, is_active_unquoted, is_active_windows, is_component,
    names_something, root_home, safe_double_quoted, safe_for_style, safe_unquoted, temp_suffix,
    windows_temp, without_empty_tail, PathView, QuoteKind, RmFlagStyle,
};
use crate::git::plain::{is_plain, is_plain_word};
use crate::text::{is_alpha, lowered, rest, same_nocase, starts};

verus! {

/// Whether a path is the text `t` below `/tmp`, `/var/tmp` or, on macOS, their
/// names below `/private`.
pub open spec fn is_below_tmp(s: Seq<char>, t: Seq<char>) -> bool {
    s == "/tmp/"@ + t || s == "/var/tmp/"@ + t || s == "/private/tmp/"@ + t || s
        == "/private/var/tmp/"@ + t
}

/// A separator of the components of a Windows path.
pub open spec fn is_slash(c: char) -> bool {
    c == '/' || c == '\\'
}

/// Whether the characters `i..j` stand between slashes, and spell `name` in either
/// case.
pub open spec fn is_directory(s: Seq<char>, i: int, j: int, name: Seq<char>) -> bool {
    0 < i <= j < s.len() && is_slash(s[i - 1]) && is_slash(s[j]) && same_nocase(
        s.subrange(i, j),
        name,
    )
}

/// Whether the slashes at these positions behind the drive separate `Users`, a
/// name, `AppData`, `Local`, `Temp` and something more.
pub open spec fn are_user_temp(s: Seq<char>, a: int, b: int, c: int, d: int, e: int) -> bool {
    &&& is_directory(s, 3, a, "users"@)
    &&& a + 1 < b < s.len() && is_slash(s[b])
    &&& is_directory(s, b + 1, c, "appdata"@)
    &&& is_directory(s, c + 1, d, "local"@)
    &&& is_directory(s, d + 1, e, "temp"@)
    &&& e + 1 < s.len()
}

/// Whether a path is `X:\Users\NAME\AppData\Local\Temp\...` in letters of either
/// case, with a drive in either form and slashes of either kind.
pub open spec fn is_below_user_temp(s: Seq<char>) -> bool {
    &&& s.len() >= 3
    &&& (is_alpha(s[0]) && s[1] == ':' && is_slash(s[2])) || (s[0] == '/' && is_alpha(s[1]) && s[2]
        == '/')
    &&& exists|a: int, b: int, c: int, d: int, e: int| #[trigger] are_user_temp(s, a, b, c, d, e)
}

/// Whether a path has a component `..`.
pub open spec fn has_dot_dot(t: Seq<char>) -> bool {
    exists|a: Seq<char>, b: Seq<char>| "/"@ + t + "/"@ == #[trigger] (a + "/../"@ + b)
}

/// A text begins with another where it is that one and something behind it.
proof fn begins_with(s: Seq<char>, p: Seq<char>, t: Seq<char>)
    requires
        s == p + t,
    ensures
        starts(s, p),
        rest(s, p.len() as int) == t,
{
    assert(s.subrange(0, p.len() as int) =~= p);
    assert(rest(s, p.len() as int) =~= t);
}

/// What a temporary path has behind its directory is what stands below it.
#[verifier::rlimit(40)]
proof fn temp_suffix_is_what_stands_below(s: Seq<char>, t: Seq<char>)
    ensures
        is_below_tmp(s, t) <==> temp_suffix(s) == Some(t),
{
    reveal_strlit("/tmp/");
    reveal_strlit("/var/tmp/");
    reveal_strlit("/private/tmp/");
    reveal_strlit("/private/var/tmp/");
    assert(forall|n: int, k: int| 0 <= k < n <= s.len() ==> #[trigger] s.subrange(0, n)[k] == s[k]);
    if is_below_tmp(s, t) {
        if s == "/tmp/"@ + t {
            begins_with(s, "/tmp/"@, t);
        } else if s == "/var/tmp/"@ + t {
            begins_with(s, "/var/tmp/"@, t);
            assert(s[1] == 'v');
            assert(starts(s, "/tmp/"@) ==> s.subrange(0, 5)[1] == 't');
        } else if s == "/private/tmp/"@ + t {
            begins_with(s, "/private/tmp/"@, t);
            assert(s[1] == 'p');
            assert(starts(s, "/tmp/"@) ==> s.subrange(0, 5)[1] == 't');
            assert(starts(s, "/var/tmp/"@) ==> s.subrange(0, 9)[1] == 'v');
        } else {
            begins_with(s, "/private/var/tmp/"@, t);
            assert(s[1] == 'p' && s[9] == 'v');
            assert(starts(s, "/tmp/"@) ==> s.subrange(0, 5)[1] == 't');
            assert(starts(s, "/var/tmp/"@) ==> s.subrange(0, 9)[1] == 'v');
            assert(starts(s, "/private/tmp/"@) ==> s.subrange(0, 13)[9] == 't');
        }
    }
    if temp_suffix(s) == Some(t) {
        if starts(s, "/tmp/"@) {
            assert(s =~= "/tmp/"@ + t);
        } else if starts(s, "/var/tmp/"@) {
            assert(s =~= "/var/tmp/"@ + t);
        } else if starts(s, "/private/tmp/"@) {
            assert(s =~= "/private/tmp/"@ + t);
        } else {
            assert(s =~= "/private/var/tmp/"@ + t);
        }
    }
}

/// A path that climbs has a component `..`.
#[verifier::rlimit(40)]
proof fn climbing_is_by_a_dot_dot(t: Seq<char>, i: int, j: int)
    requires
        is_component(t, i, j),
        t.subrange(i, j) == ".."@,
    ensures
        has_dot_dot(t),
{
    reveal_strlit("/");
    reveal_strlit("..");
    reveal_strlit("/../");
    let x = "/"@ + t + "/"@;
    let n = t.len() as int;
    assert(t.subrange(i, j).len() == 2);
    assert(t[i] == t.subrange(i, j)[0] && t[i + 1] == t.subrange(i, j)[1]);
    let a = x.subrange(0, i);
    let b = x.subrange(i + 4, n + 2);
    assert(x[i] == '/') by {
        if i > 0 {
            assert(x[i] == t[i - 1]);
        }
    }
    assert(x[i + 1] == t[i] && x[i + 2] == t[i + 1]);
    assert(x[i + 3] == '/') by {
        if j < n {
            assert(x[i + 3] == t[j]);
        }
    }
    assert(x.subrange(i, i + 4) =~= "/../"@);
    assert(x =~= a + x.subrange(i, i + 4) + b);
}

/// A component `..` climbs.
#[verifier::rlimit(40)]
proof fn a_dot_dot_climbs(t: Seq<char>, a: Seq<char>, b: Seq<char>)
    requires
        "/"@ + t + "/"@ == a + "/../"@ + b,
    ensures
        climbs(t),
{
    reveal_strlit("/");
    reveal_strlit("..");
    reveal_strlit("/../");
    let x = "/"@ + t + "/"@;
    let y = a + "/../"@ + b;
    let n = t.len() as int;
    let i = a.len() as int;
    assert(x.len() == n + 2 && y.len() == i + 4 + b.len());
    assert(y[i] == '/' && y[i + 1] == '.' && y[i + 2] == '.' && y[i + 3] == '/');
    assert(x[i + 1] == '.' && x[i + 2] == '.');
    assert(i + 2 <= n);
    assert(t[i] == x[i + 1] && t[i + 1] == x[i + 2]);
    if i > 0 {
        assert(t[i - 1] == x[i]);
    }
    if i + 2 < n {
        assert(t[i + 2] == x[i + 3]);
    }
    assert(t.subrange(i, i + 2) =~= ".."@);
    assert(is_component(t, i, i + 2));
}

/// A path climbs where it has a component `..`.
proof fn climbing_is_a_dot_dot(t: Seq<char>)
    ensures
        climbs(t) <==> has_dot_dot(t),
{
    if climbs(t) {
        let (i, j) = choose|i: int, j: int| #[trigger]
            is_component(t, i, j) && t.subrange(i, j) == ".."@;
        climbing_is_by_a_dot_dot(t, i, j);
    }
    if has_dot_dot(t) {
        let (a, b) = choose|a: Seq<char>, b: Seq<char>|
            "/"@ + t + "/"@ == #[trigger] (a + "/../"@ + b);
        a_dot_dot_climbs(t, a, b);
    }
}

/// The component around a character.
proof fn component_around(t: Seq<char>, k: int, i: int, j: int)
    requires
        0 <= i <= k < j <= t.len(),
        forall|m: int| i <= m < j ==> t[m] != '/',
    ensures
        exists|a: int, b: int| #[trigger] is_component(t, a, b) && a <= k < b,
    decreases i + (t.len() - j),
{
    if i > 0 && t[i - 1] != '/' {
        component_around(t, k, i - 1, j);
    } else if j < t.len() && t[j] != '/' {
        component_around(t, k, i, j + 1);
    } else {
        assert(is_component(t, i, j));
    }
}

/// A text with a character that is neither a slash nor a dot names something.
proof fn a_character_names_something(t: Seq<char>, k: int)
    requires
        0 <= k < t.len(),
        t[k] != '/',
        t[k] != '.',
    ensures
        names_something(t),
{
    component_around(t, k, k, k + 1);
    let (a, b) = choose|a: int, b: int| #[trigger] is_component(t, a, b) && a <= k < b;
    reveal_strlit(".");
    if t.subrange(a, b) == "."@ {
        assert(t.subrange(a, b).len() == 1);
        assert(t.subrange(a, b)[0] == '.');
        assert(t[a] == '.');
    }
}

/// The component of a Windows path that starts at `start` ends at a slash, behind
/// which the next one starts, or at the end.
proof fn component_ends(s: Seq<char>, i: int, start: int, out: Seq<Seq<char>>) -> (e: int)
    requires
        0 <= start <= i <= s.len(),
        forall|k: int| start <= k < i ==> !is_slash(#[trigger] s[k]),
    ensures
        i <= e <= s.len(),
        forall|k: int| start <= k < e ==> !is_slash(#[trigger] s[k]),
        e < s.len() ==> is_slash(s[e]) && components_from(s, i, start, out) == components_from(
            s,
            e + 1,
            e + 1,
            out.push(s.subrange(start, e)),
        ),
        e == s.len() ==> components_from(s, i, start, out) == out.push(s.subrange(start, e)),
    decreases s.len() - i,
{
    if i == s.len() {
        i
    } else if is_slash(s[i]) {
        i
    } else {
        component_ends(s, i + 1, start, out)
    }
}

/// Components that were read stay.
proof fn components_stay(s: Seq<char>, i: int, start: int, out: Seq<Seq<char>>)
    requires
        0 <= i <= s.len(),
    ensures
        components_from(s, i, start, out).len() > out.len(),
        forall|k: int| 0 <= k < out.len() ==> components_from(s, i, start, out)[k] == #[trigger] out[k],
    decreases s.len() - i,
{
    if i < s.len() {
        if s[i] == '/' || s[i] == '\\' {
            let more = out.push(s.subrange(start, i));
            components_stay(s, i + 1, i + 1, more);
            assert(forall|k: int| 0 <= k < out.len() ==> more[k] == #[trigger] out[k]);
        } else {
            components_stay(s, i + 1, start, out);
        }
    }
}

/// A list without its empty tail begins as the list does.
proof fn empty_tail_is_cut(parts: Seq<Seq<char>>)
    ensures
        without_empty_tail(parts).len() <= parts.len(),
        forall|k: int|
            0 <= k < without_empty_tail(parts).len() ==> without_empty_tail(parts)[k]
                == #[trigger] parts[k],
    decreases parts.len(),
{
    if parts.len() > 0 && parts.last().len() == 0 {
        empty_tail_is_cut(parts.drop_last());
        assert(forall|k: int|
            0 <= k < parts.len() - 1 ==> parts.drop_last()[k] == #[trigger] parts[k]);
    }
}

/// The same text in either case, in lower case.
proof fn case_is_nothing(a: Seq<char>, b: Seq<char>, c: Seq<char>)
    requires
        same_nocase(a, b),
        lowered(b) == c,
        lowered(c) == c,
    ensures
        same_nocase(a, c),
{
}

/// The directories of a user in lower case.
#[verifier::rlimit(40)]
proof fn directory_names()
    ensures
        lowered("Users"@) == "users"@,
        lowered("users"@) == "users"@,
        lowered("AppData"@) == "appdata"@,
        lowered("appdata"@) == "appdata"@,
        lowered("Local"@) == "local"@,
        lowered("local"@) == "local"@,
        lowered("Temp"@) == "temp"@,
        lowered("temp"@) == "temp"@,
{
    reveal_strlit("Users");
    reveal_strlit("users");
    reveal_strlit("AppData");
    reveal_strlit("appdata");
    reveal_strlit("Local");
    reveal_strlit("local");
    reveal_strlit("Temp");
    reveal_strlit("temp");
    assert(lowered("Users"@) =~= "users"@);
    assert(lowered("users"@) =~= "users"@);
    assert(lowered("AppData"@) =~= "appdata"@);
    assert(lowered("appdata"@) =~= "appdata"@);
    assert(lowered("Local"@) =~= "local"@);
    assert(lowered("local"@) =~= "local"@);
    assert(lowered("Temp"@) =~= "temp"@);
    assert(lowered("temp"@) =~= "temp"@);
}

/// Where the first six components of a path end that has them.
#[verifier::rlimit(40)]
proof fn six_components(r: Seq<char>) -> (p: (int, int, int, int, int, int))
    requires
        without_empty_tail(components_from(r, 0, 0, Seq::empty())).len() >= 6,
    ensures
        ({
            let cut = without_empty_tail(components_from(r, 0, 0, Seq::empty()));
            &&& 0 <= p.0 < p.1 < p.2 < p.3 < p.4 < p.5 <= r.len()
            &&& is_slash(r[p.0]) && is_slash(r[p.1]) && is_slash(r[p.2]) && is_slash(r[p.3])
                && is_slash(r[p.4])
            &&& cut[0] == r.subrange(0, p.0)
            &&& cut[1] == r.subrange(p.0 + 1, p.1)
            &&& cut[2] == r.subrange(p.1 + 1, p.2)
            &&& cut[3] == r.subrange(p.2 + 1, p.3)
            &&& cut[4] == r.subrange(p.3 + 1, p.4)
            &&& cut[5] == r.subrange(p.4 + 1, p.5)
        }),
{
    let none = Seq::<Seq<char>>::empty();
    let parts = components_from(r, 0, 0, none);
    let cut = without_empty_tail(parts);
    empty_tail_is_cut(parts);
    let a = component_ends(r, 0, 0, none);
    let o1 = none.push(r.subrange(0, a));
    assert(a < r.len());
    let b = component_ends(r, a + 1, a + 1, o1);
    let o2 = o1.push(r.subrange(a + 1, b));
    assert(b < r.len());
    let c = component_ends(r, b + 1, b + 1, o2);
    let o3 = o2.push(r.subrange(b + 1, c));
    assert(c < r.len());
    let d = component_ends(r, c + 1, c + 1, o3);
    let o4 = o3.push(r.subrange(c + 1, d));
    assert(d < r.len());
    let e = component_ends(r, d + 1, d + 1, o4);
    let o5 = o4.push(r.subrange(d + 1, e));
    assert(e < r.len());
    let f = component_ends(r, e + 1, e + 1, o5);
    let o6 = o5.push(r.subrange(e + 1, f));
    if f < r.len() {
        components_stay(r, f + 1, f + 1, o6);
    }
    assert(o6[0] == r.subrange(0, a) && o6[1] == r.subrange(a + 1, b) && o6[2] == r.subrange(
        b + 1,
        c,
    ) && o6[3] == r.subrange(c + 1, d) && o6[4] == r.subrange(d + 1, e) && o6[5] == r.subrange(
        e + 1,
        f,
    ));
    assert(parts[0] == o6[0] && parts[1] == o6[1] && parts[2] == o6[2] && parts[3] == o6[3]
        && parts[4] == o6[4] && parts[5] == o6[5]);
    (a, b, c, d, e, f)
}

/// A directory behind the drive.
proof fn directory_behind_drive(s: Seq<char>, i: int, j: int, spelled: Seq<char>, name: Seq<char>)
    requires
        s.len() >= 3,
        0 <= i <= j < s.len() - 3,
        is_slash(s[i + 2]),
        is_slash(s[j + 3]),
        same_nocase(rest(s, 3).subrange(i, j), spelled),
        lowered(spelled) == name,
        lowered(name) == name,
    ensures
        is_directory(s, i + 3, j + 3, name),
{
    assert(s.subrange(i + 3, j + 3) =~= rest(s, 3).subrange(i, j));
    case_is_nothing(rest(s, 3).subrange(i, j), spelled, name);
}

/// A path that is trusted as temporary on Windows stands below the temporary
/// directory of a user.
#[verifier::rlimit(40)]
pub proof fn trusted_windows_paths_are_below_the_temporary_directory_of_a_user(s: Seq<char>)
    requires
        windows_temp(s),
    ensures
        is_below_user_temp(s),
        !s.contains('$') && !s.contains('%') && !s.contains('`') && !s.contains('{') && !s.contains(
            '}',
        ) && !s.contains('\'') && !s.contains('"') && !s.contains(',') && !s.contains(';'),
{
    let r = rest(s, 3);
    let cut = without_empty_tail(components_from(r, 0, 0, Seq::empty()));
    let (a, b, c, d, e, f) = six_components(r);
    directory_names();
    assert(cut[1].len() > 0 && cut[5].len() > 0);
    assert(s[a + 3] == r[a] && s[b + 3] == r[b] && s[c + 3] == r[c] && s[d + 3] == r[d] && s[e + 3]
        == r[e]);
    assert(is_slash(s[a + 3]) && is_slash(s[b + 3]) && is_slash(s[c + 3]) && is_slash(s[d + 3])
        && is_slash(s[e + 3]));
    directory_behind_drive(s, 0, a, "Users"@, "users"@);
    directory_behind_drive(s, b + 1, c, "AppData"@, "appdata"@);
    directory_behind_drive(s, c + 1, d, "Local"@, "local"@);
    directory_behind_drive(s, d + 1, e, "Temp"@, "temp"@);
    assert(are_user_temp(s, a + 3, b + 3, c + 3, d + 3, e + 3));
    nothing_is_active(s);
}

/// A literal Windows path holds no character that is never part of one.
proof fn nothing_is_active(s: Seq<char>)
    requires
        windows_temp(s),
    ensures
        !s.contains('$') && !s.contains('%') && !s.contains('`') && !s.contains('{') && !s.contains(
            '}',
        ) && !s.contains('\'') && !s.contains('"') && !s.contains(',') && !s.contains(';'),
{
    assert forall|c: char| s.contains(c) implies !is_active_windows(c) by {
        let k = choose|k: int| 0 <= k < s.len() && s[k] == c;
        assert(!is_active_windows(s[k]));
    }
}

/// An operand that a removal is trusted with stands below `/tmp/`, `/var/tmp/`,
/// `/private/tmp/` or `/private/var/tmp/`, or below the temporary directory of a
/// Windows user. It has no component `..` there, and nothing in it is expanded. It
/// is never single-quoted, and double-quoted only where the flags stand in one
/// cluster.
#[verifier::rlimit(40)]
pub proof fn trusted_operands_are_temporary(path: PathView, style: RmFlagStyle)
    requires
        safe_for_style(path, style),
    ensures
        is_below_user_temp(path.unquoted) || exists|t: Seq<char>|
            #[trigger] is_below_tmp(path.unquoted, t) && !has_dot_dot(t) && t.len() > 0,
        path.quote == QuoteKind::Unquoted || (path.quote == QuoteKind::Double && style
            == RmFlagStyle::Combined),
        path.quote == QuoteKind::Unquoted ==> !path.unquoted.contains('$')
            && !path.unquoted.contains('`') && !path.unquoted.contains('{')
            && !path.unquoted.contains('}'),
{
    let s = path.unquoted;
    if windows_temp(s) {
        trusted_windows_paths_are_below_the_temporary_directory_of_a_user(s);
    } else {
        let t = temp_suffix(s)->0;
        temp_suffix_is_what_stands_below(s, t);
        climbing_is_a_dot_dot(t);
        assert(is_below_tmp(s, t));
        let (i, j) = choose|i: int, j: int| #[trigger]
            is_component(t, i, j) && i < j && t.subrange(i, j) != "."@;
        assert(is_component(t, i, j));
        if path.quote == QuoteKind::Unquoted {
            temporary_directories_are_literal(s, t);
        }
    }
}

/// The temporary directories hold nothing that is expanded.
#[verifier::rlimit(40)]
proof fn temporary_directories_are_literal(s: Seq<char>, t: Seq<char>)
    requires
        is_below_tmp(s, t),
        forall|i: int| 0 <= i < t.len() ==> !is_active_unquoted(#[trigger] t[i]),
    ensures
        !s.contains('$'),
        !s.contains('`'),
        !s.contains('{'),
        !s.contains('}'),
{
    reveal_strlit("/tmp/");
    reveal_strlit("/var/tmp/");
    reveal_strlit("/private/tmp/");
    reveal_strlit("/private/var/tmp/");
    let n = s.len() - t.len();
    assert forall|k: int| 0 <= k < s.len() implies !is_active_unquoted(#[trigger] s[k]) by {
        if k >= n {
            assert(s[k] == t[k - n]);
        } else {
            assert(n <= 17);
            literal_directory(s, t, k);
        }
    }
    assert forall|c: char| s.contains(c) implies !is_active_unquoted(c) by {
        let k = choose|k: int| 0 <= k < s.len() && s[k] == c;
        assert(!is_active_unquoted(s[k]));
    }
}

/// A character of a temporary directory stands for itself.
proof fn literal_directory(s: Seq<char>, t: Seq<char>, k: int)
    requires
        is_below_tmp(s, t),
        0 <= k < s.len() - t.len(),
    ensures
        !is_active_unquoted(s[k]),
{
    reveal_strlit("/tmp/");
    reveal_strlit("/var/tmp/");
    reveal_strlit("/private/tmp/");
    reveal_strlit("/private/var/tmp/");
    if s == "/tmp/"@ + t {
        assert(s[k] == "/tmp/"@[k]);
    } else if s == "/var/tmp/"@ + t {
        assert(s[k] == "/var/tmp/"@[k]);
    } else if s == "/private/tmp/"@ + t {
        assert(s[k] == "/private/tmp/"@[k]);
    } else {
        assert(s[k] == "/private/var/tmp/"@[k]);
    }
}

/// A removal is trusted with a plain path below a temporary directory that has no
/// component `..` and names something; it is not trusted with one that has.
pub proof fn plain_temporary_paths_are_trusted(s: Seq<char>, t: Seq<char>, style: RmFlagStyle)
    requires
        is_plain_word(s),
        is_below_tmp(s, t),
        exists|k: int| 0 <= k < t.len() && #[trigger] t[k] != '/' && t[k] != '.',
    ensures
        !is_below_user_temp(s) ==> (safe_unquoted(s) <==> !has_dot_dot(t)),
        !has_dot_dot(t) ==> safe_unquoted(s),
{
    temp_suffix_is_what_stands_below(s, t);
    climbing_is_a_dot_dot(t);
    let k = choose|k: int| 0 <= k < t.len() && #[trigger] t[k] != '/' && t[k] != '.';
    a_character_names_something(t, k);
    let n = s.len() - t.len();
    assert forall|i: int| 0 <= i < t.len() implies !is_active_unquoted(#[trigger] t[i]) by {
        assert(t[i] == s[i + n]);
        assert(is_plain(s[i + n]));
    }
    if windows_temp(s) {
        trusted_windows_paths_are_below_the_temporary_directory_of_a_user(s);
    }
}

/// A removal is not trusted with a path that stands below none of the temporary
/// directories.
pub proof fn other_paths_are_not_trusted(s: Seq<char>)
    requires
        forall|t: Seq<char>| !(#[trigger] is_below_tmp(s, t)),
        !is_below_user_temp(s),
    ensures
        !safe_unquoted(s),
        !safe_double_quoted(s),
{
    if windows_temp(s) {
        trusted_windows_paths_are_below_the_temporary_directory_of_a_user(s);
    } else if temp_suffix(s) is Some {
        let t = temp_suffix(s)->0;
        temp_suffix_is_what_stands_below(s, t);
    }
}

/// The paths whose removal is critical begin with a slash or a tilde, or with the
/// home directory in one of its two spellings, `$HOME` and `${HOME}`; a backslash
/// before a slash or a tilde changes nothing.
#[verifier::rlimit(40)]
pub proof fn critical_paths_are_absolute_or_below_home(path: PathView)
    ensures
        root_home(path) <==> ({
            let s = path.unquoted;
            ||| s.len() > 0 && (s[0] == '/' || s[0] == '~')
            ||| s.len() > 1 && s[0] == '\\' && (s[1] == '/' || s[1] == '~')
            ||| s == "$HOME"@ || s == "${HOME}"@
            ||| exists|t: Seq<char>| s == #[trigger] ("$HOME/"@ + t)
            ||| exists|t: Seq<char>| s == #[trigger] ("${HOME}/"@ + t)
        }),
{
    let s = path.unquoted;
    reveal_strlit("/");
    reveal_strlit("~");
    reveal_strlit("$HOME/");
    reveal_strlit("${HOME}/");
    if s.len() > 0 {
        if s[0] == '/' {
            assert(s.subrange(0, 1) =~= "/"@);
        }
        if s[0] == '~' {
            assert(s.subrange(0, 1) =~= "~"@);
        }
        assert(starts(s, "/"@) ==> s.subrange(0, 1)[0] == '/');
        assert(starts(s, "~"@) ==> s.subrange(0, 1)[0] == '~');
    }
    if starts(s, "$HOME/"@) {
        assert(s =~= "$HOME/"@ + rest(s, 6));
    }
    if starts(s, "${HOME}/"@) {
        assert(s =~= "${HOME}/"@ + rest(s, 8));
    }
    assert forall|t: Seq<char>| s == #[trigger] ("$HOME/"@ + t) implies starts(s, "$HOME/"@) by {
        begins_with(s, "$HOME/"@, t);
    }
    assert forall|t: Seq<char>| s == #[trigger] ("${HOME}/"@ + t) implies starts(s, "${HOME}/"@) by {
        begins_with(s, "${HOME}/"@, t);
    }
}

/// A name that is a component of its own: not empty, without slashes, and neither
/// `.` nor `..`.
pub open spec fn is_component_name(n: Seq<char>) -> bool {
    &&& n.len() > 0
    &&& n != "."@ && n != ".."@
    &&& forall|i: int| 0 <= i < n.len() ==> !is_slash(#[trigger] n[i])
}

/// A component of a path behind a slash is read up to the next slash.
proof fn component_is_read(s: Seq<char>, i: int, start: int, e: int, out: Seq<Seq<char>>)
    requires
        0 <= start <= i <= e <= s.len(),
        forall|k: int| start <= k < e ==> !is_slash(#[trigger] s[k]),
        e < s.len() ==> is_slash(s[e]),
    ensures
        e < s.len() ==> components_from(s, i, start, out) == components_from(
            s,
            e + 1,
            e + 1,
            out.push(s.subrange(start, e)),
        ),
        e == s.len() ==> components_from(s, i, start, out) == out.push(s.subrange(start, e)),
    decreases e - i,
{
    if i < e {
        assert(!is_slash(s[i]));
        component_is_read(s, i + 1, start, e, out);
    }
}

/// The path of something below the temporary directory of a user, as a POSIX shell
/// on Windows writes it.
pub open spec fn user_temp_path(d: char, user: Seq<char>, name: Seq<char>) -> Seq<char> {
    seq!['/', d] + "/Users/"@ + user + "/AppData/Local/Temp/"@ + name
}

/// The components of such a path.
#[verifier::rlimit(40)]
proof fn user_temp_components(user: Seq<char>, name: Seq<char>)
    requires
        is_component_name(user),
        is_component_name(name),
    ensures
        components_from(
            "Users/"@ + user + "/AppData/Local/Temp/"@ + name,
            0,
            0,
            Seq::empty(),
        ) == seq!["Users"@, user, "AppData"@, "Local"@, "Temp"@, name],
{
    reveal_strlit("Users/");
    reveal_strlit("/AppData/Local/Temp/");
    reveal_strlit("Users");
    reveal_strlit("AppData");
    reveal_strlit("Local");
    reveal_strlit("Temp");
    let r = "Users/"@ + user + "/AppData/Local/Temp/"@ + name;
    let u = user.len() as int;
    let n = name.len() as int;
    let z = 26 + u + n;
    let none = Seq::<Seq<char>>::empty();
    assert(r.len() == z);
    assert forall|k: int| 6 <= k < 6 + u implies !is_slash(#[trigger] r[k]) by {
        assert(r[k] == user[k - 6]);
    }
    assert forall|k: int| 26 + u <= k < z implies !is_slash(#[trigger] r[k]) by {
        assert(r[k] == name[k - 26 - u]);
    }
    assert forall|k: int| 0 <= k < 6 implies r[k] == "Users/"@[k] by {}
    assert forall|k: int| 0 <= k < 20 implies #[trigger] r[6 + u + k] == "/AppData/Local/Temp/"@[k] by {}
    assert(r[6 + u + 0] == '/' && r[6 + u + 8] == '/' && r[6 + u + 14] == '/' && r[6 + u + 19] == '/');
    assert forall|k: int| 7 + u <= k < 14 + u implies !is_slash(#[trigger] r[k]) by {
        assert(r[6 + u + (k - 6 - u)] == "/AppData/Local/Temp/"@[k - 6 - u]);
    }
    assert forall|k: int| 15 + u <= k < 20 + u implies !is_slash(#[trigger] r[k]) by {
        assert(r[6 + u + (k - 6 - u)] == "/AppData/Local/Temp/"@[k - 6 - u]);
    }
    assert forall|k: int| 21 + u <= k < 25 + u implies !is_slash(#[trigger] r[k]) by {
        assert(r[6 + u + (k - 6 - u)] == "/AppData/Local/Temp/"@[k - 6 - u]);
    }
    let o1 = none.push("Users"@);
    let o2 = o1.push(user);
    let o3 = o2.push("AppData"@);
    let o4 = o3.push("Local"@);
    let o5 = o4.push("Temp"@);
    assert(r.subrange(0, 5) =~= "Users"@);
    component_is_read(r, 0, 0, 5, none);
    assert(r.subrange(6, 6 + u) =~= user);
    component_is_read(r, 6, 6, 6 + u, o1);
    assert(r.subrange(7 + u, 14 + u) =~= "AppData"@) by {
        assert forall|k: int| 0 <= k < 7 implies r[7 + u + k] == "AppData"@[k] by {
            assert(r[6 + u + (k + 1)] == "/AppData/Local/Temp/"@[k + 1]);
        }
    }
    component_is_read(r, 7 + u, 7 + u, 14 + u, o2);
    assert(r.subrange(15 + u, 20 + u) =~= "Local"@) by {
        assert forall|k: int| 0 <= k < 5 implies r[15 + u + k] == "Local"@[k] by {
            assert(r[6 + u + (k + 9)] == "/AppData/Local/Temp/"@[k + 9]);
        }
    }
    component_is_read(r, 15 + u, 15 + u, 20 + u, o3);
    assert(r.subrange(21 + u, 25 + u) =~= "Temp"@) by {
        assert forall|k: int| 0 <= k < 4 implies r[21 + u + k] == "Temp"@[k] by {
            assert(r[6 + u + (k + 15)] == "/AppData/Local/Temp/"@[k + 15]);
        }
    }
    component_is_read(r, 21 + u, 21 + u, 25 + u, o4);
    assert(r.subrange(26 + u, z) =~= name);
    component_is_read(r, 26 + u, 26 + u, z, o5);
    assert(o5.push(name) =~= seq!["Users"@, user, "AppData"@, "Local"@, "Temp"@, name]);
}

/// A plain path below the temporary directory of a user is trusted, on any drive
/// and for any user.
#[verifier::rlimit(40)]
pub proof fn paths_below_the_temporary_directory_of_a_user_are_trusted(
    d: char,
    user: Seq<char>,
    name: Seq<char>,
)
    requires
        is_alpha(d),
        is_plain_word(user),
        is_plain_word(name),
        is_component_name(user),
        is_component_name(name),
    ensures
        windows_temp(user_temp_path(d, user, name)),
{
    let s = user_temp_path(d, user, name);
    let r = "Users/"@ + user + "/AppData/Local/Temp/"@ + name;
    let parts = seq!["Users"@, user, "AppData"@, "Local"@, "Temp"@, name];
    reveal_strlit("/Users/");
    reveal_strlit("Users/");
    reveal_strlit("/AppData/Local/Temp/");
    reveal_strlit("Users");
    reveal_strlit("AppData");
    reveal_strlit("Local");
    reveal_strlit("Temp");
    reveal_strlit(".");
    reveal_strlit("..");
    assert(rest(s, 3) =~= r);
    assert(s[0] == '/' && s[1] == d && s[2] == '/');
    user_temp_components(user, name);
    assert(parts.last() == name);
    assert(without_empty_tail(parts) == parts);
    assert forall|i: int| 0 <= i < parts.len() implies (#[trigger] parts[i]).len() > 0 && parts[i]
        != "."@ && parts[i] != ".."@ by {
        assert("Users"@.len() == 5 && "AppData"@.len() == 7 && "Local"@.len() == 5 && "Temp"@.len()
            == 4 && "."@.len() == 1 && ".."@.len() == 2);
    }
    assert(in_user_temp(parts));
    assert forall|i: int| 0 <= i < s.len() implies !is_active_windows(#[trigger] s[i]) && s[i]
        != ':' by {
        user_temp_characters(d, user, name, i);
    }
    if rest(s, 3).contains(':') {
        let j = choose|j: int| 0 <= j < rest(s, 3).len() && rest(s, 3)[j] == ':';
        assert(s[j + 3] == ':');
    }
}

/// The characters of such a path stand for themselves.
#[verifier::rlimit(40)]
proof fn user_temp_characters(d: char, user: Seq<char>, name: Seq<char>, i: int)
    requires
        is_alpha(d),
        is_plain_word(user),
        is_plain_word(name),
        0 <= i < user_temp_path(d, user, name).len(),
    ensures
        !is_active_windows(user_temp_path(d, user, name)[i]),
        user_temp_path(d, user, name)[i] != ':',
{
    let s = user_temp_path(d, user, name);
    reveal_strlit("/Users/");
    reveal_strlit("/AppData/Local/Temp/");
    let u = user.len() as int;
    if i < 2 {
        assert(s[i] == seq!['/', d][i]);
    } else if i < 9 {
        assert(s[i] == "/Users/"@[i - 2]);
    } else if i < 9 + u {
        assert(s[i] == user[i - 9]);
        assert(is_plain(user[i - 9]));
    } else if i < 29 + u {
        assert(s[i] == "/AppData/Local/Temp/"@[i - 9 - u]);
    } else {
        assert(s[i] == name[i - 29 - u]);
        assert(is_plain(name[i - 29 - u]));
    }
}

} // verus!
