//! POSIX command substitutions: those whose output is known are replaced by it,
//! the others by a mark.

use vstd::prelude::*;
use vstd::slice::slice_subrange;
use crate::shell::token::{advance, at, get, onward};
use crate::shell::words::{shell_split, split_words};
use crate::text::{
    alnum, ascii_white, byte_len, contains_text, copy_of, has_char, has_str, is_alnum,
    is_ascii_white, is_str, join, joined, longer_than, push_all, push_str, same, starts, starts_str,
    texts, trim_trailing, width, width_of, without_trailing,
};

verus! {

/// The longest text that a substitution may hold or produce, in bytes.
pub const MAX_STATIC_SUBSTITUTION_BYTES: usize = 16384;

/// What stands for an unknown substitution inside double quotes.
pub const POSIX_DYNAMIC_QUOTED: &'static str = "__DCG_POSIX_SUB_Q_7B8CFAE1__";

/// What stands for an unknown substitution outside double quotes.
pub const POSIX_DYNAMIC_UNQUOTED: &'static str = "__DCG_POSIX_SUB_U_7B8CFAE1__";

/// A command whose substitutions are replaced.
#[derive(Debug)]
pub struct PosixSubstitutionView {
    pub command: Vec<char>,
    /// Whether the output of a substitution is unknown.
    pub has_dynamic: bool,
}

/// The closing delimiter of the substitution around position `i`; -1 when it is
/// not closed. `depth` counts open parentheses where the delimiter is one.
pub open spec fn substitution_close(
    s: Seq<char>,
    i: int,
    delimiter: char,
    depth: int,
    single: bool,
    double: bool,
) -> int
    decreases s.len() - i,
{
    if i < 0 || i >= s.len() {
        -1
    } else if s[i] == '\\' && !single {
        substitution_close(
            s,
            onward(i, i + 2, s.len() as int),
            delimiter,
            depth,
            single,
            double,
        )
    } else if s[i] == '\'' && !double {
        substitution_close(s, i + 1, delimiter, depth, !single, double)
    } else if s[i] == '"' && !single {
        substitution_close(s, i + 1, delimiter, depth, single, !double)
    } else if s[i] == '`' && delimiter == '`' && !single {
        i
    } else if s[i] == '(' && delimiter == ')' && !single && !double {
        substitution_close(s, i + 1, delimiter, depth + 1, single, double)
    } else if s[i] == ')' && delimiter == ')' && !single && !double {
        if depth <= 1 {
            i
        } else {
            substitution_close(s, i + 1, delimiter, depth - 1, single, double)
        }
    } else {
        substitution_close(s, i + 1, delimiter, depth, single, double)
    }
}

/// The closing delimiter of the substitution whose body starts at `start`.
pub fn find_posix_substitution_close(s: &[char], start: usize, delimiter: char) -> (r: Option<usize>)
    requires
        1 <= start <= s.len(),
    ensures
        match r {
            Some(i) => start <= i < s.len() && substitution_close(
                s@,
                start as int,
                delimiter,
                1,
                false,
                false,
            ) == i,
            None => substitution_close(s@, start as int, delimiter, 1, false, false) == -1,
        },
{
    let mut i: usize = start;
    let mut depth: usize = 1;
    let mut single = false;
    let mut double = false;
    while i < s.len()
        invariant
            1 <= start <= i <= s.len(),
            1 <= depth <= i - start + 1,
            substitution_close(s@, start as int, delimiter, 1, false, false) == substitution_close(
                s@,
                i as int,
                delimiter,
                depth as int,
                single,
                double,
            ),
        decreases s.len() - i,
    {
        let c = s[i];
        if c == '\\' && !single {
            i = advance(i, 2, s.len());
        } else if c == '\'' && !double {
            single = !single;
            i += 1;
        } else if c == '"' && !single {
            double = !double;
            i += 1;
        } else if c == '`' && delimiter == '`' && !single {
            return Some(i);
        } else if c == '(' && delimiter == ')' && !single && !double {
            depth += 1;
            i += 1;
        } else if c == ')' && delimiter == ')' && !single && !double {
            if depth <= 1 {
                return Some(i);
            }
            depth -= 1;
            i += 1;
        } else {
            i += 1;
        }
    }
    None
}

/// What one pass over a `printf` format prints behind `out`, with the arguments
/// from the `a`th on, and the argument that comes next; nothing when the format
/// holds more than literal text, `%%`, `%s`, `\n`, `\t` and `\\`.
pub open spec fn printf_pass(
    format: Seq<char>,
    i: int,
    args: Seq<Seq<char>>,
    a: int,
    out: Seq<char>,
) -> Option<(int, Seq<char>)>
    decreases format.len() - i,
{
    if i < 0 || i >= format.len() {
        Some((a, out))
    } else if format[i] == '%' {
        if at(format, i + 1) == Some('%') {
            printf_pass(format, i + 2, args, a, out.push('%'))
        } else if at(format, i + 1) == Some('s') {
            if 0 <= a < args.len() {
                printf_pass(format, i + 2, args, a + 1, out + args[a])
            } else {
                printf_pass(format, i + 2, args, a, out)
            }
        } else {
            None
        }
    } else if format[i] == '\\' {
        if at(format, i + 1) == Some('n') {
            printf_pass(format, i + 2, args, a, out.push('\n'))
        } else if at(format, i + 1) == Some('t') {
            printf_pass(format, i + 2, args, a, out.push('\t'))
        } else if at(format, i + 1) == Some('\\') {
            printf_pass(format, i + 2, args, a, out.push('\\'))
        } else {
            None
        }
    } else {
        printf_pass(format, i + 1, args, a, out.push(format[i]))
    }
}

/// What `printf` prints behind `out`: the format is used again as long as it
/// consumes arguments and some are left.
pub open spec fn printf_passes(format: Seq<char>, args: Seq<Seq<char>>, a: int, out: Seq<char>) -> Option<
    Seq<char>,
>
    decreases args.len() - a,
{
    match printf_pass(format, 0, args, a, out) {
        None => None,
        Some((b, more)) => if a < b < args.len() {
            printf_passes(format, args, b, more)
        } else {
            Some(more)
        },
    }
}

/// What `printf` prints for its arguments, the format first.
pub open spec fn printf_output(words: Seq<Seq<char>>) -> Option<Seq<char>> {
    if words.len() == 0 {
        None
    } else {
        printf_passes(words[0], words, 1, Seq::empty())
    }
}

/// What `printf` prints for its arguments, the format first; nothing when the
/// format holds more than literal text, `%%`, `%s`, `\n`, `\t` and `\\`.
pub fn render_literal_printf(words: &Vec<Vec<char>>) -> (r: Option<Vec<char>>)
    ensures
        match r {
            Some(v) => printf_output(texts(words@)) == Some(v@),
            None => printf_output(texts(words@)) is None,
        },
{
    if words.len() == 0 {
        return None;
    }
    let ghost args = texts(words@);
    let format = words[0].as_slice();
    assert(args[0] == format@);
    let mut out: Vec<char> = Vec::new();
    let mut a: usize = 1;
    assert(out@ =~= Seq::<char>::empty());
    loop
        invariant
            1 <= a <= words.len(),
            words.len() > 0,
            args == texts(words@),
            format@ == args[0],
            printf_output(args) == printf_passes(format@, args, a as int, out@),
        decreases words.len() - a,
    {
        let ghost start = a as int;
        let ghost before = out@;
        let first = a;
        let mut i: usize = 0;
        while i < format.len()
            invariant
                0 <= i <= format.len(),
                first <= a <= words.len(),
                args == texts(words@),
                format@ == args[0],
                printf_pass(format@, 0, args, start, before) == printf_pass(
                    format@,
                    i as int,
                    args,
                    a as int,
                    out@,
                ),
                printf_output(args) == printf_passes(format@, args, start, before),
                start == first,
            decreases format.len() - i,
        {
            let c = format[i];
            let next = get(format, i + 1);
            if c == '%' {
                if next == Some('%') {
                    out.push('%');
                    i += 2;
                } else if next == Some('s') {
                    if a < words.len() {
                        assert(args[a as int] == words@[a as int]@);
                        push_all(&mut out, words[a].as_slice());
                        a += 1;
                    }
                    i += 2;
                } else {
                    return None;
                }
            } else if c == '\\' {
                if next == Some('n') {
                    out.push('\n');
                    i += 2;
                } else if next == Some('t') {
                    out.push('\t');
                    i += 2;
                } else if next == Some('\\') {
                    out.push('\\');
                    i += 2;
                } else {
                    return None;
                }
            } else {
                out.push(c);
                i += 1;
            }
        }
        if !(first < a && a < words.len()) {
            return Some(out);
        }
    }
}

/// A character that the body of a known substitution cannot hold.
pub open spec fn is_active(c: char) -> bool {
    c == '$' || c == '`' || c == ';' || c == '|' || c == '&' || c == '<' || c == '>' || c == '('
        || c == ')' || c == '*' || c == '?' || c == '[' || c == ']' || c == '{' || c == '}' || c
        == '~' || c == '\n' || c == '\r' || c == '\0'
}

/// A character that the output of a known substitution may hold: it means
/// nothing to the shell.
pub open spec fn is_inert(c: char) -> bool {
    is_alnum(c) || is_ascii_white(c) || c == '_' || c == '.' || c == '/' || c == ':' || c == '+'
        || c == ',' || c == '=' || c == '@' || c == '%' || c == '-'
}

/// What the program of a substitution prints, as far as it is known: `printf`
/// with a literal format, and `echo` without options and escapes.
pub open spec fn produced(words: Seq<Seq<char>>) -> Option<Seq<char>> {
    if words.len() == 0 {
        None
    } else {
        let args = words.subrange(1, words.len() as int);
        if words[0] == "printf"@ {
            printf_output(
                if args.len() > 0 && args[0] == "--"@ {
                    args.subrange(1, args.len() as int)
                } else {
                    args
                },
            )
        } else if words[0] == "echo"@ && (args.len() == 0 || !starts(args[0], "-"@)) && (forall|
            i: int,
        |
            0 <= i < args.len() ==> !(#[trigger] args[i]).contains('\\')) {
            Some(joined(args))
        } else {
            None
        }
    }
}

/// The output of a substitution with the given body, as far as it is known.
pub open spec fn static_output(body: Seq<char>) -> Option<Seq<char>> {
    if byte_len(body) > MAX_STATIC_SUBSTITUTION_BYTES || (exists|i: int|
        0 <= i < body.len() && is_active(#[trigger] body[i])) {
        None
    } else {
        match shell_split(body) {
            None => None,
            Some(words) => match produced(words) {
                None => None,
                Some(text) => {
                    let t = without_trailing(text, '\n');
                    if byte_len(t) > MAX_STATIC_SUBSTITUTION_BYTES || (exists|i: int|
                        0 <= i < t.len() && !is_inert(#[trigger] t[i])) {
                        None
                    } else {
                        Some(t)
                    }
                },
            },
        }
    }
}

/// Whether the shell gives a character of the text a meaning.
fn any_active(s: &[char]) -> (r: bool)
    ensures
        r == exists|i: int| 0 <= i < s@.len() && is_active(#[trigger] s@[i]),
{
    let mut i: usize = 0;
    while i < s.len()
        invariant
            0 <= i <= s.len(),
            forall|j: int| 0 <= j < i ==> !is_active(#[trigger] s@[j]),
        decreases s.len() - i,
    {
        let c = s[i];
        if c == '$' || c == '`' || c == ';' || c == '|' || c == '&' || c == '<' || c == '>' || c
            == '(' || c == ')' || c == '*' || c == '?' || c == '[' || c == ']' || c == '{' || c
            == '}' || c == '~' || c == '\n' || c == '\r' || c == '\0' {
            assert(is_active(s@[i as int]));
            return true;
        }
        i += 1;
    }
    false
}

/// Whether no character of the text means anything to the shell.
fn all_inert(s: &[char]) -> (r: bool)
    ensures
        r == !(exists|i: int| 0 <= i < s@.len() && !is_inert(#[trigger] s@[i])),
{
    let mut i: usize = 0;
    while i < s.len()
        invariant
            0 <= i <= s.len(),
            forall|j: int| 0 <= j < i ==> is_inert(#[trigger] s@[j]),
        decreases s.len() - i,
    {
        let c = s[i];
        if !(alnum(c) || ascii_white(c) || c == '_' || c == '.' || c == '/' || c == ':' || c == '+'
            || c == ',' || c == '=' || c == '@' || c == '%' || c == '-') {
            assert(!is_inert(s@[i as int]));
            return false;
        }
        i += 1;
    }
    true
}

/// The words from the `n`th on.
fn drop_words(words: &Vec<Vec<char>>, n: usize) -> (r: Vec<Vec<char>>)
    requires
        n <= words.len(),
    ensures
        texts(r@) == texts(words@).subrange(n as int, words@.len() as int),
{
    let mut r: Vec<Vec<char>> = Vec::new();
    let mut i: usize = n;
    while i < words.len()
        invariant
            n <= i <= words.len(),
            r@.len() == i - n,
            forall|j: int| 0 <= j < r@.len() ==> r@[j]@ == words@[n + j]@,
        decreases words.len() - i,
    {
        r.push(copy_of(words[i].as_slice()));
        i += 1;
    }
    assert(texts(r@) =~= texts(words@).subrange(n as int, words@.len() as int));
    r
}

/// What the program of a substitution prints, as far as it is known.
fn produce(words: &Vec<Vec<char>>) -> (r: Option<Vec<char>>)
    ensures
        match r {
            Some(v) => produced(texts(words@)) == Some(v@),
            None => produced(texts(words@)) is None,
        },
{
    if words.len() == 0 {
        return None;
    }
    let ghost all = texts(words@);
    assert(all[0] == words@[0]@);
    let args = drop_words(words, 1);
    let ghost views = texts(args@);
    if is_str(words[0].as_slice(), "printf") {
        if args.len() > 0 {
            assert(views[0] == args@[0]@);
            if is_str(args[0].as_slice(), "--") {
                let more = drop_words(&args, 1);
                return render_literal_printf(&more);
            }
        }
        return render_literal_printf(&args);
    }
    if !is_str(words[0].as_slice(), "echo") {
        return None;
    }
    if args.len() > 0 {
        assert(views[0] == args@[0]@);
        if starts_str(args[0].as_slice(), "-") {
            return None;
        }
    }
    let mut i: usize = 0;
    while i < args.len()
        invariant
            0 <= i <= args.len(),
            views == texts(args@),
            views == texts(words@).subrange(1, words@.len() as int),
            words@.len() > 0,
            texts(words@)[0] != "printf"@,
            forall|j: int| 0 <= j < i ==> !(#[trigger] views[j]).contains('\\'),
        decreases args.len() - i,
    {
        assert(views[i as int] == args@[i as int]@);
        if has_char(args[i].as_slice(), '\\') {
            return None;
        }
        i += 1;
    }
    Some(join(&args))
}

/// The output of a substitution with the given body, as far as it is known.
pub fn render_static_producer_body(body: &[char]) -> (r: Option<Vec<char>>)
    ensures
        match r {
            Some(v) => static_output(body@) == Some(v@),
            None => static_output(body@) is None,
        },
{
    if longer_than(body, MAX_STATIC_SUBSTITUTION_BYTES) || any_active(body) {
        return None;
    }
    match split_words(body) {
        None => None,
        Some(words) => match produce(&words) {
            None => None,
            Some(text) => {
                let t = trim_trailing(text.as_slice(), '\n');
                if longer_than(t, MAX_STATIC_SUBSTITUTION_BYTES) || !all_inert(t) {
                    None
                } else {
                    Some(copy_of(t))
                }
            },
        },
    }
}

/// The mark of an unknown substitution.
pub open spec fn mark(quoted: bool) -> Seq<char> {
    if quoted {
        POSIX_DYNAMIC_QUOTED@
    } else {
        POSIX_DYNAMIC_UNQUOTED@
    }
}

/// The command from position `i` on with its substitutions replaced, behind
/// `out`, and whether one is unknown; nothing when a substitution is not closed
/// or a backslash stands before a character of more than one byte.
pub open spec fn replaced_from(
    s: Seq<char>,
    i: int,
    single: bool,
    double: bool,
    out: Seq<char>,
    dynamic: bool,
) -> Option<(Seq<char>, bool)>
    decreases s.len() - i,
{
    if i < 0 || i >= s.len() {
        Some((out, dynamic))
    } else if s[i] == '\\' && !single {
        let j = onward(i, i + 2, s.len() as int);
        if i + 1 < s.len() && width(s[i + 1]) > 1 {
            None
        } else {
            replaced_from(s, j, single, double, out + s.subrange(i, j), dynamic)
        }
    } else if s[i] == '\'' && !double {
        replaced_from(s, i + 1, !single, double, out.push('\''), dynamic)
    } else if s[i] == '"' && !single {
        replaced_from(s, i + 1, single, !double, out.push('"'), dynamic)
    } else if !single && (s[i] == '`' || (s[i] == '$' && at(s, i + 1) == Some('('))) {
        let start = if s[i] == '`' {
            i + 1
        } else {
            i + 2
        };
        let close = substitution_close(
            s,
            start,
            if s[i] == '`' {
                '`'
            } else {
                ')'
            },
            1,
            false,
            false,
        );
        if close < start || close >= s.len() {
            None
        } else {
            match static_output(s.subrange(start, close)) {
                Some(text) => replaced_from(s, close + 1, single, double, out + text, dynamic),
                None => replaced_from(s, close + 1, single, double, out + mark(double), true),
            }
        }
    } else {
        replaced_from(s, i + 1, single, double, out.push(s[i]), dynamic)
    }
}

/// A command with its substitutions replaced, and whether one is unknown.
/// Nothing when the command holds a mark already, when a substitution is not
/// closed, or when the result is too long.
pub open spec fn substitution_view(s: Seq<char>) -> Option<(Seq<char>, bool)> {
    if contains_text(s, POSIX_DYNAMIC_QUOTED@) || contains_text(s, POSIX_DYNAMIC_UNQUOTED@) {
        None
    } else {
        match replaced_from(s, 0, false, false, Seq::empty(), false) {
            None => None,
            Some((out, dynamic)) => if byte_len(out) > MAX_STATIC_SUBSTITUTION_BYTES {
                None
            } else {
                Some((out, dynamic))
            },
        }
    }
}

/// A command with its substitutions replaced, and whether one is unknown.
pub fn posix_substitution_view(s: &[char]) -> (r: Option<PosixSubstitutionView>)
    ensures
        match r {
            Some(v) => substitution_view(s@) == Some((v.command@, v.has_dynamic)),
            None => substitution_view(s@) is None,
        },
{
    if has_str(s, POSIX_DYNAMIC_QUOTED) || has_str(s, POSIX_DYNAMIC_UNQUOTED) {
        return None;
    }
    let mut out: Vec<char> = Vec::new();
    let mut i: usize = 0;
    let mut single = false;
    let mut double = false;
    let mut dynamic = false;
    assert(out@ =~= Seq::<char>::empty());
    while i < s.len()
        invariant
            0 <= i <= s.len(),
            !contains_text(s@, POSIX_DYNAMIC_QUOTED@) && !contains_text(s@, POSIX_DYNAMIC_UNQUOTED@),
            replaced_from(s@, 0, false, false, Seq::empty(), false) == replaced_from(
                s@,
                i as int,
                single,
                double,
                out@,
                dynamic,
            ),
        decreases s.len() - i,
    {
        let c = s[i];
        if c == '\\' && !single {
            if i + 1 < s.len() && width_of(s[i + 1]) > 1 {
                return None;
            }
            let j = advance(i, 2, s.len());
            push_all(&mut out, slice_subrange(s, i, j));
            i = j;
        } else if c == '\'' && !double {
            single = !single;
            out.push('\'');
            i += 1;
        } else if c == '"' && !single {
            double = !double;
            out.push('"');
            i += 1;
        } else if !single && (c == '`' || (c == '$' && get(s, i + 1) == Some('('))) {
            let start = if c == '`' {
                i + 1
            } else {
                i + 2
            };
            let delimiter = if c == '`' {
                '`'
            } else {
                ')'
            };
            match find_posix_substitution_close(s, start, delimiter) {
                None => {
                    return None;
                },
                Some(close) => {
                    match render_static_producer_body(slice_subrange(s, start, close)) {
                        Some(text) => {
                            push_all(&mut out, text.as_slice());
                        },
                        None => {
                            if double {
                                push_str(&mut out, POSIX_DYNAMIC_QUOTED);
                            } else {
                                push_str(&mut out, POSIX_DYNAMIC_UNQUOTED);
                            }
                            dynamic = true;
                        },
                    }
                    i = close + 1;
                },
            }
        } else {
            out.push(c);
            i += 1;
        }
    }
    if longer_than(out.as_slice(), MAX_STATIC_SUBSTITUTION_BYTES) {
        return None;
    }
    Some(PosixSubstitutionView { command: out, has_dynamic: dynamic })
}

/// What is known of a command once its substitutions are replaced.
#[derive(Debug)]
pub enum Resolution {
    /// The command holds no substitution.
    Unchanged,
    /// The output of every substitution is known.
    Resolved(Vec<char>),
    /// The output of a substitution is unknown.
    Open,
}

/// The mathematical form of a [`Resolution`]: the outer `None` for an unknown
/// output, the inner one for a command without substitutions.
pub open spec fn resolution(s: Seq<char>) -> Option<Option<Seq<char>>> {
    match substitution_view(s) {
        None => None,
        Some((out, dynamic)) => if dynamic {
            None
        } else if out == s {
            Some(None)
        } else {
            Some(Some(out))
        },
    }
}

/// The command with its substitutions replaced by their output, where all of it
/// is known.
pub fn resolve_literal_printf_substitutions(s: &[char]) -> (r: Resolution)
    ensures
        match r {
            Resolution::Unchanged => resolution(s@) == Some(None::<Seq<char>>),
            Resolution::Resolved(v) => resolution(s@) == Some(Some(v@)),
            Resolution::Open => resolution(s@) is None,
        },
{
    match posix_substitution_view(s) {
        None => Resolution::Open,
        Some(view) => {
            if view.has_dynamic {
                Resolution::Open
            } else if same(view.command.as_slice(), s) {
                Resolution::Unchanged
            } else {
                Resolution::Resolved(view.command)
            }
        },
    }
}

} // verus!
