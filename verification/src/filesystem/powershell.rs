//! Removals with `Remove-Item` of PowerShell.

use vstd::prelude::*;
use vstd::slice::slice_subrange;
use crate::filesystem::paths::{
    in_quotes, strip_outer_quotes, text_windows_temp, unquoted, windows_temp,
};
use crate::filesystem::redirect::{
    redirection, shell_redirection_consumes_next_word, shell_redirection_prefix,
};
use crate::filesystem::rules::{
    POWERSHELL_REMOVE_ITEM_RECURSIVE_NAME, POWERSHELL_REMOVE_ITEM_RECURSIVE_REASON,
};
use crate::filesystem::segment::{
    behind_redirection, rm_unverified_deny, unverified_deny, RmParseDecision, RmParseMatch,
};
use crate::git::branch::behind_ampersand;
use crate::pack::Severity;
use crate::shell::decode::{decoded_next, ShellTokenDecoder, ShellTokenRole};
use crate::shell::token::{tokenize_for_shell_dialect, tokens, NormalizeToken, ShellDialect};
use crate::text::{
    alnum, chars_of, from_index, has_char, index_from, is_alnum, is_str, is_str_nocase, lower_text,
    lowered, next_index, rest, same_nocase, starts, starts_str, trim, trim_start, trim_trailing,
    trimmed, trimmed_start, without_trailing,
};

verus! {

/// Whether a program is `Remove-Item` or an alias of it.
pub open spec fn removes_items(s: Seq<char>) -> bool {
    same_nocase(s, "remove-item"@) || same_nocase(s, "rm"@) || same_nocase(s, "ri"@) || same_nocase(
        s,
        "del"@,
    ) || same_nocase(s, "erase"@) || same_nocase(s, "rd"@) || same_nocase(s, "rmdir"@)
}

/// Whether a program is `Remove-Item` or an alias of it.
pub fn powershell_remove_item_alias(s: &[char]) -> (r: bool)
    ensures
        r == removes_items(s@),
{
    is_str_nocase(s, "remove-item") || is_str_nocase(s, "rm") || is_str_nocase(s, "ri")
        || is_str_nocase(s, "del") || is_str_nocase(s, "erase") || is_str_nocase(s, "rd")
        || is_str_nocase(s, "rmdir")
}

/// What a switch is set to by a word: nothing where the word is no beginning of
/// the switch with `minimum` characters at least; `unknown` where its value is
/// computed.
pub open spec fn switch_value(s: Seq<char>, canonical: Seq<char>, minimum: int, unknown: bool) -> Option<
    bool,
> {
    if s.len() == 0 || s[0] != '-' {
        None
    } else {
        let parameter = rest(s, 1);
        let colon = next_index(parameter, 0, ':');
        let name = lowered(parameter.subrange(0, colon));
        if name.len() < minimum || !starts(canonical, name) {
            None
        } else if colon >= parameter.len() {
            Some(true)
        } else {
            let value = lowered(rest(parameter, colon + 1));
            Some(
                if value == "$true"@ || value == "true"@ || value == "1"@ {
                    true
                } else if value == "$false"@ || value == "false"@ || value == "0"@ {
                    false
                } else {
                    unknown
                },
            )
        }
    }
}

/// What a switch is set to by a word.
pub fn powershell_switch_value(s: &[char], canonical: &str, minimum: usize, unknown: bool) -> (r: Option<
    bool,
>)
    ensures
        r == switch_value(s@, canonical@, minimum as int, unknown),
{
    if s.len() == 0 || s[0] != '-' {
        return None;
    }
    let parameter = from_index(s, 1);
    let colon = index_from(parameter, 0, ':');
    let name = lower_text(slice_subrange(parameter, 0, colon));
    let full = chars_of(canonical);
    if name.len() < minimum || !crate::text::at_text(full.as_slice(), 0, name.as_slice()) {
        return None;
    }
    if colon >= parameter.len() {
        return Some(true);
    }
    let value = lower_text(from_index(parameter, colon + 1));
    let v = value.as_slice();
    if is_str(v, "$true") || is_str(v, "true") || is_str(v, "1") {
        Some(true)
    } else if is_str(v, "$false") || is_str(v, "false") || is_str(v, "0") {
        Some(false)
    } else {
        Some(unknown)
    }
}

/// The path that a parameter with a colon names.
pub open spec fn path_parameter(s: Seq<char>) -> Option<Seq<char>> {
    let colon = next_index(s, 0, ':');
    let name = lowered(s.subrange(0, colon));
    if colon + 1 < s.len() && (name == "-path"@ || name == "-literalpath"@) {
        Some(rest(s, colon + 1))
    } else {
        None
    }
}

/// The path that a parameter with a colon names.
fn find_path_parameter<'a>(s: &'a [char]) -> (r: Option<&'a [char]>)
    ensures
        match r {
            Some(t) => path_parameter(s@) == Some(t@),
            None => path_parameter(s@) is None,
        },
{
    let colon = index_from(s, 0, ':');
    if colon >= s.len() || s.len() - colon <= 1 {
        return None;
    }
    let name = lower_text(slice_subrange(s, 0, colon));
    if is_str(name.as_slice(), "-path") || is_str(name.as_slice(), "-literalpath") {
        Some(from_index(s, colon + 1))
    } else {
        None
    }
}

/// What the arguments of `Remove-Item` ask for.
#[derive(Debug, Clone, Copy)]
pub struct RemoveItem {
    pub recurse: bool,
    pub what_if: bool,
    /// Whether all targets so far are literal and temporary.
    pub literal_temp: bool,
    pub has_target: bool,
}

/// The role of a word behind `Remove-Item`.
pub open spec fn argument_role(word: Seq<char>) -> ShellTokenRole {
    if starts(word, "-"@) || word == "--%"@ {
        ShellTokenRole::Syntax
    } else {
        ShellTokenRole::Data
    }
}

/// What a decoded word behind `Remove-Item` asks for.
pub open spec fn with_word(decoded: Seq<char>, a: RemoveItem) -> RemoveItem {
    let word = without_trailing(unquoted(decoded), ')');
    let recurse = switch_value(word, "recurse"@, 1, true);
    let what_if = switch_value(word, "whatif"@, 2, false);
    if word.len() == 0 {
        a
    } else if recurse is Some {
        RemoveItem { recurse: recurse->0, ..a }
    } else if what_if is Some {
        RemoveItem { what_if: what_if->0, ..a }
    } else if starts(word, "-"@) {
        match path_parameter(word) {
            Some(path) => RemoveItem {
                has_target: true,
                literal_temp: a.literal_temp && windows_temp(path),
                ..a
            },
            None => a,
        }
    } else {
        RemoveItem { has_target: true, literal_temp: a.literal_temp && windows_temp(word), ..a }
    }
}

/// What the arguments of `Remove-Item` from the `i`th token on ask for, behind
/// `a`; nothing where a table of arguments is spread, which may ask for anything.
pub open spec fn remove_item_from(
    s: Seq<char>,
    toks: Seq<NormalizeToken>,
    i: int,
    literal: bool,
    a: RemoveItem,
) -> Option<RemoveItem>
    decreases toks.len() - i,
{
    if i < 0 || i >= toks.len() {
        Some(a)
    } else {
        let text = toks[i].of(s);
        if !toks[i].word() {
            if text == "("@ {
                remove_item_from(
                    s,
                    toks,
                    i + 1,
                    literal,
                    RemoveItem { has_target: true, literal_temp: false, ..a },
                )
            } else if text == ")"@ {
                remove_item_from(s, toks, i + 1, literal, a)
            } else {
                Some(a)
            }
        } else if redirection(text) is Some {
            remove_item_from(s, toks, behind_redirection(s, toks, i), literal, a)
        } else if starts(text, "@"@) {
            None
        } else {
            match decoded_next(text, ShellDialect::PowerShell, argument_role(text), literal) {
                None => remove_item_from(s, toks, i + 1, true, a),
                Some(d) => remove_item_from(s, toks, i + 1, literal, with_word(d, a)),
            }
        }
    }
}

/// The number of the first word.
pub open spec fn first_word_from(toks: Seq<NormalizeToken>, i: int) -> int
    decreases toks.len() - i,
{
    if i < 0 || i >= toks.len() {
        toks.len() as int
    } else if toks[i].word() {
        i
    } else {
        first_word_from(toks, i + 1)
    }
}

/// The number of the first word.
pub fn find_first_word(toks: &Vec<NormalizeToken>) -> (r: usize)
    ensures
        r == first_word_from(toks@, 0),
        r <= toks.len(),
        r < toks.len() ==> toks@[r as int].word(),
{
    let mut i: usize = 0;
    while i < toks.len() && !toks[i].is_word()
        invariant
            0 <= i <= toks.len(),
            first_word_from(toks@, 0) == first_word_from(toks@, i as int),
        decreases toks.len() - i,
    {
        i += 1;
    }
    i
}

/// What is decided of a PowerShell command. `automated` tells that a pipeline
/// feeds it, so that its targets are not seen.
pub open spec fn remove_item_verdict(command: Seq<char>, automated: bool) -> RmParseDecision {
    let s = behind_ampersand(trimmed(command));
    let toks = tokens(s, ShellDialect::PowerShell);
    let i = first_word_from(toks, 0);
    let program = decoded_next(
        toks[i].of(s),
        ShellDialect::PowerShell,
        ShellTokenRole::Syntax,
        false,
    );
    if i >= toks.len() || program is None || !removes_items(program->0) {
        RmParseDecision::NoMatch
    } else {
        match remove_item_from(
            s,
            toks,
            i + 1,
            false,
            RemoveItem {
                recurse: false,
                what_if: false,
                literal_temp: !automated,
                has_target: automated,
            },
        ) {
            None => unverified_deny(),
            Some(a) => if !a.recurse || !a.has_target {
                RmParseDecision::NoMatch
            } else if a.what_if || a.literal_temp {
                RmParseDecision::Allow
            } else {
                RmParseDecision::Deny(
                    RmParseMatch {
                        pattern_name: POWERSHELL_REMOVE_ITEM_RECURSIVE_NAME,
                        reason: POWERSHELL_REMOVE_ITEM_RECURSIVE_REASON,
                        severity: Severity::Critical,
                        span: None,
                    },
                )
            },
        }
    }
}

/// What a decoded word behind `Remove-Item` asks for.
fn read_word(decoded: &[char], a: RemoveItem) -> (r: RemoveItem)
    ensures
        r == with_word(decoded@, a),
{
    let word = trim_trailing(strip_outer_quotes(decoded).1, ')');
    let mut b = a;
    if word.len() == 0 {
        return b;
    }
    if let Some(value) = powershell_switch_value(word, "recurse", 1, true) {
        b.recurse = value;
        return b;
    }
    if let Some(value) = powershell_switch_value(word, "whatif", 2, false) {
        b.what_if = value;
        return b;
    }
    if starts_str(word, "-") {
        if let Some(path) = find_path_parameter(word) {
            b.has_target = true;
            b.literal_temp = a.literal_temp && text_windows_temp(path);
        }
        return b;
    }
    b.has_target = true;
    b.literal_temp = a.literal_temp && text_windows_temp(word);
    b
}

/// A command behind an `&` at its start, if anything stands there.
pub fn skip_ampersand<'a>(t: &'a [char]) -> (r: &'a [char])
    ensures
        r@ == behind_ampersand(t@),
{
    if t.len() > 0 && t[0] == '&' {
        let behind = trim_start(from_index(t, 1));
        if behind.len() > 0 {
            return behind;
        }
    }
    t
}

/// What is decided of a PowerShell command, over texts.
pub fn text_remove_item(command: &[char], automated: bool) -> (r: RmParseDecision)
    ensures
        r == remove_item_verdict(command@, automated),
{
    let s = skip_ampersand(trim(command));
    let toks = tokenize_for_shell_dialect(s, ShellDialect::PowerShell);
    let first = find_first_word(&toks);
    if first >= toks.len() {
        return RmParseDecision::NoMatch;
    }
    let mut decoder = ShellTokenDecoder::new(ShellDialect::PowerShell);
    assert(toks@[first as int].fits(s@.len() as int));
    let head = toks[first];
    match decoder.decode(head.text(s), ShellTokenRole::Syntax) {
        None => {
            return RmParseDecision::NoMatch;
        },
        Some(program) => {
            if !powershell_remove_item_alias(program.as_slice()) {
                return RmParseDecision::NoMatch;
            }
        },
    }
    let mut a = RemoveItem {
        recurse: false,
        what_if: false,
        literal_temp: !automated,
        has_target: automated,
    };
    let ghost target = remove_item_from(s@, toks@, first + 1, false, a);
    let mut i: usize = first + 1;
    let mut open = true;
    while open && i < toks.len()
        invariant
            first < i <= toks.len(),
            forall|k: int| 0 <= k < toks@.len() ==> (#[trigger] toks@[k]).fits(s@.len() as int),
            decoder.dialect == ShellDialect::PowerShell,
            remove_item_verdict(command@, automated) == (match target {
                None => unverified_deny(),
                Some(a) => if !a.recurse || !a.has_target {
                    RmParseDecision::NoMatch
                } else if a.what_if || a.literal_temp {
                    RmParseDecision::Allow
                } else {
                    RmParseDecision::Deny(
                        RmParseMatch {
                            pattern_name: POWERSHELL_REMOVE_ITEM_RECURSIVE_NAME,
                            reason: POWERSHELL_REMOVE_ITEM_RECURSIVE_REASON,
                            severity: Severity::Critical,
                            span: None,
                        },
                    )
                },
            }),
            open ==> target == remove_item_from(s@, toks@, i as int, decoder.literal, a),
            !open ==> target == Some(a),
        decreases toks.len() - i, (if open { 1int } else { 0int }),
    {
        let t = toks[i];
        assert(toks@[i as int].fits(s@.len() as int));
        let text = t.text(s);
        if !t.is_word() {
            if is_str(text, "(") {
                a.has_target = true;
                a.literal_temp = false;
                i += 1;
            } else if is_str(text, ")") {
                i += 1;
            } else {
                open = false;
            }
            continue ;
        }
        if shell_redirection_prefix(text).is_some() {
            if shell_redirection_consumes_next_word(text) && i + 1 < toks.len() && toks[i
                + 1].is_word() {
                i += 2;
            } else {
                i += 1;
            }
            continue ;
        }
        if starts_str(text, "@") {
            return rm_unverified_deny();
        }
        let role = if starts_str(text, "-") || is_str(text, "--%") {
            ShellTokenRole::Syntax
        } else {
            ShellTokenRole::Data
        };
        if let Some(decoded) = decoder.decode(text, role) {
            a = read_word(decoded.as_slice(), a);
        }
        i += 1;
    }
    if !a.recurse || !a.has_target {
        return RmParseDecision::NoMatch;
    }
    if a.what_if || a.literal_temp {
        return RmParseDecision::Allow;
    }
    RmParseDecision::Deny(
        RmParseMatch {
            pattern_name: POWERSHELL_REMOVE_ITEM_RECURSIVE_NAME,
            reason: POWERSHELL_REMOVE_ITEM_RECURSIVE_REASON,
            severity: Severity::Critical,
            span: None,
        },
    )
}

/// What is decided of a PowerShell command: a recursive `Remove-Item` is denied
/// unless it only reports or all its targets are literal and temporary.
pub fn parse_powershell_remove_item_segment(command: &str, automated_stdin: bool) -> (r: RmParseDecision)
    ensures
        r == remove_item_verdict(command@, automated_stdin),
{
    let s = chars_of(command);
    text_remove_item(s.as_slice(), automated_stdin)
}

/// Where the expression in parentheses ends that a call operator runs, from
/// position `i` on, in `depth` parentheses.
pub open spec fn expression_end(s: Seq<char>, i: int, depth: int, single: bool, double: bool) -> Option<
    int,
>
    decreases s.len() - i,
{
    if i < 0 || i >= s.len() {
        None
    } else if s[i] == '`' && !single && i + 1 < s.len() {
        expression_end(s, i + 2, depth, single, double)
    } else if s[i] == '\'' && !double {
        expression_end(s, i + 1, depth, !single, double)
    } else if s[i] == '"' && !single {
        expression_end(s, i + 1, depth, single, !double)
    } else if !single && !double && s[i] == '(' {
        expression_end(s, i + 1, depth + 1, single, double)
    } else if !single && !double && s[i] == ')' {
        if depth <= 1 {
            Some(i + 1)
        } else {
            expression_end(s, i + 1, depth - 1, single, double)
        }
    } else {
        expression_end(s, i + 1, depth, single, double)
    }
}

/// The arguments behind an expression in parentheses that a call operator runs.
pub open spec fn expression_argv(command: Seq<char>) -> Option<Seq<char>> {
    let s = trimmed_start(command);
    let open: int = if starts(s, "("@) {
        0
    } else {
        1
    };
    if !starts(s, "("@) && !starts(s, "$("@) {
        None
    } else {
        match expression_end(s, open, 0, false, false) {
            Some(i) => Some(rest(s, i)),
            None => None,
        }
    }
}

/// The arguments behind an expression in parentheses that a call operator runs.
pub fn powershell_call_expression_argv<'a>(command: &'a [char]) -> (r: Option<&'a [char]>)
    ensures
        match r {
            Some(t) => expression_argv(command@) == Some(t@),
            None => expression_argv(command@) is None,
        },
{
    proof {
        reveal_strlit("(");
        reveal_strlit("$(");
    }
    let s = trim_start(command);
    let open: usize = if starts_str(s, "(") {
        0
    } else if starts_str(s, "$(") {
        1
    } else {
        return None;
    };
    let mut depth: usize = 0;
    let mut single = false;
    let mut double = false;
    let mut i: usize = open;
    while i < s.len()
        invariant
            open <= i <= s.len(),
            depth <= i,
            expression_argv(command@) == (match expression_end(
                s@,
                i as int,
                depth as int,
                single,
                double,
            ) {
                Some(i) => Some(rest(s@, i)),
                None => None,
            }),
        decreases s.len() - i,
    {
        let c = s[i];
        if c == '`' && !single && i + 1 < s.len() {
            i += 2;
            continue ;
        }
        if c == '\'' && !double {
            single = !single;
        } else if c == '"' && !single {
            double = !double;
        } else if !single && !double && c == '(' {
            depth += 1;
        } else if !single && !double && c == ')' {
            if depth <= 1 {
                return Some(from_index(s, i + 1));
            }
            depth -= 1;
        }
        i += 1;
    }
    None
}

/// A character of a literal program name.
pub open spec fn is_name_char(c: char) -> bool {
    is_alnum(c) || c == '_' || c == '-' || c == '.' || c == '/' || c == '\\' || c == ':'
}

/// Whether the target of a call operator is literal.
pub open spec fn static_target(raw: Seq<char>) -> bool {
    let s = trimmed(raw);
    if in_quotes(s, '\'') {
        true
    } else if in_quotes(s, '"') {
        let inner = s.subrange(1, s.len() - 1);
        !inner.contains('$') && !inner.contains('`')
    } else {
        s.len() > 0 && forall|i: int| 0 <= i < s.len() ==> is_name_char(#[trigger] s[i])
    }
}

/// Whether the target of a call operator is literal.
pub fn powershell_call_target_is_static_literal(raw: &[char]) -> (r: bool)
    ensures
        r == static_target(raw@),
{
    let s = trim(raw);
    let n = s.len();
    if n >= 2 {
        if s[0] == '\'' && s[n - 1] == '\'' {
            return true;
        }
        if s[0] == '"' && s[n - 1] == '"' {
            let inner = slice_subrange(s, 1, n - 1);
            return !has_char(inner, '$') && !has_char(inner, '`');
        }
    }
    let mut i: usize = 0;
    while i < s.len()
        invariant
            0 <= i <= s.len(),
            s@ == trimmed(raw@),
            !in_quotes(s@, '\''),
            !in_quotes(s@, '"'),
            forall|j: int| 0 <= j < i ==> is_name_char(#[trigger] s@[j]),
        decreases s.len() - i,
    {
        let c = s[i];
        if !(alnum(c) || c == '_' || c == '-' || c == '.' || c == '/' || c == '\\' || c == ':') {
            assert(!is_name_char(s@[i as int]));
            return false;
        }
        i += 1;
    }
    n > 0
}

/// A character of a variable's name.
pub open spec fn is_variable_char(c: char) -> bool {
    is_alnum(c) || c == '_' || c == ':'
}

/// Where a variable's name ends.
pub open spec fn variable_end(s: Seq<char>, i: int) -> int
    decreases s.len() - i,
{
    if i < 0 || i >= s.len() || !is_variable_char(s[i]) {
        i
    } else {
        variable_end(s, i + 1)
    }
}

/// What stands behind the variable that a command starts with.
pub open spec fn behind_variable(command: Seq<char>) -> Option<Seq<char>> {
    let s = trimmed_start(command);
    if s.len() == 0 || s[0] != '$' {
        None
    } else if s.len() > 1 && s[1] == '{' {
        let close = next_index(s, 2, '}');
        if close < s.len() {
            Some(rest(s, close + 1))
        } else {
            None
        }
    } else if variable_end(s, 1) == 1 {
        None
    } else {
        Some(rest(s, variable_end(s, 1)))
    }
}

/// Whether a command assigns to a variable.
pub open spec fn is_assignment(command: Seq<char>) -> bool {
    match behind_variable(command) {
        None => false,
        Some(t) => {
            let tail = trimmed_start(t);
            starts(tail, "="@) || starts(tail, "+="@) || starts(tail, "-="@) || starts(tail, "*="@)
                || starts(tail, "/="@) || starts(tail, "%="@)
        },
    }
}

/// What stands behind the variable that a command starts with.
fn skip_variable<'a>(command: &'a [char]) -> (r: Option<&'a [char]>)
    ensures
        match r {
            Some(t) => behind_variable(command@) == Some(t@),
            None => behind_variable(command@) is None,
        },
{
    let s = trim_start(command);
    if s.len() == 0 || s[0] != '$' {
        return None;
    }
    if s.len() > 1 && s[1] == '{' {
        let close = index_from(s, 2, '}');
        if close < s.len() {
            return Some(from_index(s, close + 1));
        }
        return None;
    }
    let mut i: usize = 1;
    while i < s.len() && (alnum(s[i]) || s[i] == '_' || s[i] == ':')
        invariant
            1 <= i <= s.len(),
            variable_end(s@, 1) == variable_end(s@, i as int),
        decreases s.len() - i,
    {
        i += 1;
    }
    if i == 1 {
        None
    } else {
        Some(from_index(s, i))
    }
}

/// Whether a PowerShell command assigns to a variable: it then runs no program of
/// that name.
pub fn powershell_variable_assignment(command: &[char]) -> (r: bool)
    ensures
        r == is_assignment(command@),
{
    match skip_variable(command) {
        None => false,
        Some(t) => {
            let tail = trim_start(t);
            starts_str(tail, "=") || starts_str(tail, "+=") || starts_str(tail, "-=") || starts_str(
                tail,
                "*=",
            ) || starts_str(tail, "/=") || starts_str(tail, "%=")
        },
    }
}

} // verus!
