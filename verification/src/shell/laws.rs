//! What quotes and escapes stand for.

use vstd::prelude::*;
use crate::shell::decode::{
    ansi_escape, cmd_decoded, cmd_decoded_from, hex_value, posix_decoded, posix_decoded_from,
    powershell_decoded, powershell_decoded_from, scalar, with_code,
};
use crate::shell::token::onward;

verus! {

/// Quoted text from position `i` on is taken as it stands.
proof fn quoted_text_is_kept(s: Seq<char>, i: int, quote: char)
    requires
        1 <= i < s.len(),
        s.last() == quote,
        forall|k: int| 1 <= k < s.len() - 1 ==> #[trigger] s[k] != quote,
        quote == '"' ==> forall|k: int| 1 <= k < s.len() - 1 ==> #[trigger] s[k] != '\\' && s[k] != '`',
    ensures
        quote == '\'' ==> posix_decoded_from(s, i, 1, s.subrange(1, i)) == s.subrange(
            1,
            s.len() - 1,
        ) && powershell_decoded_from(s, i, 1, s.subrange(1, i)) == s.subrange(1, s.len() - 1),
        quote == '"' ==> posix_decoded_from(s, i, 2, s.subrange(1, i)) == s.subrange(1, s.len() - 1)
            && powershell_decoded_from(s, i, 2, s.subrange(1, i)) == s.subrange(1, s.len() - 1)
            && cmd_decoded_from(s, i, true, s.subrange(1, i)) == s.subrange(1, s.len() - 1),
    decreases s.len() - i,
{
    if i < s.len() - 1 {
        assert(s[i] != quote);
        assert(s.subrange(1, i).push(s[i]) =~= s.subrange(1, i + 1));
        quoted_text_is_kept(s, i + 1, quote);
    } else {
        assert(s[i] == quote);
        let t = s.subrange(1, i);
        assert(posix_decoded_from(s, i + 1, 0, t) == t);
        assert(powershell_decoded_from(s, i + 1, 0, t) == t);
        assert(cmd_decoded_from(s, i + 1, false, t) == t);
    }
}

/// Text in single quotes stands for itself, in the POSIX shell and in PowerShell.
pub proof fn single_quotes_keep_text(t: Seq<char>)
    requires
        !t.contains('\''),
    ensures
        posix_decoded("'"@ + t + "'"@) == t,
        powershell_decoded("'"@ + t + "'"@) == t,
{
    reveal_strlit("'");
    let s = "'"@ + t + "'"@;
    assert(s[0] == '\'' && s.last() == '\'');
    assert forall|k: int| 1 <= k < s.len() - 1 implies #[trigger] s[k] != '\'' by {
        assert(s[k] == t[k - 1]);
    }
    assert(s.subrange(1, 1) =~= Seq::<char>::empty());
    quoted_text_is_kept(s, 1, '\'');
    assert(s.subrange(1, s.len() - 1) =~= t);
}

/// Text in double quotes without escapes stands for itself, in every dialect.
pub proof fn double_quotes_keep_text(t: Seq<char>)
    requires
        !t.contains('"'),
        !t.contains('\\'),
        !t.contains('`'),
    ensures
        posix_decoded("\""@ + t + "\""@) == t,
        powershell_decoded("\""@ + t + "\""@) == t,
        cmd_decoded("\""@ + t + "\""@) == t,
{
    reveal_strlit("\"");
    let s = "\""@ + t + "\""@;
    assert(s[0] == '"' && s.last() == '"');
    assert forall|k: int| 1 <= k < s.len() - 1 implies #[trigger] s[k] != '"' && s[k] != '\\' && s[k]
        != '`' by {
        assert(s[k] == t[k - 1]);
    }
    assert(s.subrange(1, 1) =~= Seq::<char>::empty());
    quoted_text_is_kept(s, 1, '"');
    assert(s.subrange(1, s.len() - 1) =~= t);
}

/// An escaped character stands for itself: behind a backslash in the POSIX shell,
/// where a line break disappears, behind a back-quote in PowerShell and behind a
/// caret in Cmd.
pub proof fn escaped_characters_stand_for_themselves(c: char)
    ensures
        c != '\n' ==> posix_decoded(seq!['\\', c]) == seq![c],
        posix_decoded(seq!['\\', '\n']) == Seq::<char>::empty(),
        powershell_decoded(seq!['`', c]) == seq![c],
        cmd_decoded(seq!['^', c]) == seq![c],
{
    let none = Seq::<char>::empty();
    let a = seq!['\\', c];
    let b = seq!['`', c];
    let d = seq!['^', c];
    let e = seq!['\\', '\n'];
    assert(none.push(c) =~= seq![c]);
    assert(posix_decoded_from(a, 2, 0, none.push(c)) == none.push(c));
    assert(posix_decoded_from(e, 2, 0, none) == none);
    assert(powershell_decoded_from(b, 2, 0, none.push(c)) == none.push(c));
    assert(cmd_decoded_from(d, 2, false, none.push(c)) == none.push(c));
}

/// The character that a letter behind a backslash stands for in ANSI-C quotes.
pub open spec fn ansi_character(c: char) -> Option<char> {
    if c == 'a' {
        Some('\u{7}')
    } else if c == 'b' {
        Some('\u{8}')
    } else if c == 't' {
        Some('\t')
    } else if c == 'n' {
        Some('\n')
    } else if c == 'v' {
        Some('\u{b}')
    } else if c == 'f' {
        Some('\u{c}')
    } else if c == 'r' {
        Some('\r')
    } else if c == 'e' || c == 'E' {
        Some('\u{1b}')
    } else if c == '\\' || c == '\'' || c == '"' || c == '?' {
        Some(c)
    } else {
        None
    }
}

/// The escapes of ANSI-C quotes.
pub proof fn ansi_escapes_are_the_listed_ones(c: char)
    requires
        ansi_character(c) is Some,
    ensures
        posix_decoded(seq!['$', '\'', '\\', c, '\'']) == seq![ansi_character(c)->0],
{
    let none = Seq::<char>::empty();
    let s = seq!['$', '\'', '\\', c, '\''];
    let x = ansi_character(c)->0;
    assert(s.len() == 5 && s[0] == '$' && s[1] == '\'' && s[2] == '\\' && s[3] == c && s[4] == '\'');
    assert(ansi_escape(s, 3) == ((x as u32) as int, 4int));
    assert(scalar((x as u32) as int) == Some(x));
    assert(with_code(none, (x as u32) as int) == none.push(x));
    let one = none.push(x);
    assert(one =~= seq![x]);
    assert(posix_decoded_from(s, 5, 0, one) == one);
    assert(posix_decoded_from(s, 4, 3, one) == one);
    assert(onward(2, 4, 5) == 4);
    assert(posix_decoded_from(s, 2, 3, none) == one);
}

/// The character that a letter behind a back-quote stands for in double quotes of
/// PowerShell.
pub open spec fn powershell_character(c: char) -> char {
    if c == '0' {
        '\0'
    } else if c == 'a' {
        '\u{7}'
    } else if c == 'b' {
        '\u{8}'
    } else if c == 'e' {
        '\u{1b}'
    } else if c == 'f' {
        '\u{c}'
    } else if c == 'n' {
        '\n'
    } else if c == 'r' {
        '\r'
    } else if c == 't' {
        '\t'
    } else if c == 'v' {
        '\u{b}'
    } else {
        c
    }
}

/// The escapes of PowerShell in double quotes; any other character stands for
/// itself.
pub proof fn powershell_escapes_are_the_listed_ones(c: char)
    ensures
        powershell_decoded(seq!['"', '`', c, '"']) == seq![powershell_character(c)],
{
    let none = Seq::<char>::empty();
    let s = seq!['"', '`', c, '"'];
    let x = powershell_character(c);
    let one = none.push(x);
    assert(one =~= seq![x]);
    assert(s.len() == 4 && s[0] == '"' && s[1] == '`' && s[2] == c && s[3] == '"');
    assert(powershell_decoded_from(s, 4, 0, one) == one);
    assert(powershell_decoded_from(s, 3, 2, one) == one);
    assert(powershell_decoded_from(s, 1, 2, none) == one);
}

/// The value of a hexadecimal digit is its place among the digits.
pub proof fn hexadecimal_digits_have_their_values(k: int)
    requires
        0 <= k < 16,
    ensures
        hex_value("0123456789abcdef"@[k]) == k,
        hex_value("0123456789ABCDEF"@[k]) == k,
{
    reveal_strlit("0123456789abcdef");
    reveal_strlit("0123456789ABCDEF");
}

} // verus!
