//! What the character classes are, by code points.

use vstd::prelude::*;
use crate::text::{is_alnum, is_alpha, is_ascii_white, is_digit, is_white, lower, upper};

verus! {

/// ASCII letters lie from 65 to 90 and, 32 further on, from 97 to 122; the lower and
/// the upper case of a letter are 32 apart, and of every other character they are
/// the character.
pub proof fn letters_have_two_cases(c: char)
    ensures
        is_alpha(c) <==> 65 <= c as u32 <= 90 || 97 <= c as u32 <= 122,
        65 <= c as u32 <= 90 ==> lower(c) as u32 == c as u32 + 32 && upper(lower(c)) == c,
        97 <= c as u32 <= 122 ==> upper(c) as u32 == c as u32 - 32 && lower(upper(c)) == c,
        !is_alpha(c) ==> lower(c) == c && upper(c) == c,
{
}

/// ASCII digits lie from 48 to 57.
pub proof fn digits_have_their_place(c: char)
    ensures
        is_digit(c) <==> 48 <= c as u32 <= 57,
        is_alnum(c) <==> is_alpha(c) || is_digit(c),
{
}

/// White space is what Unicode gives that property, and of ASCII the space, the tab,
/// the line feed, the form feed and the carriage return.
pub proof fn white_space_is_by_its_code(c: char)
    ensures
        is_white(c) <==> ({
            let n = c as u32;
            9 <= n <= 13 || n == 32 || n == 0x85 || n == 0xa0 || n == 0x1680
                || 0x2000 <= n <= 0x200a
                || n == 0x2028 || n == 0x2029 || n == 0x202f || n == 0x205f || n == 0x3000
        }),
        is_ascii_white(c) <==> ({
            let n = c as u32;
            n == 32 || n == 9 || n == 10 || n == 12 || n == 13
        }),
{
}

} // verus!
