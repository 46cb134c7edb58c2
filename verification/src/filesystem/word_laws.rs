//! The words and values that the analysis of removals treats in a way of its own.

use vstd::prelude::*;
use crate::filesystem::flags::{
    interactive_mode, mode_from, short_from, with_option, RmFlagTracker, RmInteractiveMode, Span,
};
use crate::filesystem::frontends::ends_exec;
use crate::filesystem::paths::unquoted;
use crate::filesystem::redirect::redirection;
use crate::filesystem::scan::{has_command_word, is_word_char, keyword_candidate, word_at};
use crate::filesystem::stdin::{closes, compound_close, continues_compound, PosixGroupClose};
use crate::text::{lowered, rest, same_nocase, starts, white_end};

verus! {

/// The name of a program that the rules on files look for, in lower case.
pub open spec fn is_file_program(n: Seq<char>) -> bool {
    n == "rm"@ || n == "find"@ || n == "unlink"@ || n == "truncate"@ || n == "shred"@ || n == "tar"@
        || n == "dd"@ || n == "mv"@ || n == "cp"@ || n == "ln"@ || n == "rsync"@
}

/// The names of these programs are in lower case.
proof fn file_programs_are_in_lower_case(n: Seq<char>)
    requires
        is_file_program(n),
    ensures
        lowered(n) == n,
{
    reveal_strlit("rm");
    reveal_strlit("find");
    reveal_strlit("unlink");
    reveal_strlit("truncate");
    reveal_strlit("shred");
    reveal_strlit("tar");
    reveal_strlit("dd");
    reveal_strlit("mv");
    reveal_strlit("cp");
    reveal_strlit("ln");
    reveal_strlit("rsync");
    assert(lowered(n) =~= n);
}

/// A command is looked at where it redirects, or where one of the listed programs
/// stands anywhere in it as a word, in letters of either case.
#[verifier::rlimit(40)]
pub proof fn commands_with_these_programs_are_looked_at(
    a: Seq<char>,
    word: Seq<char>,
    b: Seq<char>,
)
    requires
        is_file_program(lowered(word)),
        a.len() == 0 || !is_word_char(a.last()),
        b.len() == 0 || !is_word_char(b[0]),
    ensures
        keyword_candidate(a + word + b),
        keyword_candidate(a + ">"@ + b),
{
    let s = a + word + b;
    let n = lowered(word);
    let i = a.len() as int;
    file_programs_are_in_lower_case(n);
    assert(s.subrange(i, i + word.len()) =~= word);
    assert(same_nocase(word, n));
    assert(n.len() == word.len());
    if i > 0 {
        assert(s[i - 1] == a.last());
    }
    if b.len() > 0 {
        assert(s[i + word.len()] == b[0]);
    }
    assert(word_at(s, i, n));
    assert(has_command_word(s, n));
    reveal_strlit(">");
    assert((a + ">"@ + b)[i] == '>');
}

/// The words that open and close compound commands of the POSIX shell, and those
/// behind which another command starts.
pub proof fn compound_commands_open_and_close_by_these_words(w: Seq<char>)
    ensures
        compound_close(w) == Some(PosixGroupClose::Done) <==> w == "while"@ || w == "until"@ || w
            == "for"@ || w == "select"@,
        w == "if"@ ==> compound_close(w) == Some(PosixGroupClose::Fi),
        w == "case"@ ==> compound_close(w) == Some(PosixGroupClose::Esac),
        compound_close(w) is Some ==> w == "while"@ || w == "until"@ || w == "for"@ || w == "select"@
            || w == "if"@ || w == "case"@,
        w == "done"@ <==> closes(w) == Some(PosixGroupClose::Done),
        w == "fi"@ ==> closes(w) == Some(PosixGroupClose::Fi),
        w == "esac"@ ==> closes(w) == Some(PosixGroupClose::Esac),
        closes(w) is Some ==> w == "done"@ || w == "fi"@ || w == "esac"@,
        continues_compound(w) <==> w == "do"@ || w == "then"@ || w == "else"@ || w == "elif"@,
{
    reveal_strlit("while");
    reveal_strlit("until");
    reveal_strlit("for");
    reveal_strlit("select");
    reveal_strlit("if");
    reveal_strlit("case");
    reveal_strlit("done");
    reveal_strlit("fi");
    reveal_strlit("esac");
    assert("if"@.len() == 2 && "case"@.len() == 4 && "fi"@.len() == 2 && "done"@.len() == 4
        && "esac"@.len() == 4);
    assert("done"@[0] == 'd' && "esac"@[0] == 'e');
}

/// The values of `--interactive`: a beginning of `never`, `no` or `none` never asks,
/// one of `once` asks once, one of `always` or `yes` always asks, and no other value
/// is known.
pub proof fn interactive_values_are_the_listed_ones(v: Seq<char>)
    requires
        v.len() > 0,
    ensures
        interactive_mode(v) == Some(RmInteractiveMode::Never) <==> starts("never"@, v) || starts(
            "no"@,
            v,
        ) || starts("none"@, v),
        interactive_mode(v) == Some(RmInteractiveMode::Once) <==> starts("once"@, v),
        interactive_mode(v) == Some(RmInteractiveMode::Always) <==> starts("always"@, v) || starts(
            "yes"@,
            v,
        ),
        interactive_mode(v) is None <==> !starts("never"@, v) && !starts("no"@, v) && !starts(
            "none"@,
            v,
        ) && !starts("once"@, v) && !starts("always"@, v) && !starts("yes"@, v),
{
    reveal_strlit("never");
    reveal_strlit("no");
    reveal_strlit("none");
    reveal_strlit("once");
    reveal_strlit("always");
    reveal_strlit("yes");
    let n = v.len() as int;
    assert(starts("never"@, v) ==> "never"@.subrange(0, n)[0] == 'n' && v[0] == 'n');
    assert(starts("no"@, v) ==> "no"@.subrange(0, n)[0] == 'n' && v[0] == 'n');
    assert(starts("none"@, v) ==> "none"@.subrange(0, n)[0] == 'n' && v[0] == 'n');
    assert(starts("once"@, v) ==> "once"@.subrange(0, n)[0] == 'o' && v[0] == 'o');
    assert(starts("always"@, v) ==> "always"@.subrange(0, n)[0] == 'a' && v[0] == 'a');
    assert(starts("yes"@, v) ==> "yes"@.subrange(0, n)[0] == 'y' && v[0] == 'y');
    reveal_with_fuel(mode_from, 8);
}

/// A letter of `rm`.
pub open spec fn is_rm_letter(c: char) -> bool {
    c == 'r' || c == 'R' || c == 'f' || c == 'i' || c == 'I' || c == 'd' || c == 'E' || c == 'P'
        || c
        == 'v' || c == 'W' || c == 'x'
}

/// The letters of a cluster are all known, or it is not read.
#[verifier::rlimit(40)]
proof fn letters_are_known(s: Seq<char>, i: int, span: Span, f: RmFlagTracker)
    requires
        0 <= i <= s.len(),
    ensures
        short_from(s, i, span, f) is Some <==> forall|k: int|
            i <= k < s.len() ==> is_rm_letter(#[trigger] s[k]),
    decreases s.len() - i,
{
    if i < s.len() {
        let c = s[i];
        if is_rm_letter(c) {
            let g = short_from(s.subrange(i, i + 1), 0, span, f)->0;
            assert(s.subrange(i, i + 1)[0] == c);
            reveal_with_fuel(short_from, 2);
            letters_are_known(s, i + 1, span, g);
            assert(short_from(s, i, span, f) == short_from(s, i + 1, span, g));
            if forall|k: int| i + 1 <= k < s.len() ==> is_rm_letter(#[trigger] s[k]) {
                assert forall|k: int| i <= k < s.len() implies is_rm_letter(#[trigger] s[k]) by {}
            }
        } else {
            assert(!is_rm_letter(s[i]));
        }
    }
}

/// The letters of `rm` are the listed ones: a cluster of these is read, and one with
/// any other letter is not.
pub proof fn clusters_of_rm_are_of_the_listed_letters(l: Seq<char>, span: Span, f: RmFlagTracker)
    requires
        l.len() > 0,
        l[0] != '-',
    ensures
        with_option("-"@ + l, span, f) is Continue <==> forall|k: int|
            0 <= k < l.len() ==> is_rm_letter(#[trigger] l[k]),
        !(with_option("-"@ + l, span, f) is Continue) ==> with_option("-"@ + l, span, f) is Invalid,
{
    let w = "-"@ + l;
    reveal_strlit("-");
    reveal_strlit("--");
    assert(w[1] == l[0]);
    if starts(w, "--"@) {
        assert(w.subrange(0, 2)[1] == '-');
    }
    assert(rest(w, 1) =~= l);
    letters_are_known(l, 0, span, f);
}

/// A word that ends the command of `-exec`.
pub proof fn commands_of_find_end_at_these_words(w: Seq<char>)
    ensures
        ends_exec(w) <==> unquoted(w) == ";"@ || unquoted(w) == "\\;"@ || unquoted(w) == "+"@,
{
}

/// A redirection operator.
pub open spec fn is_redirection_operator(o: Seq<char>) -> bool {
    o == "<"@ || o == ">"@ || o == "<<"@ || o == ">>"@ || o == "<>"@ || o == "<&"@ || o == ">&"@
        || o
        == ">|"@ || o == "&>"@ || o == "<<<"@ || o == "<<-"@ || o == "&>>"@
}

/// Each redirection operator, with a target behind it that continues no operator,
/// is a redirection up to the target. It gives the command its standard input where
/// it begins with `<` and is not `<>`.
#[verifier::rlimit(60)]
pub proof fn operators_redirect(o: Seq<char>, t: Seq<char>)
    requires
        is_redirection_operator(o),
        t.len() > 0,
        t[0] != '<' && t[0] != '>' && t[0] != '&' && t[0] != '|' && t[0] != '-' && t[0] != '(',
    ensures
        redirection(o + t) == Some((o.len() as int, o[0] == '<' && o != "<>"@)),
{
    reveal_strlit("<");
    reveal_strlit(">");
    reveal_strlit("<<");
    reveal_strlit(">>");
    reveal_strlit("<>");
    reveal_strlit("<&");
    reveal_strlit(">&");
    reveal_strlit(">|");
    reveal_strlit("&>");
    reveal_strlit("<<<");
    reveal_strlit("<<-");
    reveal_strlit("&>>");
    let s = o + t;
    let n = o.len() as int;
    assert(1 <= n <= 3);
    assert(s[0] == o[0]);
    assert(s[n] == t[0]);
    if n > 1 {
        assert(s[1] == o[1]);
    }
    if n > 2 {
        assert(s[2] == o[2]);
    }
    assert(s[0] == '<' || s[0] == '>' || s[0] == '&');
    assert(white_end(s, 0) == 0);
    assert(rest(s, 0) =~= s);
    prefix_by_letters(s);
}

/// The beginnings of a text of one, two and three characters.
#[verifier::rlimit(40)]
proof fn prefix_by_letters(s: Seq<char>)
    requires
        s.len() > 1,
    ensures
        forall|p: Seq<char>| p.len() == 1 ==> (#[trigger] starts(s, p) <==> p[0] == s[0]),
        forall|p: Seq<char>|
            p.len() == 2 ==> (#[trigger] starts(s, p) <==> p[0] == s[0] && p[1] == s[1]),
        forall|p: Seq<char>|
            p.len() == 3 ==> (#[trigger] starts(s, p) <==> s.len() > 2 && p[0] == s[0] && p[1] == s[1]
                && p[2] == s[2]),
{
    assert forall|p: Seq<char>| p.len() == 1 implies (#[trigger] starts(s, p) <==> p[0] == s[0]) by {
        if p[0] == s[0] {
            assert(s.subrange(0, 1) =~= p);
        }
        assert(starts(s, p) ==> s.subrange(0, 1)[0] == p[0]);
    }
    assert forall|p: Seq<char>| p.len() == 2 implies (#[trigger] starts(s, p) <==> p[0] == s[0]
        && p[1] == s[1]) by {
        if p[0] == s[0] && p[1] == s[1] {
            assert(s.subrange(0, 2) =~= p);
        }
        assert(starts(s, p) ==> s.subrange(0, 2)[0] == p[0] && s.subrange(0, 2)[1] == p[1]);
    }
    assert forall|p: Seq<char>| p.len() == 3 implies (#[trigger] starts(s, p) <==> s.len() > 2
        && p[0] == s[0] && p[1] == s[1] && p[2] == s[2]) by {
        if s.len() > 2 && p[0] == s[0] && p[1] == s[1] && p[2] == s[2] {
            assert(s.subrange(0, 3) =~= p);
        }
        assert(starts(s, p) ==> s.subrange(0, 3)[0] == p[0] && s.subrange(0, 3)[1] == p[1]
            && s.subrange(0, 3)[2] == p[2]);
    }
}

} // verus!
