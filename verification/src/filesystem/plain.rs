//! Commands of plain words, as every shell dialect reads them.

use vstd::prelude::*;
use crate::filesystem::flags::{dequoted, dequoted_from};
use crate::filesystem::frontends::{bare_command, behind_prefixes};
use crate::filesystem::paths::{quote_of, unquoted, QuoteKind};
use crate::filesystem::redirect::{digits_end, operator_len, redirection};
use crate::filesystem::stdin::{openers_end, reserved_at};
use crate::git::plain::{
    are_plain_words, is_plain, is_plain_word, plain_is_not_white, plain_text_has_no_bodies,
    plain_word_is_itself, spaced, spaced_is_plain,
};
use crate::shell::decode::{powershell_decoded, powershell_decoded_from};
use crate::shell::segments::{
    body_segments, segments, token_segments, MAX_SUBSTITUTION_DEPTH, Segment,
};
use crate::shell::token::{
    cmd_word_end, posix_word_end, powershell_word_end, separator, tokens, tokens_from, word_end,
    NormalizeToken, NormalizeTokenKind, ShellDialect,
};
use crate::shell::wrappers::{
    env_assignment, frontend_named, in_bin_directory, is_dynamic, normalized, program_word,
    unquoted_program, unwrapped, without_wrappers, wrapped_index,
};
use crate::text::{
    basename, is_digit, rest, run_start, starts, trimmed, trimmed_start, white_end, white_start,
    without_trailing,
};

verus! {

/// Where a plain word that starts at `j` ends, in every dialect.
proof fn plain_word_ends(c: Seq<char>, j: int, e: int)
    requires
        0 <= j <= e <= c.len(),
        forall|m: int| j <= m < e ==> is_plain(#[trigger] c[m]),
        e < c.len() ==> c[e] == ' ',
    ensures
        posix_word_end(c, j, Seq::empty()) == e,
        powershell_word_end(c, j, Seq::empty()) == e,
        cmd_word_end(c, j, false) == e,
    decreases e - j,
{
    if j < e {
        assert(is_plain(c[j]));
        plain_word_ends(c, j + 1, e);
    }
}

/// No separator stands at a plain character or a space.
proof fn no_separator(c: Seq<char>, i: int, dialect: ShellDialect, out: Seq<NormalizeToken>)
    requires
        0 <= i < c.len(),
        is_plain(c[i]) || c[i] == ' ',
    ensures
        separator(c, i, dialect, out) == 0,
{
}

/// The tokens of spaced words are the words, from the `k`th on, which stands at
/// position `i`.
#[verifier::rlimit(40)]
proof fn words_are_tokens(
    c: Seq<char>,
    words: Seq<Seq<char>>,
    k: int,
    i: int,
    dialect: ShellDialect,
    out: Seq<NormalizeToken>,
)
    requires
        are_plain_words(words),
        0 <= k < words.len(),
        0 <= i <= c.len() <= usize::MAX,
        c.subrange(i, c.len() as int) == spaced(words, k),
    ensures
        ({
            let all = tokens_from(c, i, dialect, out);
            &&& all.len() == out.len() + words.len() - k
            &&& all.subrange(0, out.len() as int) == out
            &&& all[out.len() as int].start == i
            &&& all.last().end == c.len()
            &&& forall|m: int|
                k <= m < words.len() ==> {
                    let t = #[trigger] all[out.len() - k + m];
                    t.word() && t.fits(c.len() as int) && t.of(c) == words[m] && rest(
                        c,
                        t.start as int,
                    ) == spaced(words, m)
                }
        }),
    decreases words.len() - k,
{
    let w = words[k];
    let r = c.subrange(i, c.len() as int);
    let e = i + w.len();
    assert(is_plain_word(w));
    spaced_is_plain(words, k);
    assert forall|m: int| i <= m < e implies is_plain(#[trigger] c[m]) by {
        assert(c[m] == r[m - i]);
        assert(r[m - i] == r.subrange(0, w.len() as int)[m - i]);
    }
    assert(c.subrange(i, e) =~= r.subrange(0, w.len() as int));
    let t = NormalizeToken { kind: NormalizeTokenKind::Word, start: i as usize, end: e as usize };
    assert(t.of(c) == w);
    assert(is_plain(c[i]));
    plain_is_not_white(c[i]);
    no_separator(c, i, dialect, out);
    let all = tokens_from(c, i, dialect, out);
    if k + 1 < words.len() {
        let s = spaced(words, k + 1);
        assert(r == w.push(' ') + s);
        assert(c[e] == r[w.len() as int]);
        assert(c[e] == ' ');
        plain_word_ends(c, i, e);
        assert(word_end(c, i, dialect) == e);
        assert(c.subrange(e + 1, c.len() as int) =~= s) by {
            assert(r.len() == w.len() + 1 + s.len());
            assert forall|m: int| 0 <= m < s.len() implies c.subrange(e + 1, c.len() as int)[m]
                == s[m] by {
                assert(c[e + 1 + m] == r[w.len() + 1 + m]);
            }
        }
        words_are_tokens(c, words, k + 1, e + 1, dialect, out.push(t));
        no_separator(c, e, dialect, out.push(t));
        assert(tokens_from(c, e, dialect, out.push(t)) == tokens_from(
            c,
            e + 1,
            dialect,
            out.push(t),
        ));
        assert(all == tokens_from(c, e + 1, dialect, out.push(t)));
        assert(all.subrange(0, out.len() as int) =~= out) by {
            assert forall|m: int| 0 <= m < out.len() implies all[m] == out[m] by {
                assert(all[m] == all.subrange(0, out.len() as int + 1)[m]);
            }
        }
        assert(all[out.len() as int] == all.subrange(0, out.len() as int + 1)[out.len() as int]);
        assert(all[out.len() as int] == t);
        assert forall|m: int| k <= m < words.len() implies {
            let u = #[trigger] all[out.len() - k + m];
            u.word() && u.fits(c.len() as int) && u.of(c) == words[m] && rest(c, u.start as int)
                == spaced(words, m)
        } by {
            if m > k {
                assert(all[out.len() - k + m] == all[out.push(t).len() - (k + 1) + m]);
            }
        }
    } else {
        assert(r == w);
        assert(e == c.len());
        plain_word_ends(c, i, e);
        assert(word_end(c, i, dialect) == e);
        assert(tokens_from(c, e, dialect, out.push(t)) == out.push(t));
        assert(all == out.push(t));
        assert(all.subrange(0, out.len() as int) =~= out);
    }
}

/// The tokens of spaced plain words are the words, in every dialect, and what
/// stands from a word on is the words from there on.
pub proof fn plain_words_are_tokens(words: Seq<Seq<char>>, dialect: ShellDialect)
    requires
        are_plain_words(words),
        words.len() > 0,
        spaced(words, 0).len() <= usize::MAX,
    ensures
        ({
            let c = spaced(words, 0);
            let toks = tokens(c, dialect);
            &&& toks.len() == words.len()
            &&& toks[0].start == 0
            &&& toks.last().end == c.len()
            &&& forall|m: int|
                0 <= m < words.len() ==> {
                    let t = #[trigger] toks[m];
                    t.word() && t.fits(c.len() as int) && t.of(c) == words[m] && rest(
                        c,
                        t.start as int,
                    ) == spaced(words, m)
                }
        }),
{
    let c = spaced(words, 0);
    assert(c.subrange(0, c.len() as int) =~= c);
    words_are_tokens(c, words, 0, 0, dialect, Seq::empty());
    let toks = tokens(c, dialect);
    assert forall|m: int| 0 <= m < words.len() implies {
        let t = #[trigger] toks[m];
        t.word() && t.fits(c.len() as int) && t.of(c) == words[m] && rest(c, t.start as int)
            == spaced(words, m)
    } by {
        assert(toks[0 - 0 + m].word());
    }
}

/// Words of plain characters make one segment, in every dialect.
#[verifier::rlimit(40)]
proof fn words_are_one_segment(
    c: Seq<char>,
    dialect: ShellDialect,
    toks: Seq<NormalizeToken>,
    k: int,
    start: int,
    end: int,
)
    requires
        forall|m: int| 0 <= m < c.len() ==> is_plain(#[trigger] c[m]) || c[m] == ' ',
        0 <= k <= toks.len(),
        forall|m: int|
            0 <= m < toks.len() ==> (#[trigger] toks[m]).word() && toks[m].fits(c.len() as int),
        k == 0 ==> start == -1 && toks.len() > 0,
        k > 0 ==> start == toks[0].start && end == toks[k - 1].end,
    ensures
        token_segments(
            c,
            0,
            dialect,
            MAX_SUBSTITUTION_DEPTH as nat,
            toks,
            k,
            start,
            end,
            Seq::empty(),
        ) == seq![Segment { start: toks[0].start, end: toks.last().end }],
    decreases toks.len() - k,
{
    if k < toks.len() {
        let t = toks[k];
        assert(t.word() && t.fits(c.len() as int));
        plain_text_has_no_bodies(c, t.start as int, t.end as int);
        assert(body_segments(
            c,
            0,
            dialect,
            MAX_SUBSTITUTION_DEPTH as nat,
            Seq::empty(),
            0,
            Seq::empty(),
        ) == Seq::<Segment>::empty());
        words_are_one_segment(
            c,
            dialect,
            toks,
            k + 1,
            if start < 0 {
                t.start as int
            } else {
                start
            },
            t.end as int,
        );
        assert(toks[0].word());
    } else {
        assert(toks[0].word());
        assert(Seq::<Segment>::empty().push(
            Segment { start: toks[0].start, end: toks.last().end },
        ) =~= seq![Segment { start: toks[0].start, end: toks.last().end }]);
    }
}

/// Spaced plain words are one simple command, in every dialect.
#[verifier::rlimit(40)]
pub proof fn plain_words_are_one_command(words: Seq<Seq<char>>, dialect: ShellDialect)
    requires
        are_plain_words(words),
        words.len() > 0,
        spaced(words, 0).len() <= usize::MAX,
    ensures
        segments(spaced(words, 0), dialect).len() == 1,
        segments(spaced(words, 0), dialect)[0].of(spaced(words, 0)) == spaced(words, 0),
        trimmed(spaced(words, 0)) == spaced(words, 0),
        trimmed_start(spaced(words, 0)) == spaced(words, 0),
{
    let c = spaced(words, 0);
    let toks = tokens(c, dialect);
    plain_words_are_tokens(words, dialect);
    spaced_is_plain(words, 0);
    assert forall|m: int| 0 <= m < toks.len() implies (#[trigger] toks[m]).word() && toks[m].fits(
        c.len() as int,
    ) by {
        assert(toks[m].word());
    }
    words_are_one_segment(c, dialect, toks, 0, -1, -1);
    assert(segments(c, dialect)[0].of(c) =~= c);
    plain_is_not_white(c[0]);
    plain_is_not_white(c.last());
    assert(white_end(c, 0) == 0);
    assert(rest(c, 0) =~= c);
    assert(trimmed_start(c) =~= c);
    assert(white_start(c, c.len() as int) == c.len());
    assert(trimmed(c) =~= c);
}

/// A plain word holds no quote, no escape and no expansion, and is no redirection:
/// it stands for itself.
#[verifier::rlimit(40)]
pub proof fn plain_word_stands_for_itself(w: Seq<char>)
    requires
        is_plain_word(w),
    ensures
        redirection(w) is None,
        dequoted(w) == w,
        quote_of(w) == QuoteKind::Unquoted,
        unquoted(w) == w,
        without_trailing(w, ')') == w,
        powershell_decoded(w) == w,
        !is_dynamic(w),
        unquoted_program(w) == w,
        !w.contains(':'),
        !w.contains('*'),
        !w.contains('@'),
{
    assert(is_plain(w[0]));
    assert(is_plain(w[w.len() - 1]));
    plain_word_is_itself(w);
    assert(w.subrange(0, 0) =~= Seq::<char>::empty());
    plain_word_is_dequoted(w, 0);
    plain_word_is_decoded(w, 0);
    assert forall|c: char| w.contains(c) implies is_plain(c) by {
        let m = choose|m: int| 0 <= m < w.len() && w[m] == c;
        assert(is_plain(w[m]));
    }
    assert(!w.contains(':') && !w.contains('*') && !w.contains('@'));
    assert(!w.contains('\\') && !w.contains('\'') && !w.contains('"'));
    assert(run_start(w, w.len() as int, ')') == w.len());
    assert(without_trailing(w, ')') =~= w);
    plain_is_not_white(w[0]);
    assert(white_end(w, 0) == 0);
    assert(rest(w, 0) =~= w);
    plain_text_is_no_operator(w, 0);
    if is_digit(w[0]) {
        digits_end_within(w, 0);
        plain_text_is_no_operator(w, digits_end(w, 0));
    }
}

/// A run of digits ends within the text.
proof fn digits_end_within(w: Seq<char>, i: int)
    requires
        0 <= i <= w.len(),
    ensures
        i <= digits_end(w, i) <= w.len(),
    decreases w.len() - i,
{
    if i < w.len() && is_digit(w[i]) {
        digits_end_within(w, i + 1);
    }
}

/// No redirection operator stands in a plain word.
#[verifier::rlimit(40)]
proof fn plain_text_is_no_operator(w: Seq<char>, i: int)
    requires
        forall|m: int| 0 <= m < w.len() ==> is_plain(#[trigger] w[m]),
        0 <= i <= w.len(),
    ensures
        operator_len(rest(w, i)) is None,
{
    let s = rest(w, i);
    reveal_strlit("<<<");
    reveal_strlit("<<-");
    reveal_strlit("&>>");
    reveal_strlit("<>");
    reveal_strlit("<&");
    reveal_strlit("<<");
    reveal_strlit(">>");
    reveal_strlit(">&");
    reveal_strlit(">|");
    reveal_strlit("&>");
    reveal_strlit("<");
    reveal_strlit(">");
    if s.len() > 0 {
        assert(s[0] == w[i]);
        assert(is_plain(w[i]));
        assert(forall|n: int| 0 < n <= s.len() ==> #[trigger] s.subrange(0, n)[0] == s[0]);
        assert(starts(s, "<<<"@) ==> s.subrange(0, 3)[0] == '<');
        assert(starts(s, "<<-"@) ==> s.subrange(0, 3)[0] == '<');
        assert(starts(s, "&>>"@) ==> s.subrange(0, 3)[0] == '&');
        assert(starts(s, "<>"@) ==> s.subrange(0, 2)[0] == '<');
        assert(starts(s, "<&"@) ==> s.subrange(0, 2)[0] == '<');
        assert(starts(s, "<<"@) ==> s.subrange(0, 2)[0] == '<');
        assert(starts(s, ">>"@) ==> s.subrange(0, 2)[0] == '>');
        assert(starts(s, ">&"@) ==> s.subrange(0, 2)[0] == '>');
        assert(starts(s, ">|"@) ==> s.subrange(0, 2)[0] == '>');
        assert(starts(s, "&>"@) ==> s.subrange(0, 2)[0] == '&');
        assert(starts(s, "<"@) ==> s.subrange(0, 1)[0] == '<');
        assert(starts(s, ">"@) ==> s.subrange(0, 1)[0] == '>');
    }
}

/// A plain word is what `rm` gets.
proof fn plain_word_is_dequoted(w: Seq<char>, i: int)
    requires
        forall|m: int| 0 <= m < w.len() ==> is_plain(#[trigger] w[m]),
        0 <= i <= w.len(),
    ensures
        dequoted_from(w, i, 0, w.subrange(0, i)) == Some(w),
    decreases w.len() - i,
{
    if i < w.len() {
        assert(is_plain(w[i]));
        assert(w.subrange(0, i).push(w[i]) =~= w.subrange(0, i + 1));
        plain_word_is_dequoted(w, i + 1);
    } else {
        assert(w.subrange(0, i) =~= w);
    }
}

/// A plain word is what PowerShell reads.
proof fn plain_word_is_decoded(w: Seq<char>, i: int)
    requires
        forall|m: int| 0 <= m < w.len() ==> is_plain(#[trigger] w[m]),
        0 <= i <= w.len(),
    ensures
        powershell_decoded_from(w, i, 0, w.subrange(0, i)) == w,
    decreases w.len() - i,
{
    if i < w.len() {
        assert(is_plain(w[i]));
        assert(w.subrange(0, i).push(w[i]) =~= w.subrange(0, i + 1));
        plain_word_is_decoded(w, i + 1);
    } else {
        assert(w.subrange(0, i) =~= w);
    }
}

/// A word that the analysis of removals takes for the program of a command as it
/// stands: no assignment, no wrapping program, no system directory before it, and
/// no word that opens a compound command.
pub open spec fn is_program(w: Seq<char>) -> bool {
    &&& is_plain_word(w)
    &&& !env_assignment(w)
    &&& frontend_named(basename(w)) is None
    &&& !in_bin_directory(w)
    &&& w != "do"@ && w != "then"@ && w != "else"@
}

/// A command of plain words behind a program is read as it stands: nothing before
/// it is taken off.
#[verifier::rlimit(40)]
pub proof fn plain_command_is_bare(words: Seq<Seq<char>>, left: nat)
    requires
        are_plain_words(words),
        words.len() > 0,
        is_program(words[0]),
        spaced(words, 0).len() <= usize::MAX,
    ensures
        openers_end(spaced(words, 0), 0) == 0,
        behind_prefixes(spaced(words, 0)) == (0int, false),
        bare_command(spaced(words, 0), left) == (spaced(words, 0), false),
        without_wrappers(spaced(words, 0)) == spaced(words, 0),
        unwrapped(spaced(words, 0)) is None,
        rest(spaced(words, 0), 0) == spaced(words, 0),
{
    let c = spaced(words, 0);
    let w = words[0];
    plain_words_are_tokens(words, ShellDialect::Posix);
    plain_words_are_tokens(words, ShellDialect::Unknown);
    plain_words_are_one_command(words, ShellDialect::Posix);
    spaced_is_plain(words, 0);
    plain_is_not_white(c[0]);
    let toks = tokens(c, ShellDialect::Posix);
    let other = tokens(c, ShellDialect::Unknown);
    assert(toks[0].word() && toks[0].of(c) == w);
    assert(other[0].word() && other[0].of(c) == w);
    plain_word_stands_for_itself(w);
    plain_word_is_itself(w);
    assert(white_end(c, 0) == 0);
    opens_nothing(words);
    assert(behind_prefixes(c) == (0int, false));
    assert(wrapped_index(c, toks) is None);
    assert(without_wrappers(c) == c);
    assert(program_word(w) == w);
    assert(rest(c, 0) =~= c);
    assert(toks[0].of(c) == c.subrange(0, toks[0].end as int));
    assert(w + rest(c, toks[0].end as int) =~= c);
    assert(normalized(c) == c);
}

/// A program opens no compound command.
proof fn opens_nothing(words: Seq<Seq<char>>)
    requires
        are_plain_words(words),
        words.len() > 0,
        is_program(words[0]),
    ensures
        !reserved_at(spaced(words, 0), 0, "do"@),
        !reserved_at(spaced(words, 0), 0, "then"@),
        !reserved_at(spaced(words, 0), 0, "else"@),
{
    reveal_strlit("do");
    reveal_strlit("then");
    reveal_strlit("else");
    reserved_word_is_the_first(words, "do"@);
    reserved_word_is_the_first(words, "then"@);
    reserved_word_is_the_first(words, "else"@);
}

/// A reserved word at the start of spaced words is the first of them.
pub proof fn reserved_word_is_the_first(words: Seq<Seq<char>>, lit: Seq<char>)
    requires
        are_plain_words(words),
        words.len() > 0,
        forall|m: int| 0 <= m < lit.len() ==> is_plain(#[trigger] lit[m]),
    ensures
        reserved_at(spaced(words, 0), 0, lit) ==> words[0] == lit,
{
    if reserved_at(spaced(words, 0), 0, lit) {
        reserved_word_leads(words, lit);
    }
}

/// A reserved word at the start of spaced words is the first of them.
#[verifier::rlimit(40)]
proof fn reserved_word_leads(words: Seq<Seq<char>>, lit: Seq<char>)
    requires
        are_plain_words(words),
        words.len() > 0,
        reserved_at(spaced(words, 0), 0, lit),
        forall|m: int| 0 <= m < lit.len() ==> is_plain(#[trigger] lit[m]),
    ensures
        words[0] == lit,
{
    let c = spaced(words, 0);
    let w = words[0];
    let n = lit.len() as int;
    spaced_is_plain(words, 0);
    assert(c.subrange(0, w.len() as int) == w);
    assert(is_plain_word(w));
    if n < w.len() {
        assert(c[n] == w[n]);
        assert(is_plain(w[n]));
    } else if n > w.len() {
        assert(words.len() > 1);
        assert(c == w.push(' ') + spaced(words, 1));
        assert(c[w.len() as int] == ' ');
        assert(lit[w.len() as int] == c.subrange(0, n)[w.len() as int]);
        assert(is_plain(lit[w.len() as int]));
    }
    assert(w =~= lit);
}

} // verus!
