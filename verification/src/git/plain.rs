//! Commands of plain words: what the shell reads in them as it stands.

use vstd::prelude::*;
use crate::git::branch::{
    arguments_may_mutate, behind_ampersand, branch_arguments, branch_decision, branch_globals,
    env_aliases, literal_views, may_mutate, plain_decision, program_from, raw_decision, raw_words,
    some_dynamic, symbolic_decision,
};
use crate::git::bindings::BindingView;
use crate::git::command::{is_launcher, without_exe};
use crate::git::control::{blank_from, introduces, is_prefix_word, probe_start};
use crate::git::expansion::{
    expands, posix_expands, semantic_words, semantic_words_from, too_many_words,
    MAX_GIT_SEMANTIC_TOKENS, WordView,
};
use crate::git::options::{
    argument_step, no_mutation, BranchCommandDecision, BranchMutationState, OptionStep,
};
use crate::git::semantic::{git_command, statement};
use crate::git::substitution::{replaced_from, resolution, substitution_view};
use crate::git::symbolic::is_branch_name_query;
use crate::shell::decode::{decoded_next, posix_decoded, posix_decoded_from, ShellTokenRole};
use crate::shell::segments::{
    bodies_from, body_segments, is_single, segments, token_segments, MAX_SUBSTITUTION_DEPTH,
    Segment,
};
use crate::shell::token::{
    posix_word_end, tokens, tokens_from, NormalizeToken, NormalizeTokenKind, ShellDialect,
};
use crate::shell::wrappers::{env_assignment, frontend_named, without_wrappers, wrapped_index};
use crate::text::{
    basename, basename_start, byte_len, is_white, lowered, next_index, occurs_at, rest, same_nocase,
    starts, trimmed, white_end, white_start,
};

verus! {

/// A character that stands for itself everywhere in a POSIX word.
pub open spec fn is_plain(c: char) -> bool {
    ||| 'a' <= c && c <= 'z'
    ||| 'A' <= c && c <= 'Z'
    ||| '0' <= c && c <= '9'
    ||| c == '/' || c == '.' || c == '_' || c == '=' || c == '-' || c == '+'
}

/// A word of characters that stand for themselves.
pub open spec fn is_plain_word(w: Seq<char>) -> bool {
    w.len() > 0 && forall|i: int| 0 <= i < w.len() ==> is_plain(#[trigger] w[i])
}

/// Words of characters that stand for themselves.
pub open spec fn are_plain_words(words: Seq<Seq<char>>) -> bool {
    forall|k: int| 0 <= k < words.len() ==> is_plain_word(#[trigger] words[k])
}

/// The words from the `k`th on with a space between them.
pub open spec fn spaced(words: Seq<Seq<char>>, k: int) -> Seq<char>
    decreases words.len() - k,
{
    if k < 0 || k >= words.len() {
        Seq::empty()
    } else if k + 1 == words.len() {
        words[k]
    } else {
        words[k].push(' ') + spaced(words, k + 1)
    }
}

/// The tokens of the words from the `k`th on with a space between them, where the
/// first stands at position `i`.
pub open spec fn spaced_tokens(words: Seq<Seq<char>>, k: int, i: int) -> Seq<NormalizeToken>
    decreases words.len() - k,
{
    if k < 0 || k >= words.len() {
        Seq::empty()
    } else {
        seq![
            NormalizeToken {
                kind: NormalizeTokenKind::Word,
                start: i as usize,
                end: (i + words[k].len()) as usize,
            },
        ] + spaced_tokens(words, k + 1, i + words[k].len() + 1)
    }
}

/// A plain character is no white space.
pub proof fn plain_is_not_white(c: char)
    requires
        is_plain(c),
    ensures
        !is_white(c),
{
}

/// A word of plain characters ends where they do.
proof fn plain_word_end(c: Seq<char>, j: int, e: int)
    requires
        0 <= j <= e <= c.len(),
        forall|m: int| j <= m < e ==> is_plain(#[trigger] c[m]),
        e < c.len() ==> c[e] == ' ',
    ensures
        posix_word_end(c, j, Seq::empty()) == e,
    decreases e - j,
{
    if j < e {
        assert(is_plain(c[j]));
        plain_word_end(c, j + 1, e);
    }
}

/// The words from the `k`th on are plain and spaces, and end in a plain character.
#[verifier::rlimit(40)]
pub proof fn spaced_is_plain(words: Seq<Seq<char>>, k: int)
    requires
        are_plain_words(words),
        0 <= k < words.len(),
    ensures
        spaced(words, k).len() >= words[k].len(),
        spaced(words, k).subrange(0, words[k].len() as int) == words[k],
        is_plain(spaced(words, k)[0]),
        is_plain(spaced(words, k).last()),
        forall|m: int|
            0 <= m < spaced(words, k).len() ==> is_plain(#[trigger] spaced(words, k)[m]) || spaced(
                words,
                k,
            )[m] == ' ',
    decreases words.len() - k,
{
    let t = spaced(words, k);
    let w = words[k];
    assert(is_plain_word(w));
    if k + 1 < words.len() {
        spaced_is_plain(words, k + 1);
        let r = spaced(words, k + 1);
        assert(t == w.push(' ') + r);
        assert forall|m: int| 0 <= m < t.len() implies is_plain(#[trigger] t[m]) || t[m] == ' ' by {
            if m < w.len() {
                assert(t[m] == w[m]);
            } else if m > w.len() {
                assert(t[m] == r[m - w.len() - 1]);
            }
        }
        assert(t.last() == r.last());
        assert(t[0] == w[0]);
    } else {
        assert(t == w);
        assert(is_plain(w[0]) && is_plain(w[w.len() - 1]));
    }
    assert(t.subrange(0, w.len() as int) =~= w);
}

/// The tokens of spaced words are the words, from the `k`th on, which stands at
/// position `i`.
#[verifier::rlimit(40)]
pub proof fn spaced_words_are_tokens(c: Seq<char>, words: Seq<Seq<char>>, k: int, i: int, out: Seq<NormalizeToken>)
    requires
        are_plain_words(words),
        0 <= k < words.len(),
        0 <= i <= c.len() <= usize::MAX,
        c.subrange(i, c.len() as int) == spaced(words, k),
    ensures
        tokens_from(c, i, ShellDialect::Posix, out) == out + spaced_tokens(words, k, i),
        spaced_tokens(words, k, i).len() == words.len() - k,
        spaced_tokens(words, k, i)[0].start == i,
        spaced_tokens(words, k, i).last().end == c.len(),
        forall|m: int|
            0 <= m < words.len() - k ==> {
                let t = #[trigger] spaced_tokens(words, k, i)[m];
                t.word() && t.fits(c.len() as int) && t.of(c) == words[k + m]
            },
    decreases words.len() - k,
{
    let w = words[k];
    let r = c.subrange(i, c.len() as int);
    let e = i + w.len();
    assert(is_plain_word(w));
    spaced_is_plain(words, k);
    assert forall|m: int| i <= m < e implies is_plain(#[trigger] c[m]) by {
        assert(c[m] == r[m - i]);
        assert(r[m - i] == r.subrange(0, w.len() as int)[m - i]);
    }
    assert(c.subrange(i, e) =~= r.subrange(0, w.len() as int));
    let t = NormalizeToken { kind: NormalizeTokenKind::Word, start: i as usize, end: e as usize };
    assert(t.of(c) == w);
    if k + 1 < words.len() {
        let s = spaced(words, k + 1);
        assert(r == w.push(' ') + s);
        assert(c[e] == r[w.len() as int]);
        assert(c[e] == ' ');
        plain_word_end(c, i, e);
        assert(c.subrange(e + 1, c.len() as int) =~= s) by {
            assert(r.len() == w.len() + 1 + s.len());
            assert forall|m: int| 0 <= m < s.len() implies c.subrange(e + 1, c.len() as int)[m]
                == s[m] by {
                assert(c[e + 1 + m] == r[w.len() + 1 + m]);
            }
        }
        spaced_words_are_tokens(c, words, k + 1, e + 1, out.push(t));
        assert(is_plain(c[i]));
        assert(tokens_from(c, i, ShellDialect::Posix, out) == tokens_from(
            c,
            e,
            ShellDialect::Posix,
            out.push(t),
        ));
        assert(tokens_from(c, e, ShellDialect::Posix, out.push(t)) == tokens_from(
            c,
            e + 1,
            ShellDialect::Posix,
            out.push(t),
        ));
        let tail = spaced_tokens(words, k + 1, e + 1);
        assert(spaced_tokens(words, k, i) == seq![t] + tail);
        assert(out.push(t) + tail =~= out + (seq![t] + tail));
        assert forall|m: int| 0 <= m < words.len() - k implies {
            let u = #[trigger] spaced_tokens(words, k, i)[m];
            u.word() && u.fits(c.len() as int) && u.of(c) == words[k + m]
        } by {
            if m > 0 {
                assert(spaced_tokens(words, k, i)[m] == tail[m - 1]);
                assert(words[k + 1 + (m - 1)] == words[k + m]);
            }
        }
        assert(spaced_tokens(words, k, i).last() == tail.last());
    } else {
        assert(r == w);
        assert(e == c.len());
        plain_word_end(c, i, e);
        assert(is_plain(c[i]));
        assert(tokens_from(c, i, ShellDialect::Posix, out) == tokens_from(
            c,
            e,
            ShellDialect::Posix,
            out.push(t),
        ));
        assert(spaced_tokens(words, k + 1, e + 1) =~= Seq::empty());
        assert(spaced_tokens(words, k, i) =~= seq![t]);
        assert(out.push(t) =~= out + seq![t]);
    }
}

/// A plain word decodes to itself.
proof fn plain_word_decodes(w: Seq<char>, i: int)
    requires
        forall|m: int| 0 <= m < w.len() ==> is_plain(#[trigger] w[m]),
        0 <= i <= w.len(),
    ensures
        posix_decoded_from(w, i, 0, w.subrange(0, i)) == w,
    decreases w.len() - i,
{
    if i < w.len() {
        assert(is_plain(w[i]));
        assert(w.subrange(0, i).push(w[i]) =~= w.subrange(0, i + 1));
        plain_word_decodes(w, i + 1);
    } else {
        assert(w.subrange(0, i) =~= w);
    }
}

/// A plain word decodes to itself.
pub proof fn plain_word_is_itself(w: Seq<char>)
    requires
        is_plain_word(w),
    ensures
        posix_decoded(w) == w,
        !expands(w, ShellDialect::Posix),
        !w.contains('$'),
        !w.contains('`'),
{
    assert(w.subrange(0, 0) =~= Seq::<char>::empty());
    plain_word_decodes(w, 0);
    plain_word_is_not_expanded(w, 0);
    if w.contains('$') {
        let m = choose|m: int| 0 <= m < w.len() && w[m] == '$';
        assert(is_plain(w[m]));
    }
    if w.contains('`') {
        let m = choose|m: int| 0 <= m < w.len() && w[m] == '`';
        assert(is_plain(w[m]));
    }
}

/// A plain word is not expanded.
proof fn plain_word_is_not_expanded(w: Seq<char>, i: int)
    requires
        forall|m: int| 0 <= m < w.len() ==> is_plain(#[trigger] w[m]),
        0 <= i <= w.len(),
    ensures
        !posix_expands(w, i, false, false, false),
    decreases w.len() - i,
{
    if i < w.len() {
        assert(is_plain(w[i]));
        plain_word_is_not_expanded(w, i + 1);
    }
}

/// Plain characters and spaces hold no substitution.
pub proof fn plain_text_has_no_bodies(c: Seq<char>, i: int, end: int)
    requires
        forall|m: int| 0 <= m < c.len() ==> is_plain(#[trigger] c[m]) || c[m] == ' ',
        0 <= i <= end <= c.len(),
    ensures
        bodies_from(c, i, end, false, Seq::empty()) == Seq::<Segment>::empty(),
    decreases end - i,
{
    if i < end {
        assert(is_plain(c[i]) || c[i] == ' ');
        plain_text_has_no_bodies(c, i + 1, end);
    }
}

/// Plain characters and spaces stay as they are where substitutions are replaced.
proof fn plain_text_is_kept(c: Seq<char>, i: int)
    requires
        forall|m: int| 0 <= m < c.len() ==> is_plain(#[trigger] c[m]) || c[m] == ' ',
        0 <= i <= c.len(),
    ensures
        replaced_from(c, i, false, false, c.subrange(0, i), false) == Some((c, false)),
    decreases c.len() - i,
{
    if i < c.len() {
        assert(is_plain(c[i]) || c[i] == ' ');
        assert(c.subrange(0, i).push(c[i]) =~= c.subrange(0, i + 1));
        plain_text_is_kept(c, i + 1);
    } else {
        assert(c.subrange(0, i) =~= c);
    }
}

/// Words without separators and substitutions make one segment.
#[verifier::rlimit(40)]
pub proof fn word_tokens_are_one_segment(c: Seq<char>, toks: Seq<NormalizeToken>, k: int, start: int, end: int)
    requires
        forall|m: int| 0 <= m < c.len() ==> is_plain(#[trigger] c[m]) || c[m] == ' ',
        0 <= k <= toks.len(),
        forall|m: int|
            0 <= m < toks.len() ==> (#[trigger] toks[m]).word() && toks[m].fits(c.len() as int),
        k == 0 ==> start == -1 && toks.len() > 0,
        k > 0 ==> start == toks[0].start && end == toks[k - 1].end,
    ensures
        token_segments(
            c,
            0,
            ShellDialect::Posix,
            MAX_SUBSTITUTION_DEPTH as nat,
            toks,
            k,
            start,
            end,
            Seq::empty(),
        ) == seq![Segment { start: toks[0].start, end: toks.last().end }],
    decreases toks.len() - k,
{
    if k < toks.len() {
        let t = toks[k];
        assert(t.word() && t.fits(c.len() as int));
        plain_text_has_no_bodies(c, t.start as int, t.end as int);
        assert(body_segments(
            c,
            0,
            ShellDialect::Posix,
            MAX_SUBSTITUTION_DEPTH as nat,
            Seq::empty(),
            0,
            Seq::empty(),
        ) == Seq::<Segment>::empty());
        word_tokens_are_one_segment(
            c,
            toks,
            k + 1,
            if start < 0 {
                t.start as int
            } else {
                start
            },
            t.end as int,
        );
        assert(toks[0].word());
    } else {
        assert(toks[0].word());
        assert(Seq::<Segment>::empty().push(
            Segment { start: toks[0].start, end: toks.last().end },
        ) =~= seq![Segment { start: toks[0].start, end: toks.last().end }]);
    }
}

/// Words that the shell does not expand are read as literal words.
#[verifier::rlimit(40)]
proof fn plain_tokens_are_literal(
    c: Seq<char>,
    toks: Seq<NormalizeToken>,
    k: int,
    left: nat,
    out: Seq<WordView>,
)
    requires
        forall|m: int| 0 <= m < toks.len() ==> is_plain_word((#[trigger] toks[m]).of(c)),
        forall|m: int| 0 <= m < out.len() ==> !(#[trigger] out[m]).dynamic,
        0 <= k <= toks.len(),
    ensures
        forall|m: int|
            0 <= m < semantic_words_from(c, toks, k, ShellDialect::Posix, left, false, out).len()
                ==> !(#[trigger] semantic_words_from(
                c,
                toks,
                k,
                ShellDialect::Posix,
                left,
                false,
                out,
            )[m]).dynamic,
    decreases toks.len() - k,
{
    if k < toks.len() && left > 0 {
        let raw = toks[k].of(c);
        assert(is_plain_word(raw));
        plain_word_is_itself(raw);
        let word = WordView { decoded: posix_decoded(raw), dynamic: false, may_split: false };
        plain_tokens_are_literal(c, toks, k + 1, (left - 1) as nat, out.push(word));
        assert(decoded_next(raw, ShellDialect::Posix, ShellTokenRole::Syntax, false) == Some(
            posix_decoded(raw),
        ));
        assert(semantic_words_from(c, toks, k, ShellDialect::Posix, left, false, out)
            == semantic_words_from(
            c,
            toks,
            k + 1,
            ShellDialect::Posix,
            (left - 1) as nat,
            false,
            out.push(word),
        ));
    }
}

/// What is decided of the arguments of `git branch` from the `i`th on is what they
/// may do, where they stand for themselves.
#[verifier::rlimit(40)]
pub proof fn plain_arguments_decide(words: Seq<Seq<char>>, args: Seq<Seq<char>>, i: int, m: BranchMutationState)
    requires
        are_plain_words(words),
        words.len() == args.len() + 2,
        forall|k: int| 0 <= k < args.len() ==> words[k + 2] == #[trigger] args[k],
        0 <= i,
    ensures
        branch_arguments(words, i + 2, ShellDialect::Posix, false, m) == if arguments_may_mutate(
            literal_views(args),
            i,
            ShellDialect::Posix,
            m,
        ) {
            BranchCommandDecision::Destructive
        } else {
            BranchCommandDecision::NonDestructive
        },
    decreases args.len() - i,
{
    if i < args.len() {
        let w = args[i];
        assert(words[i + 2] == w);
        assert(is_plain_word(words[i + 2]));
        plain_word_is_itself(w);
        assert(literal_views(args)[i].decoded == w);
        match argument_step(w, m) {
            OptionStep::Stop => {},
            OptionStep::Next(n, v) => {
                plain_arguments_decide(words, args, i + 1, n);
                if i + 1 < args.len() {
                    plain_arguments_decide(words, args, i + 2, n);
                }
            },
        }
    }
}

/// The word `git` is none of the words that the shell or the analysis treats in
/// a way of its own.
#[verifier::rlimit(40)]
pub proof fn git_is_only_a_program()
    ensures
        is_plain_word("git"@),
        "git"@.len() == 3,
        !is_prefix_word("git"@),
        "git"@ != "function"@,
        frontend_named("git"@) is None,
        !is_launcher("git"@),
        !env_assignment("git"@),
        basename("git"@) == "git"@,
        without_exe("git"@) == "git"@,
        !same_nocase("git"@, "git-branch"@),
{
    reveal_strlit("git");
    reveal_strlit("git-branch");
    reveal_strlit("function");
    reveal_strlit("if");
    reveal_strlit("then");
    reveal_strlit("elif");
    reveal_strlit("else");
    reveal_strlit("while");
    reveal_strlit("until");
    reveal_strlit("do");
    reveal_strlit("{");
    reveal_strlit("!");
    reveal_strlit("coproc");
    reveal_strlit("sudo");
    reveal_strlit("doas");
    reveal_strlit("env");
    reveal_strlit("command");
    reveal_strlit("nice");
    reveal_strlit("ionice");
    reveal_strlit("timeout");
    reveal_strlit("stdbuf");
    reveal_strlit("setsid");
    reveal_strlit("mise");
    reveal_strlit("exec");
    reveal_strlit("time");
    reveal_strlit("nohup");
    reveal_strlit("builtin");
    reveal_strlit("unbuffer");
    reveal_strlit("busybox");
    let g = "git"@;
    assert(g[0] == 'g' && g[1] == 'i' && g[2] == 't');
    assert("env"@[0] == 'e');
    reveal_with_fuel(next_index, 5);
    assert(next_index(g, 0, '=') == 3);
    reveal_with_fuel(basename_start, 5);
    assert(basename_start(g, 3) == 0);
    assert(basename(g) =~= g);
    assert(lowered(g).len() == 3);
    assert(lowered("git-branch"@).len() == 10);
}

/// A command of plain words behind `git` is a single command that nothing wraps
/// or introduces, and its raw words are the words.
#[verifier::rlimit(40)]
pub proof fn plain_git_command(words: Seq<Seq<char>>)
    requires
        are_plain_words(words),
        words.len() > 0,
        words[0] == "git"@,
        spaced(words, 0).len() <= usize::MAX,
    ensures
        trimmed(spaced(words, 0)) == spaced(words, 0),
        spaced(words, 0)[0] == 'g',
        statement(spaced(words, 0), ShellDialect::Posix) == spaced(words, 0),
        is_single(spaced(words, 0), ShellDialect::Posix),
        without_wrappers(spaced(words, 0)) == spaced(words, 0),
        raw_words(spaced(words, 0), ShellDialect::Posix) == Some(words),
        words.len() <= MAX_GIT_SEMANTIC_TOKENS ==> !may_mutate(
            spaced(words, 0),
            ShellDialect::Posix,
        ),
{
    let c = spaced(words, 0);
    let g = "git"@;
    git_is_only_a_program();
    plain_word_is_itself(g);
    spaced_is_plain(words, 0);
    assert(c.subrange(0, c.len() as int) =~= c);
    spaced_words_are_tokens(c, words, 0, 0, Seq::empty());
    let toks = tokens(c, ShellDialect::Posix);
    assert(Seq::<NormalizeToken>::empty() + spaced_tokens(words, 0, 0) =~= spaced_tokens(words, 0, 0));
    assert(toks == spaced_tokens(words, 0, 0));
    assert forall|m: int| 0 <= m < toks.len() implies (#[trigger] toks[m]).word() && toks[m].fits(
        c.len() as int,
    ) && toks[m].of(c) == words[m] && is_plain_word(toks[m].of(c)) by {
        let t = spaced_tokens(words, 0, 0)[m];
        assert(t.of(c) == words[0 + m]);
        assert(is_plain_word(words[m]));
    }
    assert(g == c.subrange(0, 3));
    assert(c[0] == g[0] && c[1] == g[1] && c[2] == g[2]);
    reveal_strlit("git");
    plain_is_not_white(c[0]);
    plain_is_not_white(c.last());
    assert(white_end(c, 0) == 0);
    assert(c[c.len() - 1] == c.last());
    assert(white_start(c, c.len() as int) == c.len());
    assert(trimmed(c) =~= c);
    plain_git_is_not_introduced(words);
    assert(rest(c, 0) =~= c);
    assert(statement(c, ShellDialect::Posix) =~= c);
    word_tokens_are_one_segment(c, toks, 0, -1, -1);
    let segs = segments(c, ShellDialect::Posix);
    assert(segs.last().of(c) =~= c);
    assert(toks[0].word());
    assert(wrapped_index(c, toks) is None);
    assert(without_wrappers(c) == c);
    assert(Seq::new(toks.len(), |i: int| toks[i].of(c)) =~= words);
    assert(raw_words(c, ShellDialect::Posix) == Some(words));
    plain_tokens_are_literal(c, toks, 0, MAX_GIT_SEMANTIC_TOKENS as nat, Seq::empty());
    let ws = semantic_words(c, ShellDialect::Posix)->0;
    assert(!some_dynamic(ws));
}

/// A command of plain words behind `git` is not introduced by other words.
#[verifier::rlimit(40)]
proof fn plain_git_is_not_introduced(words: Seq<Seq<char>>)
    requires
        are_plain_words(words),
        words.len() > 0,
        words[0] == "git"@,
    ensures
        !introduces(spaced(words, 0)),
{
    let c = spaced(words, 0);
    let g = "git"@;
    git_is_only_a_program();
    spaced_is_plain(words, 0);
    assert(c.subrange(0, 3) == g);
    assert(c[0] == g[0] && c[1] == g[1] && c[2] == g[2]);
    reveal_strlit("git");
    reveal_strlit("\\\r\n");
    reveal_strlit("\\\n");
    plain_is_not_white(c[0]);
    assert(white_end(c, 0) == 0);
    if occurs_at(c, 0, "\\\r\n"@) {
        assert(c.subrange(0, 3)[0] == '\\');
    }
    if occurs_at(c, 0, "\\\n"@) {
        assert(c.subrange(0, 2)[0] == '\\');
    }
    assert(probe_start(c, 0) == 0);
    if words.len() > 1 {
        assert(c == g.push(' ') + spaced(words, 1));
        assert(c[3] == ' ');
    } else {
        assert(c == g);
    }
    plain_is_not_white('g');
    plain_is_not_white('i');
    plain_is_not_white('t');
    reveal_with_fuel(blank_from, 5);
    assert(blank_from(c, 0) == 3);
}

/// A command of plain words behind `git` holds no substitution, so that it is
/// read as it stands.
#[verifier::rlimit(40)]
pub proof fn plain_git_command_is_settled(words: Seq<Seq<char>>)
    requires
        are_plain_words(words),
        words.len() > 0,
        words[0] == "git"@,
        spaced(words, 0).len() <= usize::MAX,
    ensures
        branch_decision(spaced(words, 0), ShellDialect::Posix) == plain_decision(
            spaced(words, 0),
            ShellDialect::Posix,
        ),
{
    let c = spaced(words, 0);
    plain_git_command(words);
    spaced_is_plain(words, 0);
    assert(c.subrange(0, 0) =~= Seq::<char>::empty());
    plain_text_is_kept(c, 0);
    reveal_strlit("`");
    reveal_strlit("$(");
    if starts(c, "`"@) {
        assert(c.subrange(0, 1)[0] == '`');
    }
    if starts(c, "$("@) {
        assert(c.subrange(0, 2)[0] == '$');
    }
    assert(!is_branch_name_query(c));
    assert(substitution_view(c) is None || substitution_view(c) == Some((c, false)));
    if resolution(c) is None {
        assert(symbolic_decision(c) is None);
    } else {
        assert(resolution(c) == Some(None::<Seq<char>>));
    }
}

/// The raw words of a command of plain words decide it.
pub proof fn plain_git_words_decide(words: Seq<Seq<char>>)
    requires
        are_plain_words(words),
        0 < words.len() <= MAX_GIT_SEMANTIC_TOKENS,
        words[0] == "git"@,
        spaced(words, 0).len() <= usize::MAX,
    ensures
        plain_decision(spaced(words, 0), ShellDialect::Posix) == raw_decision(
            words,
            ShellDialect::Posix,
        ),
{
    plain_git_command(words);
    assert(behind_ampersand(spaced(words, 0)) == spaced(words, 0));
}

/// The raw words behind `git branch` are its arguments.
#[verifier::rlimit(40)]
proof fn plain_branch_words_decide(words: Seq<Seq<char>>)
    requires
        are_plain_words(words),
        words.len() >= 2,
        words[0] == "git"@,
        words[1] == "branch"@,
    ensures
        raw_decision(words, ShellDialect::Posix) == branch_arguments(
            words,
            2,
            ShellDialect::Posix,
            false,
            no_mutation(),
        ),
{
    let none = Seq::<BindingView>::empty();
    git_is_only_a_program();
    assert(is_plain_word(words[0]) && is_plain_word(words[1]));
    plain_word_is_itself(words[0]);
    plain_word_is_itself(words[1]);
    assert(decoded_next(words[0], ShellDialect::Posix, ShellTokenRole::Syntax, false) == Some(
        words[0],
    ));
    assert(decoded_next(words[1], ShellDialect::Posix, ShellTokenRole::Syntax, false) == Some(
        words[1],
    ));
    assert(program_from(words, 0, ShellDialect::Posix, false, none) == Some(
        (0int, words[0], false, none),
    ));
    assert(branch_globals(words, 1, ShellDialect::Posix, false, none, env_aliases(none))
        == branch_arguments(words, 2, ShellDialect::Posix, false, no_mutation()));
}

/// A command of plain words behind `git branch` is decided by the words behind it.
pub proof fn plain_branch_command(args: Seq<Seq<char>>)
    requires
        are_plain_words(args),
        args.len() + 2 <= MAX_GIT_SEMANTIC_TOKENS,
        spaced(seq!["git"@, "branch"@] + args, 0).len() <= usize::MAX,
    ensures
        branch_decision(spaced(seq!["git"@, "branch"@] + args, 0), ShellDialect::Posix)
            == branch_arguments(
            seq!["git"@, "branch"@] + args,
            2,
            ShellDialect::Posix,
            false,
            no_mutation(),
        ),
        are_plain_words(seq!["git"@, "branch"@] + args),
{
    let words = seq!["git"@, "branch"@] + args;
    plain_branch_words(args);
    plain_git_command_is_settled(words);
    plain_git_words_decide(words);
    plain_branch_words_decide(words);
}

/// The words of a branch command with plain arguments are plain.
proof fn plain_branch_words(args: Seq<Seq<char>>)
    requires
        are_plain_words(args),
    ensures
        are_plain_words(seq!["git"@, "branch"@] + args),
{
    let words = seq!["git"@, "branch"@] + args;
    git_is_only_a_program();
    reveal_strlit("branch");
    assert(is_plain_word("branch"@));
    assert forall|k: int| 0 <= k < words.len() implies is_plain_word(#[trigger] words[k]) by {
        if k >= 2 {
            assert(words[k] == args[k - 2]);
        }
    }
}

/// Plain words are read as literal words.
proof fn plain_tokens_are_views(
    c: Seq<char>,
    toks: Seq<NormalizeToken>,
    words: Seq<Seq<char>>,
    k: int,
    left: nat,
)
    requires
        toks.len() == words.len(),
        are_plain_words(words),
        forall|m: int| 0 <= m < toks.len() ==> (#[trigger] toks[m]).of(c) == words[m],
        0 <= k <= toks.len(),
        left >= toks.len() - k,
    ensures
        semantic_words_from(
            c,
            toks,
            k,
            ShellDialect::Posix,
            left,
            false,
            literal_views(words).subrange(0, k),
        ) == literal_views(words),
    decreases toks.len() - k,
{
    let views = literal_views(words);
    if k < toks.len() {
        let raw = toks[k].of(c);
        assert(is_plain_word(words[k]));
        plain_word_is_itself(raw);
        assert(views.subrange(0, k).push(views[k]) =~= views.subrange(0, k + 1));
        plain_tokens_are_views(c, toks, words, k + 1, (left - 1) as nat);
        assert(decoded_next(raw, ShellDialect::Posix, ShellTokenRole::Syntax, false) == Some(raw));
    } else {
        assert(views.subrange(0, k) =~= views);
    }
}

/// A command of plain words behind `git` is one segment, the analysis reads all
/// of it, and its words stand for themselves.
#[verifier::rlimit(40)]
pub proof fn plain_git_command_is_one_segment(words: Seq<Seq<char>>)
    requires
        are_plain_words(words),
        0 < words.len() <= MAX_GIT_SEMANTIC_TOKENS,
        words[0] == "git"@,
        spaced(words, 0).len() <= usize::MAX,
    ensures
        segments(spaced(words, 0), ShellDialect::Posix).len() == 1,
        segments(spaced(words, 0), ShellDialect::Posix)[0].of(spaced(words, 0)) == spaced(words, 0),
        git_command(spaced(words, 0), ShellDialect::Posix) == spaced(words, 0),
        semantic_words(spaced(words, 0), ShellDialect::Posix) == Some(literal_views(words)),
        !too_many_words(spaced(words, 0), ShellDialect::Posix),
{
    let c = spaced(words, 0);
    plain_git_command(words);
    spaced_is_plain(words, 0);
    assert(c.subrange(0, c.len() as int) =~= c);
    spaced_words_are_tokens(c, words, 0, 0, Seq::empty());
    let toks = tokens(c, ShellDialect::Posix);
    assert(Seq::<NormalizeToken>::empty() + spaced_tokens(words, 0, 0) =~= spaced_tokens(words, 0, 0));
    assert(toks == spaced_tokens(words, 0, 0));
    assert forall|m: int| 0 <= m < toks.len() implies (#[trigger] toks[m]).word() && toks[m].fits(
        c.len() as int,
    ) && toks[m].of(c) == words[m] by {
        let t = spaced_tokens(words, 0, 0)[m];
        assert(t.of(c) == words[0 + m]);
    }
    word_tokens_are_one_segment(c, toks, 0, -1, -1);
    let segs = segments(c, ShellDialect::Posix);
    assert(segs[0].of(c) =~= c);
    assert(literal_views(words).subrange(0, 0) =~= Seq::<WordView>::empty());
    plain_tokens_are_views(c, toks, words, 0, MAX_GIT_SEMANTIC_TOKENS as nat);
}

/// A plain text has as many bytes as characters.
pub proof fn plain_text_bytes(s: Seq<char>)
    requires
        forall|m: int| 0 <= m < s.len() ==> is_plain(#[trigger] s[m]) || s[m] == ' ',
    ensures
        byte_len(s) == s.len(),
    decreases s.len(),
{
    if s.len() > 0 {
        let d = s.drop_last();
        assert forall|m: int| 0 <= m < d.len() implies is_plain(#[trigger] d[m]) || d[m] == ' ' by {
            assert(d[m] == s[m]);
        }
        plain_text_bytes(d);
        assert(is_plain(s[s.len() - 1]) || s[s.len() - 1] == ' ');
    }
}

/// What is decided of arguments of `git branch` that stand from the `at`th word
/// on is what they may do, where they stand for themselves.
#[verifier::rlimit(40)]
pub proof fn plain_arguments_decide_behind(
    words: Seq<Seq<char>>,
    at: int,
    args: Seq<Seq<char>>,
    i: int,
    m: BranchMutationState,
)
    requires
        are_plain_words(words),
        0 <= at,
        words.len() == args.len() + at,
        forall|k: int| 0 <= k < args.len() ==> words[k + at] == #[trigger] args[k],
        0 <= i,
    ensures
        branch_arguments(words, i + at, ShellDialect::Posix, false, m) == if arguments_may_mutate(
            literal_views(args),
            i,
            ShellDialect::Posix,
            m,
        ) {
            BranchCommandDecision::Destructive
        } else {
            BranchCommandDecision::NonDestructive
        },
    decreases args.len() - i,
{
    if i < args.len() {
        let w = args[i];
        assert(words[i + at] == w);
        assert(is_plain_word(words[i + at]));
        plain_word_is_itself(w);
        assert(literal_views(args)[i].decoded == w);
        match argument_step(w, m) {
            OptionStep::Stop => {},
            OptionStep::Next(n, v) => {
                plain_arguments_decide_behind(words, at, args, i + 1, n);
                if i + 1 < args.len() {
                    plain_arguments_decide_behind(words, at, args, i + 2, n);
                }
            },
        }
    }
}

} // verus!
