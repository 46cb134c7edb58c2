//! What is decided of an `rm` command of plain words, by its letters and names.

use vstd::prelude::*;
use crate::filesystem::command::{dialect_verdict, in_bytes, rm_command_verdict, segment_verdict};
use crate::filesystem::flags::{
    apple_option, long_name, name_and_value, name_stands_for_one_option, no_flags, short_from,
    span_or, stands_for, with_known, with_option, RmFlagTracker, RmInteractiveMode, RmLongOption,
    RmOptionDecision, Span,
};
use crate::filesystem::frontends::{argv_verdict, MAX_RM_EXECUTION_FRONTENDS};
use crate::filesystem::path_laws::{
    has_dot_dot, is_below_tmp, is_below_user_temp, other_paths_are_not_trusted,
    plain_temporary_paths_are_trusted,
};
use crate::filesystem::paths::{
    root_home, safe_for_style, safe_unquoted, unquoted, PathView, QuoteKind, RmFlagStyle,
};
use crate::filesystem::plain::{
    is_program, plain_command_is_bare, plain_word_stands_for_itself, plain_words_are_one_command,
    plain_words_are_tokens,
};
use crate::filesystem::segment::{
    all_exempt, all_safe, any_critical, argument_text, bare_glob_from, bare_glob_verdict,
    exempting_glob, path_style, plain_verdict, recursive_verdict, rm_arguments, rm_verdict,
    rm_word_from, rule_for, scanned_verdict, stdin_redirected, ExemptionView, RmOptionScanning,
    RmParseDecision,
};
use crate::git::plain::{are_plain_words, is_plain, is_plain_word, spaced, spaced_is_plain};
use crate::pack::Severity;
use crate::shell::token::{tokens, NormalizeToken, ShellDialect};
use crate::text::{basename, basename_start, next_index, next_index_is_first, rest, starts};

verus! {

/// A short option of every `rm` that neither recurses, forces nor asks.
pub open spec fn is_quiet_rm_letter(c: char) -> bool {
    c == 'd' || c == 'v' || c == 'P' || c == 'W' || c == 'x'
}

/// A cluster of short options of `rm` that does not ask.
pub open spec fn is_rm_cluster(w: Seq<char>) -> bool {
    &&& w.len() > 1
    &&& w[0] == '-'
    &&& forall|i: int|
        1 <= i < w.len() ==> is_quiet_rm_letter(#[trigger] w[i]) || w[i] == 'r' || w[i] == 'R'
            || w[i] == 'f'
}

/// A long option of `rm` that neither recurses, forces nor asks.
pub open spec fn is_quiet_rm_name(w: Seq<char>) -> bool {
    w == "--dir"@ || w == "--no-preserve-root"@ || w == "--one-file-system"@ || w
        == "--preserve-root"@ || w == "--presume-input-tty"@ || w == "--verbose"@
}

/// An option of `rm` that does not ask.
pub open spec fn is_rm_option(w: Seq<char>) -> bool {
    is_rm_cluster(w) || is_quiet_rm_name(w) || w == "--recursive"@ || w == "--force"@
}

/// Whether a cluster recurses.
pub open spec fn recurses(w: Seq<char>) -> bool {
    w.contains('r') || w.contains('R')
}

/// Whether one of the options from the `i`th on recurses by a letter.
pub open spec fn recursion_by_letter(opts: Seq<Seq<char>>, i: int) -> bool
    decreases opts.len() - i,
{
    0 <= i < opts.len() && ((is_rm_cluster(opts[i]) && recurses(opts[i])) || recursion_by_letter(
        opts,
        i + 1,
    ))
}

/// Whether one of the options from the `i`th on forces by a letter.
pub open spec fn force_by_letter(opts: Seq<Seq<char>>, i: int) -> bool
    decreases opts.len() - i,
{
    0 <= i < opts.len() && ((is_rm_cluster(opts[i]) && opts[i].contains('f')) || force_by_letter(
        opts,
        i + 1,
    ))
}

/// Whether one of the options from the `i`th on does both.
pub open spec fn both_by_letters(opts: Seq<Seq<char>>, i: int) -> bool
    decreases opts.len() - i,
{
    0 <= i < opts.len() && ((is_rm_cluster(opts[i]) && recurses(opts[i]) && opts[i].contains('f'))
        || both_by_letters(opts, i + 1))
}

/// Whether one of the options from the `i`th on is the given word.
pub open spec fn is_among(opts: Seq<Seq<char>>, i: int, w: Seq<char>) -> bool
    decreases opts.len() - i,
{
    0 <= i < opts.len() && (opts[i] == w || is_among(opts, i + 1, w))
}

/// What the options from the `i`th on add to what was read: recursion, force, and
/// the two in one cluster.
pub open spec fn adds(f: RmFlagTracker, g: RmFlagTracker, opts: Seq<Seq<char>>, i: int) -> bool {
    &&& g.short_recursive_span is Some == (f.short_recursive_span is Some || recursion_by_letter(
        opts,
        i,
    ))
    &&& g.short_force_span is Some == (f.short_force_span is Some || force_by_letter(opts, i))
    &&& g.combined_span is Some == (f.combined_span is Some || both_by_letters(opts, i))
    &&& g.long_recursive_span is Some == (f.long_recursive_span is Some || is_among(
        opts,
        i,
        "--recursive"@,
    ))
    &&& g.long_force_span is Some == (f.long_force_span is Some || is_among(opts, i, "--force"@))
    &&& g.saw_terminator == f.saw_terminator
    &&& !f.interactive_mode.asks() ==> !g.interactive_mode.asks()
}

/// The letters of a cluster from the `i`th on.
#[verifier::rlimit(40)]
proof fn letters_are_read(s: Seq<char>, i: int, span: Span, f: RmFlagTracker)
    requires
        0 <= i <= s.len(),
        forall|k: int|
            i <= k < s.len() ==> is_quiet_rm_letter(#[trigger] s[k]) || s[k] == 'r' || s[k] == 'R'
                || s[k] == 'f',
    ensures
        short_from(s, i, span, f) is Some,
        ({
            let g = short_from(s, i, span, f)->0;
            let tail = s.subrange(i, s.len() as int);
            &&& g.short_recursive_span is Some == (f.short_recursive_span is Some || recurses(tail))
            &&& g.short_force_span is Some == (f.short_force_span is Some || tail.contains('f'))
            &&& g.combined_span == f.combined_span
            &&& g.long_recursive_span == f.long_recursive_span
            &&& g.long_force_span == f.long_force_span
            &&& g.saw_terminator == f.saw_terminator
            &&& !f.interactive_mode.asks() ==> !g.interactive_mode.asks()
        }),
    decreases s.len() - i,
{
    let tail = s.subrange(i, s.len() as int);
    if i < s.len() {
        let c = s[i];
        let more = s.subrange(i + 1, s.len() as int);
        assert(is_quiet_rm_letter(s[i]) || s[i] == 'r' || s[i] == 'R' || s[i] == 'f');
        assert forall|x: char| tail.contains(x) == (x == c || more.contains(x)) by {
            assert(tail[0] == c);
            if more.contains(x) {
                let j = choose|j: int| 0 <= j < more.len() && more[j] == x;
                assert(tail[j + 1] == x);
            }
            if tail.contains(x) && x != c {
                let j = choose|j: int| 0 <= j < tail.len() && tail[j] == x;
                assert(more[j - 1] == x);
            }
        }
        let g = if c == 'r' || c == 'R' {
            RmFlagTracker {
                short_recursive_span: span_or(f.short_recursive_span, Some(span)),
                ..f
            }
        } else if c == 'f' {
            RmFlagTracker {
                short_force_span: span_or(f.short_force_span, Some(span)),
                interactive_mode: RmInteractiveMode::Never,
                ..f
            }
        } else {
            f
        };
        letters_are_read(s, i + 1, span, g);
        assert(short_from(s, i, span, f) == short_from(s, i + 1, span, g));
    }
}

/// A cluster is read letter by letter, as every `rm` reads it.
#[verifier::rlimit(40)]
proof fn cluster_is_read(w: Seq<char>, span: Span, f: RmFlagTracker)
    requires
        is_rm_cluster(w),
    ensures
        apple_option(w),
        w != "--"@,
        w != "-"@,
        starts(w, "-"@),
        with_option(w, span, f) matches RmOptionDecision::Continue(g) && adds(f, g, seq![w], 0),
{
    let s = rest(w, 1);
    reveal_strlit("-");
    reveal_strlit("--");
    assert(is_quiet_rm_letter(w[1]) || w[1] == 'r' || w[1] == 'R' || w[1] == 'f');
    assert(w.subrange(0, 1) =~= "-"@);
    if starts(w, "--"@) {
        assert(w.subrange(0, 2)[1] == '-');
    }
    assert forall|k: int| 0 <= k < s.len() implies is_quiet_rm_letter(#[trigger] s[k]) || s[k] == 'r'
        || s[k] == 'R' || s[k] == 'f' by {
        assert(s[k] == w[k + 1]);
        assert(is_quiet_rm_letter(w[k + 1]) || w[k + 1] == 'r' || w[k + 1] == 'R' || w[k + 1] == 'f');
    }
    letters_are_read(s, 0, span, f);
    assert(s.subrange(0, s.len() as int) =~= s);
    assert forall|x: char| x != '-' implies (#[trigger] w.contains(x) == s.contains(x)) by {
        if s.contains(x) {
            let j = choose|j: int| 0 <= j < s.len() && s[j] == x;
            assert(w[j + 1] == x);
        }
        if w.contains(x) {
            let j = choose|j: int| 0 <= j < w.len() && w[j] == x;
            assert(s[j - 1] == x);
        }
    }
    assert(w.contains('r') == s.contains('r') && w.contains('R') == s.contains('R') && w.contains('f')
        == s.contains('f'));
    cluster_is_no_name(w);
    let one = seq![w];
    assert(one[0] == w && one.len() == 1);
    assert(recursion_by_letter(one, 0) == recurses(w)) by {
        assert(!recursion_by_letter(one, 1));
    }
    assert(force_by_letter(one, 0) == w.contains('f')) by {
        assert(!force_by_letter(one, 1));
    }
    assert(both_by_letters(one, 0) == (recurses(w) && w.contains('f'))) by {
        assert(!both_by_letters(one, 1));
    }
    assert(!is_among(one, 0, "--recursive"@)) by {
        assert(!is_among(one, 1, "--recursive"@));
    }
    assert(!is_among(one, 0, "--force"@)) by {
        assert(!is_among(one, 1, "--force"@));
    }
}

/// A cluster is no long option.
proof fn cluster_is_no_name(w: Seq<char>)
    requires
        is_rm_cluster(w),
    ensures
        w != "--recursive"@,
        w != "--force"@,
        !is_quiet_rm_name(w),
{
    reveal_strlit("--recursive");
    reveal_strlit("--force");
    reveal_strlit("--dir");
    reveal_strlit("--no-preserve-root");
    reveal_strlit("--one-file-system");
    reveal_strlit("--preserve-root");
    reveal_strlit("--presume-input-tty");
    reveal_strlit("--verbose");
    assert(is_quiet_rm_letter(w[1]) || w[1] == 'r' || w[1] == 'R' || w[1] == 'f');
    assert(w[1] != '-');
}

/// A long option by its name, without a value.
#[verifier::rlimit(40)]
proof fn name_is_read(w: Seq<char>, name: Seq<char>, option: RmLongOption, span: Span, f: RmFlagTracker)
    requires
        w == "--"@ + name,
        name == long_name(option),
        name.len() > 0,
        !name.contains('='),
    ensures
        w != "--"@,
        w != "-"@,
        starts(w, "-"@),
        !apple_option(w),
        with_option(w, span, f) == with_known(option, None, span, f),
{
    reveal_strlit("--");
    reveal_strlit("-");
    assert(w.subrange(0, 2) =~= "--"@);
    assert(w.subrange(0, 1) =~= "-"@);
    assert(rest(w, 2) =~= name);
    assert(w[1] == '-');
    assert(w.len() == name.len() + 2);
    next_index_is_first(name, 0, '=');
    let e = next_index(name, 0, '=');
    if e < name.len() {
        assert(name[e] == '=');
    }
    assert(name_and_value(name) == (name, None::<Seq<char>>));
    assert(stands_for(name, option));
    let chosen = choose|o: RmLongOption| #[trigger] stands_for(name, o);
    name_stands_for_one_option(name, option, chosen);
}

/// The long options of `rm` that do not ask.
#[verifier::rlimit(40)]
proof fn names_are_read(w: Seq<char>, span: Span, f: RmFlagTracker)
    requires
        is_quiet_rm_name(w) || w == "--recursive"@ || w == "--force"@,
    ensures
        w != "--"@,
        w != "-"@,
        starts(w, "-"@),
        !apple_option(w),
        !is_rm_cluster(w),
        with_option(w, span, f) matches RmOptionDecision::Continue(g) && adds(f, g, seq![w], 0),
{
    reveal_strlit("--");
    reveal_strlit("--recursive");
    reveal_strlit("--force");
    reveal_strlit("--dir");
    reveal_strlit("--no-preserve-root");
    reveal_strlit("--one-file-system");
    reveal_strlit("--preserve-root");
    reveal_strlit("--presume-input-tty");
    reveal_strlit("--verbose");
    reveal_strlit("recursive");
    reveal_strlit("force");
    reveal_strlit("dir");
    reveal_strlit("no-preserve-root");
    reveal_strlit("one-file-system");
    reveal_strlit("preserve-root");
    reveal_strlit("presume-input-tty");
    reveal_strlit("verbose");
    assert(w[1] == '-');
    let one = seq![w];
    assert(one[0] == w && one.len() == 1);
    assert(!is_rm_cluster(w)) by {
        if is_rm_cluster(w) {
            assert(is_quiet_rm_letter(w[1]) || w[1] == 'r' || w[1] == 'R' || w[1] == 'f');
        }
    }
    assert(!recursion_by_letter(one, 1) && !force_by_letter(one, 1) && !both_by_letters(one, 1));
    assert(!recursion_by_letter(one, 0) && !force_by_letter(one, 0) && !both_by_letters(one, 0));
    assert(!is_among(one, 1, "--recursive"@) && !is_among(one, 1, "--force"@));
    if w == "--recursive"@ {
        assert(w =~= "--"@ + "recursive"@);
        name_is_read(w, "recursive"@, RmLongOption::Recursive, span, f);
    } else if w == "--force"@ {
        assert(w =~= "--"@ + "force"@);
        name_is_read(w, "force"@, RmLongOption::Force, span, f);
    } else if w == "--dir"@ {
        assert(w =~= "--"@ + "dir"@);
        name_is_read(w, "dir"@, RmLongOption::Dir, span, f);
    } else if w == "--no-preserve-root"@ {
        assert(w =~= "--"@ + "no-preserve-root"@);
        name_is_read(w, "no-preserve-root"@, RmLongOption::NoPreserveRoot, span, f);
    } else if w == "--one-file-system"@ {
        assert(w =~= "--"@ + "one-file-system"@);
        name_is_read(w, "one-file-system"@, RmLongOption::OneFileSystem, span, f);
    } else if w == "--preserve-root"@ {
        assert(w =~= "--"@ + "preserve-root"@);
        name_is_read(w, "preserve-root"@, RmLongOption::PreserveRoot, span, f);
    } else if w == "--presume-input-tty"@ {
        assert(w =~= "--"@ + "presume-input-tty"@);
        name_is_read(w, "presume-input-tty"@, RmLongOption::PresumeInputTty, span, f);
    } else {
        assert(w =~= "--"@ + "verbose"@);
        name_is_read(w, "verbose"@, RmLongOption::Verbose, span, f);
    }
    assert("--recursive"@.len() == 11 && "--force"@.len() == 7);
    assert(is_quiet_rm_name(w) ==> w != "--recursive"@ && w != "--force"@) by {
        if is_quiet_rm_name(w) && w.len() == 11 {
            assert(w[2] == 'r');
        }
    }
}

/// An option of `rm` that does not ask is read by GNU's `rm`; by Apple's it is read
/// where it is a cluster.
proof fn option_is_read(w: Seq<char>, span: Span, f: RmFlagTracker)
    requires
        is_rm_option(w),
    ensures
        w != "--"@,
        w != "-"@,
        starts(w, "-"@),
        with_option(w, span, f) matches RmOptionDecision::Continue(g) && adds(f, g, seq![w], 0),
{
    if is_rm_cluster(w) {
        cluster_is_read(w, span, f);
    } else {
        names_are_read(w, span, f);
    }
}

/// One option and those behind it add what all of them do.
proof fn options_add_up(
    f: RmFlagTracker,
    g: RmFlagTracker,
    h: RmFlagTracker,
    opts: Seq<Seq<char>>,
    i: int,
)
    requires
        0 <= i < opts.len(),
        adds(f, g, seq![opts[i]], 0),
        adds(g, h, opts, i + 1),
    ensures
        adds(f, h, opts, i),
{
    let one = seq![opts[i]];
    assert(one[0] == opts[i]);
    assert(!recursion_by_letter(one, 1) && !force_by_letter(one, 1) && !both_by_letters(one, 1));
    assert(!is_among(one, 1, "--recursive"@) && !is_among(one, 1, "--force"@));
}

/// A command of plain words and its tokens.
pub open spec fn are_tokens_of(c: Seq<char>, toks: Seq<NormalizeToken>, words: Seq<Seq<char>>) -> bool {
    &&& toks.len() == words.len()
    &&& are_plain_words(words)
    &&& forall|m: int|
        0 <= m < toks.len() ==> (#[trigger] toks[m]).word() && toks[m].of(c) == words[m]
}

/// What a plain argument is.
proof fn plain_argument(c: Seq<char>, toks: Seq<NormalizeToken>, words: Seq<Seq<char>>, i: int)
    requires
        are_tokens_of(c, toks, words),
        0 <= i < words.len(),
    ensures
        toks[i].word(),
        toks[i].of(c) == words[i],
        argument_text(c, toks, i) == words[i],
        words[i].len() > 0,
{
    assert(toks[i].word());
    assert(is_plain_word(words[i]));
    plain_word_stands_for_itself(words[i]);
}

/// GNU's `rm` reads options first, and Apple's does too where they are clusters.
#[verifier::rlimit(40)]
proof fn options_are_read(
    c: Seq<char>,
    toks: Seq<NormalizeToken>,
    words: Seq<Seq<char>>,
    opts: Seq<Seq<char>>,
    i: int,
    scanning: RmOptionScanning,
    f: RmFlagTracker,
) -> (g: RmFlagTracker)
    requires
        are_tokens_of(c, toks, words),
        0 <= i <= opts.len() < words.len(),
        forall|k: int| 0 <= k < opts.len() ==> words[k + 1] == #[trigger] opts[k] && is_rm_option(opts[k]),
    ensures
        adds(f, g, opts, i),
        ({
            let none = Seq::<PathView>::empty();
            let a = rm_arguments(c, toks, i + 1, scanning, false, f, none);
            let b = rm_arguments(c, toks, opts.len() as int + 1, scanning, false, g, none);
            a == b || (scanning == RmOptionScanning::AppleStopAtFirstOperand && a is None)
        }),
    decreases opts.len() - i,
{
    if i < opts.len() {
        let w = opts[i];
        assert(words[i + 1] == w);
        plain_argument(c, toks, words, i + 1);
        assert(is_plain_word(words[i + 1]));
        plain_word_stands_for_itself(w);
        let span = Span { start: toks[i + 1].start, end: toks[i + 1].end };
        option_is_read(w, span, f);
        let g = with_option(w, span, f)->Continue_0;
        let h = options_are_read(c, toks, words, opts, i + 1, scanning, g);
        options_add_up(f, g, h, opts, i);
        h
    } else {
        f
    }
}

/// Operands as they stand in a command.
pub open spec fn are_operands(read: Seq<PathView>, paths: Seq<Seq<char>>) -> bool {
    &&& read.len() == paths.len()
    &&& forall|k: int|
        0 <= k < read.len() ==> (#[trigger] read[k]).unquoted == paths[k] && read[k].quote
            == QuoteKind::Unquoted
}

/// Every `rm` reads words without a dash in front as operands.
#[verifier::rlimit(40)]
proof fn operands_are_read(
    c: Seq<char>,
    toks: Seq<NormalizeToken>,
    words: Seq<Seq<char>>,
    at: int,
    paths: Seq<Seq<char>>,
    i: int,
    scanning: RmOptionScanning,
    ended: bool,
    f: RmFlagTracker,
    read: Seq<PathView>,
)
    requires
        are_tokens_of(c, toks, words),
        0 <= at,
        words.len() == at + paths.len(),
        0 <= i <= paths.len(),
        forall|k: int| 0 <= k < paths.len() ==> words[k + at] == #[trigger] paths[k] && paths[k][0] != '-',
        are_operands(read, paths.subrange(0, i)),
    ensures
        rm_arguments(c, toks, i + at, scanning, ended, f, read) matches Some(r) && r.0 == f
            && are_operands(r.1, paths),
    decreases paths.len() - i,
{
    if i < paths.len() {
        let w = paths[i];
        assert(words[i + at] == w && w[0] != '-');
        plain_argument(c, toks, words, i + at);
        assert(is_plain_word(words[i + at]));
        plain_word_stands_for_itself(w);
        reveal_strlit("-");
        reveal_strlit("--");
        if starts(w, "-"@) {
            assert(w.subrange(0, 1)[0] == '-');
        }
        assert(w != "--"@) by {
            assert("--"@[0] == '-');
        }
        let t = toks[i + at];
        let view = PathView { unquoted: w, quote: QuoteKind::Unquoted, start: t.start, end: t.end };
        let more = read.push(view);
        assert forall|k: int| 0 <= k < more.len() implies (#[trigger] more[k]).unquoted
            == paths.subrange(0, i + 1)[k] && more[k].quote == QuoteKind::Unquoted by {
            if k < i {
                assert(more[k] == read[k]);
                assert(read[k].unquoted == paths.subrange(0, i)[k]);
            }
        }
        let apple = scanning == RmOptionScanning::AppleStopAtFirstOperand;
        operands_are_read(c, toks, words, at, paths, i + 1, scanning, ended || apple, f, more);
        assert(rm_arguments(c, toks, i + at, scanning, ended, f, read) == rm_arguments(
            c,
            toks,
            i + at + 1,
            scanning,
            ended || apple,
            f,
            more,
        ));
    } else {
        assert(paths.subrange(0, i) =~= paths);
    }
}

/// No plain word redirects the standard input.
proof fn stdin_is_not_redirected(c: Seq<char>, toks: Seq<NormalizeToken>, words: Seq<Seq<char>>, i: int)
    requires
        are_tokens_of(c, toks, words),
        0 <= i,
    ensures
        !stdin_redirected(c, toks, i),
    decreases words.len() - i,
{
    if i < words.len() {
        plain_argument(c, toks, words, i);
        assert(is_plain_word(words[i]));
        plain_word_stands_for_itself(words[i]);
        stdin_is_not_redirected(c, toks, words, i + 1);
    }
}

/// A plain path below a temporary directory, with no component `..` there.
pub open spec fn is_plainly_temporary(w: Seq<char>) -> bool {
    exists|t: Seq<char>|
        #[trigger] is_below_tmp(w, t) && !has_dot_dot(t) && exists|k: int|
            0 <= k < t.len() && #[trigger] t[k] != '/' && t[k] != '.'
}

/// A plain path below no temporary directory, or with a component `..` there.
pub open spec fn is_plainly_elsewhere(w: Seq<char>) -> bool {
    &&& !is_below_user_temp(w)
    &&& forall|t: Seq<char>|
        #[trigger] is_below_tmp(w, t) ==> has_dot_dot(t) && exists|k: int|
            0 <= k < t.len() && #[trigger] t[k] != '/' && t[k] != '.'
}

/// A plain path is trusted where it is plainly temporary, and is not where it is
/// plainly elsewhere.
proof fn plain_paths_are_told_apart(w: Seq<char>)
    requires
        is_plain_word(w),
    ensures
        is_plainly_temporary(w) ==> safe_unquoted(w),
        is_plainly_elsewhere(w) ==> !safe_unquoted(w),
{
    if is_plainly_temporary(w) {
        let t = choose|t: Seq<char>|
            #[trigger] is_below_tmp(w, t) && !has_dot_dot(t) && exists|k: int|
                0 <= k < t.len() && #[trigger] t[k] != '/' && t[k] != '.';
        plain_temporary_paths_are_trusted(w, t, RmFlagStyle::Combined);
    }
    if is_plainly_elsewhere(w) {
        if exists|t: Seq<char>| #[trigger] is_below_tmp(w, t) {
            let t = choose|t: Seq<char>| #[trigger] is_below_tmp(w, t);
            plain_temporary_paths_are_trusted(w, t, RmFlagStyle::Combined);
        } else {
            other_paths_are_not_trusted(w);
        }
    }
}

/// Whether the options recurse.
pub open spec fn asks_recursion(opts: Seq<Seq<char>>) -> bool {
    recursion_by_letter(opts, 0) || is_among(opts, 0, "--recursive"@)
}

/// Whether all paths are plainly temporary.
pub open spec fn are_temporary(paths: Seq<Seq<char>>) -> bool {
    forall|k: int| 0 <= k < paths.len() ==> is_plainly_temporary(#[trigger] paths[k])
}

/// Whether a path is absolute and plainly not temporary.
pub open spec fn hits_root(paths: Seq<Seq<char>>) -> bool {
    exists|k: int|
        0 <= k < paths.len() && (#[trigger] paths[k])[0] == '/' && !is_plainly_temporary(paths[k])
}

/// The name of the rule on a recursive removal with these options.
pub open spec fn recursive_rule(opts: Seq<Seq<char>>, critical: bool) -> Seq<char> {
    let forced = force_by_letter(opts, 0) || is_among(opts, 0, "--force"@);
    let long = is_among(opts, 0, "--recursive"@) && is_among(opts, 0, "--force"@);
    if !forced {
        if critical {
            "rm-recursive-root-home"@
        } else {
            "rm-recursive-general"@
        }
    } else if both_by_letters(opts, 0) {
        if critical {
            "rm-rf-root-home"@
        } else {
            "rm-rf-general"@
        }
    } else if long {
        if critical {
            "rm-recursive-force-root-home"@
        } else {
            "rm-recursive-force-long"@
        }
    } else if critical {
        "rm-r-f-separate-root-home"@
    } else {
        "rm-r-f-separate"@
    }
}

/// What is to be decided of a removal with these options and operands.
pub open spec fn is_decided_by(
    d: RmParseDecision,
    opts: Seq<Seq<char>>,
    paths: Seq<Seq<char>>,
) -> bool {
    if !asks_recursion(opts) || paths.len() == 0 {
        d is NoMatch
    } else if are_temporary(paths) {
        d is Allow
    } else {
        d matches RmParseDecision::Deny(hit) && hit.pattern_name@ == recursive_rule(
            opts,
            hits_root(paths),
        ) && hit.severity == (if hits_root(paths) {
            Severity::Critical
        } else {
            Severity::High
        })
    }
}

/// Operands that are no globs are not denied without recursion.
proof fn no_bare_globs(read: Seq<PathView>, paths: Seq<Seq<char>>, i: int, root: bool)
    requires
        are_operands(read, paths),
        are_plain_words(paths),
        0 <= i <= read.len(),
    ensures
        bare_glob_from(read, i, root) == read.len(),
    decreases read.len() - i,
{
    if i < read.len() {
        let w = paths[i];
        assert(read[i].unquoted == w);
        assert(is_plain_word(w));
        plain_word_stands_for_itself(w);
        reveal_strlit("/*");
        reveal_strlit("*");
        reveal_strlit("./*");
        assert("/*"@[1] == '*' && "*"@[0] == '*' && "./*"@[2] == '*');
        assert("/*"@.contains('*') && "*"@.contains('*') && "./*"@.contains('*'));
        no_bare_globs(read, paths, i + 1, root);
    }
}

/// What is decided of a recursive removal of plain operands.
#[verifier::rlimit(40)]
proof fn recursive_removal_is_decided(
    g: RmFlagTracker,
    opts: Seq<Seq<char>>,
    read: Seq<PathView>,
    paths: Seq<Seq<char>>,
)
    requires
        adds(no_flags(), g, opts, 0),
        are_operands(read, paths),
        are_plain_words(paths),
        forall|k: int|
            0 <= k < paths.len() ==> is_plainly_temporary(#[trigger] paths[k])
                || is_plainly_elsewhere(paths[k]),
    ensures
        is_decided_by(
            match g.resolved() {
                Some(state) => recursive_verdict(state, read, false, Seq::empty()),
                None => bare_glob_verdict(read, g.interactive_mode.asks(), false, Seq::empty()),
            },
            opts,
            paths,
        ),
{
    if !g.recursive() {
        no_bare_globs(read, paths, 0, true);
        no_bare_globs(read, paths, 0, false);
    } else if read.len() > 0 {
        let state = g.resolved()->0;
        let style = path_style(state.force_style);
        assert forall|k: int| 0 <= k < read.len() implies safe_for_style(#[trigger] read[k], style)
            == is_plainly_temporary(paths[k]) && root_home(read[k]) == (paths[k][0] == '/') by {
            let w = paths[k];
            assert(read[k].unquoted == w);
            assert(is_plain_word(w));
            plain_paths_are_told_apart(w);
            assert(is_plainly_temporary(w) || is_plainly_elsewhere(w));
            plain_critical_paths(read[k]);
        }
        assert(all_safe(read, style) == are_temporary(paths)) by {
            if all_safe(read, style) {
                assert forall|k: int| 0 <= k < paths.len() implies is_plainly_temporary(
                    #[trigger] paths[k],
                ) by {
                    assert(safe_for_style(read[k], style));
                }
            }
        }
        assert(any_critical(read, style) == hits_root(paths)) by {
            if any_critical(read, style) {
                let k = choose|k: int|
                    0 <= k < read.len() && root_home(#[trigger] read[k]) && !safe_for_style(
                        read[k],
                        style,
                    );
                assert(paths[k][0] == '/' && !is_plainly_temporary(paths[k]));
            }
            if hits_root(paths) {
                let k = choose|k: int|
                    0 <= k < paths.len() && (#[trigger] paths[k])[0] == '/'
                        && !is_plainly_temporary(paths[k]);
                assert(root_home(read[k]) && !safe_for_style(read[k], style));
            }
        }
        let hit = rule_for(any_critical(read, style), state.force_style);
        assert(!all_exempt(Seq::empty(), hit.pattern_name, read)) by {
            assert(exempting_glob(Seq::empty(), hit.pattern_name, read[0].unquoted) is None);
        }
    }
}

/// A plain path is critical where it is absolute.
#[verifier::rlimit(40)]
proof fn plain_critical_paths(path: PathView)
    requires
        is_plain_word(path.unquoted),
    ensures
        root_home(path) == (path.unquoted[0] == '/'),
{
    let s = path.unquoted;
    assert(is_plain(s[0]));
    reveal_strlit("/");
    reveal_strlit("~");
    reveal_strlit("$HOME");
    reveal_strlit("$HOME/");
    reveal_strlit("${HOME}");
    reveal_strlit("${HOME}/");
    if s[0] == '/' {
        assert(s.subrange(0, 1) =~= "/"@);
    }
    assert(starts(s, "/"@) ==> s.subrange(0, 1)[0] == '/');
    assert(starts(s, "~"@) ==> s.subrange(0, 1)[0] == '~');
    assert(s == "$HOME"@ ==> s[0] == '$');
    assert(s == "${HOME}"@ ==> s[0] == '$');
    assert(starts(s, "$HOME/"@) ==> s.subrange(0, 6)[0] == '$');
    assert(starts(s, "${HOME}/"@) ==> s.subrange(0, 8)[0] == '$');
}

/// What is decided of the words behind `rm`: options that do not ask, and operands.
#[verifier::rlimit(40)]
pub proof fn plain_arguments_of_rm_are_decided(
    c: Seq<char>,
    toks: Seq<NormalizeToken>,
    words: Seq<Seq<char>>,
    opts: Seq<Seq<char>>,
    paths: Seq<Seq<char>>,
)
    requires
        are_tokens_of(c, toks, words),
        words == seq!["rm"@] + opts + paths,
        forall|k: int| 0 <= k < opts.len() ==> is_rm_option(#[trigger] opts[k]),
        forall|k: int|
            0 <= k < paths.len() ==> (#[trigger] paths[k])[0] != '-' && (is_plainly_temporary(
                paths[k],
            ) || is_plainly_elsewhere(paths[k])),
    ensures
        is_decided_by(rm_verdict(c, toks, 1, false, Seq::empty()), opts, paths),
{
    let gnu = RmOptionScanning::GnuPermuted;
    let apple = RmOptionScanning::AppleStopAtFirstOperand;
    let at = opts.len() as int + 1;
    assert forall|k: int| 0 <= k < opts.len() implies words[k + 1] == #[trigger] opts[k]
        && is_rm_option(opts[k]) by {}
    assert forall|k: int| 0 <= k < paths.len() implies words[k + at] == #[trigger] paths[k]
        && paths[k][0] != '-' by {}
    assert forall|k: int| 0 <= k < paths.len() implies is_plain_word(#[trigger] paths[k]) by {
        assert(is_plain_word(words[k + at]));
    }
    stdin_is_not_redirected(c, toks, words, 1);
    let g = options_are_read(c, toks, words, opts, 0, gnu, no_flags());
    let h = options_are_read(c, toks, words, opts, 0, apple, no_flags());
    let none = Seq::<PathView>::empty();
    assert(paths.subrange(0, 0) =~= Seq::<Seq<char>>::empty());
    operands_are_read(c, toks, words, at, paths, 0, gnu, false, g, none);
    operands_are_read(c, toks, words, at, paths, 0, apple, false, h, none);
    let read = (rm_arguments(c, toks, at, gnu, false, g, none)->0).1;
    let other = (rm_arguments(c, toks, at, apple, false, h, none)->0).1;
    recursive_removal_is_decided(g, opts, read, paths);
    recursive_removal_is_decided(h, opts, other, paths);
}

/// The word `rm` is a program that nothing wraps.
#[verifier::rlimit(40)]
pub proof fn rm_is_a_program()
    ensures
        is_program("rm"@),
        basename("rm"@) == "rm"@,
{
    reveal_strlit("rm");
    reveal_strlit("do");
    reveal_strlit("then");
    reveal_strlit("else");
    reveal_strlit("sudo");
    reveal_strlit("doas");
    reveal_strlit("env");
    reveal_strlit("command");
    reveal_strlit("nice");
    reveal_strlit("ionice");
    reveal_strlit("timeout");
    reveal_strlit("stdbuf");
    reveal_strlit("setsid");
    reveal_strlit("mise");
    reveal_strlit("exec");
    reveal_strlit("time");
    reveal_strlit("nohup");
    reveal_strlit("builtin");
    reveal_strlit("unbuffer");
    reveal_strlit("busybox");
    reveal_strlit("/");
    let r = "rm"@;
    assert(r[0] == 'r' && r[1] == 'm');
    reveal_with_fuel(next_index, 4);
    assert(next_index(r, 0, '=') == 2);
    reveal_with_fuel(basename_start, 4);
    assert(basename_start(r, 2) == 0);
    assert(basename(r) =~= r);
    assert("do"@[0] == 'd');
    if starts(r, "/"@) {
        assert(r.subrange(0, 1)[0] == '/');
    }
}

/// What is decided of the words of a plain `rm` command is decided of the command.
#[verifier::rlimit(40)]
pub proof fn plain_removal_verdict(opts: Seq<Seq<char>>, paths: Seq<Seq<char>>)
    requires
        are_plain_words(opts),
        are_plain_words(paths),
        spaced(seq!["rm"@] + opts + paths, 0).len() <= usize::MAX,
        forall|k: int| 0 <= k < opts.len() ==> is_rm_option(#[trigger] opts[k]),
        forall|k: int|
            0 <= k < paths.len() ==> (#[trigger] paths[k])[0] != '-' && (is_plainly_temporary(
                paths[k],
            ) || is_plainly_elsewhere(paths[k])),
    ensures
        is_decided_by(
            plain_verdict(spaced(seq!["rm"@] + opts + paths, 0), false, Seq::empty()),
            opts,
            paths,
        ),
        rm_command_verdict(spaced(seq!["rm"@] + opts + paths, 0), Seq::empty()) == in_bytes(
            plain_verdict(spaced(seq!["rm"@] + opts + paths, 0), false, Seq::empty()),
            spaced(seq!["rm"@] + opts + paths, 0),
        ),
{
    let words = seq!["rm"@] + opts + paths;
    let c = spaced(words, 0);
    let none = Seq::<ExemptionView>::empty();
    rm_is_a_program();
    assert forall|k: int| 0 <= k < words.len() implies is_plain_word(#[trigger] words[k]) by {
        if 1 <= k < opts.len() + 1 {
            assert(words[k] == opts[k - 1]);
        } else if k > opts.len() {
            assert(words[k] == paths[k - opts.len() - 1]);
        }
    }
    plain_rm_is_found(words);
    let toks = tokens(c, ShellDialect::Unknown);
    plain_words_are_tokens(words, ShellDialect::Unknown);
    assert forall|m: int| 0 <= m < toks.len() implies (#[trigger] toks[m]).word() && toks[m].of(c)
        == words[m] by {
        assert(toks[m].word());
    }
    plain_arguments_of_rm_are_decided(c, toks, words, opts, paths);
}

/// A command of `rm` in plain words, with options that do not ask before operands
/// that are plainly temporary or plainly elsewhere: without recursion nothing is
/// decided, with it the command is allowed where all operands are temporary, and is
/// otherwise denied, by the rule that its letters and names select, and as critical
/// where an operand elsewhere is absolute.
pub proof fn plain_removals_are_decided(opts: Seq<Seq<char>>, paths: Seq<Seq<char>>)
    requires
        are_plain_words(opts),
        are_plain_words(paths),
        spaced(seq!["rm"@] + opts + paths, 0).len() <= usize::MAX,
        forall|k: int| 0 <= k < opts.len() ==> is_rm_option(#[trigger] opts[k]),
        forall|k: int|
            0 <= k < paths.len() ==> (#[trigger] paths[k])[0] != '-' && (is_plainly_temporary(
                paths[k],
            ) || is_plainly_elsewhere(paths[k])),
    ensures
        is_decided_by(
            rm_command_verdict(spaced(seq!["rm"@] + opts + paths, 0), Seq::empty()),
            opts,
            paths,
        ),
{
    plain_removal_verdict(opts, paths);
}

/// What is decided of a plain command of `rm` is decided by the words behind it.
pub proof fn plain_rm_is_found(words: Seq<Seq<char>>)
    requires
        are_plain_words(words),
        words.len() > 0,
        words[0] == "rm"@,
        spaced(words, 0).len() <= usize::MAX,
    ensures
        ({
            let c = spaced(words, 0);
            let d = rm_verdict(c, tokens(c, ShellDialect::Unknown), 1, false, Seq::empty());
            &&& plain_verdict(c, false, Seq::empty()) == d
            &&& segment_verdict(c, false, Seq::empty()) == d
            &&& rm_command_verdict(c, Seq::empty()) == in_bytes(d, c)
        }),
{
    let c = spaced(words, 0);
    let none = Seq::<ExemptionView>::empty();
    rm_is_a_program();
    plain_command_is_bare(words, MAX_RM_EXECUTION_FRONTENDS as nat);
    plain_words_are_one_command(words, ShellDialect::Unknown);
    plain_words_are_tokens(words, ShellDialect::Unknown);
    let toks = tokens(c, ShellDialect::Unknown);
    assert(toks[0].word() && toks[0].of(c) == "rm"@);
    assert(rm_word_from(c, toks, 0) == 0);
    plain_word_stands_for_itself("rm"@);
    reveal_strlit("rm");
    reveal_strlit("xargs");
    reveal_strlit("find");
    assert(argv_verdict(c, none) is NoMatch);
}

/// An option of `rm` with which it asks before it removes.
pub open spec fn is_asking_option(w: Seq<char>) -> bool {
    w == "-i"@ || w == "-I"@ || w == "--interactive"@
}

/// An option with which `rm` asks is read so.
#[verifier::rlimit(40)]
proof fn asking_option_is_read(w: Seq<char>, span: Span, f: RmFlagTracker)
    requires
        is_asking_option(w),
    ensures
        w != "--"@,
        w != "-"@,
        starts(w, "-"@),
        with_option(w, span, f) matches RmOptionDecision::Continue(g) && g.interactive_mode.asks()
            && g.recursive() == f.recursive() && g.saw_terminator == f.saw_terminator,
{
    reveal_strlit("-");
    reveal_strlit("--");
    reveal_strlit("-i");
    reveal_strlit("-I");
    reveal_strlit("--interactive");
    reveal_strlit("interactive");
    assert(w.subrange(0, 1) =~= "-"@);
    if w == "--interactive"@ {
        assert(w =~= "--"@ + "interactive"@);
        assert forall|j: int| 0 <= j < 11 implies "interactive"@[j] != '=' by {}
        assert(!"interactive"@.contains('='));
        name_is_read(w, "interactive"@, RmLongOption::Interactive, span, f);
    } else {
        assert(w.len() == 2);
        let s = rest(w, 1);
        assert(s.len() == 1 && s[0] == w[1]);
        if starts(w, "--"@) {
            assert(w.subrange(0, 2)[1] == '-');
        }
        assert(!s.contains('r') && !s.contains('R') && !s.contains('f'));
        reveal_with_fuel(short_from, 3);
    }
}

/// A removal that asks is allowed: `-i`, `-I` or `--interactive` behind other
/// options makes a recursive removal wait for an answer.
#[verifier::rlimit(40)]
pub proof fn asking_removals_are_allowed(
    opts: Seq<Seq<char>>,
    ask: Seq<char>,
    paths: Seq<Seq<char>>,
)
    requires
        are_plain_words(opts),
        is_plain_word(ask),
        are_plain_words(paths),
        is_asking_option(ask),
        paths.len() > 0,
        spaced(seq!["rm"@] + opts + seq![ask] + paths, 0).len() <= usize::MAX,
        forall|k: int| 0 <= k < opts.len() ==> is_rm_option(#[trigger] opts[k]),
        forall|k: int| 0 <= k < paths.len() ==> (#[trigger] paths[k])[0] != '-',
        asks_recursion(opts),
    ensures
        rm_command_verdict(spaced(seq!["rm"@] + opts + seq![ask] + paths, 0), Seq::empty()) is Allow,
{
    let words = seq!["rm"@] + opts + seq![ask] + paths;
    let c = spaced(words, 0);
    let at = opts.len() as int + 1;
    rm_is_a_program();
    assert forall|k: int| 0 <= k < words.len() implies is_plain_word(#[trigger] words[k]) by {
        if 1 <= k < at {
            assert(words[k] == opts[k - 1]);
        } else if k > at {
            assert(words[k] == paths[k - at - 1]);
        }
    }
    plain_rm_is_found(words);
    let toks = tokens(c, ShellDialect::Unknown);
    plain_words_are_tokens(words, ShellDialect::Unknown);
    assert forall|m: int| 0 <= m < toks.len() implies (#[trigger] toks[m]).word() && toks[m].of(c)
        == words[m] by {
        assert(toks[m].word());
    }
    asking_arguments(c, toks, words, opts, ask, paths, RmOptionScanning::GnuPermuted);
    asking_arguments(c, toks, words, opts, ask, paths, RmOptionScanning::AppleStopAtFirstOperand);
}

/// What one kind of `rm` reads of a removal that asks.
#[verifier::rlimit(40)]
proof fn asking_arguments(
    c: Seq<char>,
    toks: Seq<NormalizeToken>,
    words: Seq<Seq<char>>,
    opts: Seq<Seq<char>>,
    ask: Seq<char>,
    paths: Seq<Seq<char>>,
    scanning: RmOptionScanning,
)
    requires
        are_tokens_of(c, toks, words),
        words == seq!["rm"@] + opts + seq![ask] + paths,
        is_asking_option(ask),
        paths.len() > 0,
        forall|k: int| 0 <= k < opts.len() ==> is_rm_option(#[trigger] opts[k]),
        forall|k: int| 0 <= k < paths.len() ==> (#[trigger] paths[k])[0] != '-',
        asks_recursion(opts),
    ensures
        scanned_verdict(c, toks, 1, false, scanning, Seq::empty()) is Allow || (scanning
            == RmOptionScanning::AppleStopAtFirstOperand && scanned_verdict(
            c,
            toks,
            1,
            false,
            scanning,
            Seq::empty(),
        ) is NoMatch),
{
    let at = opts.len() as int + 1;
    let none = Seq::<PathView>::empty();
    assert forall|k: int| 0 <= k < opts.len() implies words[k + 1] == #[trigger] opts[k]
        && is_rm_option(opts[k]) by {}
    assert forall|k: int| 0 <= k < paths.len() implies words[k + at + 1] == #[trigger] paths[k]
        && paths[k][0] != '-' by {}
    assert(words[at] == ask);
    stdin_is_not_redirected(c, toks, words, 1);
    let g = options_are_read(c, toks, words, opts, 0, scanning, no_flags());
    plain_argument(c, toks, words, at);
    assert(is_plain_word(words[at]));
    plain_word_stands_for_itself(ask);
    let span = Span { start: toks[at].start, end: toks[at].end };
    asking_option_is_read(ask, span, g);
    let h = with_option(ask, span, g)->Continue_0;
    assert(paths.subrange(0, 0) =~= Seq::<Seq<char>>::empty());
    operands_are_read(c, toks, words, at + 1, paths, 0, scanning, false, h, none);
}

/// What is decided of a plain recursive removal does not depend on whether the
/// command is read as of the POSIX shell, of Cmd or of no known dialect.
#[verifier::rlimit(40)]
pub proof fn dialects_agree_on_plain_removals(
    opts: Seq<Seq<char>>,
    paths: Seq<Seq<char>>,
    dialect: ShellDialect,
)
    requires
        are_plain_words(opts),
        are_plain_words(paths),
        paths.len() > 0,
        asks_recursion(opts),
        spaced(seq!["rm"@] + opts + paths, 0).len() <= usize::MAX,
        forall|k: int| 0 <= k < opts.len() ==> is_rm_option(#[trigger] opts[k]),
        forall|k: int|
            0 <= k < paths.len() ==> (#[trigger] paths[k])[0] != '-' && (is_plainly_temporary(
                paths[k],
            ) || is_plainly_elsewhere(paths[k])),
        dialect != ShellDialect::PowerShell,
    ensures
        dialect_verdict(
            spaced(seq!["rm"@] + opts + paths, 0),
            false,
            dialect,
            Seq::empty(),
        ) == rm_command_verdict(spaced(seq!["rm"@] + opts + paths, 0), Seq::empty()),
{
    let words = seq!["rm"@] + opts + paths;
    let c = spaced(words, 0);
    rm_is_a_program();
    assert forall|k: int| 0 <= k < words.len() implies is_plain_word(#[trigger] words[k]) by {
        if 1 <= k < opts.len() + 1 {
            assert(words[k] == opts[k - 1]);
        } else if k > opts.len() {
            assert(words[k] == paths[k - opts.len() - 1]);
        }
    }
    plain_removal_verdict(opts, paths);
    plain_rm_is_found(words);
    spaced_is_plain(words, 0);
    assert(!c.contains('^')) by {
        if c.contains('^') {
            let m = choose|m: int| 0 <= m < c.len() && c[m] == '^';
            assert(is_plain(c[m]) || c[m] == ' ');
        }
    }
}

} // verus!
