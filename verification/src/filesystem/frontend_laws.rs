//! What is decided of a removal that another program runs.

use vstd::prelude::*;
use crate::filesystem::command::{in_bytes, rm_command_verdict, segment_verdict};
use crate::filesystem::frontends::{
    argv_verdict, goes_on, nested_verdict, xargs_attached, xargs_cluster, xargs_command_from,
    xargs_flag, xargs_optional, xargs_word, MAX_RM_EXECUTION_FRONTENDS, XargsWord,
};
use crate::filesystem::path_laws::{has_dot_dot, is_below_tmp, is_below_user_temp};
use crate::filesystem::plain::{
    is_program, plain_command_is_bare, plain_word_stands_for_itself, plain_words_are_one_command,
    plain_words_are_tokens,
};
use crate::filesystem::rm_laws::{
    are_temporary, are_tokens_of, force_by_letter, hits_root, is_among, is_decided_by,
    is_plainly_elsewhere, is_plainly_temporary, is_rm_option, plain_removal_verdict,
    recursion_by_letter, recursive_rule, rm_is_a_program,
};
use crate::filesystem::segment::{
    plain_verdict, rm_word_from, separator_from, ExemptionView, RmParseDecision,
};
use crate::git::plain::{are_plain_words, is_plain_word, spaced};
use crate::pack::Severity;
use crate::shell::token::{onward, tokens, NormalizeToken, ShellDialect};
use crate::text::{basename, basename_start, next_index, rest, starts};

verus! {

/// A letter of `xargs` that stands alone.
pub open spec fn is_xargs_letter(c: char) -> bool {
    c == '0' || c == 'o' || c == 'p' || c == 'r' || c == 't' || c == 'x'
}

/// A letter of `xargs` that takes a value: what follows it, or the next word.
pub open spec fn is_xargs_value_letter(c: char) -> bool {
    c == 'a' || c == 'd' || c == 'E' || c == 'I' || c == 'L' || c == 'n' || c == 'P' || c == 's'
}

/// A letter of `xargs` whose value, if it has one, follows it.
pub open spec fn is_xargs_optional_letter(c: char) -> bool {
    c == 'e' || c == 'i' || c == 'l'
}

/// Letters of `xargs` that stand alone.
pub open spec fn are_xargs_letters(l: Seq<char>) -> bool {
    forall|i: int| 0 <= i < l.len() ==> is_xargs_letter(#[trigger] l[i])
}

/// A long option of `xargs` that stands alone.
pub open spec fn is_xargs_name(w: Seq<char>) -> bool {
    w == "--null"@ || w == "--open-tty"@ || w == "--interactive"@ || w == "--no-run-if-empty"@ || w
        == "--verbose"@ || w == "--exit"@ || w == "--show-limits"@ || w == "--eof"@ || w
        == "--replace"@
}

/// A long option of `xargs` whose value is the next word.
pub open spec fn is_xargs_value_name(w: Seq<char>) -> bool {
    w == "--arg-file"@ || w == "--delimiter"@ || w == "--max-lines"@ || w == "--max-args"@ || w
        == "--max-procs"@ || w == "--max-chars"@ || w == "--process-slot-var"@
}

/// A long option of `xargs` with its value attached.
pub open spec fn has_xargs_value(w: Seq<char>) -> bool {
    exists|v: Seq<char>| #[trigger] v.len() > 0 && (w == "--arg-file="@ + v
        || w == "--delimiter="@ + v
        || w == "--eof="@ + v || w == "--replace="@ + v || w == "--max-lines="@ + v || w
        == "--max-args="@ + v || w == "--max-procs="@ + v || w == "--max-chars="@ + v || w
        == "--process-slot-var="@ + v)
}

/// A word behind `xargs` that is complete: letters that stand alone, behind them
/// at most one with its value attached, or a long option.
pub open spec fn is_xargs_flag(w: Seq<char>) -> bool {
    ||| is_xargs_name(w)
    ||| has_xargs_value(w)
    ||| exists|l: Seq<char>| are_xargs_letters(l) && l.len() > 0 && w == #[trigger] ("-"@ + l)
    ||| exists|l: Seq<char>, c: char, v: Seq<char>|
        are_xargs_letters(l) && (is_xargs_optional_letter(c) || (is_xargs_value_letter(c) && v.len()
            > 0)) && w == #[trigger] ("-"@ + l + seq![c] + v)
}

/// A word behind `xargs` whose value is the next word.
pub open spec fn takes_xargs_value(w: Seq<char>) -> bool {
    ||| is_xargs_value_name(w)
    ||| exists|l: Seq<char>, c: char|
        are_xargs_letters(l) && is_xargs_value_letter(c) && w == #[trigger] ("-"@ + l).push(c)
}

/// The words from the `i`th to the `at`th are options of `xargs` with their values.
pub open spec fn are_xargs_options(words: Seq<Seq<char>>, i: int, at: int) -> bool
    decreases at - i,
{
    if i < 0 || i >= at {
        i == at
    } else if is_xargs_flag(words[i]) {
        are_xargs_options(words, i + 1, at)
    } else {
        takes_xargs_value(words[i]) && i + 2 <= at && are_xargs_options(words, i + 2, at)
    }
}

/// The letters of a cluster that stand alone are passed over.
proof fn xargs_letters_are_passed(w: Seq<char>, i: int, e: int)
    requires
        0 <= i <= e <= w.len(),
        forall|k: int| i <= k < e ==> is_xargs_letter(#[trigger] w[k]),
    ensures
        xargs_cluster(w, i) == xargs_cluster(w, e),
    decreases e - i,
{
    if i < e {
        assert(is_xargs_letter(w[i]));
        xargs_letters_are_passed(w, i + 1, e);
    }
}

/// A cluster is none of the words that `xargs` knows as a whole, unless it is one
/// letter.
#[verifier::rlimit(40)]
proof fn long_cluster_is_no_word(w: Seq<char>)
    requires
        w.len() > 1,
        w[0] == '-',
        w[1] != '-',
    ensures
        xargs_word(w) == xargs_cluster(w, 1),
{
    reveal_strlit("--");
    reveal_strlit("--help");
    reveal_strlit("--version");
    reveal_strlit("-0");
    reveal_strlit("--null");
    reveal_strlit("-o");
    reveal_strlit("--open-tty");
    reveal_strlit("-p");
    reveal_strlit("--interactive");
    reveal_strlit("-r");
    reveal_strlit("--no-run-if-empty");
    reveal_strlit("-t");
    reveal_strlit("--verbose");
    reveal_strlit("-x");
    reveal_strlit("--exit");
    reveal_strlit("--show-limits");
    reveal_strlit("--arg-file=");
    reveal_strlit("--delimiter=");
    reveal_strlit("--eof=");
    reveal_strlit("--replace=");
    reveal_strlit("--max-lines=");
    reveal_strlit("--max-args=");
    reveal_strlit("--max-procs=");
    reveal_strlit("--max-chars=");
    reveal_strlit("--process-slot-var=");
    reveal_strlit("-e");
    reveal_strlit("-i");
    reveal_strlit("-l");
    reveal_strlit("--eof");
    reveal_strlit("--replace");
    reveal_strlit("-a");
    reveal_strlit("--arg-file");
    reveal_strlit("-d");
    reveal_strlit("--delimiter");
    reveal_strlit("-E");
    reveal_strlit("-I");
    reveal_strlit("-L");
    reveal_strlit("-n");
    reveal_strlit("-P");
    reveal_strlit("-s");
    reveal_strlit("--max-lines");
    reveal_strlit("--max-args");
    reveal_strlit("--max-procs");
    reveal_strlit("--max-chars");
    reveal_strlit("--process-slot-var");
    assert(forall|n: int| 1 < n <= w.len() ==> #[trigger] w.subrange(0, n)[1] == w[1]);
    assert(starts(w, "--arg-file="@) ==> w.subrange(0, 11)[1] == '-');
    assert(starts(w, "--delimiter="@) ==> w.subrange(0, 12)[1] == '-');
    assert(starts(w, "--eof="@) ==> w.subrange(0, 6)[1] == '-');
    assert(starts(w, "--replace="@) ==> w.subrange(0, 10)[1] == '-');
    assert(starts(w, "--max-lines="@) ==> w.subrange(0, 12)[1] == '-');
    assert(starts(w, "--max-args="@) ==> w.subrange(0, 11)[1] == '-');
    assert(starts(w, "--max-procs="@) ==> w.subrange(0, 12)[1] == '-');
    assert(starts(w, "--max-chars="@) ==> w.subrange(0, 12)[1] == '-');
    assert(starts(w, "--process-slot-var="@) ==> w.subrange(0, 19)[1] == '-');
    if w.len() == 2 {
        assert(xargs_cluster(w, 2) == XargsWord::Flag);
    }
}

/// A long option with a value attached is read so.
proof fn attached_name(w: Seq<char>, p: Seq<char>, v: Seq<char>)
    requires
        w == p + v,
        v.len() > 0,
    ensures
        starts(w, p),
        w.len() > p.len(),
{
    assert(w.subrange(0, p.len() as int) =~= p);
}

/// Long options of `xargs` are no words that end its options.
#[verifier::rlimit(40)]
proof fn names_end_nothing(w: Seq<char>)
    requires
        is_xargs_name(w) || is_xargs_value_name(w) || has_xargs_value(w),
    ensures
        w != "--"@,
        w != "--help"@,
        w != "--version"@,
        is_xargs_value_name(w) ==> !is_xargs_name(w) && !has_xargs_value(w),
        w.len() > 4 && w[0] == '-' && w[1] == '-',
{
    reveal_strlit("--");
    reveal_strlit("--help");
    reveal_strlit("--version");
    reveal_strlit("--null");
    reveal_strlit("--open-tty");
    reveal_strlit("--interactive");
    reveal_strlit("--no-run-if-empty");
    reveal_strlit("--verbose");
    reveal_strlit("--exit");
    reveal_strlit("--show-limits");
    reveal_strlit("--arg-file=");
    reveal_strlit("--delimiter=");
    reveal_strlit("--eof=");
    reveal_strlit("--replace=");
    reveal_strlit("--max-lines=");
    reveal_strlit("--max-args=");
    reveal_strlit("--max-procs=");
    reveal_strlit("--max-chars=");
    reveal_strlit("--process-slot-var=");
    reveal_strlit("--eof");
    reveal_strlit("--replace");
    reveal_strlit("--arg-file");
    reveal_strlit("--delimiter");
    reveal_strlit("--max-lines");
    reveal_strlit("--max-args");
    reveal_strlit("--max-procs");
    reveal_strlit("--max-chars");
    reveal_strlit("--process-slot-var");
    assert(w.len() > 4 && "--"@.len() == 2);
    assert(w[0] == '-' && w[1] == '-');
    assert(w[2] != 'h');
    if w == "--version"@ {
        assert(w[5] == 's');
        if w == "--verbose"@ {
            assert(w[5] == 'b');
        }
        assert(w[2] == 'v');
    }
    if is_xargs_value_name(w) {
        assert(w[2] == 'a' || w[2] == 'd' || w[2] == 'm' || w[2] == 'p');
        value_name_is_bare(w);
    }
}

/// The name of an option that takes the next word has no value attached.
#[verifier::rlimit(40)]
proof fn value_name_is_bare(w: Seq<char>)
    requires
        is_xargs_value_name(w),
    ensures
        !has_xargs_value(w),
{
    reveal_strlit("--arg-file=");
    reveal_strlit("--delimiter=");
    reveal_strlit("--eof=");
    reveal_strlit("--replace=");
    reveal_strlit("--max-lines=");
    reveal_strlit("--max-args=");
    reveal_strlit("--max-procs=");
    reveal_strlit("--max-chars=");
    reveal_strlit("--process-slot-var=");
    reveal_strlit("--arg-file");
    reveal_strlit("--delimiter");
    reveal_strlit("--max-lines");
    reveal_strlit("--max-args");
    reveal_strlit("--max-procs");
    reveal_strlit("--max-chars");
    reveal_strlit("--process-slot-var");
    if has_xargs_value(w) {
        let v = choose|v: Seq<char>| #[trigger] v.len() > 0 && (w == "--arg-file="@ + v || w
            == "--delimiter="@ + v || w == "--eof="@ + v || w == "--replace="@ + v || w
            == "--max-lines="@ + v || w == "--max-args="@ + v || w == "--max-procs="@ + v || w
            == "--max-chars="@ + v || w == "--process-slot-var="@ + v);
        assert(w[2] != ' ' && w[6] != ' ');
        assert(w == "--arg-file="@ + v ==> w[2] == 'a' && w.len() > 11);
        assert(w == "--delimiter="@ + v ==> w[2] == 'd' && w.len() > 12);
        assert(w == "--eof="@ + v ==> w[2] == 'e');
        assert(w == "--replace="@ + v ==> w[2] == 'r');
        assert(w == "--max-lines="@ + v ==> w[2] == 'm' && w[6] == 'l' && w.len() > 12);
        assert(w == "--max-args="@ + v ==> w[2] == 'm' && w[6] == 'a' && w.len() > 11);
        assert(w == "--max-procs="@ + v ==> w[2] == 'm' && w[6] == 'p' && w.len() > 12);
        assert(w == "--max-chars="@ + v ==> w[2] == 'm' && w[6] == 'c' && w.len() > 12);
        assert(w == "--process-slot-var="@ + v ==> w[2] == 'p' && w.len() > 19);
    }
}

/// The words behind `xargs` are what their letters and names say.
pub proof fn xargs_options_are_the_listed_ones(w: Seq<char>)
    ensures
        is_xargs_flag(w) ==> xargs_word(w) == XargsWord::Flag,
        takes_xargs_value(w) ==> xargs_word(w) == XargsWord::TakesNext,
        w.len() > 0 && w[0] != '-' ==> xargs_word(w) == XargsWord::Command,
{
    if is_xargs_name(w) || is_xargs_value_name(w) || has_xargs_value(w) {
        names_end_nothing(w);
    }
    if is_xargs_flag(w) {
        xargs_flag_word(w);
    }
    if takes_xargs_value(w) {
        xargs_value_word(w);
    }
    if w.len() > 0 && w[0] != '-' {
        xargs_command_word(w);
    }
}

/// Letters of a cluster, as they stand in it.
proof fn cluster_letters(w: Seq<char>, l: Seq<char>, tail: Seq<char>)
    requires
        w == "-"@ + l + tail,
        are_xargs_letters(l),
        l.len() + tail.len() > 0,
        l.len() == 0 ==> tail[0] != '-',
    ensures
        w.len() > 1,
        xargs_word(w) == xargs_cluster(w, l.len() as int + 1),
        tail.len() > 0 ==> w[l.len() as int + 1] == tail[0],
        w.len() == 1 + l.len() + tail.len(),
{
    reveal_strlit("-");
    assert forall|k: int| 1 <= k < l.len() + 1 implies is_xargs_letter(#[trigger] w[k]) by {
        assert(w[k] == l[k - 1]);
        assert(is_xargs_letter(l[k - 1]));
    }
    assert(w[0] == '-');
    if l.len() > 0 {
        assert(is_xargs_letter(w[1]));
    } else {
        assert(w[1] == tail[0]);
    }
    long_cluster_is_no_word(w);
    xargs_letters_are_passed(w, 1, l.len() as int + 1);
}

/// A word behind `xargs` that is complete.
#[verifier::rlimit(40)]
proof fn xargs_flag_word(w: Seq<char>)
    requires
        is_xargs_flag(w),
    ensures
        xargs_word(w) == XargsWord::Flag,
{
    if is_xargs_name(w) {
        names_end_nothing(w);
    } else if has_xargs_value(w) {
        names_end_nothing(w);
        let v = choose|v: Seq<char>| #[trigger] v.len() > 0 && (w == "--arg-file="@ + v || w
            == "--delimiter="@ + v || w == "--eof="@ + v || w == "--replace="@ + v || w
            == "--max-lines="@ + v || w == "--max-args="@ + v || w == "--max-procs="@ + v || w
            == "--max-chars="@ + v || w == "--process-slot-var="@ + v);
        if w == "--arg-file="@ + v {
            attached_name(w, "--arg-file="@, v);
        } else if w == "--delimiter="@ + v {
            attached_name(w, "--delimiter="@, v);
        } else if w == "--eof="@ + v {
            attached_name(w, "--eof="@, v);
        } else if w == "--replace="@ + v {
            attached_name(w, "--replace="@, v);
        } else if w == "--max-lines="@ + v {
            attached_name(w, "--max-lines="@, v);
        } else if w == "--max-args="@ + v {
            attached_name(w, "--max-args="@, v);
        } else if w == "--max-procs="@ + v {
            attached_name(w, "--max-procs="@, v);
        } else if w == "--max-chars="@ + v {
            attached_name(w, "--max-chars="@, v);
        } else {
            attached_name(w, "--process-slot-var="@, v);
        }
    } else if exists|l: Seq<char>|
        are_xargs_letters(l) && l.len() > 0 && w == #[trigger] ("-"@ + l) {
        let l = choose|l: Seq<char>|
            are_xargs_letters(l) && l.len() > 0 && w == #[trigger] ("-"@ + l);
        assert(w =~= "-"@ + l + Seq::empty());
        cluster_letters(w, l, Seq::empty());
    } else {
        let (l, c, v) = choose|l: Seq<char>, c: char, v: Seq<char>|
            are_xargs_letters(l) && (is_xargs_optional_letter(c) || (is_xargs_value_letter(c)
                && v.len() > 0)) && w == #[trigger] ("-"@ + l + seq![c] + v);
        assert(w =~= "-"@ + l + (seq![c] + v));
        assert((seq![c] + v)[0] == c);
        cluster_letters(w, l, seq![c] + v);
    }
}

/// A word behind `xargs` whose value is the next word.
proof fn xargs_value_word(w: Seq<char>)
    requires
        takes_xargs_value(w),
    ensures
        xargs_word(w) == XargsWord::TakesNext,
{
    if is_xargs_value_name(w) {
        names_end_nothing(w);
        value_name_is_no_flag(w);
    } else {
        let (l, c) = choose|l: Seq<char>, c: char|
            are_xargs_letters(l) && is_xargs_value_letter(c) && w == #[trigger] ("-"@ + l).push(c);
        assert(w =~= "-"@ + l + seq![c]);
        cluster_letters(w, l, seq![c]);
    }
}

/// The name of an option that takes the next word is no other option.
#[verifier::rlimit(40)]
proof fn value_name_is_no_flag(w: Seq<char>)
    requires
        is_xargs_value_name(w),
    ensures
        !xargs_flag(w),
        !xargs_attached(w),
        !xargs_optional(w),
{
    names_end_nothing(w);
    reveal_strlit("-0");
    reveal_strlit("-o");
    reveal_strlit("-p");
    reveal_strlit("-r");
    reveal_strlit("-t");
    reveal_strlit("-x");
    reveal_strlit("-e");
    reveal_strlit("-i");
    reveal_strlit("-l");
    assert(w.len() > 4);
    if xargs_attached(w) {
        attached_has_a_value(w);
    }
}

/// An attached value is one.
#[verifier::rlimit(40)]
proof fn attached_has_a_value(w: Seq<char>)
    requires
        xargs_attached(w),
    ensures
        has_xargs_value(w),
{
    let p = if goes_on(w, "--arg-file="@) {
        "--arg-file="@
    } else if goes_on(w, "--delimiter="@) {
        "--delimiter="@
    } else if goes_on(w, "--eof="@) {
        "--eof="@
    } else if goes_on(w, "--replace="@) {
        "--replace="@
    } else if goes_on(w, "--max-lines="@) {
        "--max-lines="@
    } else if goes_on(w, "--max-args="@) {
        "--max-args="@
    } else if goes_on(w, "--max-procs="@) {
        "--max-procs="@
    } else if goes_on(w, "--max-chars="@) {
        "--max-chars="@
    } else {
        "--process-slot-var="@
    };
    let v = w.subrange(p.len() as int, w.len() as int);
    assert(w =~= p + v);
    assert(v.len() > 0);
}

/// A word without a dash in front is the command of `xargs`.
#[verifier::rlimit(40)]
proof fn xargs_command_word(w: Seq<char>)
    requires
        w.len() > 0,
        w[0] != '-',
    ensures
        xargs_word(w) == XargsWord::Command,
{
    reveal_strlit("--");
    reveal_strlit("--help");
    reveal_strlit("--version");
    reveal_strlit("-0");
    reveal_strlit("-o");
    reveal_strlit("-p");
    reveal_strlit("-r");
    reveal_strlit("-t");
    reveal_strlit("-x");
    reveal_strlit("-e");
    reveal_strlit("-i");
    reveal_strlit("-l");
    reveal_strlit("-a");
    reveal_strlit("-d");
    reveal_strlit("-E");
    reveal_strlit("-I");
    reveal_strlit("-L");
    reveal_strlit("-n");
    reveal_strlit("-P");
    reveal_strlit("-s");
    if is_xargs_name(w) || is_xargs_value_name(w) || has_xargs_value(w) {
        names_end_nothing(w);
    }
    if xargs_attached(w) {
        attached_has_a_value(w);
    }
}

/// A cluster with a letter that does not stand alone is known by that letter.
#[verifier::rlimit(40)]
proof fn unlisted_cluster_stops(w: Seq<char>, e: int)
    requires
        1 <= e <= w.len(),
        w.len() > 1,
        w[0] == '-',
        w[1] != '-',
        forall|k: int| 1 <= k < e ==> is_xargs_letter(#[trigger] w[k]),
        !is_xargs_flag(w),
        !takes_xargs_value(w),
    ensures
        xargs_word(w) == XargsWord::Stop,
    decreases w.len() - e,
{
    reveal_strlit("-");
    let l = w.subrange(1, e);
    assert forall|k: int| 0 <= k < l.len() implies is_xargs_letter(#[trigger] l[k]) by {
        assert(l[k] == w[k + 1]);
        assert(is_xargs_letter(w[k + 1]));
    }
    if e == w.len() {
        assert(w =~= "-"@ + l);
    } else if is_xargs_letter(w[e]) {
        unlisted_cluster_stops(w, e + 1);
    } else {
        let c = w[e];
        let v = w.subrange(e + 1, w.len() as int);
        assert(w =~= "-"@ + l + seq![c] + v);
        if v.len() == 0 {
            assert(w =~= ("-"@ + l).push(c));
        }
        long_cluster_is_no_word(w);
        xargs_letters_are_passed(w, 1, e);
    }
}

/// `xargs` stops at an option that is not listed.
#[verifier::rlimit(40)]
pub proof fn xargs_has_no_other_options(w: Seq<char>)
    requires
        w.len() > 1,
        w[0] == '-',
        w != "--"@,
        !is_xargs_flag(w),
        !takes_xargs_value(w),
    ensures
        xargs_word(w) == XargsWord::Stop,
{
    if w[1] != '-' {
        unlisted_cluster_stops(w, 1);
    } else {
        reveal_strlit("-0");
        reveal_strlit("-o");
        reveal_strlit("-p");
        reveal_strlit("-r");
        reveal_strlit("-t");
        reveal_strlit("-x");
        reveal_strlit("-e");
        reveal_strlit("-i");
        reveal_strlit("-l");
        reveal_strlit("-a");
        reveal_strlit("-d");
        reveal_strlit("-E");
        reveal_strlit("-I");
        reveal_strlit("-L");
        reveal_strlit("-n");
        reveal_strlit("-P");
        reveal_strlit("-s");
        if xargs_attached(w) {
            attached_has_a_value(w);
        }
    }
}

/// The words behind others are spaced as they stand alone.
pub proof fn spaced_behind(words: Seq<Seq<char>>, at: int, tail: Seq<Seq<char>>, i: int)
    requires
        0 <= at,
        words.len() == at + tail.len(),
        forall|k: int| 0 <= k < tail.len() ==> words[k + at] == #[trigger] tail[k],
        0 <= i,
    ensures
        spaced(words, i + at) == spaced(tail, i),
    decreases tail.len() - i,
{
    if i < tail.len() {
        assert(words[i + at] == tail[i]);
        spaced_behind(words, at, tail, i + 1);
    }
}

/// Plain words in a row are plain.
pub proof fn plain_words_in_a_row(a: Seq<Seq<char>>, b: Seq<Seq<char>>)
    requires
        are_plain_words(a),
        are_plain_words(b),
    ensures
        are_plain_words(a + b),
{
    let words = a + b;
    assert forall|k: int| 0 <= k < words.len() implies is_plain_word(#[trigger] words[k]) by {
        if k < a.len() {
            assert(words[k] == a[k]);
        } else {
            assert(words[k] == b[k - a.len()]);
        }
    }
}

/// The names of the programs that run others are plain words, and nothing wraps
/// them.
#[verifier::rlimit(40)]
pub proof fn xargs_and_find_are_programs()
    ensures
        is_program("xargs"@),
        is_program("find"@),
        basename("xargs"@) == "xargs"@,
        basename("find"@) == "find"@,
        "xargs"@ != "rm"@,
        "find"@ != "rm"@,
        "find"@ != "xargs"@,
{
    reveal_strlit("xargs");
    reveal_strlit("find");
    reveal_strlit("rm");
    reveal_strlit("do");
    reveal_strlit("then");
    reveal_strlit("else");
    reveal_strlit("sudo");
    reveal_strlit("doas");
    reveal_strlit("env");
    reveal_strlit("command");
    reveal_strlit("nice");
    reveal_strlit("ionice");
    reveal_strlit("timeout");
    reveal_strlit("stdbuf");
    reveal_strlit("setsid");
    reveal_strlit("mise");
    reveal_strlit("exec");
    reveal_strlit("time");
    reveal_strlit("nohup");
    reveal_strlit("builtin");
    reveal_strlit("unbuffer");
    reveal_strlit("busybox");
    reveal_strlit("/");
    let x = "xargs"@;
    let f = "find"@;
    assert(x[0] == 'x' && x[1] == 'a' && x[2] == 'r' && x[3] == 'g' && x[4] == 's');
    assert(f[0] == 'f' && f[1] == 'i' && f[2] == 'n' && f[3] == 'd');
    reveal_with_fuel(next_index, 7);
    assert(next_index(x, 0, '=') == 5);
    assert(next_index(f, 0, '=') == 4);
    reveal_with_fuel(basename_start, 7);
    assert(basename_start(x, 5) == 0);
    assert(basename_start(f, 4) == 0);
    assert(basename(x) =~= x);
    assert(basename(f) =~= f);
    if starts(x, "/"@) {
        assert(x.subrange(0, 1)[0] == '/');
    }
    if starts(f, "/"@) {
        assert(f.subrange(0, 1)[0] == '/');
    }
}

/// Words only have no separator.
proof fn words_go_on(toks: Seq<NormalizeToken>, i: int)
    requires
        forall|m: int| 0 <= m < toks.len() ==> (#[trigger] toks[m]).word(),
        0 <= i <= toks.len(),
    ensures
        separator_from(toks, i) == toks.len(),
    decreases toks.len() - i,
{
    if i < toks.len() {
        assert(toks[i].word());
        words_go_on(toks, i + 1);
    }
}

/// A plain command of another program than `rm` is decided by what it runs.
pub proof fn other_programs_are_decided_by_what_they_run(words: Seq<Seq<char>>, ex: Seq<ExemptionView>)
    requires
        are_plain_words(words),
        words.len() > 0,
        is_program(words[0]),
        words[0] != "rm"@,
        spaced(words, 0).len() <= usize::MAX,
    ensures
        segment_verdict(spaced(words, 0), false, ex) == argv_verdict(spaced(words, 0), ex),
        rm_command_verdict(spaced(words, 0), ex) == in_bytes(
            argv_verdict(spaced(words, 0), ex),
            spaced(words, 0),
        ),
        plain_verdict(spaced(words, 0), false, ex) is NoMatch,
{
    let c = spaced(words, 0);
    plain_command_is_bare(words, MAX_RM_EXECUTION_FRONTENDS as nat);
    plain_words_are_one_command(words, ShellDialect::Unknown);
    plain_words_are_tokens(words, ShellDialect::Unknown);
    let toks = tokens(c, ShellDialect::Unknown);
    assert(toks[0].word() && toks[0].of(c) == words[0]);
    assert forall|m: int| 0 <= m < toks.len() implies (#[trigger] toks[m]).word() by {
        assert(toks[m].word());
    }
    words_go_on(toks, 1);
    assert(onward(0, toks.len() as int, toks.len() as int) == toks.len());
    assert(rm_word_from(c, toks, toks.len() as int) == toks.len());
    assert(rm_word_from(c, toks, 0) == toks.len());
}

/// Behind its options `xargs` comes to its command.
proof fn xargs_comes_to_its_command(
    c: Seq<char>,
    toks: Seq<NormalizeToken>,
    words: Seq<Seq<char>>,
    i: int,
    at: int,
)
    requires
        are_tokens_of(c, toks, words),
        0 <= i <= at < words.len(),
        are_xargs_options(words, i, at),
        words[at][0] != '-',
    ensures
        xargs_command_from(c, toks, i) == Some(at),
    decreases at - i,
{
    let w = words[i];
    assert(toks[i].word());
    assert(is_plain_word(w));
    plain_word_stands_for_itself(w);
    xargs_options_are_the_listed_ones(w);
    if i < at {
        if is_xargs_flag(w) {
            xargs_comes_to_its_command(c, toks, words, i + 1, at);
        } else {
            xargs_comes_to_its_command(c, toks, words, i + 2, at);
        }
    }
}

/// What `xargs` adds to the command that it runs.
pub open spec fn xargs_input() -> Seq<char> {
    " -r ./__dcg_xargs_input__"@
}

/// Options of `xargs` with their values change nothing: what is decided of the
/// command is what is decided of the words behind them, as `xargs` runs them.
pub proof fn xargs_options_hide_nothing(
    opts: Seq<Seq<char>>,
    command: Seq<Seq<char>>,
    ex: Seq<ExemptionView>,
)
    requires
        are_plain_words(opts),
        are_plain_words(command),
        command.len() > 0,
        command[0][0] != '-',
        are_xargs_options(opts, 0, opts.len() as int),
        spaced(seq!["xargs"@] + opts + command, 0).len() <= usize::MAX,
    ensures
        rm_command_verdict(spaced(seq!["xargs"@] + opts + command, 0), ex) == nested_verdict(
            spaced(command, 0),
            xargs_input(),
            ex,
        ),
        spaced(seq!["xargs"@] + command, 0).len() <= usize::MAX ==> rm_command_verdict(
            spaced(seq!["xargs"@] + opts + command, 0),
            ex,
        ) == rm_command_verdict(spaced(seq!["xargs"@] + command, 0), ex),
{
    xargs_runs_its_command(opts, command, ex);
    if spaced(seq!["xargs"@] + command, 0).len() <= usize::MAX {
        let none = Seq::<Seq<char>>::empty();
        assert(seq!["xargs"@] + none + command =~= seq!["xargs"@] + command);
        xargs_runs_its_command(none, command, ex);
    }
}

/// What is decided of a command of `xargs` is what is decided of the command that
/// it runs.
#[verifier::rlimit(40)]
proof fn xargs_runs_its_command(
    opts: Seq<Seq<char>>,
    command: Seq<Seq<char>>,
    ex: Seq<ExemptionView>,
)
    requires
        are_plain_words(opts),
        are_plain_words(command),
        command.len() > 0,
        command[0][0] != '-',
        are_xargs_options(opts, 0, opts.len() as int),
        spaced(seq!["xargs"@] + opts + command, 0).len() <= usize::MAX,
    ensures
        rm_command_verdict(spaced(seq!["xargs"@] + opts + command, 0), ex) == nested_verdict(
            spaced(command, 0),
            xargs_input(),
            ex,
        ),
{
    let words = seq!["xargs"@] + opts + command;
    let c = spaced(words, 0);
    let at = opts.len() as int + 1;
    xargs_and_find_are_programs();
    assert(is_plain_word("xargs"@));
    plain_words_in_a_row(seq!["xargs"@], opts);
    plain_words_in_a_row(seq!["xargs"@] + opts, command);
    assert(words[0] == "xargs"@);
    assert(words[at] == command[0]);
    other_programs_are_decided_by_what_they_run(words, ex);
    plain_words_are_tokens(words, ShellDialect::Unknown);
    let toks = tokens(c, ShellDialect::Unknown);
    assert forall|m: int| 0 <= m < toks.len() implies (#[trigger] toks[m]).word() && toks[m].of(c)
        == words[m] by {
        assert(toks[m].word());
    }
    options_stand_behind_xargs(opts, command, 0);
    xargs_comes_to_its_command(c, toks, words, 1, at);
    assert forall|k: int| 0 <= k < command.len() implies words[k + at] == #[trigger] command[k] by {}
    spaced_behind(words, at, command, 0);
    assert(toks[at].word() && rest(c, toks[at].start as int) == spaced(words, at));
    plain_word_stands_for_itself("xargs"@);
    assert(toks[0].word() && toks[0].of(c) == "xargs"@);
    assert(argv_verdict(c, ex) == nested_verdict(spaced(command, 0), xargs_input(), ex));
}

/// Options stand behind `xargs` as they stand alone.
proof fn options_stand_behind_xargs(opts: Seq<Seq<char>>, command: Seq<Seq<char>>, i: int)
    requires
        0 <= i <= opts.len(),
        are_xargs_options(opts, i, opts.len() as int),
    ensures
        are_xargs_options(seq!["xargs"@] + opts + command, i + 1, opts.len() as int + 1),
    decreases opts.len() - i,
{
    let words = seq!["xargs"@] + opts + command;
    if i < opts.len() {
        assert(words[i + 1] == opts[i]);
        if is_xargs_flag(opts[i]) {
            options_stand_behind_xargs(opts, command, i + 1);
        } else {
            options_stand_behind_xargs(opts, command, i + 2);
        }
    }
}

/// What `xargs` adds is an option and an operand of `rm`.
#[verifier::rlimit(40)]
proof fn xargs_adds_an_operand(words: Seq<Seq<char>>)
    requires
        words.len() > 0,
    ensures
        spaced(words, 0) + xargs_input() == spaced(
            words + seq!["-r"@, "./__dcg_xargs_input__"@],
            0,
        ),
        is_plain_word("-r"@),
        is_plain_word("./__dcg_xargs_input__"@),
        is_plainly_elsewhere("./__dcg_xargs_input__"@),
        is_rm_option("-r"@),
        "./__dcg_xargs_input__"@[0] == '.',
{
    reveal_strlit(" -r ./__dcg_xargs_input__");
    reveal_strlit("-r");
    reveal_strlit("./__dcg_xargs_input__");
    reveal_strlit("/tmp/");
    reveal_strlit("/var/tmp/");
    reveal_strlit("/private/tmp/");
    reveal_strlit("/private/var/tmp/");
    let w = "./__dcg_xargs_input__"@;
    let two = seq!["-r"@, w];
    assert(two[0] == "-r"@ && two[1] == w);
    assert(spaced(two, 1) == w);
    assert(spaced(two, 0) == "-r"@.push(' ') + w);
    assert(xargs_input() =~= seq![' '] + spaced(two, 0));
    spaced_in_a_row(words, two, 0);
    assert(spaced(words, 0) + xargs_input() =~= spaced(words, 0).push(' ') + spaced(two, 0));
    assert(w[0] == '.');
    assert forall|t: Seq<char>| #[trigger] is_below_tmp(w, t) implies false by {
        assert(("/tmp/"@ + t)[0] == '/' && ("/var/tmp/"@ + t)[0] == '/' && ("/private/tmp/"@ + t)[0]
            == '/' && ("/private/var/tmp/"@ + t)[0] == '/');
    }
    assert(!is_below_user_temp(w));
    assert("-r"@[1] == 'r');
}

/// Words in a row are spaced one list behind the other.
pub proof fn spaced_in_a_row(a: Seq<Seq<char>>, b: Seq<Seq<char>>, i: int)
    requires
        0 <= i < a.len(),
        b.len() > 0,
    ensures
        spaced(a + b, i) == spaced(a, i).push(' ') + spaced(b, 0),
    decreases a.len() - i,
{
    let words = a + b;
    assert(words[i] == a[i]);
    if i + 1 < a.len() {
        spaced_in_a_row(a, b, i + 1);
        assert(a[i].push(' ') + (spaced(a, i + 1).push(' ') + spaced(b, 0)) =~= (a[i].push(' ')
            + spaced(a, i + 1)).push(' ') + spaced(b, 0));
    } else {
        assert forall|k: int| 0 <= k < b.len() implies words[k + i + 1] == #[trigger] b[k] by {}
        spaced_behind(words, i + 1, b, 0);
    }
}

/// What `xargs` runs is decided with what it adds.
#[verifier::rlimit(40)]
proof fn rm_with_input_is_decided(flags: Seq<Seq<char>>)
    requires
        are_plain_words(flags),
        forall|k: int| 0 <= k < flags.len() ==> is_rm_option(#[trigger] flags[k]),
        spaced(seq!["rm"@] + flags, 0).len() + 30 <= usize::MAX,
    ensures
        is_decided_by(
            nested_verdict(spaced(seq!["rm"@] + flags, 0), xargs_input(), Seq::empty()),
            flags.push("-r"@),
            seq!["./__dcg_xargs_input__"@],
        ),
{
    let command = seq!["rm"@] + flags;
    let w = "./__dcg_xargs_input__"@;
    let all = command + seq!["-r"@, w];
    let c = spaced(all, 0);
    let more = flags.push("-r"@);
    rm_is_a_program();
    xargs_adds_an_operand(command);
    plain_words_in_a_row(seq!["rm"@], flags);
    plain_words_in_a_row(command, seq!["-r"@, w]);
    assert(command[0] == "rm"@ && all[0] == "rm"@);
    plain_command_is_bare(command, MAX_RM_EXECUTION_FRONTENDS as nat);
    xargs_input_is_short();
    assert(all =~= seq!["rm"@] + more + seq![w]);
    assert forall|k: int| 0 <= k < more.len() implies is_rm_option(#[trigger] more[k])
        && is_plain_word(more[k]) by {
        if k < flags.len() {
            assert(more[k] == flags[k]);
        }
    }
    assert(seq![w][0] == w);
    plain_removal_verdict(more, seq![w]);
    r_recurses(flags, 0);
    input_is_elsewhere();
}

/// What `xargs` adds is short.
proof fn xargs_input_is_short()
    ensures
        xargs_input().len() < 30,
{
    reveal_strlit(" -r ./__dcg_xargs_input__");
}

/// `rm` behind `xargs`, whatever options `xargs` has, is denied: what `xargs` hands
/// to it cannot be seen. The rule is that of the options that `rm` has, with
/// recursion.
pub proof fn rm_behind_xargs_is_denied(opts: Seq<Seq<char>>, flags: Seq<Seq<char>>)
    requires
        are_plain_words(opts),
        are_plain_words(flags),
        are_xargs_options(opts, 0, opts.len() as int),
        forall|k: int| 0 <= k < flags.len() ==> is_rm_option(#[trigger] flags[k]),
        spaced(seq!["xargs"@] + opts + (seq!["rm"@] + flags), 0).len() + 30 <= usize::MAX,
    ensures
        rm_command_verdict(
            spaced(seq!["xargs"@] + opts + (seq!["rm"@] + flags), 0),
            Seq::empty(),
        ) matches RmParseDecision::Deny(hit) && hit.pattern_name@ == recursive_rule(
            flags.push("-r"@),
            false,
        ) && hit.severity == Severity::High,
{
    let command = seq!["rm"@] + flags;
    rm_is_a_program();
    reveal_strlit("rm");
    assert(command[0] == "rm"@ && command[0][0] == 'r');
    plain_words_in_a_row(seq!["rm"@], flags);
    xargs_runs_its_command(opts, command, Seq::empty());
    command_is_shorter(seq!["xargs"@] + opts, command);
    rm_with_input_is_decided(flags);
    input_is_elsewhere();
    r_recurses(flags, 0);
}

/// What `xargs` adds is elsewhere, and not at the root.
proof fn input_is_elsewhere()
    ensures
        !are_temporary(seq!["./__dcg_xargs_input__"@]),
        !hits_root(seq!["./__dcg_xargs_input__"@]),
{
    let w = "./__dcg_xargs_input__"@;
    let one = seq![w];
    xargs_adds_an_operand(one);
    assert(one[0] == w);
    if is_plainly_temporary(w) {
        let t = choose|t: Seq<char>|
            #[trigger] is_below_tmp(w, t) && !has_dot_dot(t) && exists|k: int|
                0 <= k < t.len() && #[trigger] t[k] != '/' && t[k] != '.';
        assert(is_below_tmp(w, t));
    }
}

/// `rm -r` behind `xargs` with any options is denied as a recursive removal.
pub proof fn recursive_rm_behind_xargs_is_denied(opts: Seq<Seq<char>>)
    requires
        are_plain_words(opts),
        are_xargs_options(opts, 0, opts.len() as int),
        spaced(seq!["xargs"@] + opts + seq!["rm"@, "-r"@], 0).len() + 30 <= usize::MAX,
    ensures
        rm_command_verdict(
            spaced(seq!["xargs"@] + opts + seq!["rm"@, "-r"@], 0),
            Seq::empty(),
        ) matches RmParseDecision::Deny(hit) && hit.pattern_name@ == "rm-recursive-general"@
            && hit.severity == Severity::High,
{
    let flags = seq!["-r"@];
    xargs_adds_an_operand(flags);
    assert(flags[0] == "-r"@);
    assert(seq!["rm"@] + flags =~= seq!["rm"@, "-r"@]);
    rm_behind_xargs_is_denied(opts, flags);
    r_is_not_forced();
}

/// `-r` twice forces nothing.
proof fn r_is_not_forced()
    ensures
        recursive_rule(seq!["-r"@].push("-r"@), false) == "rm-recursive-general"@,
{
    let more = seq!["-r"@].push("-r"@);
    reveal_strlit("-r");
    reveal_strlit("--force");
    assert(more[0] == "-r"@ && more[1] == "-r"@ && more.len() == 2);
    assert(!"-r"@.contains('f')) by {
        assert("-r"@[0] == '-' && "-r"@[1] == 'r');
    }
    assert(!force_by_letter(more, 2) && !is_among(more, 2, "--force"@));
    assert(!force_by_letter(more, 1) && !is_among(more, 1, "--force"@));
    assert(!force_by_letter(more, 0) && !is_among(more, 0, "--force"@));
}

/// What stands behind other words is shorter than all.
proof fn command_is_shorter(a: Seq<Seq<char>>, b: Seq<Seq<char>>)
    requires
        a.len() > 0,
        b.len() > 0,
    ensures
        spaced(b, 0).len() < spaced(a + b, 0).len(),
{
    spaced_in_a_row(a, b, 0);
}

/// `-r` recurses, wherever it stands.
proof fn r_recurses(flags: Seq<Seq<char>>, i: int)
    requires
        0 <= i <= flags.len(),
    ensures
        recursion_by_letter(flags.push("-r"@), i),
    decreases flags.len() - i,
{
    let more = flags.push("-r"@);
    if i < flags.len() {
        r_recurses(flags, i + 1);
    } else {
        reveal_strlit("-r");
        assert(more[i] == "-r"@);
        assert("-r"@[1] == 'r');
        assert("-r"@.contains('r'));
    }
}

} // verus!
