//! Whether a removal gets its answers from elsewhere than a terminal.

use vstd::prelude::*;
use vstd::slice::slice_subrange;
use crate::filesystem::paths::{strip_outer_quotes, unquoted};
use crate::filesystem::redirect::{
    redirection, redirects_stdin, shell_redirection_prefix, starts_with_shell_stdin_redirection,
    trim_end_len, trimmed_end_len,
};
use crate::shell::segments::{segments, split_command_segments, Segment};
use crate::shell::token::{
    advance, at, get, onward, tokenize_for_normalization, tokens, NormalizeToken, ShellDialect,
};
use crate::shell::wrappers::{env_assignment, is_env_assignment};
use crate::text::{
    alnum, alpha, ascii_white, at_str, basename, byte_chars, ends, ends_str, from_index, index_from,
    is_alnum, is_alpha, is_ascii_white, is_str, last_component, next_index, occurs_at, push_bytes,
    rest, same, skip_white, trim_leading, trim_trailing, white_end, width, width_of,
    without_leading, without_trailing,
};

verus! {

/// What closes a compound command.
#[derive(Debug, Clone, Copy, PartialEq, Eq, Structural)]
pub enum PosixGroupClose {
    Paren,
    Brace,
    Done,
    Fi,
    Esac,
}

/// An open compound command, and whether a pipeline feeds it.
#[derive(Debug, Clone, Copy, PartialEq, Eq, Structural)]
pub struct PosixGroupInput {
    pub close: PosixGroupClose,
    pub automated: bool,
}

/// A here-document whose body is to come: its delimiter, and whether leading tabs
/// are dropped.
pub struct Heredoc {
    pub delimiter: Vec<char>,
    pub strip_tabs: bool,
}

/// A here-document whose body is to come.
pub struct HeredocView {
    pub delimiter: Seq<char>,
    pub strip_tabs: bool,
}

impl View for Heredoc {
    type V = HeredocView;

    open spec fn view(&self) -> HeredocView {
        HeredocView { delimiter: self.delimiter@, strip_tabs: self.strip_tabs }
    }
}

/// The views of a list of here-documents.
pub open spec fn heredoc_views(v: Seq<Heredoc>) -> Seq<HeredocView> {
    Seq::new(v.len(), |i: int| v[i]@)
}

/// What closes the compound command that a word opens.
pub open spec fn compound_close(word: Seq<char>) -> Option<PosixGroupClose> {
    if word == "while"@ || word == "until"@ || word == "for"@ || word == "select"@ {
        Some(PosixGroupClose::Done)
    } else if word == "if"@ {
        Some(PosixGroupClose::Fi)
    } else if word == "case"@ {
        Some(PosixGroupClose::Esac)
    } else {
        None
    }
}

/// What a word closes.
pub open spec fn closes(word: Seq<char>) -> Option<PosixGroupClose> {
    if word == "done"@ {
        Some(PosixGroupClose::Done)
    } else if word == "fi"@ {
        Some(PosixGroupClose::Fi)
    } else if word == "esac"@ {
        Some(PosixGroupClose::Esac)
    } else {
        None
    }
}

/// A word behind which another command starts.
pub open spec fn continues_compound(word: Seq<char>) -> bool {
    word == "do"@ || word == "then"@ || word == "else"@ || word == "elif"@
}

/// What closes the compound command that a word opens.
pub fn posix_compound_close_word(word: &[char]) -> (r: Option<PosixGroupClose>)
    ensures
        r == compound_close(word@),
{
    if is_str(word, "while") || is_str(word, "until") || is_str(word, "for") || is_str(
        word,
        "select",
    ) {
        Some(PosixGroupClose::Done)
    } else if is_str(word, "if") {
        Some(PosixGroupClose::Fi)
    } else if is_str(word, "case") {
        Some(PosixGroupClose::Esac)
    } else {
        None
    }
}

/// What a word closes.
fn closed_by(word: &[char]) -> (r: Option<PosixGroupClose>)
    ensures
        r == closes(word@),
{
    if is_str(word, "done") {
        Some(PosixGroupClose::Done)
    } else if is_str(word, "fi") {
        Some(PosixGroupClose::Fi)
    } else if is_str(word, "esac") {
        Some(PosixGroupClose::Esac)
    } else {
        None
    }
}

/// Whether the `#` at position `i` starts a comment.
pub open spec fn comment_starts(s: Seq<char>, i: int) -> bool {
    i == 0 || (0 < i <= s.len() && (is_ascii_white(s[i - 1]) || s[i - 1] == ';' || s[i - 1] == '|'
        || s[i - 1] == '&' || s[i - 1] == '(' || s[i - 1] == '{'))
}

/// Whether the `#` at position `i` starts a comment.
pub fn posix_comment_starts(s: &[char], i: usize) -> (r: bool)
    ensures
        r == comment_starts(s@, i as int),
{
    if i == 0 {
        return true;
    }
    if i > s.len() {
        return false;
    }
    let c = s[i - 1];
    ascii_white(c) || c == ';' || c == '|' || c == '&' || c == '(' || c == '{'
}

/// Where the line at position `i` ends, no further than `end`.
pub open spec fn line_end(s: Seq<char>, i: int, end: int) -> int {
    let j = next_index(s, i, '\n');
    if j < end {
        j
    } else {
        end
    }
}

/// Where the line at position `i` ends.
fn find_line_end(s: &[char], i: usize, end: usize) -> (r: usize)
    requires
        i <= end <= s.len(),
    ensures
        r == line_end(s@, i as int, end as int),
        i <= r <= end,
        i < end && s@[i as int] != '\n' ==> i < r,
{
    let j = index_from(s, i, '\n');
    if j < end {
        j
    } else {
        end
    }
}

/// Where the blanks at position `i` end.
pub open spec fn blanks_end(s: Seq<char>, i: int, end: int) -> int
    decreases end - i,
{
    if i < 0 || i >= end || end > s.len() || !(s[i] == ' ' || s[i] == '\t') {
        i
    } else {
        blanks_end(s, i + 1, end)
    }
}

/// The delimiter of a here-document from position `i` on, behind `out`, and where
/// it ends; `quote` is the quote that is open. It is read byte by byte.
pub open spec fn delimiter_from(
    s: Seq<char>,
    i: int,
    end: int,
    quote: Option<char>,
    out: Seq<char>,
) -> (Seq<char>, int)
    decreases end - i,
{
    if i < 0 || i >= end || end > s.len() {
        (out, i)
    } else if quote is None && (is_ascii_white(s[i]) || s[i] == ';' || s[i] == '|' || s[i] == '&') {
        (out, i)
    } else if s[i] == '\'' || s[i] == '"' {
        if quote == Some(s[i]) {
            delimiter_from(s, i + 1, end, None, out)
        } else if quote is None {
            delimiter_from(s, i + 1, end, Some(s[i]), out)
        } else {
            delimiter_from(s, i + 1, end, quote, out.push(s[i]))
        }
    } else if s[i] == '\\' && quote != Some('\'') && i + 1 < end {
        delimiter_from(s, i + 2, end, quote, out + byte_chars(s[i + 1]))
    } else {
        delimiter_from(s, i + 1, end, quote, out + byte_chars(s[i]))
    }
}

/// The here-document whose operator stands at position `i`, and where its
/// delimiter ends.
pub open spec fn heredoc_at(s: Seq<char>, i: int, end: int) -> Option<(HeredocView, int)> {
    let strip_tabs = at(s, i + 2) == Some('-');
    let start = blanks_end(
        s,
        if strip_tabs {
            i + 3
        } else {
            i + 2
        },
        end,
    );
    let (delimiter, after) = delimiter_from(s, start, end, None, Seq::empty());
    if delimiter.len() > 0 {
        Some((HeredocView { delimiter, strip_tabs }, after))
    } else {
        None
    }
}

/// Where the bodies of the here-documents end that start at position `i`, and the
/// here-documents whose bodies do not.
pub open spec fn bodies_end(s: Seq<char>, i: int, end: int, heredocs: Seq<HeredocView>) -> (
    int,
    Seq<HeredocView>,
)
    decreases end - i,
{
    if heredocs.len() == 0 {
        (i, heredocs)
    } else if i < 0 || i >= end {
        (end, heredocs)
    } else {
        let stop = line_end(s, i, end);
        let line = s.subrange(i, stop);
        let text = without_trailing(
            if heredocs[0].strip_tabs {
                without_leading(line, '\t')
            } else {
                line
            },
            '\r',
        );
        bodies_end(
            s,
            onward(i, stop + 1, end),
            end,
            if text == heredocs[0].delimiter {
                heredocs.drop_first()
            } else {
                heredocs
            },
        )
    }
}

/// The here-document whose operator stands at position `i`, and where its
/// delimiter ends.
pub fn parse_posix_heredoc_delimiter(s: &[char], i: usize, end: usize) -> (r: Option<
    (Heredoc, usize),
>)
    requires
        end <= s.len(),
    ensures
        match r {
            Some((h, after)) => heredoc_at(s@, i as int, end as int) == Some((h@, after as int)) && i
                < after <= end,
            None => heredoc_at(s@, i as int, end as int) is None,
        },
{
    if i >= end || end - i <= 2 {
        assert(delimiter_from(s@, i + 2, end as int, None, Seq::empty()).0.len() == 0);
        assert(delimiter_from(s@, i + 3, end as int, None, Seq::empty()).0.len() == 0);
        return None;
    }
    let strip_tabs = get(s, i + 2) == Some('-');
    let mut start: usize = if strip_tabs {
        i + 3
    } else {
        i + 2
    };
    let ghost from = start;
    while start < end && (s[start] == ' ' || s[start] == '\t')
        invariant
            from <= start <= end <= s.len(),
            blanks_end(s@, from as int, end as int) == blanks_end(s@, start as int, end as int),
        decreases end - start,
    {
        start += 1;
    }
    let mut out: Vec<char> = Vec::new();
    let mut quote: Option<char> = None;
    let mut j: usize = start;
    let ghost target = delimiter_from(s@, start as int, end as int, None, Seq::empty());
    let mut open = true;
    while open && j < end
        invariant
            i < start <= j <= end <= s.len(),
            open ==> target == delimiter_from(s@, j as int, end as int, quote, out@),
            !open ==> target == (out@, j as int),
        decreases end - j, (if open { 1int } else { 0int }),
    {
        let c = s[j];
        if quote.is_none() && (ascii_white(c) || c == ';' || c == '|' || c == '&') {
            open = false;
        } else if c == '\'' || c == '"' {
            if quote == Some(c) {
                quote = None;
            } else if quote.is_none() {
                quote = Some(c);
            } else {
                out.push(c);
            }
            j += 1;
        } else if c == '\\' && quote != Some('\'') && j + 1 < end {
            push_bytes(&mut out, s[j + 1]);
            j += 2;
        } else {
            push_bytes(&mut out, c);
            j += 1;
        }
    }
    if out.len() > 0 {
        Some((Heredoc { delimiter: out, strip_tabs }, j))
    } else {
        None
    }
}

/// Where the bodies of the here-documents end that start at position `i`; those
/// whose bodies end are taken off the list.
pub fn skip_posix_heredoc_bodies(s: &[char], start: usize, end: usize, heredocs: &mut Vec<Heredoc>) -> (r: usize)
    requires
        end <= s.len(),
    ensures
        bodies_end(s@, start as int, end as int, heredoc_views(old(heredocs)@)) == (
            r as int,
            heredoc_views(final(heredocs)@),
        ),
        start <= end ==> start <= r <= end,
{
    let ghost target = bodies_end(s@, start as int, end as int, heredoc_views(heredocs@));
    let mut i: usize = start;
    while heredocs.len() > 0 && i < end
        invariant
            start <= i,
            start <= end ==> i <= end,
            end <= s.len(),
            target == bodies_end(s@, i as int, end as int, heredoc_views(heredocs@)),
        decreases end - i,
    {
        let ghost views = heredoc_views(heredocs@);
        assert(views[0] == heredocs@[0]@);
        let stop = find_line_end(s, i, end);
        let line = slice_subrange(s, i, stop);
        let text = trim_trailing(
            if heredocs[0].strip_tabs {
                trim_leading(line, '\t')
            } else {
                line
            },
            '\r',
        );
        if same(text, heredocs[0].delimiter.as_slice()) {
            let _ = heredocs.remove(0);
            assert(heredoc_views(heredocs@) =~= views.drop_first());
        }
        i = if stop < end {
            stop + 1
        } else {
            end
        };
    }
    if heredocs.len() > 0 {
        end
    } else {
        assert(heredoc_views(heredocs@).len() == 0);
        i
    }
}

/// Where the word of letters, digits and `_` at position `i` ends.
pub open spec fn word_end(s: Seq<char>, i: int, end: int) -> int
    decreases end - i,
{
    if i < 0 || i >= end || end > s.len() || !(is_alnum(s[i]) || s[i] == '_') {
        i
    } else {
        word_end(s, i + 1, end)
    }
}

/// Whether a compound command that is opened next is fed by a pipeline.
pub open spec fn inherits(pending: bool, groups: Seq<PosixGroupInput>) -> bool {
    pending || (groups.len() > 0 && groups.last().automated)
}

/// The open compound commands behind a closing one.
pub open spec fn without_group(groups: Seq<PosixGroupInput>, close: Option<PosixGroupClose>) -> Seq<
    PosixGroupInput,
> {
    if groups.len() > 0 && close == Some(groups.last().close) {
        groups.drop_last()
    } else {
        groups
    }
}

/// The compound commands that are open at position `end`, from position `i` on:
/// in single or double quotes, behind a `|`, where a command starts, in the open
/// `groups`, and before the bodies of `heredocs`. A backslash hides one byte: the
/// other bytes of a wider character begin a word.
pub open spec fn groups_from(
    s: Seq<char>,
    end: int,
    i: int,
    single: bool,
    double: bool,
    pending: bool,
    at_start: bool,
    groups: Seq<PosixGroupInput>,
    heredocs: Seq<HeredocView>,
) -> Seq<PosixGroupInput>
    decreases end - i,
{
    if i < 0 || i >= end || end > s.len() {
        groups
    } else {
        let c = s[i];
        let heredoc = heredoc_at(s, i, end);
        if c == '\\' && !single && i + 1 < end {
            let kept = double || width(s[i + 1]) == 1;
            groups_from(
                s,
                end,
                i + 2,
                single,
                double,
                pending && kept,
                at_start && kept,
                groups,
                heredocs,
            )
        } else if c == '\'' && !double {
            groups_from(
                s,
                end,
                i + 1,
                !single,
                double,
                pending,
                at_start,
                groups,
                heredocs,
            )
        } else if c == '"' && !single {
            groups_from(
                s,
                end,
                i + 1,
                single,
                !double,
                pending,
                at_start,
                groups,
                heredocs,
            )
        } else if single || double {
            groups_from(
                s,
                end,
                i + 1,
                single,
                double,
                pending,
                at_start,
                groups,
                heredocs,
            )
        } else if c == '#' && comment_starts(s, i) {
            groups_from(
                s,
                end,
                onward(i, line_end(s, i, end), end),
                single,
                double,
                pending,
                at_start,
                groups,
                heredocs,
            )
        } else if c == '<' && at(s, i + 1) == Some('<') && at(s, i + 2) != Some('<') && heredoc is Some {
            groups_from(
                s,
                end,
                onward(i, (heredoc->0).1, end),
                single,
                double,
                pending,
                at_start,
                groups,
                heredocs.push((heredoc->0).0),
            )
        } else if c == '|' && at(s, i + 1) != Some('|') {
            let n: int = if at(s, i + 1) == Some('&') {
                2
            } else {
                1
            };
            groups_from(
                s,
                end,
                onward(i, i + n, end),
                single,
                double,
                true,
                true,
                groups,
                heredocs,
            )
        } else if c == '|' || (c == '&' && at(s, i + 1) == Some('&')) {
            groups_from(
                s,
                end,
                onward(i, i + 2, end),
                single,
                double,
                false,
                true,
                groups,
                heredocs,
            )
        } else if c == ';' || c == '&' {
            groups_from(s, end, i + 1, single, double, false, true, groups, heredocs)
        } else if c == '\n' {
            let (j, open) = bodies_end(s, i + 1, end, heredocs);
            groups_from(
                s,
                end,
                onward(i, j, end),
                single,
                double,
                false,
                true,
                groups,
                open,
            )
        } else if c == '(' || c == '{' {
            groups_from(
                s,
                end,
                i + 1,
                single,
                double,
                false,
                true,
                groups.push(
                    PosixGroupInput {
                        close: if c == '(' {
                            PosixGroupClose::Paren
                        } else {
                            PosixGroupClose::Brace
                        },
                        automated: inherits(pending, groups),
                    },
                ),
                heredocs,
            )
        } else if c == ')' || c == '}' {
            groups_from(
                s,
                end,
                i + 1,
                single,
                double,
                false,
                false,
                without_group(
                    groups,
                    Some(
                        if c == ')' {
                            PosixGroupClose::Paren
                        } else {
                            PosixGroupClose::Brace
                        },
                    ),
                ),
                heredocs,
            )
        } else if is_alpha(c) || c == '_' {
            let stop = word_end(s, i, end);
            let word = s.subrange(i, stop);
            let closed = without_group(groups, closes(word));
            let next = onward(i, stop, end);
            if !at_start {
                groups_from(s, end, next, single, double, pending, at_start, groups, heredocs)
            } else if closed != groups {
                groups_from(s, end, next, single, double, false, false, closed, heredocs)
            } else if compound_close(word) is Some {
                groups_from(
                    s,
                    end,
                    next,
                    single,
                    double,
                    false,
                    false,
                    groups.push(
                        PosixGroupInput {
                            close: compound_close(word)->0,
                            automated: inherits(pending, groups),
                        },
                    ),
                    heredocs,
                )
            } else {
                groups_from(
                    s,
                    end,
                    next,
                    single,
                    double,
                    false,
                    continues_compound(word),
                    groups,
                    heredocs,
                )
            }
        } else if !is_ascii_white(c) {
            groups_from(s, end, i + 1, single, double, false, false, groups, heredocs)
        } else {
            groups_from(
                s,
                end,
                i + 1,
                single,
                double,
                pending,
                at_start,
                groups,
                heredocs,
            )
        }
    }
}

/// Whether a compound command that is open at position `end` is fed by a
/// pipeline.
pub open spec fn pipeline_feeds(s: Seq<char>, end: int) -> bool {
    let groups = groups_from(
        s,
        end,
        0,
        false,
        false,
        false,
        true,
        Seq::empty(),
        Seq::empty(),
    );
    exists|i: int| 0 <= i < groups.len() && (#[trigger] groups[i]).automated
}

/// Whether a compound command that is opened next is fed by a pipeline.
fn inherited(pending: bool, groups: &Vec<PosixGroupInput>) -> (r: bool)
    ensures
        r == inherits(pending, groups@),
{
    pending || (groups.len() > 0 && groups[groups.len() - 1].automated)
}

/// Takes the last compound command off, where it is closed; tells whether it
/// was.
fn close_group(groups: &mut Vec<PosixGroupInput>, close: Option<PosixGroupClose>) -> (r: bool)
    ensures
        final(groups)@ == without_group(old(groups)@, close),
        r == (final(groups)@ != old(groups)@),
{
    let n = groups.len();
    if n > 0 && close == Some(groups[n - 1].close) {
        let ghost before = groups@;
        let _ = groups.pop();
        assert(groups@.len() != before.len());
        true
    } else {
        false
    }
}

/// Whether a compound command that is open at a position is fed by a pipeline. A position behind the text stands for its end.
pub fn posix_pipeline_group_is_active(s: &[char], offset: usize) -> (r: bool)
    ensures
        r == pipeline_feeds(
            s@,
            if offset < s@.len() {
                offset as int
            } else {
                s@.len() as int
            },
        ),
{
    let end = if offset < s.len() {
        offset
    } else {
        s.len()
    };
    let ghost target = groups_from(
        s@,
        end as int,
        0,
        false,
        false,
        false,
        true,
        Seq::empty(),
        Seq::empty(),
    );
    let mut groups: Vec<PosixGroupInput> = Vec::new();
    let mut heredocs: Vec<Heredoc> = Vec::new();
    assert(groups@ =~= Seq::<PosixGroupInput>::empty());
    assert(heredoc_views(heredocs@) =~= Seq::<HeredocView>::empty());
    let mut single = false;
    let mut double = false;
    let mut pending = false;
    let mut at_start = true;
    let mut i: usize = 0;
    while i < end
        invariant
            0 <= i <= end <= s.len(),
            target == groups_from(
                s@,
                end as int,
                i as int,
                single,
                double,
                pending,
                at_start,
                groups@,
                heredoc_views(heredocs@),
            ),
        decreases end - i,
    {
        let c = s[i];
        if c == '\\' && !single && i + 1 < end {
            if !double && width_of(s[i + 1]) != 1 {
                pending = false;
                at_start = false;
            }
            i += 2;
            continue ;
        }
        if c == '\'' && !double {
            single = !single;
            i += 1;
            continue ;
        }
        if c == '"' && !single {
            double = !double;
            i += 1;
            continue ;
        }
        if single || double {
            i += 1;
            continue ;
        }
        if c == '#' && posix_comment_starts(s, i) {
            i = find_line_end(s, i, end);
            continue ;
        }
        if c == '<' && get(s, i + 1) == Some('<') && (i + 1 >= s.len() - 1 || get(s, i + 2) != Some(
            '<',
        )) {
            if let Some((heredoc, after)) = parse_posix_heredoc_delimiter(s, i, end) {
                let ghost before = heredoc_views(heredocs@);
                let ghost view = heredoc@;
                heredocs.push(heredoc);
                assert(heredoc_views(heredocs@) =~= before.push(view));
                i = after;
                continue ;
            }
        }
        if c == '|' {
            let next = get(s, i + 1);
            if next == Some('|') {
                pending = false;
                at_start = true;
                i = advance(i, 2, end);
            } else {
                pending = true;
                at_start = true;
                i = advance(
                    i,
                    if next == Some('&') {
                        2
                    } else {
                        1
                    },
                    end,
                );
            }
        } else if c == '&' && get(s, i + 1) == Some('&') {
            pending = false;
            at_start = true;
            i = advance(i, 2, end);
        } else if c == ';' || c == '&' {
            pending = false;
            at_start = true;
            i += 1;
        } else if c == '\n' {
            pending = false;
            at_start = true;
            i = skip_posix_heredoc_bodies(s, i + 1, end, &mut heredocs);
        } else if c == '(' || c == '{' {
            let automated = inherited(pending, &groups);
            groups.push(
                PosixGroupInput {
                    close: if c == '(' {
                        PosixGroupClose::Paren
                    } else {
                        PosixGroupClose::Brace
                    },
                    automated,
                },
            );
            pending = false;
            at_start = true;
            i += 1;
        } else if c == ')' || c == '}' {
            let _ = close_group(
                &mut groups,
                Some(
                    if c == ')' {
                        PosixGroupClose::Paren
                    } else {
                        PosixGroupClose::Brace
                    },
                ),
            );
            pending = false;
            at_start = false;
            i += 1;
        } else if alpha(c) || c == '_' {
            let ghost from = i as int;
            let mut stop: usize = i;
            while stop < end && (alnum(s[stop]) || s[stop] == '_')
                invariant
                    from <= stop <= end <= s.len(),
                    word_end(s@, from, end as int) == word_end(s@, stop as int, end as int),
                    stop == from ==> 0 <= from < end && (is_alpha(s@[from]) || s@[from] == '_'),
                decreases end - stop,
            {
                stop += 1;
            }
            if at_start {
                let word = slice_subrange(s, i, stop);
                if close_group(&mut groups, closed_by(word)) {
                    at_start = false;
                } else {
                    match posix_compound_close_word(word) {
                        Some(close) => {
                            let automated = inherited(pending, &groups);
                            groups.push(PosixGroupInput { close, automated });
                            at_start = false;
                        },
                        None => {
                            at_start = is_str(word, "do") || is_str(word, "then") || is_str(
                                word,
                                "else",
                            ) || is_str(word, "elif");
                        },
                    }
                }
                pending = false;
            }
            i = stop;
        } else {
            if !ascii_white(c) {
                pending = false;
                at_start = false;
            }
            i += 1;
        }
    }
    let mut k: usize = 0;
    while k < groups.len()
        invariant
            0 <= k <= groups.len(),
            end == if offset < s@.len() {
                offset as int
            } else {
                s@.len() as int
            },
            groups@ == groups_from(
                s@,
                end as int,
                0,
                false,
                false,
                false,
                true,
                Seq::empty(),
                Seq::empty(),
            ),
            forall|j: int| 0 <= j < k ==> !(#[trigger] groups@[j]).automated,
        decreases groups.len() - k,
    {
        if groups[k].automated {
            assert(groups@[k as int].automated);
            return true;
        }
        k += 1;
    }
    false
}

/// The positions of the subshells that are open at position `end`, from position
/// `i` on.
pub open spec fn scopes_from(
    s: Seq<char>,
    end: int,
    i: int,
    single: bool,
    double: bool,
    scopes: Seq<usize>,
) -> Seq<usize>
    decreases end - i,
{
    if i < 0 || i >= end || end > s.len() {
        scopes
    } else if s[i] == '\\' && !single && i + 1 < end {
        scopes_from(s, end, i + 2, single, double, scopes)
    } else if s[i] == '\'' && !double {
        scopes_from(s, end, i + 1, !single, double, scopes)
    } else if s[i] == '"' && !single {
        scopes_from(s, end, i + 1, single, !double, scopes)
    } else if single {
        scopes_from(s, end, i + 1, single, double, scopes)
    } else if s[i] == '$' && at(s, i + 1) == Some('(') {
        scopes_from(s, end, onward(i, i + 2, end), single, double, scopes.push(i as usize))
    } else if !double && s[i] == '(' {
        scopes_from(s, end, i + 1, single, double, scopes.push(i as usize))
    } else if s[i] == ')' && scopes.len() > 0 {
        scopes_from(s, end, i + 1, single, double, scopes.drop_last())
    } else {
        scopes_from(s, end, i + 1, single, double, scopes)
    }
}

/// The positions of the subshells that are open at a position.
pub open spec fn scopes_at(s: Seq<char>, offset: int) -> Seq<usize> {
    scopes_from(
        s,
        if offset < s.len() {
            offset
        } else {
            s.len() as int
        },
        0,
        false,
        false,
        Seq::empty(),
    )
}

/// The positions of the subshells that are open at a position.
pub fn posix_subshell_scope_at(s: &[char], offset: usize) -> (r: Vec<usize>)
    ensures
        r@ == scopes_at(s@, offset as int),
{
    let end = if offset < s.len() {
        offset
    } else {
        s.len()
    };
    let mut scopes: Vec<usize> = Vec::new();
    let mut single = false;
    let mut double = false;
    let mut i: usize = 0;
    while i < end
        invariant
            0 <= i <= end <= s.len(),
            scopes_from(s@, end as int, 0, false, false, Seq::empty()) == scopes_from(
                s@,
                end as int,
                i as int,
                single,
                double,
                scopes@,
            ),
        decreases end - i,
    {
        let c = s[i];
        if c == '\\' && !single && i + 1 < end {
            i += 2;
        } else if c == '\'' && !double {
            single = !single;
            i += 1;
        } else if c == '"' && !single {
            double = !double;
            i += 1;
        } else if single {
            i += 1;
        } else if c == '$' && get(s, i + 1) == Some('(') {
            scopes.push(i);
            i = advance(i, 2, end);
        } else {
            if !double && c == '(' {
                scopes.push(i);
            } else if c == ')' && scopes.len() > 0 {
                let ghost before = scopes@;
                let _ = scopes.pop();
                assert(scopes@ =~= before.drop_last());
            }
            i += 1;
        }
    }
    scopes
}

/// Whether a reserved word stands at position `i`, with white space behind it.
pub open spec fn reserved_at(s: Seq<char>, i: int, word: Seq<char>) -> bool {
    occurs_at(s, i, word) && i + word.len() < s.len() && is_ascii_white(s[i + word.len()])
}

/// Where the openers of compound commands at position `i` end.
pub open spec fn openers_end(s: Seq<char>, i: int) -> int
    decreases s.len() - i,
{
    let j = white_end(s, i);
    if i < 0 || i > s.len() || !(i <= j < s.len()) {
        s.len() as int
    } else if s[j] == '(' {
        openers_end(s, j + 1)
    } else if s[j] == '{' && (j + 1 >= s.len() || is_ascii_white(s[j + 1])) {
        openers_end(s, j + 1)
    } else if reserved_at(s, j, "do"@) {
        openers_end(s, onward(j, j + 2, s.len() as int))
    } else if reserved_at(s, j, "then"@) || reserved_at(s, j, "else"@) {
        openers_end(s, onward(j, j + 4, s.len() as int))
    } else {
        j
    }
}

/// Whether a reserved word stands at position `i`, with white space behind it.
fn is_reserved_at(s: &[char], i: usize, word: &str) -> (r: bool)
    requires
        i <= s.len(),
    ensures
        r == reserved_at(s@, i as int, word@),
{
    let w = crate::text::chars_of(word);
    at_str(s, i, word) && w.len() < s.len() - i && ascii_white(s[i + w.len()])
}

/// Where the openers of compound commands at the start of a command end: what
/// stands behind them is a command of its own.
pub fn strip_leading_posix_group_openers(s: &[char]) -> (r: usize)
    ensures
        r == openers_end(s@, 0),
        r <= s.len(),
{
    proof {
        reveal_strlit("do");
        reveal_strlit("then");
        reveal_strlit("else");
    }
    let mut i: usize = 0;
    loop
        invariant
            0 <= i <= s.len(),
            "do"@.len() == 2,
            "then"@.len() == 4,
            "else"@.len() == 4,
            openers_end(s@, 0) == openers_end(s@, i as int),
        decreases s.len() - i,
    {
        let j = skip_white(s, i);
        if j >= s.len() {
            return s.len();
        }
        if s[j] == '(' {
            i = j + 1;
        } else if s[j] == '{' && (j + 1 >= s.len() || ascii_white(s[j + 1])) {
            i = j + 1;
        } else if is_reserved_at(s, j, "do") {
            i = j + 2;
        } else if is_reserved_at(s, j, "then") || is_reserved_at(s, j, "else") {
            i = j + 4;
        } else {
            return j;
        }
    }
}

/// The number of the first word from the `i`th token on that is `exec`.
pub open spec fn exec_word_from(s: Seq<char>, toks: Seq<NormalizeToken>, i: int) -> int
    decreases toks.len() - i,
{
    if i < 0 || i >= toks.len() {
        toks.len() as int
    } else if toks[i].word() && basename(unquoted(toks[i].of(s))) == "exec"@ {
        i
    } else {
        exec_word_from(s, toks, i + 1)
    }
}

/// Whether the words from the `i`th token on up to the `to`th are assignments and
/// redirections.
pub open spec fn only_prefixes(s: Seq<char>, toks: Seq<NormalizeToken>, i: int, to: int) -> bool
    decreases to - i,
{
    if i < 0 || i >= to || to > toks.len() {
        true
    } else {
        (!toks[i].word() || env_assignment(toks[i].of(s)) || redirection(toks[i].of(s)) is Some)
            && only_prefixes(s, toks, i + 1, to)
    }
}

/// Whether a token from the `i`th on redirects the standard input.
pub open spec fn any_stdin_redirection(s: Seq<char>, toks: Seq<NormalizeToken>, i: int) -> bool
    decreases toks.len() - i,
{
    if i < 0 || i >= toks.len() {
        false
    } else {
        redirects_stdin(toks[i].of(s)) || any_stdin_redirection(s, toks, i + 1)
    }
}

/// Where the `exec` stands with which a command redirects the standard input of
/// its shell.
pub open spec fn exec_redirect(s: Seq<char>) -> Option<int> {
    let from = openers_end(s, 0);
    let t = rest(s, from);
    let toks = tokens(t, ShellDialect::Unknown);
    let i = exec_word_from(t, toks, 0);
    if i < toks.len() && only_prefixes(t, toks, 0, i) && any_stdin_redirection(t, toks, i + 1) {
        Some(from + toks[i].start)
    } else {
        None
    }
}

/// Where the `exec` stands with which a command redirects the standard input of
/// its shell. It must be the program, not an argument.
pub fn posix_exec_stdin_redirect_offset(s: &[char]) -> (r: Option<usize>)
    ensures
        match r {
            Some(i) => exec_redirect(s@) == Some(i as int) && i <= s.len(),
            None => exec_redirect(s@) is None,
        },
{
    let from = strip_leading_posix_group_openers(s);
    let t = from_index(s, from);
    let toks = tokenize_for_normalization(t);
    let mut i: usize = 0;
    while i < toks.len()
        invariant
            0 <= i <= toks.len(),
            from <= s.len(),
            from == openers_end(s@, 0),
            t@ == rest(s@, from as int),
            toks@ == tokens(t@, ShellDialect::Unknown),
            forall|k: int| 0 <= k < toks@.len() ==> (#[trigger] toks@[k]).fits(t@.len() as int),
            exec_word_from(t@, toks@, 0) == exec_word_from(t@, toks@, i as int),
            forall|to: int|
                i <= to <= toks@.len() ==> #[trigger] only_prefixes(t@, toks@, 0, to)
                    == only_prefixes(t@, toks@, i as int, to),
        decreases toks.len() - i,
    {
        let k = toks[i];
        assert(toks@[i as int].fits(t@.len() as int));
        if k.is_word() {
            let w = k.text(t);
            if is_str(last_component(strip_outer_quotes(w).1), "exec") {
                let ghost from_next = i + 1;
                let mut j: usize = i + 1;
                assert(only_prefixes(t@, toks@, i as int, i as int));
                assert(only_prefixes(t@, toks@, 0, i as int));
                while j < toks.len()
                    invariant
                        from_next <= j <= toks.len(),
                        from_next == i + 1,
                        i < toks.len(),
                        from <= s.len(),
                        from == openers_end(s@, 0),
                        t@ == rest(s@, from as int),
                        toks@ == tokens(t@, ShellDialect::Unknown),
                        k == toks@[i as int],
                        k.fits(t@.len() as int),
                        forall|n: int|
                            0 <= n < toks@.len() ==> (#[trigger] toks@[n]).fits(t@.len() as int),
                        exec_word_from(t@, toks@, 0) == i,
                        only_prefixes(t@, toks@, 0, i as int),
                        any_stdin_redirection(t@, toks@, from_next as int)
                            == any_stdin_redirection(t@, toks@, j as int),
                    decreases toks.len() - j,
                {
                    let n = toks[j];
                    assert(toks@[j as int].fits(t@.len() as int));
                    if starts_with_shell_stdin_redirection(n.text(t)) {
                        return Some(from + k.start);
                    }
                    j += 1;
                }
                return None;
            }
            if !is_env_assignment(w) && shell_redirection_prefix(w).is_none() {
                assert(forall|to: int|
                    i < to <= toks@.len() ==> !(#[trigger] only_prefixes(t@, toks@, 0, to)));
                proof {
                    exec_word_is_behind(t@, toks@, i + 1);
                }
                return None;
            }
        }
        i += 1;
    }
    None
}

/// The word `exec` is found no earlier than it is looked for.
proof fn exec_word_is_behind(s: Seq<char>, toks: Seq<NormalizeToken>, i: int)
    requires
        0 <= i <= toks.len(),
    ensures
        i <= exec_word_from(s, toks, i) <= toks.len(),
    decreases toks.len() - i,
{
    if i < toks.len() {
        exec_word_is_behind(s, toks, i + 1);
    }
}

/// Whether a command before position `start` redirects the standard input of the
/// shell that runs the command there, among the segments from the `i`th on.
pub open spec fn exec_redirects_from(s: Seq<char>, segs: Seq<Segment>, i: int, start: int) -> bool
    decreases segs.len() - i,
{
    if i < 0 || i >= segs.len() {
        false
    } else {
        let at = exec_redirect(segs[i].of(s));
        (segs[i].end <= start && at is Some && scopes_at(s, segs[i].start + at->0) == scopes_at(
            s,
            start,
        )) || exec_redirects_from(s, segs, i + 1, start)
    }
}

/// Whether two lists of positions are the same.
fn same_positions(a: &Vec<usize>, b: &Vec<usize>) -> (r: bool)
    ensures
        r == (a@ == b@),
{
    if a.len() != b.len() {
        return false;
    }
    let mut i: usize = 0;
    while i < a.len()
        invariant
            0 <= i <= a.len(),
            a.len() == b.len(),
            forall|j: int| 0 <= j < i ==> a@[j] == b@[j],
        decreases a.len() - i,
    {
        if a[i] != b[i] {
            return false;
        }
        i += 1;
    }
    assert(a@ =~= b@);
    true
}

/// Whether a command before position `start` redirects the standard input of the
/// shell that runs the command there.
pub fn prior_posix_exec_redirects_stdin(s: &[char], start: usize) -> (r: bool)
    ensures
        r == exec_redirects_from(s@, segments(s@, ShellDialect::Unknown), 0, start as int),
{
    let segs = split_command_segments(s);
    let scope = posix_subshell_scope_at(s, start);
    let mut i: usize = 0;
    while i < segs.len()
        invariant
            0 <= i <= segs.len(),
            scope@ == scopes_at(s@, start as int),
            segs@ == segments(s@, ShellDialect::Unknown),
            forall|k: int| 0 <= k < segs@.len() ==> (#[trigger] segs@[k]).fits(s@.len() as int),
            exec_redirects_from(s@, segs@, 0, start as int) == exec_redirects_from(
                s@,
                segs@,
                i as int,
                start as int,
            ),
        decreases segs.len() - i,
    {
        let seg = segs[i];
        assert(segs@[i as int].fits(s@.len() as int));
        if seg.end <= start {
            if let Some(offset) = posix_exec_stdin_redirect_offset(seg.text(s)) {
                let inner = posix_subshell_scope_at(s, seg.start + offset);
                if same_positions(&inner, &scope) {
                    return true;
                }
            }
        }
        i += 1;
    }
    false
}

/// Whether the command at position `start` gets its answers from elsewhere than a
/// terminal: from a pipeline before it or before a compound command around it, or
/// from a file that an earlier `exec` opened.
pub open spec fn automated_stdin(s: Seq<char>, start: int, dialect: ShellDialect) -> bool {
    let prefix = s.subrange(0, start);
    let t = prefix.subrange(0, trimmed_end_len(prefix));
    if start < 0 || start > s.len() {
        false
    } else if ends(t, "|&"@) || (ends(t, "|"@) && !ends(t, "||"@)) {
        true
    } else if dialect == ShellDialect::Posix || dialect == ShellDialect::Unknown {
        pipeline_feeds(s, start) || exec_redirects_from(
            s,
            segments(s, ShellDialect::Unknown),
            0,
            start,
        )
    } else {
        false
    }
}

/// Whether the command at position `start`, counted in characters, gets its
/// answers from elsewhere than a terminal.
pub fn text_automated_stdin(s: &[char], start: usize, dialect: ShellDialect) -> (r: bool)
    ensures
        r == automated_stdin(s@, start as int, dialect),
{
    if start > s.len() {
        return false;
    }
    let prefix = slice_subrange(s, 0, start);
    let t = slice_subrange(prefix, 0, trim_end_len(prefix));
    if ends_str(t, "|&") || (ends_str(t, "|") && !ends_str(t, "||")) {
        return true;
    }
    if dialect == ShellDialect::Posix || dialect == ShellDialect::Unknown {
        posix_pipeline_group_is_active(s, start) || prior_posix_exec_redirects_stdin(s, start)
    } else {
        false
    }
}

} // verus!
