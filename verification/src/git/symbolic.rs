//! Words of a command whose substitutions are replaced by marks.

use vstd::prelude::*;
use vstd::slice::slice_subrange;
use crate::shell::parts::{parts_form, parts_may_form};
use crate::git::options::{literal_branch_tokens_prove_mutation, literals_mutate, optional_texts};
use crate::git::substitution::{POSIX_DYNAMIC_QUOTED, POSIX_DYNAMIC_UNQUOTED, PosixSubstitutionView};
use crate::shell::token::onward;
use crate::shell::words::{shell_split, split_words};
use crate::text::{
    at_str, basename, chars_of, contains_text, copy_of, ends, ends_str, from_index, has_str, is_str,
    is_str_nocase, last_component, occurs_at, rest, same_nocase, starts, starts_str, texts, trim,
    trimmed,
};

verus! {

/// A word in which a mark stands for each unknown substitution.
#[derive(Debug)]
pub struct SymbolicPosixWord {
    pub text: Vec<char>,
    /// Whether an unknown substitution stands outside double quotes: its output
    /// may be several words.
    pub unquoted_dynamic: bool,
}

/// The mathematical form of a [`SymbolicPosixWord`].
pub struct SymbolView {
    pub text: Seq<char>,
    pub unquoted_dynamic: bool,
}

impl View for SymbolicPosixWord {
    type V = SymbolView;

    open spec fn view(&self) -> SymbolView {
        SymbolView { text: self.text@, unquoted_dynamic: self.unquoted_dynamic }
    }
}

/// The views of a list of words.
pub open spec fn symbols(v: Seq<SymbolicPosixWord>) -> Seq<SymbolView> {
    Seq::new(v.len(), |i: int| v[i]@)
}

/// Whether a mark stands in the text.
pub open spec fn is_marked(s: Seq<char>) -> bool {
    contains_text(s, POSIX_DYNAMIC_QUOTED@) || contains_text(s, POSIX_DYNAMIC_UNQUOTED@)
}

/// The word with the given text.
pub open spec fn symbol(text: Seq<char>) -> SymbolView {
    SymbolView { text, unquoted_dynamic: contains_text(text, POSIX_DYNAMIC_UNQUOTED@) }
}

/// The words with the given texts.
pub open spec fn symbols_of(words: Seq<Seq<char>>) -> Seq<SymbolView> {
    Seq::new(words.len(), |i: int| symbol(words[i]))
}

/// The parts of the text from position `i` on between marks, behind `done` and
/// the part `cur` that is being read.
pub open spec fn unmarked_from(s: Seq<char>, i: int, cur: Seq<char>, done: Seq<Seq<char>>) -> Seq<
    Seq<char>,
>
    decreases s.len() - i,
{
    if i < 0 || i >= s.len() {
        done.push(cur)
    } else if occurs_at(s, i, POSIX_DYNAMIC_QUOTED@) || occurs_at(s, i, POSIX_DYNAMIC_UNQUOTED@) {
        unmarked_from(
            s,
            onward(i, i + POSIX_DYNAMIC_QUOTED@.len(), s.len() as int),
            Seq::empty(),
            done.push(cur),
        )
    } else {
        unmarked_from(s, i + 1, cur.push(s[i]), done)
    }
}

/// The parts of the text before, between and behind its marks.
pub open spec fn unmarked_parts(s: Seq<char>) -> Seq<Seq<char>> {
    unmarked_from(s, 0, Seq::empty(), Seq::empty())
}

impl SymbolView {
    /// Whether an unknown substitution stands in the word.
    pub open spec fn dynamic(self) -> bool {
        is_marked(self.text)
    }

    /// The text of the word where it is known.
    pub open spec fn literal(self) -> Option<Seq<char>> {
        if is_marked(self.text) {
            None
        } else {
            Some(self.text)
        }
    }

    /// Whether the word has a literal part.
    pub open spec fn has_literal(self) -> bool {
        exists|i: int|
            0 <= i < unmarked_parts(self.text).len() && (#[trigger] unmarked_parts(
                self.text,
            )[i]).len() > 0
    }

    /// Whether the word may become `candidate`.
    pub open spec fn could_be(self, candidate: Seq<char>) -> bool {
        if is_marked(self.text) {
            parts_may_form(unmarked_parts(self.text), candidate)
        } else {
            self.text == candidate
        }
    }

    /// The last path component of the word.
    pub open spec fn program(self) -> SymbolView {
        SymbolView { text: basename(self.text), unquoted_dynamic: self.unquoted_dynamic }
    }
}

/// The parts of the text before, between and behind its marks.
fn split_marks(s: &[char]) -> (r: Vec<Vec<char>>)
    ensures
        texts(r@) == unmarked_parts(s@),
        r@.len() >= 1,
{
    proof {
        reveal_strlit("__DCG_POSIX_SUB_Q_7B8CFAE1__");
        reveal_strlit("__DCG_POSIX_SUB_U_7B8CFAE1__");
    }
    let n = chars_of(POSIX_DYNAMIC_QUOTED).len();
    let mut done: Vec<Vec<char>> = Vec::new();
    let mut cur: Vec<char> = Vec::new();
    let mut i: usize = 0;
    assert(texts(done@) =~= Seq::<Seq<char>>::empty());
    assert(cur@ =~= Seq::<char>::empty());
    while i < s.len()
        invariant
            0 <= i <= s.len(),
            n == POSIX_DYNAMIC_QUOTED@.len(),
            n == POSIX_DYNAMIC_UNQUOTED@.len(),
            n > 0,
            unmarked_parts(s@) == unmarked_from(s@, i as int, cur@, texts(done@)),
        decreases s.len() - i,
    {
        if at_str(s, i, POSIX_DYNAMIC_QUOTED) || at_str(s, i, POSIX_DYNAMIC_UNQUOTED) {
            let ghost before = done@;
            let ghost part = cur@;
            done.push(cur);
            assert(texts(done@) =~= texts(before).push(part));
            cur = Vec::new();
            assert(cur@ =~= Seq::<char>::empty());
            i += n;
        } else {
            cur.push(s[i]);
            i += 1;
        }
    }
    let ghost before = done@;
    let ghost part = cur@;
    done.push(cur);
    assert(texts(done@) =~= texts(before).push(part));
    done
}

impl SymbolicPosixWord {
    /// The word with the given text.
    pub fn new(text: Vec<char>) -> (r: Self)
        ensures
            r@ == symbol(text@),
    {
        let unquoted_dynamic = has_str(text.as_slice(), POSIX_DYNAMIC_UNQUOTED);
        SymbolicPosixWord { text, unquoted_dynamic }
    }

    /// Whether an unknown substitution stands in the word.
    pub fn is_dynamic(&self) -> (r: bool)
        ensures
            r == self@.dynamic(),
    {
        has_str(self.text.as_slice(), POSIX_DYNAMIC_QUOTED) || has_str(
            self.text.as_slice(),
            POSIX_DYNAMIC_UNQUOTED,
        )
    }

    /// Whether the word has a literal part.
    pub fn has_literal_fragment(&self) -> (r: bool)
        ensures
            r == self@.has_literal(),
    {
        let parts = split_marks(self.text.as_slice());
        let mut i: usize = 0;
        while i < parts.len()
            invariant
                0 <= i <= parts.len(),
                texts(parts@) == unmarked_parts(self@.text),
                forall|j: int| 0 <= j < i ==> (#[trigger] unmarked_parts(self@.text)[j]).len() == 0,
            decreases parts.len() - i,
        {
            assert(unmarked_parts(self@.text)[i as int] == parts@[i as int]@);
            if parts[i].len() > 0 {
                return true;
            }
            i += 1;
        }
        false
    }

    /// Whether the word may become the literal.
    pub fn may_equal(&self, candidate: &str) -> (r: bool)
        ensures
            r == self@.could_be(candidate@),
    {
        if !self.is_dynamic() {
            return is_str(self.text.as_slice(), candidate);
        }
        let parts = split_marks(self.text.as_slice());
        let lit = chars_of(candidate);
        parts_form(&parts, lit.as_slice())
    }

    /// The last path component of the word.
    pub fn basename(&self) -> (r: Self)
        ensures
            r@ == self@.program(),
    {
        SymbolicPosixWord {
            text: copy_of(last_component(self.text.as_slice())),
            unquoted_dynamic: self.unquoted_dynamic,
        }
    }
}

/// The words of a command whose substitutions are replaced.
pub fn symbolic_posix_words(view: &PosixSubstitutionView) -> (r: Option<Vec<SymbolicPosixWord>>)
    ensures
        match r {
            Some(v) => shell_split(view.command@) is Some && symbols(v@) == symbols_of(
                shell_split(view.command@)->0,
            ),
            None => shell_split(view.command@) is None,
        },
{
    match split_words(view.command.as_slice()) {
        None => None,
        Some(words) => {
            let mut v: Vec<SymbolicPosixWord> = Vec::new();
            let mut i: usize = 0;
            while i < words.len()
                invariant
                    0 <= i <= words.len(),
                    v@.len() == i,
                    forall|j: int| 0 <= j < i ==> (#[trigger] v@[j])@ == symbol(words@[j]@),
                decreases words.len() - i,
            {
                v.push(SymbolicPosixWord::new(copy_of(words[i].as_slice())));
                i += 1;
            }
            assert(symbols(v@) =~= symbols_of(texts(words@)));
            Some(v)
        },
    }
}

/// A word that may become an option that deletes or forces.
pub open spec fn option_may_mutate(word: SymbolView) -> bool {
    word.could_be("-d"@) || word.could_be("-D"@) || word.could_be("-f"@) || word.could_be("-M"@)
        || word.could_be("-C"@) || word.could_be("--delete"@) || word.could_be("--force"@)
}

/// Whether the word may become an option that deletes or forces.
pub fn symbolic_branch_option_may_mutate(word: &SymbolicPosixWord) -> (r: bool)
    ensures
        r == option_may_mutate(word@),
{
    word.may_equal("-d") || word.may_equal("-D") || word.may_equal("-f") || word.may_equal("-M")
        || word.may_equal("-C") || word.may_equal("--delete") || word.may_equal("--force")
}

/// The texts of the words where they are known.
pub open spec fn literal_texts(words: Seq<SymbolView>) -> Seq<Option<Seq<char>>> {
    Seq::new(words.len(), |i: int| words[i].literal())
}

/// Whether the known words from the `from`th on spell a deletion or a forced
/// update of a branch.
pub fn literal_argv_proves_branch_mutation(words: &Vec<SymbolicPosixWord>, from: usize) -> (r: bool)
    requires
        from <= words.len(),
    ensures
        r == literals_mutate(literal_texts(symbols(words@)), from as int),
{
    let mut v: Vec<Option<Vec<char>>> = Vec::new();
    let mut i: usize = 0;
    while i < words.len()
        invariant
            0 <= i <= words.len(),
            v@.len() == i,
            forall|j: int|
                0 <= j < i ==> (match #[trigger] v@[j] {
                    Some(t) => words@[j]@.literal() == Some(t@),
                    None => words@[j]@.literal() is None,
                }),
        decreases words.len() - i,
    {
        if words[i].is_dynamic() {
            v.push(None);
        } else {
            v.push(Some(copy_of(words[i].text.as_slice())));
        }
        i += 1;
    }
    assert(optional_texts(v@) =~= literal_texts(symbols(words@)));
    literal_branch_tokens_prove_mutation(&v, from)
}

/// A command that is nothing but a substitution of `git branch --show-current`.
pub open spec fn is_branch_name_query(s: Seq<char>) -> bool {
    let t = trimmed(s);
    let ticks = starts(t, "`"@) && ends(rest(t, 1), "`"@);
    let group = starts(t, "$("@) && ends(rest(t, 2), ")"@);
    if ticks || group {
        let from: int = if ticks {
            1
        } else {
            2
        };
        match shell_split(t.subrange(from, t.len() - 1)) {
            None => false,
            Some(words) => words.len() == 3 && same_nocase(words[0], "git"@) && words[1]
                == "branch"@ && words[2] == "--show-current"@,
        }
    } else {
        false
    }
}

/// Whether a command is nothing but a substitution of `git branch --show-current`.
pub fn sole_posix_branch_name_query(s: &[char]) -> (r: bool)
    ensures
        r == is_branch_name_query(s@),
{
    proof {
        reveal_strlit("`");
        reveal_strlit("$(");
        reveal_strlit(")");
    }
    let t = trim(s);
    let ticks = starts_str(t, "`") && ends_str(from_index(t, 1), "`");
    let group = starts_str(t, "$(") && ends_str(from_index(t, 2), ")");
    if !ticks && !group {
        return false;
    }
    let from: usize = if ticks {
        1
    } else {
        2
    };
    match split_words(slice_subrange(t, from, t.len() - 1)) {
        None => false,
        Some(words) => {
            let ghost views = texts(words@);
            if words.len() != 3 {
                return false;
            }
            assert(views[0] == words@[0]@ && views[1] == words@[1]@ && views[2] == words@[2]@);
            is_str_nocase(words[0].as_slice(), "git") && is_str(words[1].as_slice(), "branch")
                && is_str(words[2].as_slice(), "--show-current")
        },
    }
}

} // verus!
