//! Names bound to values: environment variables and alias definitions.

use vstd::prelude::*;
use vstd::slice::slice_subrange;
use crate::git::expansion::{fragments, git_dynamic_fragments, WordView};
use crate::shell::token::ShellDialect;
use crate::text::{
    chars_of, copy_of, decimal, decimal_of, from_index, index_from, is_str_nocase, next_index,
    number, parse_number, push_all, rest, same, same_nocase, same_nocase_text, starts, starts_str,
    texts,
};

verus! {

/// A name bound to a value.
#[derive(Debug)]
pub struct Binding {
    pub name: Vec<char>,
    pub value: Vec<char>,
    /// Whether the shell expands a part of the value.
    pub dynamic: bool,
}

/// The mathematical form of a [`Binding`].
pub struct BindingView {
    pub name: Seq<char>,
    pub value: Seq<char>,
    pub dynamic: bool,
}

impl View for Binding {
    type V = BindingView;

    open spec fn view(&self) -> BindingView {
        BindingView { name: self.name@, value: self.value@, dynamic: self.dynamic }
    }
}

/// The views of a list of bindings.
pub open spec fn bindings(v: Seq<Binding>) -> Seq<BindingView> {
    Seq::new(v.len(), |i: int| v[i]@)
}

/// The first binding of the name from the `i`th on; the number of bindings when
/// there is none.
pub open spec fn bound_at(v: Seq<BindingView>, i: int, name: Seq<char>) -> int
    decreases v.len() - i,
{
    if i < 0 || i >= v.len() {
        v.len() as int
    } else if v[i].name == name {
        i
    } else {
        bound_at(v, i + 1, name)
    }
}

/// The first binding of the name from the `i`th on, ASCII case ignored.
pub open spec fn bound_nocase_at(v: Seq<BindingView>, i: int, name: Seq<char>) -> int
    decreases v.len() - i,
{
    if i < 0 || i >= v.len() {
        v.len() as int
    } else if same_nocase(v[i].name, name) {
        i
    } else {
        bound_nocase_at(v, i + 1, name)
    }
}

/// The bindings once the name of `b` is bound anew.
pub open spec fn bind(v: Seq<BindingView>, b: BindingView) -> Seq<BindingView> {
    let i = bound_at(v, 0, b.name);
    if i < v.len() {
        v.update(i, b)
    } else {
        v.push(b)
    }
}

/// No name is bound twice.
pub open spec fn distinct_names(v: Seq<BindingView>) -> bool {
    forall|i: int, j: int| 0 <= i < j < v.len() ==> (#[trigger] v[i]).name != (#[trigger] v[j]).name
}

/// Where [`bound_at`] stands, in terms of the names.
pub proof fn bound_at_is_first(v: Seq<BindingView>, i: int, name: Seq<char>)
    requires
        0 <= i <= v.len(),
    ensures
        i <= bound_at(v, i, name) <= v.len(),
        forall|j: int| i <= j < bound_at(v, i, name) ==> (#[trigger] v[j]).name != name,
        bound_at(v, i, name) < v.len() ==> v[bound_at(v, i, name)].name == name,
    decreases v.len() - i,
{
    if i < v.len() && v[i].name != name {
        bound_at_is_first(v, i + 1, name);
    }
}

/// Binding a name keeps names distinct, binds it, and leaves every other name
/// as it was.
pub proof fn bind_binds(v: Seq<BindingView>, b: BindingView, other: Seq<char>)
    requires
        distinct_names(v),
    ensures
        distinct_names(bind(v, b)),
        bind(v, b)[bound_at(bind(v, b), 0, b.name)] == b,
        bound_at(bind(v, b), 0, b.name) < bind(v, b).len(),
        other != b.name && bound_at(v, 0, other) < v.len() ==> bind(v, b)[bound_at(
            bind(v, b),
            0,
            other,
        )] == v[bound_at(v, 0, other)],
        other != b.name ==> (bound_at(bind(v, b), 0, other) < bind(v, b).len() <==> bound_at(
            v,
            0,
            other,
        ) < v.len()),
{
    let w = bind(v, b);
    let i = bound_at(v, 0, b.name);
    bound_at_is_first(v, 0, b.name);
    bound_at_is_first(v, 0, other);
    bound_at_is_first(w, 0, b.name);
    bound_at_is_first(w, 0, other);
    assert forall|j: int, k: int| 0 <= j < k < w.len() implies (#[trigger] w[j]).name != (
    #[trigger] w[k]).name by {
        if j < v.len() && k < v.len() {
            assert(v[j].name != v[k].name);
        }
    }
    let p = bound_at(w, 0, b.name);
    if i < v.len() {
        assert(w[i].name == b.name);
        assert(p == i);
    } else {
        assert(w[v.len() as int].name == b.name);
        assert(p == v.len());
    }
    if other != b.name {
        let q = bound_at(v, 0, other);
        let r = bound_at(w, 0, other);
        if q < v.len() {
            assert(w[q].name == other);
            assert(r <= q);
            if r < q {
                assert(v[r].name != other);
            }
        } else if r < w.len() {
            if r < v.len() && r != i {
                assert(v[r].name == other);
            }
        }
    }
}

/// The binding of the name in the environment of a dialect: names of PowerShell
/// and Cmd have no case.
pub open spec fn lookup(v: Seq<BindingView>, name: Seq<char>, dialect: ShellDialect) -> Option<
    BindingView,
> {
    let i = bound_at(v, 0, name);
    let j = bound_nocase_at(v, 0, name);
    if i < v.len() {
        Some(v[i])
    } else if (dialect == ShellDialect::PowerShell || dialect == ShellDialect::Cmd) && j < v.len() {
        Some(v[j])
    } else {
        None
    }
}

/// The first binding of the name.
pub fn find_binding(v: &Vec<Binding>, name: &[char]) -> (r: usize)
    ensures
        r == bound_at(bindings(v@), 0, name@),
        r <= v.len(),
{
    let mut i: usize = 0;
    while i < v.len()
        invariant
            0 <= i <= v.len(),
            bound_at(bindings(v@), 0, name@) == bound_at(bindings(v@), i as int, name@),
        decreases v.len() - i,
    {
        assert(bindings(v@)[i as int] == v@[i as int]@);
        if same(v[i].name.as_slice(), name) {
            return i;
        }
        i += 1;
    }
    i
}

/// The binding of the name in the environment of a dialect, as a position.
pub fn environment_get(v: &Vec<Binding>, name: &[char], dialect: ShellDialect) -> (r: Option<usize>)
    ensures
        match r {
            Some(i) => i < v.len() && lookup(bindings(v@), name@, dialect) == Some(v@[i as int]@),
            None => lookup(bindings(v@), name@, dialect) is None,
        },
{
    let i = find_binding(v, name);
    if i < v.len() {
        assert(bindings(v@)[i as int] == v@[i as int]@);
        return Some(i);
    }
    if dialect == ShellDialect::PowerShell || dialect == ShellDialect::Cmd {
        let mut j: usize = 0;
        while j < v.len()
            invariant
                0 <= j <= v.len(),
                dialect == ShellDialect::PowerShell || dialect == ShellDialect::Cmd,
                bound_at(bindings(v@), 0, name@) == bindings(v@).len(),
                bound_nocase_at(bindings(v@), 0, name@) == bound_nocase_at(
                    bindings(v@),
                    j as int,
                    name@,
                ),
            decreases v.len() - j,
        {
            assert(bindings(v@)[j as int] == v@[j as int]@);
            if same_nocase_text(v[j].name.as_slice(), name) {
                return Some(j);
            }
            j += 1;
        }
    }
    None
}

/// Binds a name anew.
pub fn bind_name(v: &mut Vec<Binding>, name: Vec<char>, value: Vec<char>, dynamic: bool)
    ensures
        bindings(final(v)@) == bind(
            bindings(old(v)@),
            (BindingView { name: name@, value: value@, dynamic }),
        ),
{
    let i = find_binding(v, name.as_slice());
    let ghost before = bindings(v@);
    let ghost b = BindingView { name: name@, value: value@, dynamic };
    let entry = Binding { name, value, dynamic };
    assert(entry@ == b);
    if i < v.len() {
        v.set(i, entry);
        assert(bindings(v@) =~= before.update(i as int, b));
    } else {
        v.push(entry);
        assert(bindings(v@) =~= before.push(b));
    }
}

/// The setting `name=value` of a text, split at its first `=`.
pub open spec fn setting(s: Seq<char>) -> Option<(Seq<char>, Seq<char>)> {
    let e = next_index(s, 0, '=');
    if e < s.len() {
        Some((s.subrange(0, e), rest(s, e + 1)))
    } else {
        None
    }
}

/// The setting `name=value` of a text, split at its first `=`.
pub fn split_setting<'a>(s: &'a [char]) -> (r: Option<(&'a [char], &'a [char])>)
    ensures
        match r {
            Some(p) => setting(s@) == Some((p.0@, p.1@)),
            None => setting(s@) is None,
        },
{
    let e = index_from(s, 0, '=');
    if e < s.len() {
        Some((slice_subrange(s, 0, e), from_index(s, e + 1)))
    } else {
        None
    }
}

/// A Git alias that the command defines. Without a name the expansion of a word
/// chooses it; without a value the expansion chooses what it runs.
#[derive(Debug)]
pub struct VisibleAliasDefinition {
    pub name: Option<Vec<char>>,
    pub value: Option<Vec<char>>,
}

/// The mathematical form of a [`VisibleAliasDefinition`].
pub struct DefinitionView {
    pub name: Option<Seq<char>>,
    pub value: Option<Seq<char>>,
}

/// The view of an optional text.
pub open spec fn text_option(t: Option<Vec<char>>) -> Option<Seq<char>> {
    match t {
        Some(v) => Some(v@),
        None => None,
    }
}

impl View for VisibleAliasDefinition {
    type V = DefinitionView;

    open spec fn view(&self) -> DefinitionView {
        DefinitionView { name: text_option(self.name), value: text_option(self.value) }
    }
}

/// The views of a list of definitions.
pub open spec fn definitions(v: Seq<VisibleAliasDefinition>) -> Seq<DefinitionView> {
    Seq::new(v.len(), |i: int| v[i]@)
}

/// A definition of which nothing is known.
pub open spec fn unknown_definition() -> DefinitionView {
    DefinitionView { name: None, value: None }
}

/// Adds a definition of which nothing is known.
pub fn push_unknown(v: &mut Vec<VisibleAliasDefinition>)
    ensures
        definitions(final(v)@) == definitions(old(v)@).push(unknown_definition()),
{
    let ghost before = definitions(v@);
    v.push(VisibleAliasDefinition { name: None, value: None });
    assert(definitions(v@) =~= before.push(unknown_definition()));
}

/// The alias that a configuration key names: what follows `alias.`.
pub open spec fn alias_of_key(key: Seq<char>) -> Option<Seq<char>> {
    if key.len() >= 6 && same_nocase(key.subrange(0, 6), "alias."@) {
        Some(rest(key, 6))
    } else {
        None
    }
}

/// The alias that a configuration key names.
pub fn alias_name_from_key<'a>(key: &'a [char]) -> (r: Option<&'a [char]>)
    ensures
        match r {
            Some(n) => alias_of_key(key@) == Some(n@),
            None => alias_of_key(key@) is None,
        },
{
    if key.len() >= 6 && is_str_nocase(slice_subrange(key, 0, 6), "alias.") {
        Some(from_index(key, 6))
    } else {
        None
    }
}

/// The definitions behind a configuration setting, `dynamic` telling whether the
/// shell expands a part of it. Where an expansion chooses the name, the setting
/// may define every alias, by its literal value; a shell body is not taken as
/// the value of an alias that only an expansion names.
pub open spec fn with_config(
    defs: Seq<DefinitionView>,
    config: Seq<char>,
    dynamic: bool,
    dialect: ShellDialect,
) -> Seq<DefinitionView> {
    let unknown = if dynamic {
        defs.push(unknown_definition())
    } else {
        defs
    };
    match setting(config) {
        None => unknown,
        Some((key, value)) => match alias_of_key(key) {
            None => unknown,
            Some(name) => if name.len() == 0 {
                defs
            } else {
                let open_name = dynamic && fragments(key, dialect).len() > 1;
                let open_value = dynamic && fragments(value, dialect).len() > 1;
                defs.push(
                    DefinitionView {
                        name: if open_name {
                            None
                        } else {
                            Some(name)
                        },
                        value: if open_value || (open_name && value.len() > 0 && value[0] == '!') {
                            None
                        } else {
                            Some(value)
                        },
                    },
                )
            },
        },
    }
}

/// Adds what a configuration setting defines.
pub fn push_visible_alias_definition(
    defs: &mut Vec<VisibleAliasDefinition>,
    config: &[char],
    dynamic: bool,
    dialect: ShellDialect,
)
    ensures
        definitions(final(defs)@) == with_config(
            definitions(old(defs)@),
            config@,
            dynamic,
            dialect,
        ),
{
    let (key, value) = match split_setting(config) {
        None => {
            if dynamic {
                push_unknown(defs);
            }
            return ;
        },
        Some(p) => p,
    };
    let name = match alias_name_from_key(key) {
        None => {
            if dynamic {
                push_unknown(defs);
            }
            return ;
        },
        Some(n) => n,
    };
    if name.len() == 0 {
        return ;
    }
    let key_dynamic = dynamic && {
        let parts = git_dynamic_fragments(key, dialect);
        assert(texts(parts@).len() == parts@.len());
        parts.len() > 1
    };
    let value_dynamic = dynamic && {
        let parts = git_dynamic_fragments(value, dialect);
        assert(texts(parts@).len() == parts@.len());
        parts.len() > 1
    };
    let ghost before = definitions(defs@);
    let d = VisibleAliasDefinition {
        name: if key_dynamic {
            None
        } else {
            Some(copy_of(name))
        },
        value: if value_dynamic || (key_dynamic && value.len() > 0 && value[0] == '!') {
            None
        } else {
            Some(copy_of(value))
        },
    };
    let ghost view = d@;
    defs.push(d);
    assert(definitions(defs@) =~= before.push(view));
}

/// A setting that the environment gives a number.
#[derive(Debug)]
pub struct Numbered {
    pub index: usize,
    pub config: Vec<char>,
    pub dynamic: bool,
}

/// The mathematical form of a [`Numbered`] setting.
pub struct NumberedView {
    pub index: usize,
    pub config: Seq<char>,
    pub dynamic: bool,
}

impl View for Numbered {
    type V = NumberedView;

    open spec fn view(&self) -> NumberedView {
        NumberedView { index: self.index, config: self.config@, dynamic: self.dynamic }
    }
}

/// The views of a list of numbered settings.
pub open spec fn numbered_views(v: Seq<Numbered>) -> Seq<NumberedView> {
    Seq::new(v.len(), |i: int| v[i]@)
}

/// The first position from `i` on whose number is greater.
pub open spec fn greater_from(v: Seq<NumberedView>, i: int, index: usize) -> int
    decreases v.len() - i,
{
    if i < 0 || i >= v.len() {
        v.len() as int
    } else if v[i].index > index {
        i
    } else {
        greater_from(v, i + 1, index)
    }
}

/// The setting `key=value`.
pub open spec fn config_text(key: Seq<char>, value: Seq<char>) -> Seq<char> {
    key.push('=') + value
}

/// The setting `key=value`.
pub fn make_config(key: &[char], value: &[char]) -> (r: Vec<char>)
    ensures
        r@ == config_text(key@, value@),
{
    let mut r = copy_of(key);
    r.push('=');
    push_all(&mut r, value);
    r
}

/// The name of a numbered variable.
pub open spec fn numbered_name(prefix: Seq<char>, index: usize) -> Seq<char> {
    prefix + decimal(index as nat)
}

/// The settings that `GIT_CONFIG_KEY_n` and `GIT_CONFIG_VALUE_n` give, from the
/// `i`th variable on, put into `out` by their numbers.
pub open spec fn numbered_from(
    env: Seq<BindingView>,
    i: int,
    count: usize,
    dialect: ShellDialect,
    out: Seq<NumberedView>,
) -> Seq<NumberedView>
    decreases env.len() - i,
{
    if i < 0 || i >= env.len() {
        out
    } else if !starts(env[i].name, "GIT_CONFIG_KEY_"@) {
        numbered_from(env, i + 1, count, dialect, out)
    } else {
        match number(rest(env[i].name, "GIT_CONFIG_KEY_"@.len() as int)) {
            None => numbered_from(env, i + 1, count, dialect, out),
            Some(index) => if index >= count {
                numbered_from(env, i + 1, count, dialect, out)
            } else {
                match lookup(env, numbered_name("GIT_CONFIG_VALUE_"@, index), dialect) {
                    None => numbered_from(env, i + 1, count, dialect, out),
                    Some(value) => numbered_from(
                        env,
                        i + 1,
                        count,
                        dialect,
                        out.insert(
                            greater_from(out, 0, index),
                            NumberedView {
                                index,
                                config: config_text(env[i].value, value.value),
                                dynamic: env[i].dynamic || value.dynamic,
                            },
                        ),
                    ),
                }
            },
        }
    }
}

/// The definitions behind the settings from the `i`th on.
pub open spec fn with_numbered(
    defs: Seq<DefinitionView>,
    settings: Seq<NumberedView>,
    i: int,
    dialect: ShellDialect,
) -> Seq<DefinitionView>
    decreases settings.len() - i,
{
    if i < 0 || i >= settings.len() {
        defs
    } else {
        with_numbered(
            with_config(defs, settings[i].config, settings[i].dynamic, dialect),
            settings,
            i + 1,
            dialect,
        )
    }
}

/// The aliases that the environment defines.
pub open spec fn environment_definitions(env: Seq<BindingView>, dialect: ShellDialect) -> Seq<
    DefinitionView,
> {
    match lookup(env, "GIT_CONFIG_COUNT"@, dialect) {
        None => Seq::empty(),
        Some(count) => if count.dynamic {
            Seq::empty().push(unknown_definition())
        } else {
            match number(count.value) {
                None => Seq::empty(),
                Some(n) => with_numbered(
                    Seq::empty(),
                    numbered_from(env, 0, n, dialect, Seq::empty()),
                    0,
                    dialect,
                ),
            }
        },
    }
}

/// The name of a numbered variable.
pub fn make_numbered_name(prefix: &str, index: usize) -> (r: Vec<char>)
    ensures
        r@ == numbered_name(prefix@, index),
{
    let mut r = chars_of(prefix);
    let d = decimal_of(index);
    push_all(&mut r, d.as_slice());
    r
}

/// The settings that the environment numbers, in the order of their numbers.
fn numbered_settings(env: &Vec<Binding>, count: usize, dialect: ShellDialect) -> (r: Vec<Numbered>)
    ensures
        numbered_views(r@) == numbered_from(bindings(env@), 0, count, dialect, Seq::empty()),
{
    proof {
        reveal_strlit("GIT_CONFIG_KEY_");
    }
    let ghost views = bindings(env@);
    let mut out: Vec<Numbered> = Vec::new();
    let mut i: usize = 0;
    assert(numbered_views(out@) =~= Seq::<NumberedView>::empty());
    while i < env.len()
        invariant
            0 <= i <= env.len(),
            views == bindings(env@),
            "GIT_CONFIG_KEY_"@.len() == 15,
            numbered_from(views, 0, count, dialect, Seq::empty()) == numbered_from(
                views,
                i as int,
                count,
                dialect,
                numbered_views(out@),
            ),
        decreases env.len() - i,
    {
        let key = &env[i];
        assert(views[i as int] == key@);
        if starts_str(key.name.as_slice(), "GIT_CONFIG_KEY_") {
            if let Some(index) = parse_number(from_index(key.name.as_slice(), 15)) {
                if index < count {
                    let name = make_numbered_name("GIT_CONFIG_VALUE_", index);
                    if let Some(v) = environment_get(env, name.as_slice(), dialect) {
                        let value = &env[v];
                        let entry = Numbered {
                            index,
                            config: make_config(key.value.as_slice(), value.value.as_slice()),
                            dynamic: key.dynamic || value.dynamic,
                        };
                        let ghost before = numbered_views(out@);
                        let ghost view = entry@;
                        let mut p: usize = 0;
                        while p < out.len() && out[p].index <= index
                            invariant
                                0 <= p <= out.len(),
                                before == numbered_views(out@),
                                greater_from(before, 0, index) == greater_from(
                                    before,
                                    p as int,
                                    index,
                                ),
                            decreases out.len() - p,
                        {
                            assert(before[p as int] == out@[p as int]@);
                            p += 1;
                        }
                        if p < out.len() {
                            assert(before[p as int] == out@[p as int]@);
                        }
                        out.insert(p, entry);
                        assert(numbered_views(out@) =~= before.insert(p as int, view));
                    }
                }
            }
        }
        i += 1;
    }
    out
}

/// The aliases that the environment defines.
pub fn visible_environment_alias_definitions(env: &Vec<Binding>, dialect: ShellDialect) -> (r: Vec<
    VisibleAliasDefinition,
>)
    ensures
        definitions(r@) == environment_definitions(bindings(env@), dialect),
{
    let mut defs: Vec<VisibleAliasDefinition> = Vec::new();
    assert(definitions(defs@) =~= Seq::<DefinitionView>::empty());
    let name = chars_of("GIT_CONFIG_COUNT");
    match environment_get(env, name.as_slice(), dialect) {
        None => {},
        Some(c) => {
            if env[c].dynamic {
                push_unknown(&mut defs);
            } else if let Some(n) = parse_number(env[c].value.as_slice()) {
                let settings = numbered_settings(env, n, dialect);
                let ghost views = numbered_views(settings@);
                let mut i: usize = 0;
                while i < settings.len()
                    invariant
                        0 <= i <= settings.len(),
                        views == numbered_views(settings@),
                        with_numbered(Seq::empty(), views, 0, dialect) == with_numbered(
                            definitions(defs@),
                            views,
                            i as int,
                            dialect,
                        ),
                    decreases settings.len() - i,
                {
                    assert(views[i as int] == settings@[i as int]@);
                    push_visible_alias_definition(
                        &mut defs,
                        settings[i].config.as_slice(),
                        settings[i].dynamic,
                        dialect,
                    );
                    i += 1;
                }
            }
        },
    }
    defs
}

/// The definitions behind a `--config-env` setting; nothing when Git refuses it.
pub open spec fn with_config_env(
    defs: Seq<DefinitionView>,
    env: Seq<BindingView>,
    word: WordView,
    dialect: ShellDialect,
) -> Option<Seq<DefinitionView>> {
    match setting(word.decoded) {
        None => if word.dynamic {
            Some(defs.push(unknown_definition()))
        } else {
            None
        },
        Some((key, variable)) => match lookup(env, variable, dialect) {
            None => None,
            Some(value) => Some(
                with_config(
                    defs,
                    config_text(key, value.value),
                    word.dynamic || value.dynamic,
                    dialect,
                ),
            ),
        },
    }
}

/// Adds what a `--config-env` setting defines; false when Git refuses it.
pub fn push_config_env_alias_definition(
    defs: &mut Vec<VisibleAliasDefinition>,
    env: &Vec<Binding>,
    decoded: &[char],
    dynamic: bool,
    dialect: ShellDialect,
) -> (r: bool)
    ensures
        match with_config_env(
            definitions(old(defs)@),
            bindings(env@),
            (WordView { decoded: decoded@, dynamic, may_split: false }),
            dialect,
        ) {
            Some(v) => r && definitions(final(defs)@) == v,
            None => !r && final(defs)@ == old(defs)@,
        },
{
    let (key, variable) = match split_setting(decoded) {
        None => {
            if dynamic {
                push_unknown(defs);
                return true;
            }
            return false;
        },
        Some(p) => p,
    };
    match environment_get(env, variable, dialect) {
        None => false,
        Some(v) => {
            let config = make_config(key, env[v].value.as_slice());
            push_visible_alias_definition(defs, config.as_slice(), dynamic || env[v].dynamic, dialect);
            true
        },
    }
}

/// Whether a definition may be of the alias.
pub open spec fn may_define(d: DefinitionView, name: Seq<char>) -> bool {
    match d.name {
        None => true,
        Some(n) => same_nocase(n, name),
    }
}

/// What the last of the first `to` definitions that may be of the alias gives.
pub open spec fn last_definition(defs: Seq<DefinitionView>, to: int, name: Seq<char>) -> Option<
    Option<Seq<char>>,
>
    decreases to,
{
    if to <= 0 || to > defs.len() {
        None
    } else if may_define(defs[to - 1], name) {
        Some(defs[to - 1].value)
    } else {
        last_definition(defs, to - 1, name)
    }
}

/// The last definition that may be of the alias, as a position.
pub fn lookup_visible_alias(defs: &Vec<VisibleAliasDefinition>, name: &[char]) -> (r: Option<usize>)
    ensures
        match r {
            Some(i) => i < defs.len() && last_definition(
                definitions(defs@),
                defs@.len() as int,
                name@,
            ) == Some(defs@[i as int]@.value),
            None => last_definition(definitions(defs@), defs@.len() as int, name@) is None,
        },
{
    let mut i: usize = defs.len();
    while i > 0
        invariant
            0 <= i <= defs.len(),
            last_definition(definitions(defs@), defs@.len() as int, name@) == last_definition(
                definitions(defs@),
                i as int,
                name@,
            ),
        decreases i,
    {
        assert(definitions(defs@)[i - 1] == defs@[i - 1]@);
        let found = match &defs[i - 1].name {
            None => true,
            Some(n) => same_nocase_text(n.as_slice(), name),
        };
        if found {
            return Some(i - 1);
        }
        i -= 1;
    }
    None
}

/// A copy of a definition.
fn copy_definition(d: &VisibleAliasDefinition) -> (r: VisibleAliasDefinition)
    ensures
        r@ == d@,
{
    VisibleAliasDefinition {
        name: match &d.name {
            None => None,
            Some(n) => Some(copy_of(n.as_slice())),
        },
        value: match &d.value {
            None => None,
            Some(v) => Some(copy_of(v.as_slice())),
        },
    }
}

/// Appends copies of definitions.
pub fn append_definitions(out: &mut Vec<VisibleAliasDefinition>, defs: &Vec<VisibleAliasDefinition>)
    ensures
        definitions(final(out)@) == definitions(old(out)@) + definitions(defs@),
{
    let mut i: usize = 0;
    let ghost start = definitions(out@);
    let ghost views = definitions(defs@);
    while i < defs.len()
        invariant
            0 <= i <= defs.len(),
            views == definitions(defs@),
            definitions(out@) == start + views.subrange(0, i as int),
        decreases defs.len() - i,
    {
        let ghost before = definitions(out@);
        let d = copy_definition(&defs[i]);
        let ghost view = d@;
        assert(views[i as int] == view);
        out.push(d);
        assert(definitions(out@) =~= before.push(view));
        i += 1;
        assert(start + views.subrange(0, i as int) =~= (start + views.subrange(0, i - 1)).push(
            view,
        ));
    }
    assert(views.subrange(0, i as int) =~= views);
}

/// The definitions from the `i`th on that are of another alias, behind `out`.
pub open spec fn others_from(
    defs: Seq<DefinitionView>,
    i: int,
    name: Seq<char>,
    out: Seq<DefinitionView>,
) -> Seq<DefinitionView>
    decreases defs.len() - i,
{
    if i < 0 || i >= defs.len() {
        out
    } else if defs[i].name is Some && same_nocase(defs[i].name->0, name) {
        others_from(defs, i + 1, name, out)
    } else {
        others_from(defs, i + 1, name, out.push(defs[i]))
    }
}

/// Removes the definitions of an alias.
pub fn remove_definitions(defs: &mut Vec<VisibleAliasDefinition>, name: &[char])
    ensures
        definitions(final(defs)@) == others_from(
            definitions(old(defs)@),
            0,
            name@,
            Seq::empty(),
        ),
{
    let ghost views = definitions(defs@);
    let mut out: Vec<VisibleAliasDefinition> = Vec::new();
    let mut i: usize = 0;
    assert(definitions(out@) =~= Seq::<DefinitionView>::empty());
    while i < defs.len()
        invariant
            0 <= i <= defs.len(),
            views == definitions(defs@),
            others_from(views, 0, name@, Seq::empty()) == others_from(
                views,
                i as int,
                name@,
                definitions(out@),
            ),
        decreases defs.len() - i,
    {
        assert(views[i as int] == defs@[i as int]@);
        let same_name = match &defs[i].name {
            None => false,
            Some(n) => same_nocase_text(n.as_slice(), name),
        };
        if !same_name {
            let ghost before = definitions(out@);
            let d = copy_definition(&defs[i]);
            let ghost view = d@;
            out.push(d);
            assert(definitions(out@) =~= before.push(view));
        }
        i += 1;
    }
    *defs = out;
}

} // verus!
