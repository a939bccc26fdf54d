//! Rendering of manifests: every placeholder `${NAME}` whose name is bound is
//! replaced by the value bound to it; all other text, placeholders with an
//! unbound name included, is passed through as it is.

use vstd::prelude::*;
use crate::baseline::EvalBaseline;
use crate::eval::Eval;
use crate::text::{chars_of, same_chars, string_of_range};

verus! {

/// The characters that a name can begin with.
pub open spec fn is_name_start(c: char) -> bool {
    'a' <= c <= 'z' || 'A' <= c <= 'Z' || c == '_'
}

/// The characters that a name is made of.
pub open spec fn is_name_char(c: char) -> bool {
    is_name_start(c) || '0' <= c <= '9'
}

/// Length of the longest prefix of `s` made of name characters.
pub open spec fn name_run(s: Seq<char>) -> nat
    decreases s.len(),
{
    if s.len() == 0 || !is_name_char(s[0]) {
        0
    } else {
        1 + name_run(s.drop_first())
    }
}

/// The name of the placeholder that `s` begins with, if it begins with one:
/// a dollar sign, an opening brace, a name, a closing brace.
pub open spec fn placeholder_name(s: Seq<char>) -> Option<Seq<char>> {
    if s.len() >= 4 && s[0] == '$' && s[1] == '{' && is_name_start(s[2]) {
        let n = name_run(s.skip(2)) as int;
        if 2 + n < s.len() && s[2 + n] == '}' {
            Some(s.subrange(2, 2 + n))
        } else {
            None
        }
    } else {
        None
    }
}

/// The value bound to `name`; of several bindings of one name the last counts.
pub open spec fn value_of(vars: Seq<(Seq<char>, Seq<char>)>, name: Seq<char>) -> Option<
    Seq<char>,
>
    decreases vars.len(),
{
    if vars.len() == 0 {
        None
    } else if vars.last().0 == name {
        Some(vars.last().1)
    } else {
        value_of(vars.drop_last(), name)
    }
}

/// The text `s` with every bound placeholder replaced by its value.
pub open spec fn render(s: Seq<char>, vars: Seq<(Seq<char>, Seq<char>)>) -> Seq<char>
    decreases s.len(),
{
    if s.len() == 0 {
        s
    } else {
        match placeholder_name(s) {
            Some(name) => match value_of(vars, name) {
                Some(value) => value + render(s.skip(name.len() as int + 3), vars),
                None => seq![s[0]] + render(s.skip(1), vars),
            },
            None => seq![s[0]] + render(s.skip(1), vars),
        }
    }
}

/// What a manifest is rendered with under `baseline`: the runtime class of
/// the baseline, bound to the name `RUNTIME_CLASS_NAME`.
pub open spec fn manifest_variables_spec(baseline: EvalBaseline) -> Seq<(Seq<char>, Seq<char>)> {
    match baseline.runtime_class_spec() {
        Some(class) => seq![("RUNTIME_CLASS_NAME"@, class)],
        None => Seq::empty(),
    }
}

/// Whether a placeholder begins at index `i` of `s` whose name `vars` binds.
pub open spec fn bound_at(s: Seq<char>, vars: Seq<(Seq<char>, Seq<char>)>, i: int) -> bool {
    match placeholder_name(s.skip(i)) {
        Some(name) => value_of(vars, name) is Some,
        None => false,
    }
}

/// Whether some placeholder in `s` has a name that `vars` binds.
pub open spec fn has_bound_placeholder(s: Seq<char>, vars: Seq<(Seq<char>, Seq<char>)>) -> bool {
    exists|i: int| 0 <= i < s.len() && #[trigger] bound_at(s, vars, i)
}

/// Whether a placeholder begins anywhere in `s`.
pub open spec fn has_placeholder(s: Seq<char>) -> bool {
    exists|i: int| 0 <= i < s.len() && (#[trigger] placeholder_name(s.skip(i))) is Some
}

/// Text in which no placeholder is bound is rendered as it is.
pub proof fn lemma_render_without_bound_placeholder(
    s: Seq<char>,
    vars: Seq<(Seq<char>, Seq<char>)>,
)
    requires
        !has_bound_placeholder(s, vars),
    ensures
        render(s, vars) == s,
    decreases s.len(),
{
    if s.len() > 0 {
        let t = s.skip(1);
        assert(s.skip(0) == s);
        assert(!bound_at(s, vars, 0));
        assert(!has_bound_placeholder(t, vars)) by {
            if has_bound_placeholder(t, vars) {
                let i = choose|i: int| 0 <= i < t.len() && #[trigger] bound_at(t, vars, i);
                assert(t.skip(i) == s.skip(i + 1));
                assert(bound_at(s, vars, i + 1));
            }
        }
        lemma_render_without_bound_placeholder(t, vars);
        assert(seq![s[0]] + t == s);
    }
}

/// Rendering is the identity on text without placeholders, whatever the
/// variables.
pub proof fn lemma_render_without_placeholder(s: Seq<char>, vars: Seq<(Seq<char>, Seq<char>)>)
    requires
        !has_placeholder(s),
    ensures
        render(s, vars) == s,
{
    lemma_render_without_bound_placeholder(s, vars);
}

/// With no variable bound, rendering changes nothing.
pub proof fn lemma_render_without_variables(s: Seq<char>)
    ensures
        render(s, Seq::empty()) == s,
{
    lemma_render_without_bound_placeholder(s, Seq::empty());
}

fn is_name_start_char(c: char) -> (b: bool)
    ensures
        b == is_name_start(c),
{
    let n: u32 = c as u32;
    (0x61 <= n && n <= 0x7A) || (0x41 <= n && n <= 0x5A) || n == 0x5F
}

fn is_name_character(c: char) -> (b: bool)
    ensures
        b == is_name_char(c),
{
    let n: u32 = c as u32;
    is_name_start_char(c) || (0x30 <= n && n <= 0x39)
}

/// Where the placeholder that begins at `at` ends: the index of its closing
/// brace, if a placeholder begins there.
fn placeholder_end(text: &Vec<char>, at: usize) -> (end: Option<usize>)
    requires
        at < text.len(),
    ensures
        match end {
            Some(e) => at + 3 <= e < text.len() && placeholder_name(text@.skip(at as int))
                == Some(text@.subrange(at + 2, e as int)),
            None => placeholder_name(text@.skip(at as int)) is None,
        },
{
    let ghost s = text@.skip(at as int);
    if text.len() - at < 4 || text[at] != '$' || text[at + 1] != '{' || !is_name_start_char(
        text[at + 2],
    ) {
        return None;
    }
    let mut j: usize = at + 2;
    assert(s.skip(2) == text@.skip(j as int));
    while j < text.len() && is_name_character(text[j])
        invariant
            at + 2 <= j <= text.len(),
            name_run(text@.skip(at + 2)) == (j - (at + 2)) + name_run(text@.skip(j as int)),
        decreases text.len() - j,
    {
        assert(text@.skip(j as int)[0] == text@[j as int]);
        assert(text@.skip(j as int).drop_first() == text@.skip(j + 1));
        j += 1;
    }
    proof {
        if j < text.len() {
            assert(text@.skip(j as int)[0] == text@[j as int]);
        }
        assert(name_run(text@.skip(j as int)) == 0);
        assert(s.skip(2) == text@.skip(at + 2));
        assert(text@.skip(at + 2)[0] == text@[at + 2]);
        assert(s.subrange(2, j - at) == text@.subrange(at + 2, j as int));
    }
    if j < text.len() && text[j] == '}' {
        Some(j)
    } else {
        None
    }
}

/// The value that `vars` binds to the name `text[from..to]`.
fn lookup<'a>(vars: &'a Vec<(String, String)>, text: &Vec<char>, from: usize, to: usize) -> (value:
    Option<&'a String>)
    requires
        from <= to <= text.len(),
    ensures
        match value {
            Some(v) => value_of(vars.deep_view(), text@.subrange(from as int, to as int)) == Some(
                v@,
            ),
            None => value_of(vars.deep_view(), text@.subrange(from as int, to as int)) is None,
        },
{
    let ghost name = text@.subrange(from as int, to as int);
    let ghost all = vars.deep_view();
    let wanted = string_of_range(text, from, to);
    let wanted_chars = chars_of(wanted.as_str());
    let mut k: usize = vars.len();
    assert(all.take(k as int) == all);
    while k > 0
        invariant
            k <= vars.len(),
            from <= to <= text.len(),
            all == vars.deep_view(),
            name == text@.subrange(from as int, to as int),
            wanted_chars@ == name,
            value_of(all.take(k as int), name) == value_of(all, name),
        decreases k,
    {
        let ghost upto = all.take(k as int);
        k -= 1;
        let key = chars_of(vars[k].0.as_str());
        proof {
            assert(upto.last() == all[k as int]);
            assert(all[k as int] == vars@[k as int].deep_view());
            assert(all[k as int].0 == vars@[k as int].0@);
            assert(all[k as int].1 == vars@[k as int].1@);
            assert(upto.drop_last() == all.take(k as int));
        }
        if same_chars(&key, &wanted_chars) {
            return Some(&vars[k].1);
        }
    }
    None
}

impl Eval {
    /// The variables that a manifest is rendered with under `baseline`; none
    /// for a baseline that has no runtime class.
    pub fn manifest_variables(baseline: &EvalBaseline) -> (vars: Vec<(String, String)>)
        ensures
            vars.deep_view() == manifest_variables_spec(*baseline),
    {
        let mut vars: Vec<(String, String)> = Vec::new();
        match baseline.runtime_class() {
            Some(class) => {
                vars.push((String::from_str("RUNTIME_CLASS_NAME"), class));
            },
            None => {},
        }
        assert(vars.deep_view() =~= manifest_variables_spec(*baseline));
        vars
    }

    /// Renders the manifest text `yaml_content` with the variables
    /// `env_vars`, each a name and the value bound to it.
    pub fn template_yaml(yaml_content: &str, env_vars: &Vec<(String, String)>) -> (rendered: String)
        ensures
            rendered@ == render(yaml_content@, env_vars.deep_view()),
    {
        let text = chars_of(yaml_content);
        let ghost vars = env_vars.deep_view();
        let mut rendered = String::new();
        let mut i: usize = 0;
        assert(text@.skip(0) == text@);
        while i < text.len()
            invariant
                i <= text.len(),
                text@ == yaml_content@,
                vars == env_vars.deep_view(),
                rendered@ + render(text@.skip(i as int), vars) == render(text@, vars),
            decreases text.len() - i,
        {
            let ghost rest = text@.skip(i as int);
            let ghost before = rendered@;
            let mut replaced = false;
            assert(rest[0] == text@[i as int]);
            match placeholder_end(&text, i) {
                Some(end) => {
                    match lookup(env_vars, &text, i + 2, end) {
                        Some(value) => {
                            rendered.append(value.as_str());
                            proof {
                                let name = text@.subrange(i + 2, end as int);
                                assert(rest.skip(name.len() as int + 3) == text@.skip(end + 1));
                                assert(before + (value@ + render(text@.skip(end + 1), vars)) == (
                                before + value@) + render(text@.skip(end + 1), vars));
                            }
                            i = end + 1;
                            replaced = true;
                        },
                        None => {},
                    }
                },
                None => {},
            }
            if !replaced {
                rendered.push(text[i]);
                proof {
                    assert(rest.skip(1) == text@.skip(i + 1));
                    assert(before + (seq![rest[0]] + render(text@.skip(i + 1), vars)) == before.push(
                        rest[0],
                    ) + render(text@.skip(i + 1), vars));
                }
                i += 1;
            }
        }
        assert(rendered@ + render(text@.skip(i as int), vars) == rendered@);
        rendered
    }
}

} // verus!
