use vstd::prelude::*;

use crate::domain::opt_text;
use crate::text::{chars_of, has_prefix, push_char};

verus! {

/// `s` with every occurrence of `pattern` replaced by `with`, scanning from
/// the left and never reusing replaced characters (as `str::replace` does).
pub open spec fn replace_all(s: Seq<char>, pattern: Seq<char>, with: Seq<char>) -> Seq<char>
    decreases s.len(),
{
    if s.len() == 0 || pattern.len() == 0 {
        s
    } else if has_prefix(s, pattern) {
        with + replace_all(s.skip(pattern.len() as int), pattern, with)
    } else {
        seq![s[0]] + replace_all(s.skip(1), pattern, with)
    }
}

/// Whether `pattern` occurs in `cs` at position `i`.
fn matches_at(cs: &Vec<char>, i: usize, pattern: &Vec<char>) -> (r: bool)
    requires
        i <= cs@.len(),
    ensures
        r == has_prefix(cs@.skip(i as int), pattern@),
{
    if pattern.len() > cs.len() - i {
        return false;
    }
    let mut j: usize = 0;
    while j < pattern.len()
        invariant
            i + pattern@.len() <= cs@.len(),
            cs@.len() == cs.len(),
            j <= pattern@.len(),
            forall|k: int| 0 <= k < j ==> cs@[i + k] == pattern@[k],
        decreases pattern@.len() - j,
    {
        if cs[i + j] != pattern[j] {
            assert(cs@.skip(i as int).take(pattern@.len() as int)[j as int] != pattern@[j as int]);
            return false;
        }
        j = j + 1;
    }
    assert(cs@.skip(i as int).take(pattern@.len() as int) =~= pattern@);
    true
}

/// Whether `pattern` occurs somewhere in `s`.
pub open spec fn occurs_in(pattern: Seq<char>, s: Seq<char>) -> bool {
    exists|i: int| 0 <= i <= s.len() && #[trigger] has_prefix(s.skip(i), pattern)
}

/// Whether `pattern` occurs somewhere in `s`.
pub fn contains_text(s: &str, pattern: &str) -> (r: bool)
    ensures
        r == occurs_in(pattern@, s@),
{
    let cs = chars_of(s);
    let ps = chars_of(pattern);
    let mut i: usize = 0;
    while i < cs.len()
        invariant
            cs@ == s@,
            ps@ == pattern@,
            i <= cs@.len(),
            cs@.len() == cs.len(),
            forall|j: int| 0 <= j < i ==> !has_prefix(#[trigger] s@.skip(j), pattern@),
        decreases cs@.len() - i,
    {
        if matches_at(&cs, i, &ps) {
            return true;
        }
        i = i + 1;
    }
    if matches_at(&cs, i, &ps) {
        return true;
    }
    assert forall|j: int| 0 <= j <= s@.len() implies !has_prefix(#[trigger] s@.skip(j), pattern@) by {
        if j == i {
        }
    }
    false
}

/// `s` with every occurrence of the non-empty `pattern` replaced by `with`.
pub fn replace_text(s: &str, pattern: &str, with: &str) -> (r: String)
    requires
        pattern@.len() > 0,
    ensures
        r@ == replace_all(s@, pattern@, with@),
{
    let cs = chars_of(s);
    let ps = chars_of(pattern);
    let mut out = String::new();
    let mut i: usize = 0;
    assert(cs@.skip(0) =~= cs@);
    while i < cs.len()
        invariant
            cs@ == s@,
            ps@ == pattern@,
            ps@.len() > 0,
            i <= cs@.len(),
            out@ + replace_all(cs@.skip(i as int), ps@, with@) == replace_all(s@, pattern@, with@),
        decreases cs@.len() - i,
    {
        let ghost rest = cs@.skip(i as int);
        if matches_at(&cs, i, &ps) {
            out.append(with);
            assert(rest.skip(ps@.len() as int) =~= cs@.skip(i + ps@.len()));
            i = i + ps.len();
        } else {
            push_char(&mut out, cs[i]);
            assert(rest.skip(1) =~= cs@.skip(i + 1));
            assert(rest[0] == cs@[i as int]);
            i = i + 1;
        }
    }
    assert(cs@.skip(i as int).len() == 0);
    assert(out@ + replace_all(cs@.skip(i as int), ps@, with@) =~= out@);
    out
}

/// A value given for a template variable: its name and, when the given
/// value is a string, that string.
pub struct TemplateVariable {
    pub name: String,
    pub value: Option<String>,
}

/// The placeholder of a variable: `{{name}}`.
pub open spec fn placeholder(name: Seq<char>) -> Seq<char> {
    "{{"@ + name + "}}"@
}

/// The text a variable stands for: its string value, else nothing.
pub open spec fn value_text(value: Option<Seq<char>>) -> Seq<char> {
    match value {
        Some(v) => v,
        None => Seq::empty(),
    }
}

/// The variables as name and text pairs.
pub open spec fn variable_pairs(vars: Seq<TemplateVariable>) -> Seq<(Seq<char>, Seq<char>)> {
    vars.map_values(|v: TemplateVariable| (v.name@, value_text(opt_text(v.value))))
}

/// `text` with the placeholders of `vars` substituted, one variable after
/// the other in the given order.
pub open spec fn render_text(text: Seq<char>, vars: Seq<(Seq<char>, Seq<char>)>) -> Seq<char>
    decreases vars.len(),
{
    if vars.len() == 0 {
        text
    } else {
        replace_all(
            render_text(text, vars.drop_last()),
            placeholder(vars.last().0),
            vars.last().1,
        )
    }
}

/// The placeholder `{{name}}` of a variable.
fn placeholder_of(name: &str) -> (r: String)
    ensures
        r@ == placeholder(name@),
        r@.len() > 0,
{
    proof {
        reveal_strlit("{{");
    }
    let mut r = String::from_str("{{");
    r.append(name);
    r.append("}}");
    r
}

/// `text` with the placeholders of `vars` substituted in order.
pub fn render(text: &str, vars: &Vec<TemplateVariable>) -> (r: String)
    ensures
        r@ == render_text(text@, variable_pairs(vars@)),
{
    let mut out = String::from_str(text);
    for i in 0..vars.len()
        invariant
            out@ == render_text(text@, variable_pairs(vars@).take(i as int)),
    {
        let var = &vars[i];
        let pattern = placeholder_of(var.name.as_str());
        let value = match &var.value {
            Some(v) => v.clone(),
            None => String::new(),
        };
        let next = replace_text(out.as_str(), pattern.as_str(), value.as_str());
        proof {
            let pairs = variable_pairs(vars@);
            assert(pairs.take(i + 1).drop_last() =~= pairs.take(i as int));
            assert(pairs.take(i + 1).last() == pairs[i as int]);
        }
        out = next;
    }
    assert(variable_pairs(vars@).take(vars@.len() as int) =~= variable_pairs(vars@));
    out
}

} // verus!
