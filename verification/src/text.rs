//! Text operations on the editor's strings, stated over their character sequences.

use vstd::prelude::*;

verus! {

/// `t` with every occurrence of the placeholder `{}` replaced by `v`, scanning
/// from the left; occurrences do not overlap.
pub open spec fn fill(t: Seq<char>, v: Seq<char>) -> Seq<char>
    decreases t.len(),
{
    if t.len() == 0 {
        t
    } else if t.len() >= 2 && t[0] == '{' && t[1] == '}' {
        v + fill(t.skip(2), v)
    } else {
        seq![t[0]] + fill(t.skip(1), v)
    }
}

/// Whether `t` holds the placeholder `{}` anywhere.
pub open spec fn has_placeholder(t: Seq<char>) -> bool {
    exists|i: int| 0 <= i && i + 1 < t.len() && t[i] == '{' && #[trigger] t[i + 1] == '}'
}

/// Whether `s` begins with `p`.
pub open spec fn starts_with_spec(s: Seq<char>, p: Seq<char>) -> bool {
    p.len() <= s.len() && s.take(p.len() as int) == p
}

/// The characters of an optional string.
pub open spec fn opt_view(o: Option<String>) -> Option<Seq<char>> {
    match o {
        Some(s) => Some(s@),
        None => None,
    }
}

/// A string of the library holding the characters of `s`.
pub fn text(s: &str) -> (r: String)
    ensures
        r@ == s@,
{
    String::from_str(s)
}

/// Whether two texts are equal.
pub fn text_eq(a: &str, b: &str) -> (r: bool)
    ensures
        r == (a@ == b@),
{
    let x = String::from_str(a);
    let y = String::from_str(b);
    x == y
}

/// Whether `s` is empty.
pub fn is_empty(s: &str) -> (r: bool)
    ensures
        r == (s@.len() == 0),
{
    s.unicode_len() == 0
}

/// `a` followed by `b`.
pub fn concat_text(a: &str, b: &str) -> (r: String)
    ensures
        r@ == a@ + b@,
{
    let mut r = String::from_str(a);
    r.append(b);
    r
}

/// Whether `s` begins with `p`.
pub fn starts_with(s: &str, p: &str) -> (r: bool)
    ensures
        r == starts_with_spec(s@, p@),
{
    let n = s.unicode_len();
    let m = p.unicode_len();
    if m > n {
        return false;
    }
    let mut i: usize = 0;
    while i < m
        invariant
            n == s@.len(),
            m == p@.len(),
            m <= n,
            i <= m,
            forall|j: int| 0 <= j < i ==> s@[j] == p@[j],
        decreases m - i,
    {
        if s.get_char(i) != p.get_char(i) {
            assert(s@.take(m as int)[i as int] != p@[i as int]);
            return false;
        }
        i = i + 1;
    }
    assert(s@.take(m as int) =~= p@);
    true
}

/// Every `{}` in `template` replaced by `value`.
pub fn fill_placeholder(template: &str, value: &str) -> (r: String)
    ensures
        r@ == fill(template@, value@),
{
    let n = template.unicode_len();
    let mut out = String::new();
    let mut i: usize = 0;
    assert(template@.skip(0) =~= template@);
    while i < n
        invariant
            n == template@.len(),
            i <= n,
            fill(template@, value@) == out@ + fill(template@.skip(i as int), value@),
        decreases n - i,
    {
        let ghost rest = template@.skip(i as int);
        if i + 1 < n && template.get_char(i) == '{' && template.get_char(i + 1) == '}' {
            assert(rest.skip(2) =~= template@.skip(i + 2));
            out.append(value);
            i = i + 2;
        } else {
            assert(rest.skip(1) =~= template@.skip(i + 1));
            let one = template.substring_char(i, i + 1);
            assert(one@ =~= seq![rest[0]]);
            out.append(one);
            i = i + 1;
        }
    }
    assert(template@.skip(n as int) =~= Seq::<char>::empty());
    assert(out@ + Seq::<char>::empty() =~= out@);
    out
}

/// Whether `items` holds a string equal to `s`.
pub fn contains_text(items: &Vec<String>, s: &str) -> (r: bool)
    ensures
        r == (exists|i: int| 0 <= i < items@.len() && #[trigger] items@[i]@ == s@),
{
    let mut i: usize = 0;
    while i < items.len()
        invariant
            i <= items@.len(),
            forall|j: int| 0 <= j < i ==> #[trigger] items@[j]@ != s@,
        decreases items@.len() - i,
    {
        if text_eq(items[i].as_str(), s) {
            return true;
        }
        i = i + 1;
    }
    false
}

} // verus!
