//! Small helpers on text values, stated over their character sequences.

use vstd::prelude::*;

verus! {

/// An optional text counts as set when it is present and not empty.
pub open spec fn text_set(t: Option<Seq<char>>) -> bool {
    t matches Some(s) && s.len() > 0
}

/// An optional list counts as filled when it is present and holds an entry.
pub open spec fn list_filled(l: Option<Seq<Seq<char>>>) -> bool {
    l matches Some(s) && s.len() > 0
}

/// The text of an optional value that is set, the empty text otherwise.
pub open spec fn text_or_empty(t: Option<Seq<char>>) -> Seq<char> {
    match t {
        Some(s) => s,
        None => Seq::empty(),
    }
}

pub fn same_text(a: &str, b: &str) -> (r: bool)
    ensures
        r == (a@ == b@),
{
    let left = a.to_owned();
    let right = b.to_owned();
    left == right
}

pub fn is_text_set(t: &Option<String>) -> (r: bool)
    ensures
        r == text_set(t.deep_view()),
{
    match t {
        Some(s) => !s.as_str().is_empty(),
        None => false,
    }
}

pub fn is_list_filled(l: &Option<Vec<String>>) -> (r: bool)
    ensures
        r == list_filled(l.deep_view()),
{
    match l {
        Some(v) => v.len() > 0,
        None => false,
    }
}

pub fn clone_texts(v: &Vec<String>) -> (r: Vec<String>)
    ensures
        r.deep_view() == v.deep_view(),
{
    let r = v.clone();
    assert(r@ =~= v@);
    assert(r.deep_view() =~= v.deep_view());
    r
}

pub fn clone_optional_text(t: &Option<String>) -> (r: Option<String>)
    ensures
        r.deep_view() == t.deep_view(),
{
    match t {
        Some(s) => Some(s.clone()),
        None => None,
    }
}

pub fn clone_optional_texts(l: &Option<Vec<String>>) -> (r: Option<Vec<String>>)
    ensures
        r.deep_view() == l.deep_view(),
{
    match l {
        Some(v) => Some(clone_texts(v)),
        None => None,
    }
}

/// The text `a`, then `b`, then `c`.
pub fn join_three(a: &str, b: &str, c: &str) -> (r: String)
    ensures
        r@ == a@ + b@ + c@,
{
    let mut r = a.to_owned();
    r.append(b);
    r.append(c);
    r
}

/// Whether two optional texts are the same.
pub fn same_optional_text(a: &Option<String>, b: &Option<String>) -> (r: bool)
    ensures
        r == (a.deep_view() == b.deep_view()),
{
    match (a, b) {
        (Some(x), Some(y)) => *x == *y,
        (None, None) => true,
        _ => false,
    }
}

/// Whether two optional flags are the same.
pub fn same_optional_flag(a: Option<bool>, b: Option<bool>) -> (r: bool)
    ensures
        r == (a == b),
{
    match (a, b) {
        (Some(x), Some(y)) => x == y,
        (None, None) => true,
        _ => false,
    }
}

/// Whether two lists hold the same texts in the same order.
pub fn same_texts(a: &Vec<String>, b: &Vec<String>) -> (r: bool)
    ensures
        r == (a.deep_view() == b.deep_view()),
{
    if a.len() != b.len() {
        assert(a.deep_view().len() != b.deep_view().len());
        return false;
    }
    let mut i: usize = 0;
    while i < a.len()
        invariant
            i <= a.len(),
            a.len() == b.len(),
            forall|j: int| 0 <= j < i ==> a.deep_view()[j] == b.deep_view()[j],
        decreases a.len() - i,
    {
        if a[i] != b[i] {
            assert(a.deep_view()[i as int] != b.deep_view()[i as int]);
            return false;
        }
        i += 1;
    }
    assert(a.deep_view() =~= b.deep_view());
    true
}

/// Whether two optional lists of texts are the same.
pub fn same_optional_texts(a: &Option<Vec<String>>, b: &Option<Vec<String>>) -> (r: bool)
    ensures
        r == (a.deep_view() == b.deep_view()),
{
    match (a, b) {
        (Some(x), Some(y)) => same_texts(x, y),
        (None, None) => true,
        _ => false,
    }
}

} // verus!
