//! A key-value namespace bound to a worker.

use vstd::prelude::*;
use crate::text::{clone_optional_text, same_optional_text};

verus! {

#[derive(Debug, PartialEq, Eq)]
pub struct KvNamespace {
    pub id: String,
    pub binding: String,
    pub bucket: Option<String>,
}

pub struct KvNamespaceView {
    pub id: Seq<char>,
    pub binding: Seq<char>,
    pub bucket: Option<Seq<char>>,
}

impl DeepView for KvNamespace {
    type V = KvNamespaceView;

    open spec fn deep_view(&self) -> KvNamespaceView {
        KvNamespaceView {
            id: self.id@,
            binding: self.binding@,
            bucket: self.bucket.deep_view(),
        }
    }
}

impl View for KvNamespace {
    type V = KvNamespaceView;

    open spec fn view(&self) -> KvNamespaceView {
        self.deep_view()
    }
}

impl Clone for KvNamespace {
    fn clone(&self) -> (r: Self)
        ensures
            r@ == self@,
    {
        KvNamespace {
            id: self.id.clone(),
            binding: self.binding.clone(),
            bucket: clone_optional_text(&self.bucket),
        }
    }
}

pub fn clone_namespaces(v: &Vec<KvNamespace>) -> (r: Vec<KvNamespace>)
    ensures
        r.deep_view() == v.deep_view(),
{
    let mut r: Vec<KvNamespace> = Vec::new();
    let mut i: usize = 0;
    while i < v.len()
        invariant
            i <= v.len(),
            r.len() == i,
            forall|j: int| 0 <= j < i ==> r[j]@ == v[j]@,
        decreases v.len() - i,
    {
        r.push(v[i].clone());
        i += 1;
    }
    assert(r.deep_view() =~= v.deep_view());
    r
}

pub fn clone_optional_namespaces(l: &Option<Vec<KvNamespace>>) -> (r: Option<Vec<KvNamespace>>)
    ensures
        r.deep_view() == l.deep_view(),
{
    match l {
        Some(v) => Some(clone_namespaces(v)),
        None => None,
    }
}

impl KvNamespace {
    /// Whether the two namespaces hold the same values.
    pub fn same_as(&self, other: &KvNamespace) -> (r: bool)
        ensures
            r == (self@ == other@),
    {
        self.id == other.id && self.binding == other.binding && same_optional_text(
            &self.bucket,
            &other.bucket,
        )
    }
}

/// Whether two lists hold the same namespaces in the same order.
pub fn same_namespaces(a: &Vec<KvNamespace>, b: &Vec<KvNamespace>) -> (r: bool)
    ensures
        r == (a.deep_view() == b.deep_view()),
{
    if a.len() != b.len() {
        assert(a.deep_view().len() != b.deep_view().len());
        return false;
    }
    let mut i: usize = 0;
    while i < a.len()
        invariant
            i <= a.len(),
            a.len() == b.len(),
            forall|j: int| 0 <= j < i ==> a.deep_view()[j] == b.deep_view()[j],
        decreases a.len() - i,
    {
        if !a[i].same_as(&b[i]) {
            assert(a.deep_view()[i as int] != b.deep_view()[i as int]);
            return false;
        }
        i += 1;
    }
    assert(a.deep_view() =~= b.deep_view());
    true
}

/// Whether two optional lists of namespaces are the same.
pub fn same_optional_namespaces(a: &Option<Vec<KvNamespace>>, b: &Option<Vec<KvNamespace>>) -> (r:
    bool)
    ensures
        r == (a.deep_view() == b.deep_view()),
{
    match (a, b) {
        (Some(x), Some(y)) => same_namespaces(x, y),
        (None, None) => true,
        _ => false,
    }
}

} // verus!
