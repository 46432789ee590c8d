//! The static-site section of a manifest.

use vstd::prelude::*;
use crate::text::{clone_optional_text, same_optional_text};

verus! {

/// Where the static assets of a site project live.
#[derive(Debug, PartialEq, Eq)]
pub struct Site {
    pub bucket: String,
    pub entry_point: Option<String>,
}

pub struct SiteView {
    pub bucket: Seq<char>,
    pub entry_point: Option<Seq<char>>,
}

impl DeepView for Site {
    type V = SiteView;

    open spec fn deep_view(&self) -> SiteView {
        SiteView { bucket: self.bucket@, entry_point: self.entry_point.deep_view() }
    }
}

impl View for Site {
    type V = SiteView;

    open spec fn view(&self) -> SiteView {
        self.deep_view()
    }
}

impl Clone for Site {
    fn clone(&self) -> (r: Self)
        ensures
            r@ == self@,
    {
        Site { bucket: self.bucket.clone(), entry_point: clone_optional_text(&self.entry_point) }
    }
}

pub fn clone_optional_site(s: &Option<Site>) -> (r: Option<Site>)
    ensures
        r.deep_view() == s.deep_view(),
{
    match s {
        Some(v) => Some(v.clone()),
        None => None,
    }
}

impl Site {
    /// Whether the two sites hold the same values.
    pub fn same_as(&self, other: &Site) -> (r: bool)
        ensures
            r == (self@ == other@),
    {
        self.bucket == other.bucket && same_optional_text(&self.entry_point, &other.entry_point)
    }
}

/// Whether two optional sites are the same.
pub fn same_optional_site(a: &Option<Site>, b: &Option<Site>) -> (r: bool)
    ensures
        r == (a.deep_view() == b.deep_view()),
{
    match (a, b) {
        (Some(x), Some(y)) => x.same_as(y),
        (None, None) => true,
        _ => false,
    }
}

} // verus!
