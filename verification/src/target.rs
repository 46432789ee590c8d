//! What is built and uploaded for one environment.

use vstd::prelude::*;
use crate::kv_namespace::{clone_optional_namespaces, KvNamespace, KvNamespaceView};
use crate::site::{clone_optional_site, Site, SiteView};
use crate::target_type::TargetType;
use crate::text::clone_optional_text;

verus! {

/// The resolved values of a manifest for one environment, or for none.
#[derive(Debug, PartialEq, Eq)]
pub struct Target {
    pub account_id: String,
    pub kv_namespaces: Option<Vec<KvNamespace>>,
    pub name: String,
    pub target_type: TargetType,
    pub webpack_config: Option<String>,
    pub site: Option<Site>,
}

pub struct TargetView {
    pub account_id: Seq<char>,
    pub kv_namespaces: Option<Seq<KvNamespaceView>>,
    pub name: Seq<char>,
    pub target_type: TargetType,
    pub webpack_config: Option<Seq<char>>,
    pub site: Option<SiteView>,
}

impl DeepView for Target {
    type V = TargetView;

    open spec fn deep_view(&self) -> TargetView {
        TargetView {
            account_id: self.account_id@,
            kv_namespaces: self.kv_namespaces.deep_view(),
            name: self.name@,
            target_type: self.target_type,
            webpack_config: self.webpack_config.deep_view(),
            site: self.site.deep_view(),
        }
    }
}

impl View for Target {
    type V = TargetView;

    open spec fn view(&self) -> TargetView {
        self.deep_view()
    }
}

impl Clone for Target {
    fn clone(&self) -> (r: Self)
        ensures
            r@ == self@,
    {
        Target {
            account_id: self.account_id.clone(),
            kv_namespaces: clone_optional_namespaces(&self.kv_namespaces),
            name: self.name.clone(),
            target_type: self.target_type,
            webpack_config: clone_optional_text(&self.webpack_config),
            site: clone_optional_site(&self.site),
        }
    }
}

} // verus!
