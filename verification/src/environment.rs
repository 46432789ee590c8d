//! A named overlay on the top level of a manifest.

use vstd::prelude::*;
use crate::deploy_config::{RouteConfig, RouteConfigView};
use crate::kv_namespace::{
    clone_optional_namespaces, same_optional_namespaces, KvNamespace, KvNamespaceView,
};
use crate::text::{
    clone_optional_text, clone_optional_texts, same_optional_flag, same_optional_text,
    same_optional_texts,
};

verus! {

/// The fields that an environment may set for itself. A field left out is
/// `None`; what that means is decided field by field where the manifest is
/// resolved.
#[derive(Debug, PartialEq, Eq)]
pub struct Environment {
    pub name: Option<String>,
    pub account_id: Option<String>,
    pub workers_dev: Option<bool>,
    pub route: Option<String>,
    pub routes: Option<Vec<String>>,
    pub zone_id: Option<String>,
    pub webpack_config: Option<String>,
    pub kv_namespaces: Option<Vec<KvNamespace>>,
}

pub struct EnvironmentView {
    pub name: Option<Seq<char>>,
    pub account_id: Option<Seq<char>>,
    pub workers_dev: Option<bool>,
    pub route: Option<Seq<char>>,
    pub routes: Option<Seq<Seq<char>>>,
    pub zone_id: Option<Seq<char>>,
    pub webpack_config: Option<Seq<char>>,
    pub kv_namespaces: Option<Seq<KvNamespaceView>>,
}

impl DeepView for Environment {
    type V = EnvironmentView;

    open spec fn deep_view(&self) -> EnvironmentView {
        EnvironmentView {
            name: self.name.deep_view(),
            account_id: self.account_id.deep_view(),
            workers_dev: self.workers_dev,
            route: self.route.deep_view(),
            routes: self.routes.deep_view(),
            zone_id: self.zone_id.deep_view(),
            webpack_config: self.webpack_config.deep_view(),
            kv_namespaces: self.kv_namespaces.deep_view(),
        }
    }
}

impl View for Environment {
    type V = EnvironmentView;

    open spec fn view(&self) -> EnvironmentView {
        self.deep_view()
    }
}

impl Clone for Environment {
    fn clone(&self) -> (r: Self)
        ensures
            r@ == self@,
    {
        Environment {
            name: clone_optional_text(&self.name),
            account_id: clone_optional_text(&self.account_id),
            workers_dev: self.workers_dev,
            route: clone_optional_text(&self.route),
            routes: clone_optional_texts(&self.routes),
            zone_id: clone_optional_text(&self.zone_id),
            webpack_config: clone_optional_text(&self.webpack_config),
            kv_namespaces: clone_optional_namespaces(&self.kv_namespaces),
        }
    }
}

impl Default for Environment {
    fn default() -> (r: Self)
        ensures
            r@ == EnvironmentView::unset(),
    {
        Environment {
            name: None,
            account_id: None,
            workers_dev: None,
            route: None,
            routes: None,
            zone_id: None,
            webpack_config: None,
            kv_namespaces: None,
        }
    }
}

impl EnvironmentView {
    /// The environment that sets nothing.
    pub open spec fn unset() -> EnvironmentView {
        EnvironmentView {
            name: None,
            account_id: None,
            workers_dev: None,
            route: None,
            routes: None,
            zone_id: None,
            webpack_config: None,
            kv_namespaces: None,
        }
    }

    /// The environment says something of its own about routing.
    pub open spec fn supplies_routing(self) -> bool {
        self.workers_dev.is_some() || self.route.is_some() || self.routes.is_some()
    }

    /// The routing inputs of an environment that supplies some: its own
    /// routing fields and nothing of the top level's, with the account and the
    /// zone taken from the top level where the environment has none.
    pub open spec fn route_config(
        self,
        top_level_account_id: Seq<char>,
        top_level_zone_id: Option<Seq<char>>,
    ) -> Option<RouteConfigView> {
        if self.supplies_routing() {
            Some(
                RouteConfigView {
                    workers_dev: self.workers_dev,
                    route: self.route,
                    routes: self.routes,
                    zone_id: if self.zone_id.is_some() {
                        self.zone_id
                    } else {
                        top_level_zone_id
                    },
                    account_id: if self.account_id.is_some() {
                        self.account_id
                    } else {
                        Some(top_level_account_id)
                    },
                },
            )
        } else {
            None
        }
    }
}

impl Environment {
    /// Whether the two environments hold the same values.
    pub fn same_as(&self, other: &Environment) -> (r: bool)
        ensures
            r == (self@ == other@),
    {
        same_optional_text(&self.name, &other.name) && same_optional_text(
            &self.account_id,
            &other.account_id,
        ) && same_optional_flag(self.workers_dev, other.workers_dev) && same_optional_text(
            &self.route,
            &other.route,
        ) && same_optional_texts(&self.routes, &other.routes) && same_optional_text(
            &self.zone_id,
            &other.zone_id,
        ) && same_optional_text(&self.webpack_config, &other.webpack_config)
            && same_optional_namespaces(&self.kv_namespaces, &other.kv_namespaces)
    }

    pub fn supplies_routing(&self) -> (r: bool)
        ensures
            r == self@.supplies_routing(),
    {
        self.workers_dev.is_some() || self.route.is_some() || self.routes.is_some()
    }

    pub fn route_config(
        &self,
        top_level_account_id: String,
        top_level_zone_id: Option<String>,
    ) -> (r: Option<RouteConfig>)
        ensures
            r.deep_view() == self@.route_config(
                top_level_account_id@,
                top_level_zone_id.deep_view(),
            ),
    {
        if !self.supplies_routing() {
            return None;
        }
        let account_id = match &self.account_id {
            Some(a) => Some(a.clone()),
            None => Some(top_level_account_id),
        };
        let zone_id = match &self.zone_id {
            Some(z) => Some(z.clone()),
            None => top_level_zone_id,
        };
        Some(
            RouteConfig {
                workers_dev: self.workers_dev,
                route: clone_optional_text(&self.route),
                routes: clone_optional_texts(&self.routes),
                zone_id,
                account_id,
            },
        )
    }
}

} // verus!
