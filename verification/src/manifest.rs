//! The manifest and the queries that resolve it for one environment.

use vstd::prelude::*;
use crate::deploy_config::{
    outcome_view, resolve, DeployConfig, DeployConfigView, RouteConfig, RouteConfigView,
    RouteError,
};
use crate::environment::{Environment, EnvironmentView};
use crate::environments::Environments;
use crate::error::{DeployError, DeployErrorView, LookupError};
use crate::kv_namespace::{
    clone_optional_namespaces, same_optional_namespaces, KvNamespace, KvNamespaceView,
};
use crate::site::{clone_optional_site, same_optional_site, Site, SiteView};
use crate::target::{Target, TargetView};
use crate::target_type::TargetType;
use crate::text::{
    clone_optional_text, clone_optional_texts, join_three, same_optional_flag, same_optional_text,
    same_optional_texts,
};

verus! {

/// The top level of a manifest and its environments.
#[derive(Debug)]
pub struct Manifest {
    pub name: String,
    pub target_type: TargetType,
    pub account_id: String,
    pub workers_dev: Option<bool>,
    pub route: Option<String>,
    pub routes: Option<Vec<String>>,
    pub zone_id: Option<String>,
    pub webpack_config: Option<String>,
    pub private: Option<bool>,
    pub site: Option<Site>,
    pub kv_namespaces: Option<Vec<KvNamespace>>,
    pub env: Environments,
}

pub struct ManifestView {
    pub name: Seq<char>,
    pub target_type: TargetType,
    pub account_id: Seq<char>,
    pub workers_dev: Option<bool>,
    pub route: Option<Seq<char>>,
    pub routes: Option<Seq<Seq<char>>>,
    pub zone_id: Option<Seq<char>>,
    pub webpack_config: Option<Seq<char>>,
    pub private: Option<bool>,
    pub site: Option<SiteView>,
    pub kv_namespaces: Option<Seq<KvNamespaceView>>,
    pub env: Map<Seq<char>, EnvironmentView>,
}

impl DeepView for Manifest {
    type V = ManifestView;

    open spec fn deep_view(&self) -> ManifestView {
        ManifestView {
            name: self.name@,
            target_type: self.target_type,
            account_id: self.account_id@,
            workers_dev: self.workers_dev,
            route: self.route.deep_view(),
            routes: self.routes.deep_view(),
            zone_id: self.zone_id.deep_view(),
            webpack_config: self.webpack_config.deep_view(),
            private: self.private,
            site: self.site.deep_view(),
            kv_namespaces: self.kv_namespaces.deep_view(),
            env: self.env@,
        }
    }
}

impl View for Manifest {
    type V = ManifestView;

    open spec fn view(&self) -> ManifestView {
        self.deep_view()
    }
}

/// Two manifests are equal where they hold the same values; the order of
/// the environments does not count.
impl PartialEq for Manifest {
    fn eq(&self, other: &Self) -> (r: bool) {
        self.same_as(other)
    }
}

impl Eq for Manifest {

}

impl vstd::std_specs::cmp::PartialEqSpecImpl for Manifest {
    open spec fn obeys_eq_spec() -> bool {
        true
    }

    open spec fn eq_spec(&self, other: &Self) -> bool {
        self@ == other@
    }
}

impl Clone for Manifest {
    fn clone(&self) -> (r: Self)
        ensures
            r@ == self@,
    {
        Manifest {
            name: self.name.clone(),
            target_type: self.target_type,
            account_id: self.account_id.clone(),
            workers_dev: self.workers_dev,
            route: clone_optional_text(&self.route),
            routes: clone_optional_texts(&self.routes),
            zone_id: clone_optional_text(&self.zone_id),
            webpack_config: clone_optional_text(&self.webpack_config),
            private: self.private,
            site: clone_optional_site(&self.site),
            kv_namespaces: clone_optional_namespaces(&self.kv_namespaces),
            env: self.env.clone(),
        }
    }
}

impl Default for Manifest {
    fn default() -> (r: Self)
        ensures
            r@ == ManifestView::blank(),
    {
        Manifest {
            name: String::new(),
            target_type: TargetType::Webpack,
            account_id: String::new(),
            workers_dev: None,
            route: None,
            routes: None,
            zone_id: None,
            webpack_config: None,
            private: None,
            site: None,
            kv_namespaces: None,
            env: Environments::new(),
        }
    }
}

impl ManifestView {
    /// The manifest that says nothing: no name, no account, no environment,
    /// built by webpack.
    pub open spec fn blank() -> ManifestView {
        ManifestView {
            name: Seq::empty(),
            target_type: TargetType::Webpack,
            account_id: Seq::empty(),
            workers_dev: None,
            route: None,
            routes: None,
            zone_id: None,
            webpack_config: None,
            private: None,
            site: None,
            kv_namespaces: None,
            env: Map::empty(),
        }
    }

    /// The environment that a query names. No name selects the top level
    /// alone; a name must be that of an environment of the manifest.
    pub open spec fn lookup(self, name: Option<Seq<char>>) -> Result<
        Option<EnvironmentView>,
        LookupError,
    > {
        match name {
            None => Ok(None),
            Some(n) => if self.env.is_empty() {
                Err(LookupError::NoEnvironmentsDefined)
            } else if !self.env.contains_key(n) {
                Err(LookupError::UnknownEnvironment)
            } else {
                Ok(Some(self.env[n]))
            },
        }
    }

    /// The name under which the worker of an environment is deployed: the
    /// name that the environment gives itself, else the top-level name, a
    /// hyphen and the environment's name. Without an environment, or with
    /// one that the manifest does not have, it is the top-level name.
    pub open spec fn worker_name(self, name: Option<Seq<char>>) -> Seq<char> {
        match self.lookup(name) {
            Ok(Some(environment)) => match environment.name {
                Some(own) => own,
                None => self.name + seq!['-'] + name.unwrap(),
            },
            _ => self.name,
        }
    }

    /// The routing inputs of the top level.
    pub open spec fn route_config(self) -> RouteConfigView {
        RouteConfigView {
            workers_dev: self.workers_dev,
            route: self.route,
            routes: self.routes,
            zone_id: self.zone_id,
            account_id: Some(self.account_id),
        }
    }

    /// The build mode of every target of the manifest: a site is always
    /// built by webpack, whatever the manifest declares.
    pub open spec fn effective_type(self) -> TargetType {
        if self.site.is_some() {
            TargetType::Webpack
        } else {
            self.target_type
        }
    }

    /// The target of an environment, field by field: the build mode and the
    /// site are the top level's; the account and the webpack configuration
    /// are the environment's where it has them, else the top level's; the
    /// namespaces are the environment's own and never the top level's.
    pub open spec fn target(self, name: Option<Seq<char>>) -> Result<TargetView, LookupError> {
        match self.lookup(name) {
            Err(e) => Err(e),
            Ok(None) => Ok(
                TargetView {
                    account_id: self.account_id,
                    kv_namespaces: self.kv_namespaces,
                    name: self.name,
                    target_type: self.effective_type(),
                    webpack_config: self.webpack_config,
                    site: self.site,
                },
            ),
            Ok(Some(environment)) => Ok(
                TargetView {
                    account_id: match environment.account_id {
                        Some(own) => own,
                        None => self.account_id,
                    },
                    kv_namespaces: environment.kv_namespaces,
                    name: self.worker_name(name),
                    target_type: self.effective_type(),
                    webpack_config: if environment.webpack_config.is_some() {
                        environment.webpack_config
                    } else {
                        self.webpack_config
                    },
                    site: self.site,
                },
            ),
        }
    }

    /// The deployment of an environment, given the caller's verdict on the
    /// worker name. An environment that supplies routing of its own is
    /// resolved on that alone. One that supplies none takes the top level's
    /// deployment, unless that is a zoned one: a zone needs routes that the
    /// environment names itself.
    pub open spec fn deploy_config(self, name: Option<Seq<char>>, name_is_valid: bool) -> Result<
        DeployConfigView,
        DeployErrorView,
    > {
        let script = self.worker_name(name);
        if !name_is_valid {
            Err(DeployErrorView::InvalidName(script))
        } else {
            match self.lookup(name) {
                Err(e) => Err(DeployErrorView::Lookup(e)),
                Ok(None) => routed(resolve(script, self.route_config(), false)),
                Ok(Some(environment)) => match environment.route_config(
                    self.account_id,
                    self.zone_id,
                ) {
                    Some(own) => routed(resolve(script, own, false)),
                    None => match resolve(script, self.route_config(), false) {
                        Ok(DeployConfigView::Zoned(_)) => Err(
                            DeployErrorView::Route(RouteError::EnvironmentRouteRequired),
                        ),
                        other => routed(other),
                    },
                },
            }
        }
    }
}

/// The outcome of route resolution as an outcome of the whole query.
pub open spec fn routed(r: Result<DeployConfigView, RouteError>) -> Result<
    DeployConfigView,
    DeployErrorView,
> {
    match r {
        Ok(c) => Ok(c),
        Err(e) => Err(DeployErrorView::Route(e)),
    }
}

/// The view of an outcome of a deployment query.
pub open spec fn deploy_outcome_view(r: Result<DeployConfig, DeployError>) -> Result<
    DeployConfigView,
    DeployErrorView,
> {
    match r {
        Ok(c) => Ok(c@),
        Err(e) => Err(e@),
    }
}

/// The view of an outcome of a target query.
pub open spec fn target_outcome_view(r: Result<Target, LookupError>) -> Result<
    TargetView,
    LookupError,
> {
    match r {
        Ok(t) => Ok(t@),
        Err(e) => Err(e),
    }
}

/// The view of an outcome of an environment lookup.
pub open spec fn lookup_outcome_view(r: Result<Option<&Environment>, LookupError>) -> Result<
    Option<EnvironmentView>,
    LookupError,
> {
    match r {
        Ok(found) => Ok(found.deep_view()),
        Err(e) => Err(e),
    }
}

impl Manifest {
    /// Whether the two manifests hold the same values, with the same
    /// environments under the same names in whatever order.
    pub fn same_as(&self, other: &Manifest) -> (r: bool)
        ensures
            r == (self@ == other@),
    {
        self.name == other.name && self.target_type == other.target_type && self.account_id
            == other.account_id && same_optional_flag(self.workers_dev, other.workers_dev)
            && same_optional_text(&self.route, &other.route) && same_optional_texts(
            &self.routes,
            &other.routes,
        ) && same_optional_text(&self.zone_id, &other.zone_id) && same_optional_text(
            &self.webpack_config,
            &other.webpack_config,
        ) && same_optional_flag(self.private, other.private) && same_optional_site(
            &self.site,
            &other.site,
        ) && same_optional_namespaces(&self.kv_namespaces, &other.kv_namespaces)
            && self.env.same_as(&other.env)
    }

    /// The environment that `environment_name` selects.
    pub fn get_environment(&self, environment_name: Option<&str>) -> (r: Result<
        Option<&Environment>,
        LookupError,
    >)
        ensures
            lookup_outcome_view(r) == self@.lookup(environment_name.deep_view()),
    {
        match environment_name {
            None => Ok(None),
            Some(name) => {
                if self.env.is_empty() {
                    Err(LookupError::NoEnvironmentsDefined)
                } else {
                    match self.env.get(name) {
                        Some(environment) => Ok(Some(environment)),
                        None => Err(LookupError::UnknownEnvironment),
                    }
                }
            },
        }
    }

    /// The name under which the worker of an environment is deployed. Never
    /// fails: where the lookup does, the top-level name is the answer.
    pub fn worker_name(&self, env_arg: Option<&str>) -> (r: String)
        ensures
            r@ == self@.worker_name(env_arg.deep_view()),
    {
        match self.get_environment(env_arg) {
            Ok(Some(environment)) => {
                match &environment.name {
                    Some(own) => own.clone(),
                    None => match env_arg {
                        Some(env) => {
                            proof {
                                reveal_strlit("-");
                                assert("-"@ =~= seq!['-']);
                            }
                            join_three(self.name.as_str(), "-", env)
                        },
                        None => self.name.clone(),
                    },
                }
            },
            _ => self.name.clone(),
        }
    }

    /// The routing inputs of the top level.
    pub fn route_config(&self) -> (r: RouteConfig)
        ensures
            r@ == self@.route_config(),
    {
        RouteConfig {
            account_id: Some(self.account_id.clone()),
            workers_dev: self.workers_dev,
            route: clone_optional_text(&self.route),
            routes: clone_optional_texts(&self.routes),
            zone_id: clone_optional_text(&self.zone_id),
        }
    }

    /// The deployment of an environment. `name_is_valid` is the caller's
    /// verdict on `worker_name(env)`; an invalid name ends the query before
    /// anything else is looked at.
    pub fn deploy_config(&self, env: Option<&str>, name_is_valid: bool) -> (r: Result<
        DeployConfig,
        DeployError,
    >)
        ensures
            deploy_outcome_view(r) == self@.deploy_config(env.deep_view(), name_is_valid),
    {
        let script = self.worker_name(env);
        if !name_is_valid {
            return Err(DeployError::InvalidName(script));
        }
        let environment = match self.get_environment(env) {
            Ok(found) => found,
            Err(e) => {
                return Err(DeployError::Lookup(e));
            },
        };
        match environment {
            Some(environment) => {
                match environment.route_config(
                    self.account_id.clone(),
                    clone_optional_text(&self.zone_id),
                ) {
                    Some(own) => deploy_result(DeployConfig::build(script.as_str(), &own)),
                    None => {
                        match DeployConfig::build(script.as_str(), &self.route_config()) {
                            Ok(DeployConfig::Zoned(_)) => Err(
                                DeployError::Route(RouteError::EnvironmentRouteRequired),
                            ),
                            other => deploy_result(other),
                        }
                    },
                }
            },
            None => deploy_result(DeployConfig::build(script.as_str(), &self.route_config())),
        }
    }

    /// The target of an environment.
    pub fn get_target(&self, environment_name: Option<&str>) -> (r: Result<Target, LookupError>)
        ensures
            target_outcome_view(r) == self@.target(environment_name.deep_view()),
    {
        let target_type = match self.site {
            Some(_) => TargetType::Webpack,
            None => self.target_type,
        };
        let environment = match self.get_environment(environment_name) {
            Ok(found) => found,
            Err(e) => {
                return Err(e);
            },
        };
        match environment {
            None => Ok(
                Target {
                    target_type,
                    account_id: self.account_id.clone(),
                    webpack_config: clone_optional_text(&self.webpack_config),
                    name: self.name.clone(),
                    kv_namespaces: clone_optional_namespaces(&self.kv_namespaces),
                    site: clone_optional_site(&self.site),
                },
            ),
            Some(environment) => Ok(
                Target {
                    target_type,
                    account_id: match &environment.account_id {
                        Some(own) => own.clone(),
                        None => self.account_id.clone(),
                    },
                    webpack_config: if environment.webpack_config.is_some() {
                        clone_optional_text(&environment.webpack_config)
                    } else {
                        clone_optional_text(&self.webpack_config)
                    },
                    name: self.worker_name(environment_name),
                    kv_namespaces: clone_optional_namespaces(&environment.kv_namespaces),
                    site: clone_optional_site(&self.site),
                },
            ),
        }
    }
}

/// Hands the outcome of route resolution on as the outcome of the query.
pub fn deploy_result(r: Result<DeployConfig, RouteError>) -> (out: Result<
    DeployConfig,
    DeployError,
>)
    ensures
        deploy_outcome_view(out) == routed(outcome_view(r)),
{
    match r {
        Ok(c) => Ok(c),
        Err(e) => Err(DeployError::Route(e)),
    }
}

} // verus!
