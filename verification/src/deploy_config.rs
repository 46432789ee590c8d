//! Routing inputs and the deployment they resolve to.
//!
//! A deployment is either zoned (bound to a zone and to route patterns) or
//! zoneless (served from the platform's own subdomain). `resolve` is the
//! decision table that tells them apart and rejects what is neither.

use vstd::prelude::*;
use crate::text::{
    clone_optional_text, clone_optional_texts, clone_texts, is_list_filled, is_text_set,
    list_filled, text_or_empty, text_set,
};

verus! {

/// Why routing inputs resolve to no deployment.
#[derive(Clone, Copy, Debug, PartialEq, Eq, Structural)]
pub enum RouteError {
    /// Nothing names a place to deploy to.
    NoTarget,
    /// The inputs name more than one place to deploy to.
    AmbiguousConfig,
    /// Routes are given but no account.
    MissingAccountId,
    /// The top level deploys to a zone and the environment names no route of its own.
    EnvironmentRouteRequired,
}

/// The routing fields of one resolution level, account and zone already
/// taken from the level that has them.
#[derive(Debug, PartialEq, Eq)]
pub struct RouteConfig {
    pub workers_dev: Option<bool>,
    pub route: Option<String>,
    pub routes: Option<Vec<String>>,
    pub zone_id: Option<String>,
    pub account_id: Option<String>,
}

pub struct RouteConfigView {
    pub workers_dev: Option<bool>,
    pub route: Option<Seq<char>>,
    pub routes: Option<Seq<Seq<char>>>,
    pub zone_id: Option<Seq<char>>,
    pub account_id: Option<Seq<char>>,
}

impl DeepView for RouteConfig {
    type V = RouteConfigView;

    open spec fn deep_view(&self) -> RouteConfigView {
        RouteConfigView {
            workers_dev: self.workers_dev,
            route: self.route.deep_view(),
            routes: self.routes.deep_view(),
            zone_id: self.zone_id.deep_view(),
            account_id: self.account_id.deep_view(),
        }
    }
}

impl View for RouteConfig {
    type V = RouteConfigView;

    open spec fn view(&self) -> RouteConfigView {
        self.deep_view()
    }
}

impl Clone for RouteConfig {
    fn clone(&self) -> (r: Self)
        ensures
            r@ == self@,
    {
        RouteConfig {
            workers_dev: self.workers_dev,
            route: clone_optional_text(&self.route),
            routes: clone_optional_texts(&self.routes),
            zone_id: clone_optional_text(&self.zone_id),
            account_id: clone_optional_text(&self.account_id),
        }
    }
}

impl RouteConfigView {
    /// The platform subdomain is asked for.
    pub open spec fn wants_dev(self) -> bool {
        self.workers_dev == Some(true)
    }

    /// A single route or a list of routes is given.
    pub open spec fn has_routes(self) -> bool {
        text_set(self.route) || list_filled(self.routes)
    }

    /// More than one place to deploy to is named: a single route beside a
    /// list of routes, or the platform subdomain beside any route.
    pub open spec fn is_ambiguous(self) -> bool {
        (text_set(self.route) && list_filled(self.routes)) || (self.wants_dev()
            && self.has_routes())
    }

    /// The route patterns of a configuration that has routes and is not ambiguous.
    pub open spec fn patterns(self) -> Seq<Seq<char>> {
        if text_set(self.route) {
            seq![self.route.unwrap()]
        } else {
            self.routes.unwrap()
        }
    }
}

/// A deployment bound to a zone and to at least one route pattern.
#[derive(Debug, PartialEq, Eq)]
pub struct Zoned {
    pub account_id: String,
    pub zone_id: String,
    pub script_name: String,
    pub routes: Vec<String>,
}

pub struct ZonedView {
    pub account_id: Seq<char>,
    pub zone_id: Seq<char>,
    pub script_name: Seq<char>,
    pub routes: Seq<Seq<char>>,
}

impl DeepView for Zoned {
    type V = ZonedView;

    open spec fn deep_view(&self) -> ZonedView {
        ZonedView {
            account_id: self.account_id@,
            zone_id: self.zone_id@,
            script_name: self.script_name@,
            routes: self.routes.deep_view(),
        }
    }
}

impl View for Zoned {
    type V = ZonedView;

    open spec fn view(&self) -> ZonedView {
        self.deep_view()
    }
}

impl Clone for Zoned {
    fn clone(&self) -> (r: Self)
        ensures
            r@ == self@,
    {
        Zoned {
            account_id: self.account_id.clone(),
            zone_id: self.zone_id.clone(),
            script_name: self.script_name.clone(),
            routes: clone_texts(&self.routes),
        }
    }
}

/// A deployment served from the platform's own subdomain.
#[derive(Debug, PartialEq, Eq)]
pub struct Zoneless {
    pub account_id: String,
    pub script_name: String,
    pub workers_dev: bool,
}

pub struct ZonelessView {
    pub account_id: Seq<char>,
    pub script_name: Seq<char>,
    pub workers_dev: bool,
}

impl DeepView for Zoneless {
    type V = ZonelessView;

    open spec fn deep_view(&self) -> ZonelessView {
        ZonelessView {
            account_id: self.account_id@,
            script_name: self.script_name@,
            workers_dev: self.workers_dev,
        }
    }
}

impl View for Zoneless {
    type V = ZonelessView;

    open spec fn view(&self) -> ZonelessView {
        self.deep_view()
    }
}

impl Clone for Zoneless {
    fn clone(&self) -> (r: Self)
        ensures
            r@ == self@,
    {
        Zoneless {
            account_id: self.account_id.clone(),
            script_name: self.script_name.clone(),
            workers_dev: self.workers_dev,
        }
    }
}

/// Where a worker is deployed: exactly one of the two.
#[derive(Debug, PartialEq, Eq)]
pub enum DeployConfig {
    Zoneless(Zoneless),
    Zoned(Zoned),
}

pub enum DeployConfigView {
    Zoneless(ZonelessView),
    Zoned(ZonedView),
}

impl DeepView for DeployConfig {
    type V = DeployConfigView;

    open spec fn deep_view(&self) -> DeployConfigView {
        match self {
            DeployConfig::Zoneless(z) => DeployConfigView::Zoneless(z@),
            DeployConfig::Zoned(z) => DeployConfigView::Zoned(z@),
        }
    }
}

impl View for DeployConfig {
    type V = DeployConfigView;

    open spec fn view(&self) -> DeployConfigView {
        self.deep_view()
    }
}

impl Clone for DeployConfig {
    fn clone(&self) -> (r: Self)
        ensures
            r@ == self@,
    {
        match self {
            DeployConfig::Zoneless(z) => DeployConfig::Zoneless(z.clone()),
            DeployConfig::Zoned(z) => DeployConfig::Zoned(z.clone()),
        }
    }
}

/// The deployment that routing inputs resolve to for the script `script`.
///
/// In order: inputs that name more than one place are ambiguous; inputs with
/// routes give a zoned deployment and need an account and a zone; inputs
/// that ask for the platform subdomain give a zoneless one; inputs that name
/// nothing give a zoneless deployment that stays off the subdomain where the
/// caller permits that, and no target otherwise. An empty account or zone
/// counts as missing.
pub open spec fn resolve(script: Seq<char>, rc: RouteConfigView, permit_dev_only: bool) -> Result<
    DeployConfigView,
    RouteError,
> {
    if rc.is_ambiguous() {
        Err(RouteError::AmbiguousConfig)
    } else if rc.has_routes() {
        if !text_set(rc.account_id) {
            Err(RouteError::MissingAccountId)
        } else if !text_set(rc.zone_id) {
            Err(RouteError::NoTarget)
        } else {
            Ok(
                DeployConfigView::Zoned(
                    ZonedView {
                        account_id: rc.account_id.unwrap(),
                        zone_id: rc.zone_id.unwrap(),
                        script_name: script,
                        routes: rc.patterns(),
                    },
                ),
            )
        }
    } else if rc.wants_dev() || permit_dev_only {
        Ok(
            DeployConfigView::Zoneless(
                ZonelessView {
                    account_id: text_or_empty(rc.account_id),
                    script_name: script,
                    workers_dev: rc.wants_dev(),
                },
            ),
        )
    } else {
        Err(RouteError::NoTarget)
    }
}

/// The view of an outcome of resolution.
pub open spec fn outcome_view(r: Result<DeployConfig, RouteError>) -> Result<
    DeployConfigView,
    RouteError,
> {
    match r {
        Ok(c) => Ok(c@),
        Err(e) => Err(e),
    }
}

impl RouteConfig {
    pub fn wants_dev(&self) -> (r: bool)
        ensures
            r == self@.wants_dev(),
    {
        match self.workers_dev {
            Some(b) => b,
            None => false,
        }
    }

    pub fn has_routes(&self) -> (r: bool)
        ensures
            r == self@.has_routes(),
    {
        is_text_set(&self.route) || is_list_filled(&self.routes)
    }

    pub fn is_ambiguous(&self) -> (r: bool)
        ensures
            r == self@.is_ambiguous(),
    {
        (is_text_set(&self.route) && is_list_filled(&self.routes)) || (self.wants_dev()
            && self.has_routes())
    }
}

impl DeployConfig {
    /// Resolves routing inputs for a deployment proper: inputs that name no
    /// place to deploy to are refused.
    pub fn build(script_name: &str, route_config: &RouteConfig) -> (r: Result<
        DeployConfig,
        RouteError,
    >)
        ensures
            outcome_view(r) == resolve(script_name@, route_config@, false),
    {
        DeployConfig::resolve(script_name, route_config, false)
    }

    /// Resolves routing inputs; with `permit_dev_only`, inputs that name no
    /// place to deploy to give a zoneless deployment off the subdomain.
    pub fn resolve(script_name: &str, route_config: &RouteConfig, permit_dev_only: bool) -> (r:
        Result<DeployConfig, RouteError>)
        ensures
            outcome_view(r) == resolve(script_name@, route_config@, permit_dev_only),
            r matches Ok(DeployConfig::Zoned(z)) ==> z.routes.len() > 0,
    {
        if route_config.is_ambiguous() {
            return Err(RouteError::AmbiguousConfig);
        }
        if route_config.has_routes() {
            if !is_text_set(&route_config.account_id) {
                return Err(RouteError::MissingAccountId);
            }
            if !is_text_set(&route_config.zone_id) {
                return Err(RouteError::NoTarget);
            }
            let account_id = match &route_config.account_id {
                Some(a) => a.clone(),
                None => String::new(),
            };
            let zone_id = match &route_config.zone_id {
                Some(z) => z.clone(),
                None => String::new(),
            };
            let routes = if is_text_set(&route_config.route) {
                match &route_config.route {
                    Some(p) => {
                        let mut one: Vec<String> = Vec::new();
                        one.push(p.clone());
                        assert(one.deep_view() =~= seq![p@]);
                        one
                    },
                    None => Vec::new(),
                }
            } else {
                match &route_config.routes {
                    Some(l) => clone_texts(l),
                    None => Vec::new(),
                }
            };
            assert(routes.deep_view() == route_config@.patterns());
            assert(routes.deep_view().len() == routes.len());
            Ok(
                DeployConfig::Zoned(
                    Zoned { account_id, zone_id, script_name: script_name.to_owned(), routes },
                ),
            )
        } else if route_config.wants_dev() || permit_dev_only {
            let account_id = match &route_config.account_id {
                Some(a) => a.clone(),
                None => String::new(),
            };
            Ok(
                DeployConfig::Zoneless(
                    Zoneless {
                        account_id,
                        script_name: script_name.to_owned(),
                        workers_dev: route_config.wants_dev(),
                    },
                ),
            )
        } else {
            Err(RouteError::NoTarget)
        }
    }
}

} // verus!
