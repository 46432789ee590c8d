//! What holds of every manifest, stated over the views that the contracts
//! of the queries use.

use vstd::prelude::*;
use crate::deploy_config::{resolve, DeployConfigView, RouteConfigView, RouteError};
use crate::document::parse_manifest;
use crate::error::{DeployErrorView, FormatError, LookupError};
use crate::manifest::{routed, ManifestView};
use crate::target_type::TargetType;
use crate::text::{list_filled, text_set};
use crate::uniqueness::is_duplicate_name;
use crate::value::ValueView;

verus! {

/// Without environments, the deployment of the top level is what its own
/// routing fields resolve to under the top-level name; and a query that
/// names an environment finds none defined.
pub proof fn law_top_level_resolves_directly(m: ManifestView, name: Seq<char>)
    requires
        m.env.is_empty(),
    ensures
        m.deploy_config(None, true) == routed(resolve(m.name, m.route_config(), false)),
        m.deploy_config(None, false) == Err::<DeployConfigView, DeployErrorView>(
            DeployErrorView::InvalidName(m.name),
        ),
        m.deploy_config(Some(name), true) == Err::<DeployConfigView, DeployErrorView>(
            DeployErrorView::Lookup(LookupError::NoEnvironmentsDefined),
        ),
{
}

/// An environment that names itself as the top level does makes that name
/// a duplicate; it is the only one where no two environments name
/// themselves alike.
pub proof fn law_top_level_name_taken_twice(m: ManifestView, key: Seq<char>)
    requires
        m.env.contains_key(key),
        m.env[key].name == Some(m.name),
    ensures
        m.duplicate_names().contains(m.name),
        (forall|j: Seq<char>, k: Seq<char>|
            j != k && m.env.contains_key(j) && m.env.contains_key(k) && (#[trigger] m.env[j]).name.is_some()
                ==> m.env[j].name != (#[trigger] m.env[k]).name) ==> m.duplicate_names() == set![
            m.name,
        ],
{
    assert(is_duplicate_name(m.name, m.env, m.name));
    if forall|j: Seq<char>, k: Seq<char>|
        j != k && m.env.contains_key(j) && m.env.contains_key(k) && (#[trigger] m.env[j]).name.is_some()
            ==> m.env[j].name != (#[trigger] m.env[k]).name {
        assert forall|n: Seq<char>| m.duplicate_names().contains(n) implies n == m.name by {
            if exists|j: Seq<char>, k: Seq<char>|
                j != k && m.env.contains_key(j) && m.env.contains_key(k) && (#[trigger] m.env[j]).name
                    == Some(n) && (#[trigger] m.env[k]).name == Some(n) {
                let (j, k) = choose|j: Seq<char>, k: Seq<char>|
                    j != k && m.env.contains_key(j) && m.env.contains_key(k) && (
                    #[trigger] m.env[j]).name == Some(n) && (#[trigger] m.env[k]).name == Some(n);
                assert(m.env[j].name != m.env[k].name);
            }
        }
        assert(m.duplicate_names() =~= set![m.name]);
    }
}

/// The namespaces of an environment's target are the environment's own:
/// where it has none, the target has none, whatever the top level has.
pub proof fn law_namespaces_not_inherited(m: ManifestView, name: Seq<char>)
    requires
        m.env.contains_key(name),
    ensures
        m.target(Some(name)) is Ok,
        m.target(Some(name)).unwrap().kv_namespaces == m.env[name].kv_namespaces,
        m.env[name].kv_namespaces is None ==> m.target(Some(name)).unwrap().kv_namespaces is None,
{
    assert(m.env.dom().contains(name));
}

/// The site of every target is the top level's.
pub proof fn law_site_is_top_level(m: ManifestView, name: Option<Seq<char>>)
    requires
        m.target(name) is Ok,
    ensures
        m.target(name).unwrap().site == m.site,
{
}

/// A manifest with a site is built by webpack for every environment,
/// whatever build mode it declares.
pub proof fn law_site_forces_webpack(m: ManifestView, name: Option<Seq<char>>)
    requires
        m.site is Some,
        m.target(name) is Ok,
    ensures
        m.target(name).unwrap().target_type == TargetType::Webpack,
{
}

/// A single route beside a list of routes is ambiguous, whatever else the
/// routing inputs hold.
pub proof fn law_route_beside_routes_is_ambiguous(
    script: Seq<char>,
    rc: RouteConfigView,
    permit_dev_only: bool,
)
    requires
        text_set(rc.route),
        list_filled(rc.routes),
    ensures
        resolve(script, rc, permit_dev_only) == Err::<DeployConfigView, RouteError>(
            RouteError::AmbiguousConfig,
        ),
{
}

/// A manifest whose top level sets both a route and a list of routes has
/// no top-level deployment; nor has an environment that sets both.
pub proof fn law_ambiguous_level_fails(m: ManifestView, name: Seq<char>)
    ensures
        text_set(m.route) && list_filled(m.routes) ==> m.deploy_config(None, true) == Err::<
            DeployConfigView,
            DeployErrorView,
        >(DeployErrorView::Route(RouteError::AmbiguousConfig)),
        m.env.contains_key(name) && text_set(m.env[name].route) && list_filled(m.env[name].routes)
            ==> m.deploy_config(Some(name), true) == Err::<DeployConfigView, DeployErrorView>(
            DeployErrorView::Route(RouteError::AmbiguousConfig),
        ),
{
    if m.env.contains_key(name) {
        assert(m.env.dom().contains(name));
    }
}

/// Whether routing inputs resolve to a zone does not depend on the script.
pub proof fn law_zone_independent_of_script(a: Seq<char>, b: Seq<char>, rc: RouteConfigView)
    ensures
        resolve(a, rc, false) matches Ok(DeployConfigView::Zoned(_)) <==> resolve(
            b,
            rc,
            false,
        ) matches Ok(DeployConfigView::Zoned(_)),
{
}

/// Where the top level deploys to a zone, an environment that supplies no
/// routing of its own has no deployment: it must name its routes itself.
pub proof fn law_zoned_needs_environment_route(m: ManifestView, name: Seq<char>)
    requires
        m.deploy_config(None, true) matches Ok(DeployConfigView::Zoned(_)),
        m.env.contains_key(name),
        !m.env[name].supplies_routing(),
    ensures
        m.deploy_config(Some(name), true) == Err::<DeployConfigView, DeployErrorView>(
            DeployErrorView::Route(RouteError::EnvironmentRouteRequired),
        ),
{
    assert(m.env.dom().contains(name));
    law_zone_independent_of_script(m.name, m.worker_name(Some(name)), m.route_config());
}

/// A zoned deployment has at least one route, and a resolved deployment
/// carries the script it was resolved for.
pub proof fn law_resolved_deployment(script: Seq<char>, rc: RouteConfigView, permit_dev_only: bool)
    ensures
        match resolve(script, rc, permit_dev_only) {
            Ok(DeployConfigView::Zoned(z)) => z.routes.len() > 0 && z.script_name == script
                && z.account_id.len() > 0 && z.zone_id.len() > 0,
            Ok(DeployConfigView::Zoneless(z)) => z.script_name == script && (z.workers_dev
                || permit_dev_only),
            Err(e) => e != RouteError::EnvironmentRouteRequired,
        },
{
}

/// A document whose site section holds namespaces reads as misplaced
/// namespaces, whatever else is wrong with it.
pub proof fn law_namespaces_in_site_are_misplaced(
    table: Map<Seq<char>, ValueView>,
    site: Map<Seq<char>, ValueView>,
)
    requires
        table.contains_key("site"@),
        table["site"@] == ValueView::Table(site),
        site.contains_key("kv-namespaces"@),
    ensures
        parse_manifest(ValueView::Table(table)) == Err::<ManifestView, FormatError>(
            FormatError::MisplacedKvNamespaces,
        ),
{
}

} // verus!
