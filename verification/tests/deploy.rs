use worker_manifest::deploy_config::{DeployConfig, RouteConfig, RouteError, Zoned, Zoneless};
use worker_manifest::environment::Environment;
use worker_manifest::environments::Environments;
use worker_manifest::error::{DeployError, LookupError};
use worker_manifest::manifest::Manifest;

fn text(s: &str) -> Option<String> {
    Some(s.to_string())
}

fn unset() -> RouteConfig {
    RouteConfig { workers_dev: None, route: None, routes: None, zone_id: None, account_id: None }
}

fn zoned_top_level() -> Manifest {
    Manifest {
        name: "worker".to_string(),
        account_id: "account".to_string(),
        zone_id: text("zone"),
        route: text("example.com/*"),
        ..Manifest::default()
    }
}

#[test]
fn nothing_set_is_no_target() {
    assert_eq!(DeployConfig::build("worker", &unset()), Err(RouteError::NoTarget));
    let off = RouteConfig { workers_dev: Some(false), account_id: text("account"), ..unset() };
    assert_eq!(DeployConfig::build("worker", &off), Err(RouteError::NoTarget));
}

#[test]
fn nothing_set_is_dev_only_where_permitted() {
    let rc = RouteConfig { account_id: text("account"), ..unset() };
    assert_eq!(
        DeployConfig::resolve("worker", &rc, true),
        Ok(DeployConfig::Zoneless(Zoneless {
            account_id: "account".to_string(),
            script_name: "worker".to_string(),
            workers_dev: false,
        }))
    );
}

#[test]
fn workers_dev_is_zoneless() {
    let rc = RouteConfig { workers_dev: Some(true), account_id: text("account"), ..unset() };
    let expected = DeployConfig::Zoneless(Zoneless {
        account_id: "account".to_string(),
        script_name: "worker".to_string(),
        workers_dev: true,
    });
    assert_eq!(DeployConfig::build("worker", &rc), Ok(expected));
}

#[test]
fn workers_dev_with_a_zone_but_no_route_is_zoneless() {
    let rc = RouteConfig {
        workers_dev: Some(true),
        account_id: text("account"),
        zone_id: text("zone"),
        ..unset()
    };
    assert!(matches!(DeployConfig::build("worker", &rc), Ok(DeployConfig::Zoneless(_))));
}

#[test]
fn a_route_is_zoned() {
    let rc = RouteConfig {
        route: text("example.com/*"),
        zone_id: text("zone"),
        account_id: text("account"),
        ..unset()
    };
    let expected = DeployConfig::Zoned(Zoned {
        account_id: "account".to_string(),
        zone_id: "zone".to_string(),
        script_name: "worker".to_string(),
        routes: vec!["example.com/*".to_string()],
    });
    assert_eq!(DeployConfig::build("worker", &rc), Ok(expected));
}

#[test]
fn a_list_of_routes_is_zoned() {
    let rc = RouteConfig {
        workers_dev: Some(false),
        routes: Some(vec!["a.com/*".to_string(), "b.com/*".to_string()]),
        zone_id: text("zone"),
        account_id: text("account"),
        ..unset()
    };
    match DeployConfig::build("worker", &rc) {
        Ok(DeployConfig::Zoned(z)) => {
            assert_eq!(z.routes, vec!["a.com/*".to_string(), "b.com/*".to_string()]);
            assert_eq!(z.script_name, "worker");
        }
        other => panic!("{:?}", other),
    }
}

#[test]
fn an_empty_route_counts_as_unset() {
    let rc = RouteConfig {
        route: text(""),
        routes: Some(vec![]),
        zone_id: text("zone"),
        account_id: text("account"),
        ..unset()
    };
    assert_eq!(DeployConfig::build("worker", &rc), Err(RouteError::NoTarget));
}

#[test]
fn route_beside_routes_is_ambiguous() {
    let rc = RouteConfig {
        route: text("example.com/*"),
        routes: Some(vec!["a.com/*".to_string()]),
        zone_id: text("zone"),
        account_id: text("account"),
        ..unset()
    };
    assert_eq!(DeployConfig::build("worker", &rc), Err(RouteError::AmbiguousConfig));
    let bare = RouteConfig {
        route: text("example.com/*"),
        routes: Some(vec!["a.com/*".to_string()]),
        ..unset()
    };
    assert_eq!(DeployConfig::resolve("worker", &bare, true), Err(RouteError::AmbiguousConfig));
}

#[test]
fn workers_dev_beside_a_route_is_ambiguous() {
    let rc = RouteConfig {
        workers_dev: Some(true),
        route: text("example.com/*"),
        zone_id: text("zone"),
        account_id: text("account"),
        ..unset()
    };
    assert_eq!(DeployConfig::build("worker", &rc), Err(RouteError::AmbiguousConfig));
}

#[test]
fn a_route_without_an_account_is_refused() {
    let none = RouteConfig { route: text("example.com/*"), zone_id: text("zone"), ..unset() };
    assert_eq!(DeployConfig::build("worker", &none), Err(RouteError::MissingAccountId));
    let empty = RouteConfig {
        route: text("example.com/*"),
        zone_id: text("zone"),
        account_id: text(""),
        ..unset()
    };
    assert_eq!(DeployConfig::build("worker", &empty), Err(RouteError::MissingAccountId));
}

#[test]
fn a_route_without_a_zone_is_no_target() {
    let rc = RouteConfig { route: text("example.com/*"), account_id: text("account"), ..unset() };
    assert_eq!(DeployConfig::build("worker", &rc), Err(RouteError::NoTarget));
}

#[test]
fn top_level_without_environments_resolves_its_own_fields() {
    let manifest = zoned_top_level();
    assert_eq!(
        manifest.deploy_config(None, true).map_err(|e| format!("{:?}", e)),
        DeployConfig::build("worker", &manifest.route_config()).map_err(|e| format!(
            "{:?}",
            DeployError::Route(e)
        ))
    );
    assert!(matches!(manifest.deploy_config(None, true), Ok(DeployConfig::Zoned(_))));
}

#[test]
fn top_level_with_route_and_routes_is_ambiguous() {
    let manifest = Manifest { routes: Some(vec!["a.com/*".to_string()]), ..zoned_top_level() };
    assert_eq!(
        manifest.deploy_config(None, true),
        Err(DeployError::Route(RouteError::AmbiguousConfig))
    );
}

#[test]
fn an_invalid_name_ends_the_query() {
    let manifest = zoned_top_level();
    assert_eq!(
        manifest.deploy_config(None, false),
        Err(DeployError::InvalidName("worker".to_string()))
    );
    assert_eq!(
        manifest.deploy_config(Some("prod"), false),
        Err(DeployError::InvalidName("worker".to_string()))
    );
}

#[test]
fn an_environment_must_exist() {
    let bare = zoned_top_level();
    assert_eq!(
        bare.deploy_config(Some("prod"), true),
        Err(DeployError::Lookup(LookupError::NoEnvironmentsDefined))
    );
    let manifest = Manifest {
        env: Environments::new().insert("prod".to_string(), Environment::default()),
        ..zoned_top_level()
    };
    assert_eq!(
        manifest.deploy_config(Some("staging"), true),
        Err(DeployError::Lookup(LookupError::UnknownEnvironment))
    );
}

#[test]
fn zoned_top_level_needs_a_route_in_the_environment() {
    let manifest = Manifest {
        env: Environments::new().insert("prod".to_string(), Environment::default()),
        ..zoned_top_level()
    };
    assert_eq!(
        manifest.deploy_config(Some("prod"), true),
        Err(DeployError::Route(RouteError::EnvironmentRouteRequired))
    );
}

#[test]
fn zoneless_top_level_serves_an_environment_without_routing() {
    let manifest = Manifest {
        name: "worker".to_string(),
        account_id: "account".to_string(),
        workers_dev: Some(true),
        env: Environments::new().insert("prod".to_string(), Environment::default()),
        ..Manifest::default()
    };
    assert_eq!(
        manifest.deploy_config(Some("prod"), true),
        Ok(DeployConfig::Zoneless(Zoneless {
            account_id: "account".to_string(),
            script_name: "worker-prod".to_string(),
            workers_dev: true,
        }))
    );
}

#[test]
fn an_environment_with_routing_ignores_the_top_level_routing() {
    let environment = Environment { workers_dev: Some(true), ..Environment::default() };
    let manifest = Manifest {
        env: Environments::new().insert("prod".to_string(), environment),
        ..zoned_top_level()
    };
    assert_eq!(
        manifest.deploy_config(Some("prod"), true),
        Ok(DeployConfig::Zoneless(Zoneless {
            account_id: "account".to_string(),
            script_name: "worker-prod".to_string(),
            workers_dev: true,
        }))
    );
}

#[test]
fn an_environment_takes_account_and_zone_from_the_top_level() {
    let environment = Environment {
        name: Some("custom".to_string()),
        routes: Some(vec!["prod.example.com/*".to_string()]),
        ..Environment::default()
    };
    let own = Environment {
        route: text("own.example.com/*"),
        account_id: text("other-account"),
        zone_id: text("other-zone"),
        ..Environment::default()
    };
    let manifest = Manifest {
        env: Environments::new()
            .insert("prod".to_string(), environment)
            .insert("own".to_string(), own),
        ..zoned_top_level()
    };
    assert_eq!(
        manifest.deploy_config(Some("prod"), true),
        Ok(DeployConfig::Zoned(Zoned {
            account_id: "account".to_string(),
            zone_id: "zone".to_string(),
            script_name: "custom".to_string(),
            routes: vec!["prod.example.com/*".to_string()],
        }))
    );
    assert_eq!(
        manifest.deploy_config(Some("own"), true),
        Ok(DeployConfig::Zoned(Zoned {
            account_id: "other-account".to_string(),
            zone_id: "other-zone".to_string(),
            script_name: "worker-own".to_string(),
            routes: vec!["own.example.com/*".to_string()],
        }))
    );
}

#[test]
fn an_environment_with_route_and_routes_is_ambiguous() {
    let environment = Environment {
        route: text("example.com/*"),
        routes: Some(vec!["a.com/*".to_string()]),
        ..Environment::default()
    };
    let manifest = Manifest {
        name: "worker".to_string(),
        workers_dev: Some(true),
        env: Environments::new().insert("prod".to_string(), environment),
        ..Manifest::default()
    };
    assert_eq!(
        manifest.deploy_config(Some("prod"), true),
        Err(DeployError::Route(RouteError::AmbiguousConfig))
    );
}

#[test]
fn environment_route_config_is_absent_without_routing_fields() {
    let environment = Environment { account_id: text("account"), ..Environment::default() };
    assert_eq!(environment.route_config("top".to_string(), text("zone")), None);
    let dev = Environment { workers_dev: Some(false), ..Environment::default() };
    assert_eq!(
        dev.route_config("top".to_string(), text("zone")),
        Some(RouteConfig {
            workers_dev: Some(false),
            route: None,
            routes: None,
            zone_id: text("zone"),
            account_id: text("top"),
        })
    );
}
