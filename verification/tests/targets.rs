use worker_manifest::environment::Environment;
use worker_manifest::environments::Environments;
use worker_manifest::error::LookupError;
use worker_manifest::kv_namespace::KvNamespace;
use worker_manifest::manifest::Manifest;
use worker_manifest::site::Site;
use worker_manifest::target::Target;
use worker_manifest::target_type::TargetType;
use worker_manifest::value::Value;

fn text(s: &str) -> Value {
    Value::Text(s.to_string())
}

fn table(entries: Vec<(&str, Value)>) -> Value {
    Value::Table(entries.into_iter().map(|(k, v)| (k.to_string(), v)).collect())
}

fn top_level(mut more: Vec<(&'static str, Value)>) -> Value {
    let mut entries = vec![
        ("name", text("worker")),
        ("type", text("webpack")),
        ("account_id", text("")),
        ("private", Value::Boolean(false)),
        ("route", text("")),
        ("zone_id", text("")),
    ];
    entries.append(&mut more);
    table(entries)
}

fn namespace_section(binding: &str, id: &str) -> Value {
    table(vec![("binding", text(binding)), ("id", text(id))])
}

fn default_fixture() -> Value {
    top_level(vec![])
}

fn environments_fixture() -> Value {
    top_level(vec![(
        "env",
        table(vec![
            ("production", table(vec![("name", text("worker-live"))])),
            ("staging", table(vec![("workers_dev", Value::Boolean(true))])),
        ]),
    )])
}

fn kv_namespaces_fixture() -> Value {
    top_level(vec![(
        "env",
        table(vec![
            (
                "production",
                table(vec![(
                    "kv-namespaces",
                    Value::Array(vec![
                        namespace_section("prodKV-1", "somecrazylongidentifierstring"),
                        namespace_section("prodKV-2", "anotherwaytoolongidstring"),
                    ]),
                )]),
            ),
            (
                "staging",
                table(vec![(
                    "kv-namespaces",
                    Value::Array(vec![
                        namespace_section("stagingKV-1", "somecrazylongidentifierstring"),
                        namespace_section("stagingKV-2", "anotherwaytoolongidstring"),
                    ]),
                )]),
            ),
        ]),
    )])
}

#[test]
fn it_builds_from_config() {
    let manifest = Manifest::new(&default_fixture()).unwrap();

    let target = manifest.get_target(None).unwrap();
    assert!(target.kv_namespaces.is_none());
}

#[test]
fn it_builds_from_environments_config() {
    let manifest = Manifest::new(&environments_fixture()).unwrap();

    let target = manifest.get_target(None).unwrap();
    assert!(target.kv_namespaces.is_none());

    let target = manifest.get_target(Some("production")).unwrap();
    assert!(target.kv_namespaces.is_none());
}

#[test]
fn it_builds_from_environments_config_with_kv() {
    let manifest = Manifest::new(&kv_namespaces_fixture()).unwrap();

    let target = manifest.get_target(None).unwrap();
    assert!(target.kv_namespaces.is_none());

    let target = manifest.get_target(Some("production")).unwrap();
    let kv_1 = KvNamespace {
        id: "somecrazylongidentifierstring".to_string(),
        binding: "prodKV-1".to_string(),
        bucket: None,
    };
    let kv_2 = KvNamespace {
        id: "anotherwaytoolongidstring".to_string(),
        binding: "prodKV-2".to_string(),
        bucket: None,
    };

    match target.kv_namespaces {
        Some(kv_namespaces) => {
            assert!(kv_namespaces.len() == 2);
            assert!(kv_namespaces.contains(&kv_1));
            assert!(kv_namespaces.contains(&kv_2));
        }
        None => assert!(false),
    }

    let target = manifest.get_target(Some("staging")).unwrap();
    let kv_1 = KvNamespace {
        id: "somecrazylongidentifierstring".to_string(),
        binding: "stagingKV-1".to_string(),
        bucket: None,
    };
    let kv_2 = KvNamespace {
        id: "anotherwaytoolongidstring".to_string(),
        binding: "stagingKV-2".to_string(),
        bucket: None,
    };
    match target.kv_namespaces {
        Some(kv_namespaces) => {
            assert!(kv_namespaces.len() == 2);
            assert!(kv_namespaces.contains(&kv_1));
            assert!(kv_namespaces.contains(&kv_2));
        }
        None => assert!(false),
    }
}

#[test]
fn parses_same_from_config_path_as_string() {
    let document = environments_fixture();

    let manifest_from_string = Manifest::parse(&document).unwrap();
    let manifest_from_config = Manifest::new(&document).unwrap();

    assert_eq!(manifest_from_config, manifest_from_string);
}

fn namespace(binding: &str) -> KvNamespace {
    KvNamespace { id: "id".to_string(), binding: binding.to_string(), bucket: None }
}

fn full_manifest() -> Manifest {
    let bare = Environment::default();
    let own = Environment {
        name: Some("custom".to_string()),
        account_id: Some("env-account".to_string()),
        webpack_config: Some("env.config.js".to_string()),
        kv_namespaces: Some(vec![namespace("ENV")]),
        ..Environment::default()
    };
    Manifest {
        name: "worker".to_string(),
        target_type: TargetType::Plain,
        account_id: "account".to_string(),
        webpack_config: Some("webpack.config.js".to_string()),
        kv_namespaces: Some(vec![namespace("TOP")]),
        env: Environments::new().insert("bare".to_string(), bare).insert("own".to_string(), own),
        ..Manifest::default()
    }
}

#[test]
fn target_without_environment_is_the_top_level() {
    let manifest = full_manifest();
    assert_eq!(
        manifest.get_target(None),
        Ok(Target {
            account_id: "account".to_string(),
            kv_namespaces: Some(vec![namespace("TOP")]),
            name: "worker".to_string(),
            target_type: TargetType::Plain,
            webpack_config: Some("webpack.config.js".to_string()),
            site: None,
        })
    );
}

#[test]
fn namespaces_are_not_inherited() {
    let manifest = full_manifest();
    assert_eq!(
        manifest.get_target(Some("bare")),
        Ok(Target {
            account_id: "account".to_string(),
            kv_namespaces: None,
            name: "worker-bare".to_string(),
            target_type: TargetType::Plain,
            webpack_config: Some("webpack.config.js".to_string()),
            site: None,
        })
    );
}

#[test]
fn environment_overrides_what_it_may() {
    let manifest = full_manifest();
    assert_eq!(
        manifest.get_target(Some("own")),
        Ok(Target {
            account_id: "env-account".to_string(),
            kv_namespaces: Some(vec![namespace("ENV")]),
            name: "custom".to_string(),
            target_type: TargetType::Plain,
            webpack_config: Some("env.config.js".to_string()),
            site: None,
        })
    );
}

#[test]
fn site_forces_webpack_for_every_target() {
    let site = Site { bucket: "./public".to_string(), entry_point: None };
    let manifest = Manifest { site: Some(site.clone()), ..full_manifest() };
    for name in [None, Some("bare"), Some("own")] {
        let target = manifest.get_target(name).unwrap();
        assert_eq!(target.target_type, TargetType::Webpack);
        assert_eq!(target.site, Some(site.clone()));
    }
    assert_eq!(full_manifest().get_target(Some("own")).unwrap().target_type, TargetType::Plain);
}

#[test]
fn target_of_a_missing_environment_fails() {
    assert_eq!(
        full_manifest().get_target(Some("missing")),
        Err(LookupError::UnknownEnvironment)
    );
    let bare = Manifest { env: Environments::new(), ..full_manifest() };
    assert_eq!(bare.get_target(Some("own")), Err(LookupError::NoEnvironmentsDefined));
}

#[test]
fn clones_are_equal() {
    let manifest = Manifest {
        site: Some(Site { bucket: "b".to_string(), entry_point: Some("e".to_string()) }),
        routes: Some(vec!["a.com/*".to_string()]),
        ..full_manifest()
    };
    assert_eq!(manifest.clone(), manifest);
    let target = manifest.get_target(Some("own")).unwrap();
    assert_eq!(target.clone(), target);
    assert_eq!(TargetType::default(), TargetType::Webpack);
}
