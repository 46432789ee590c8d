use worker_manifest::environment::Environment;
use worker_manifest::environments::Environments;
use worker_manifest::error::{Field, FormatError, ManifestError, NameConflictError, Reason};
use worker_manifest::kv_namespace::KvNamespace;
use worker_manifest::manifest::Manifest;
use worker_manifest::site::Site;
use worker_manifest::target_type::TargetType;
use worker_manifest::value::{field_key, get_flag, get_text, get_texts, table_get, Value};

fn text(s: &str) -> Value {
    Value::Text(s.to_string())
}

fn table(entries: Vec<(&str, Value)>) -> Value {
    Value::Table(entries.into_iter().map(|(k, v)| (k.to_string(), v)).collect())
}

fn texts(items: Vec<&str>) -> Value {
    Value::Array(items.into_iter().map(text).collect())
}

fn minimal(more: Vec<(&'static str, Value)>) -> Value {
    let mut entries = vec![("name", text("worker")), ("type", text("plain"))];
    entries.extend(more);
    table(entries)
}

fn full_document() -> Value {
    table(vec![
        ("name", text("worker")),
        ("type", text("webpack")),
        ("account_id", text("account")),
        ("workers_dev", Value::Boolean(false)),
        ("route", text("")),
        ("routes", texts(vec!["a.com/*", "b.com/*"])),
        ("zone_id", text("zone")),
        ("webpack_config", text("webpack.config.js")),
        ("private", Value::Boolean(true)),
        ("site", table(vec![("bucket", text("./public")), ("entry-point", text("site"))])),
        (
            "kv-namespaces",
            Value::Array(vec![table(vec![
                ("id", text("1234")),
                ("binding", text("KV")),
                ("bucket", text("./data")),
            ])]),
        ),
        (
            "env",
            table(vec![(
                "prod",
                table(vec![
                    ("name", text("live")),
                    ("account_id", text("other")),
                    ("workers_dev", Value::Boolean(true)),
                    ("route", text("")),
                    ("zone_id", text("")),
                    ("webpack_config", text("prod.config.js")),
                    (
                        "kv-namespaces",
                        Value::Array(vec![table(vec![
                            ("id", text("5678")),
                            ("binding", text("PROD")),
                        ])]),
                    ),
                ]),
            )]),
        ),
    ])
}

fn full_manifest() -> Manifest {
    let prod = Environment {
        name: Some("live".to_string()),
        account_id: Some("other".to_string()),
        workers_dev: Some(true),
        route: None,
        routes: None,
        zone_id: None,
        webpack_config: Some("prod.config.js".to_string()),
        kv_namespaces: Some(vec![KvNamespace {
            id: "5678".to_string(),
            binding: "PROD".to_string(),
            bucket: None,
        }]),
    };
    Manifest {
        name: "worker".to_string(),
        target_type: TargetType::Webpack,
        account_id: "account".to_string(),
        workers_dev: Some(false),
        route: None,
        routes: Some(vec!["a.com/*".to_string(), "b.com/*".to_string()]),
        zone_id: Some("zone".to_string()),
        webpack_config: Some("webpack.config.js".to_string()),
        private: Some(true),
        site: Some(Site { bucket: "./public".to_string(), entry_point: Some("site".to_string()) }),
        kv_namespaces: Some(vec![KvNamespace {
            id: "1234".to_string(),
            binding: "KV".to_string(),
            bucket: Some("./data".to_string()),
        }]),
        env: Environments::new().insert("prod".to_string(), prod),
    }
}

#[test]
fn reads_every_field() {
    assert_eq!(Manifest::parse(&full_document()), Ok(full_manifest()));
}

#[test]
fn writes_every_field() {
    assert_eq!(full_manifest().serialize(), full_document());
}

#[test]
fn document_round_trip() {
    let document = full_document();
    assert_eq!(Manifest::parse(&document).unwrap().serialize(), document);
    let plain = table(vec![
        ("name", text("")),
        ("type", text("plain")),
        ("account_id", text("")),
        ("route", text("example.com/*")),
        ("zone_id", text("")),
    ]);
    assert_eq!(Manifest::parse(&plain).unwrap().serialize(), plain);
}

#[test]
fn manifest_round_trip() {
    let manifest = full_manifest();
    assert_eq!(Manifest::parse(&manifest.serialize()), Ok(manifest));
    let blank = Manifest::default();
    assert_eq!(Manifest::parse(&blank.serialize()), Ok(blank));
}

#[test]
fn fields_left_out_take_their_defaults() {
    let manifest = Manifest::parse(&table(vec![("type", text("plain"))])).unwrap();
    let expected = Manifest { target_type: TargetType::Plain, ..Manifest::default() };
    assert_eq!(manifest, expected);
    assert!(manifest.env.is_empty());
}

#[test]
fn empty_route_and_zone_read_as_unset() {
    let document = minimal(vec![
        ("route", text("")),
        ("zone_id", text("")),
        ("env", table(vec![("prod", table(vec![("route", text("")), ("zone_id", text("z"))]))])),
    ]);
    let manifest = Manifest::parse(&document).unwrap();
    assert_eq!(manifest.route, None);
    assert_eq!(manifest.zone_id, None);
    let prod = manifest.env.get("prod").unwrap();
    assert_eq!(prod.route, None);
    assert_eq!(prod.zone_id, Some("z".to_string()));
}

#[test]
fn unknown_fields_are_passed_over() {
    let document = minimal(vec![
        ("compatibility", text("2020")),
        ("vars", table(vec![("KEY", Value::Integer(1))])),
        ("started", Value::Opaque),
        ("env", table(vec![("prod", table(vec![("private", Value::Boolean(true))]))])),
    ]);
    let manifest = Manifest::parse(&document).unwrap();
    assert_eq!(manifest.name, "worker");
    assert_eq!(manifest.env.get("prod"), Some(&Environment::default()));
}

#[test]
fn the_later_of_two_values_under_one_key_counts() {
    let document = table(vec![
        ("name", Value::Integer(1)),
        ("type", text("plain")),
        ("name", text("worker")),
    ]);
    assert_eq!(Manifest::parse(&document).unwrap().name, "worker");
}

fn wrong_kind(field: Field) -> FormatError {
    FormatError::Malformed(field, Reason::WrongKind)
}

fn missing(field: Field) -> FormatError {
    FormatError::Malformed(field, Reason::Missing)
}

#[test]
fn a_document_must_be_a_table_with_a_type() {
    assert_eq!(Manifest::parse(&text("worker")), Err(wrong_kind(Field::Document)));
    assert_eq!(Manifest::parse(&Value::Array(vec![])), Err(wrong_kind(Field::Document)));
    assert_eq!(
        Manifest::parse(&table(vec![("name", text("worker"))])),
        Err(missing(Field::Type))
    );
    assert_eq!(
        Manifest::parse(&table(vec![("type", text("assembly"))])),
        Err(wrong_kind(Field::Type))
    );
    assert_eq!(
        Manifest::parse(&table(vec![("type", Value::Integer(1))])),
        Err(wrong_kind(Field::Type))
    );
}

#[test]
fn values_of_the_wrong_kind_are_malformed() {
    let cases: Vec<(&'static str, Value, FormatError)> = vec![
        ("name", Value::Integer(1), wrong_kind(Field::Name)),
        ("account_id", Value::Boolean(true), wrong_kind(Field::AccountId)),
        ("workers_dev", text("true"), wrong_kind(Field::WorkersDev)),
        ("route", texts(vec!["a.com/*"]), wrong_kind(Field::Route)),
        ("routes", text("a.com/*"), wrong_kind(Field::Routes)),
        (
            "routes",
            Value::Array(vec![text("a.com/*"), Value::Integer(2)]),
            wrong_kind(Field::Routes),
        ),
        ("zone_id", Value::Opaque, wrong_kind(Field::ZoneId)),
        ("webpack_config", Value::Integer(3), wrong_kind(Field::WebpackConfig)),
        ("private", Value::Integer(0), wrong_kind(Field::Private)),
        ("site", text("./public"), wrong_kind(Field::Site)),
        ("site", table(vec![("entry-point", text("site"))]), missing(Field::Bucket)),
        ("site", table(vec![("bucket", Value::Integer(1))]), wrong_kind(Field::Bucket)),
        (
            "site",
            table(vec![("bucket", text("b")), ("entry-point", Value::Integer(1))]),
            wrong_kind(Field::EntryPoint),
        ),
        ("kv-namespaces", table(vec![]), wrong_kind(Field::KvNamespaces)),
        (
            "kv-namespaces",
            Value::Array(vec![table(vec![("id", text("1"))])]),
            missing(Field::Binding),
        ),
        (
            "kv-namespaces",
            Value::Array(vec![
                table(vec![("id", text("1")), ("binding", text("KV"))]),
                table(vec![("binding", text("KV"))]),
                table(vec![("id", text("1"))]),
            ]),
            missing(Field::Id),
        ),
        (
            "kv-namespaces",
            Value::Array(vec![table(vec![
                ("id", text("1")),
                ("binding", text("KV")),
                ("bucket", Value::Boolean(true)),
            ])]),
            wrong_kind(Field::Bucket),
        ),
        ("kv-namespaces", Value::Array(vec![text("KV")]), wrong_kind(Field::KvNamespaces)),
        ("env", Value::Array(vec![]), wrong_kind(Field::Env)),
        (
            "env",
            table(vec![("prod", text("live"))]),
            FormatError::MalformedEnvironment(Field::Env, Reason::WrongKind),
        ),
        (
            "env",
            table(vec![("prod", table(vec![("name", Value::Integer(1))]))]),
            FormatError::MalformedEnvironment(Field::Name, Reason::WrongKind),
        ),
    ];
    for (key, value, expected) in cases {
        let document = minimal(vec![(key, value)]);
        assert_eq!(Manifest::parse(&document), Err(expected), "{}", key);
    }
}

#[test]
fn the_first_field_that_fails_gives_the_error() {
    let document = table(vec![
        ("private", text("no")),
        ("workers_dev", text("yes")),
        ("site", table(vec![("colour", text("red"))])),
        ("name", text("worker")),
    ]);
    assert_eq!(Manifest::parse(&document), Err(missing(Field::Type)));
    let typed = minimal(vec![
        ("private", text("no")),
        ("workers_dev", text("yes")),
        ("site", table(vec![("colour", text("red"))])),
    ]);
    assert_eq!(Manifest::parse(&typed), Err(wrong_kind(Field::WorkersDev)));
}

#[test]
fn of_several_environments_the_first_fault_by_field_is_given() {
    let late = table(vec![("zone_id", Value::Integer(1))]);
    let early = table(vec![("webpack_config", Value::Opaque), ("account_id", Value::Opaque)]);
    let fine = table(vec![("name", text("live"))]);
    let expected = Err(FormatError::MalformedEnvironment(Field::AccountId, Reason::WrongKind));
    let one = minimal(vec![(
        "env",
        table(vec![("a", late), ("b", early), ("c", fine)]),
    )]);
    assert_eq!(Manifest::parse(&one), expected);
    let late = table(vec![("zone_id", Value::Integer(1))]);
    let early = table(vec![("webpack_config", Value::Opaque), ("account_id", Value::Opaque)]);
    let other = minimal(vec![("env", table(vec![("b", early), ("a", late)]))]);
    assert_eq!(Manifest::parse(&other), expected);

    let wrong = table(vec![(
        "kv-namespaces",
        Value::Array(vec![table(vec![("id", Value::Integer(1))])]),
    )]);
    let lacking = table(vec![(
        "kv-namespaces",
        Value::Array(vec![table(vec![("binding", text("KV"))])]),
    )]);
    let document = minimal(vec![("env", table(vec![("a", wrong), ("b", lacking)]))]);
    assert_eq!(
        Manifest::parse(&document),
        Err(FormatError::MalformedEnvironment(Field::Id, Reason::Missing))
    );
}

#[test]
fn an_overridden_section_does_not_count() {
    let broken = table(vec![("name", Value::Integer(1))]);
    let fine = table(vec![("name", text("live"))]);
    let document = minimal(vec![("env", table(vec![("prod", broken), ("prod", fine)]))]);
    let manifest = Manifest::parse(&document).unwrap();
    assert_eq!(manifest.env.len(), 1);
    assert_eq!(manifest.worker_name(Some("prod")), "live");
}

#[test]
fn an_environment_names_its_own_field() {
    let section = table(vec![("routes", texts(vec![])), ("route", Value::Opaque)]);
    assert_eq!(Environment::parse(&section), Err(wrong_kind(Field::Route)));
    let namespaces = table(vec![(
        "kv-namespaces",
        Value::Array(vec![table(vec![("binding", text("KV"))])]),
    )]);
    assert_eq!(Environment::parse(&namespaces), Err(missing(Field::Id)));
    assert_eq!(KvNamespace::parse(&text("KV")), Err(wrong_kind(Field::KvNamespaces)));
    assert_eq!(Site::parse(&Value::Array(vec![])), Err(wrong_kind(Field::Site)));
}

#[test]
fn namespaces_inside_the_site_are_misplaced() {
    let site = table(vec![
        ("bucket", text("./public")),
        ("colour", text("red")),
        ("kv-namespaces", Value::Array(vec![])),
    ]);
    let document = minimal(vec![("site", site)]);
    assert_eq!(Manifest::parse(&document), Err(FormatError::MisplacedKvNamespaces));
    assert_eq!(
        Manifest::new(&document),
        Err(ManifestError::Format(FormatError::MisplacedKvNamespaces))
    );
}

#[test]
fn the_site_takes_known_fields_only() {
    let site = table(vec![("colour", text("red")), ("bucket", Value::Integer(1))]);
    let document = minimal(vec![("site", site)]);
    assert_eq!(Manifest::parse(&document), Err(FormatError::UnknownField));
    assert_eq!(Site::parse(&table(vec![("bucket", text("b"))])).unwrap().bucket, "b");
}

#[test]
fn namespaces_inside_the_site_come_before_every_other_fault() {
    let site = table(vec![("bucket", text("b")), ("kv-namespaces", Value::Array(vec![]))]);
    let document = minimal(vec![("site", site), ("private", text("no"))]);
    assert_eq!(Manifest::parse(&document), Err(FormatError::MisplacedKvNamespaces));
    let untyped = table(vec![
        ("name", text("worker")),
        (
            "site",
            table(vec![("bucket", text("./public")), ("kv-namespaces", Value::Array(vec![]))]),
        ),
    ]);
    assert_eq!(Manifest::parse(&untyped), Err(FormatError::MisplacedKvNamespaces));
    assert_eq!(
        Manifest::new(&untyped),
        Err(ManifestError::Format(FormatError::MisplacedKvNamespaces))
    );
    let broken = table(vec![
        ("name", Value::Integer(1)),
        ("env", text("none")),
        ("site", table(vec![("kv-namespaces", text("KV"))])),
    ]);
    assert_eq!(Manifest::parse(&broken), Err(FormatError::MisplacedKvNamespaces));
}

#[test]
fn new_refuses_names_given_out_twice() {
    let document = minimal(vec![(
        "env",
        table(vec![
            ("prod", table(vec![("name", text("worker"))])),
            ("staging", table(vec![("name", text("other"))])),
        ]),
    )]);
    assert_eq!(
        Manifest::new(&document),
        Err(ManifestError::NameConflict(NameConflictError {
            duplicates: vec!["worker".to_string()]
        }))
    );
    assert!(Manifest::parse(&document).is_ok());
}

#[test]
fn new_reads_what_parse_reads() {
    assert_eq!(Manifest::new(&full_document()), Ok(full_manifest()));
    assert_eq!(
        Manifest::new(&text("worker")),
        Err(ManifestError::Format(wrong_kind(Field::Document)))
    );
}

#[test]
fn sections_read_and_write_on_their_own() {
    let namespace =
        KvNamespace { id: "1".to_string(), binding: "KV".to_string(), bucket: None };
    assert_eq!(KvNamespace::parse(&namespace.serialize()), Ok(namespace));
    let environment = Environment {
        routes: Some(vec!["a.com/*".to_string()]),
        zone_id: Some("zone".to_string()),
        ..Environment::default()
    };
    assert_eq!(Environment::parse(&environment.serialize()), Ok(environment));
    assert_eq!(Environment::parse(&Value::Boolean(true)), Err(wrong_kind(Field::Env)));
    assert_eq!(Environments::new().serialize(), Value::Table(vec![]));
}

#[test]
fn table_fields_are_read_by_kind() {
    let entries = vec![
        ("name".to_string(), text("x")),
        ("private".to_string(), Value::Boolean(true)),
        ("routes".to_string(), texts(vec!["y", "z"])),
    ];
    assert_eq!(table_get(&entries, "name"), Some(&text("x")));
    assert_eq!(table_get(&entries, "route"), None);
    assert_eq!(get_text(&entries, Field::Name), Ok(Some("x".to_string())));
    assert_eq!(get_text(&entries, Field::Private), Err(wrong_kind(Field::Private)));
    assert_eq!(get_text(&entries, Field::Route), Ok(None));
    assert_eq!(get_flag(&entries, Field::Private), Ok(Some(true)));
    assert_eq!(get_flag(&entries, Field::Name), Err(wrong_kind(Field::Name)));
    assert_eq!(get_texts(&entries, Field::Routes), Ok(Some(vec!["y".to_string(), "z".to_string()])));
    assert_eq!(get_texts(&entries, Field::Name), Err(wrong_kind(Field::Name)));
    assert_eq!(field_key(Field::KvNamespaces), "kv-namespaces");
    assert_eq!(field_key(Field::EntryPoint), "entry-point");
}
