use worker_manifest::environment::Environment;
use worker_manifest::error::{Field, FormatError, Reason};
use worker_manifest::value::Value;
use worker_manifest::environments::Environments;
use worker_manifest::kv_namespace::KvNamespace;
use worker_manifest::manifest::Manifest;
use worker_manifest::scaffold::{list_fields_to_update, AccountInfoReport, MissingField};
use worker_manifest::site::Site;
use worker_manifest::target_type::TargetType;

fn namespace(binding: &str) -> KvNamespace {
    KvNamespace { id: String::new(), binding: binding.to_string(), bucket: None }
}

fn site(bucket: &str) -> Site {
    Site { bucket: bucket.to_string(), entry_point: None }
}

#[test]
fn generate_without_template_starts_blank() {
    let manifest = Manifest::generate("worker".to_string(), None, None, None);
    let expected = Manifest {
        name: "worker".to_string(),
        workers_dev: Some(true),
        ..Manifest::default()
    };
    assert_eq!(manifest, expected);
    assert_eq!(manifest.target_type, TargetType::Webpack);
}

#[test]
fn generate_keeps_the_template_and_takes_what_is_asked_for() {
    let template = Manifest {
        name: "template".to_string(),
        target_type: TargetType::Webpack,
        account_id: "account".to_string(),
        workers_dev: Some(false),
        route: Some("example.com/*".to_string()),
        zone_id: Some("zone".to_string()),
        kv_namespaces: Some(vec![namespace("KV")]),
        ..Manifest::default()
    };
    let manifest = Manifest::generate(
        "worker".to_string(),
        Some(TargetType::Plain),
        Some(template.clone()),
        Some(site("./public")),
    );
    let expected = Manifest {
        name: "worker".to_string(),
        target_type: TargetType::Plain,
        workers_dev: None,
        site: Some(site("./public")),
        ..template
    };
    assert_eq!(manifest, expected);
}

#[test]
fn generate_switches_the_subdomain_on_without_a_route() {
    let empty_route = Manifest { route: Some(String::new()), ..Manifest::default() };
    let manifest = Manifest::generate("worker".to_string(), None, Some(empty_route), None);
    assert_eq!(manifest.workers_dev, Some(true));
    assert_eq!(manifest.target_type, TargetType::Webpack);
}

#[test]
fn generate_keeps_the_site_of_the_template() {
    let template = Manifest { site: Some(site("./dist")), ..Manifest::default() };
    let manifest =
        Manifest::generate("worker".to_string(), None, Some(template), Some(site("./public")));
    assert_eq!(manifest.site, Some(site("./dist")));
}

#[test]
fn template_type_is_compared_with_the_one_asked_for() {
    let template = Manifest { target_type: TargetType::Webpack, ..Manifest::default() };
    assert!(template.recommends_other_type(Some(TargetType::Plain)));
    assert!(!template.recommends_other_type(Some(TargetType::Webpack)));
    assert!(!template.recommends_other_type(None));
}

#[test]
fn fields_are_listed_in_order() {
    let fields = list_fields_to_update(
        true,
        &Some(vec![namespace("ONE"), namespace("TWO")]),
        &Some("example.com/*".to_string()),
        &Some("zone".to_string()),
        false,
        false,
    );
    assert_eq!(
        fields,
        vec![
            MissingField::AccountId,
            MissingField::KvNamespaceId("ONE".to_string()),
            MissingField::KvNamespaceId("TWO".to_string()),
            MissingField::Route,
            MissingField::ZoneId,
        ]
    );
    let given = list_fields_to_update(
        true,
        &None,
        &Some(String::new()),
        &Some("zone".to_string()),
        true,
        true,
    );
    assert_eq!(given, Vec::<MissingField>::new());
}

#[test]
fn report_lists_environments_that_have_fields() {
    let quiet = Environment::default();
    let loud = Environment {
        account_id: Some("account".to_string()),
        route: Some("example.com/*".to_string()),
        kv_namespaces: Some(vec![namespace("KV")]),
        ..Environment::default()
    };
    let manifest = Manifest {
        name: "worker".to_string(),
        zone_id: Some("zone".to_string()),
        env: Environments::new()
            .insert("quiet".to_string(), quiet)
            .insert("loud".to_string(), loud),
        ..Manifest::default()
    };
    let report = manifest.warn_on_account_info(false, true);
    assert_eq!(
        report,
        AccountInfoReport {
            top_level: vec![MissingField::AccountId],
            environments: vec![(
                "loud".to_string(),
                vec![
                    MissingField::AccountId,
                    MissingField::KvNamespaceId("KV".to_string()),
                    MissingField::Route,
                ]
            )],
        }
    );
    let given = manifest.warn_on_account_info(true, false);
    assert_eq!(given.top_level, vec![MissingField::ZoneId]);
    assert_eq!(given.environments.len(), 1);
    assert_eq!(
        given.environments[0].1,
        vec![MissingField::KvNamespaceId("KV".to_string()), MissingField::Route]
    );
}

#[test]
fn generate_reads_the_template_from_its_document() {
    let document = Value::Table(vec![
        ("name".to_string(), Value::Text("template".to_string())),
        ("type".to_string(), Value::Text("plain".to_string())),
        ("route".to_string(), Value::Text("example.com/*".to_string())),
    ]);
    let manifest =
        Manifest::generate_from_document("worker".to_string(), None, Some(&document), None);
    let expected = Manifest {
        name: "worker".to_string(),
        target_type: TargetType::Plain,
        route: Some("example.com/*".to_string()),
        workers_dev: None,
        ..Manifest::default()
    };
    assert_eq!(manifest, Ok(expected));
    assert_eq!(
        Manifest::generate_from_document("worker".to_string(), None, None, None),
        Ok(Manifest::generate("worker".to_string(), None, None, None))
    );
}

#[test]
fn generate_ends_with_the_error_of_a_template_that_does_not_read() {
    let document = Value::Table(vec![("name".to_string(), Value::Text("template".to_string()))]);
    assert_eq!(
        Manifest::generate_from_document(
            "worker".to_string(),
            Some(TargetType::Plain),
            Some(&document),
            None
        ),
        Err(FormatError::Malformed(Field::Type, Reason::Missing))
    );
}
