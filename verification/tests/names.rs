use worker_manifest::environment::Environment;
use worker_manifest::environments::Environments;
use worker_manifest::error::{LookupError, NameConflictError};
use worker_manifest::manifest::Manifest;
use worker_manifest::uniqueness::{check_for_duplicate_names, contains_text};

fn named(name: &str) -> Environment {
    Environment { name: Some(name.to_string()), ..Environment::default() }
}

fn manifest(name: &str, env: Environments) -> Manifest {
    Manifest { name: name.to_string(), env, ..Manifest::default() }
}

fn sorted(mut names: Vec<String>) -> Vec<String> {
    names.sort();
    names
}

#[test]
fn distinct_names_pass() {
    let env = Environments::new()
        .insert("prod".to_string(), named("worker-live"))
        .insert("staging".to_string(), Environment::default())
        .insert("dev".to_string(), named("worker-dev"));
    assert_eq!(check_for_duplicate_names(&manifest("worker", env)), Ok(()));
    assert_eq!(check_for_duplicate_names(&manifest("worker", Environments::new())), Ok(()));
}

#[test]
fn environment_named_as_the_top_level_conflicts() {
    let env = Environments::new().insert("prod".to_string(), named("worker"));
    assert_eq!(
        check_for_duplicate_names(&manifest("worker", env)),
        Err(NameConflictError { duplicates: vec!["worker".to_string()] })
    );
}

#[test]
fn each_duplicate_is_reported_once() {
    let env = Environments::new()
        .insert("a".to_string(), named("same"))
        .insert("b".to_string(), named("same"))
        .insert("c".to_string(), named("same"))
        .insert("d".to_string(), named("worker"))
        .insert("e".to_string(), named("worker"))
        .insert("f".to_string(), named("alone"));
    match check_for_duplicate_names(&manifest("worker", env)) {
        Err(e) => assert_eq!(sorted(e.duplicates), vec!["same".to_string(), "worker".to_string()]),
        Ok(()) => panic!("duplicates passed"),
    }
}

#[test]
fn derived_names_are_not_compared() {
    let env = Environments::new()
        .insert("prod".to_string(), Environment::default())
        .insert("other".to_string(), named("worker-prod"));
    assert_eq!(check_for_duplicate_names(&manifest("worker", env)), Ok(()));
}

#[test]
fn contains_text_finds_exact_texts_only() {
    let list = vec!["a".to_string(), "bc".to_string()];
    assert!(contains_text(&list, "bc"));
    assert!(!contains_text(&list, "b"));
    assert!(!contains_text(&Vec::new(), ""));
}

#[test]
fn environments_are_a_table() {
    let env = Environments::new()
        .insert("prod".to_string(), named("first"))
        .insert("staging".to_string(), named("second"))
        .insert("prod".to_string(), named("third"));
    assert_eq!(env.len(), 2);
    assert!(!env.is_empty());
    assert_eq!(env.get("prod"), Some(&named("third")));
    assert_eq!(env.get("staging"), Some(&named("second")));
    assert_eq!(env.get("dev"), None);
    let (name, environment) = env.entry(0);
    assert_eq!(env.get(name), Some(environment));
    assert!(Environments::new().is_empty());
    assert_eq!(env.clone(), env);
}

#[test]
fn get_environment_tells_the_failures_apart() {
    let bare = manifest("worker", Environments::new());
    assert_eq!(bare.get_environment(None), Ok(None));
    assert_eq!(bare.get_environment(Some("prod")), Err(LookupError::NoEnvironmentsDefined));
    let one = manifest("worker", Environments::new().insert("prod".to_string(), named("x")));
    assert_eq!(one.get_environment(None), Ok(None));
    assert_eq!(one.get_environment(Some("prod")), Ok(Some(&named("x"))));
    assert_eq!(one.get_environment(Some("staging")), Err(LookupError::UnknownEnvironment));
}

#[test]
fn the_order_of_the_environments_does_not_count() {
    let one = Environments::new()
        .insert("prod".to_string(), named("live"))
        .insert("staging".to_string(), Environment::default());
    let other = Environments::new()
        .insert("staging".to_string(), Environment::default())
        .insert("prod".to_string(), named("live"));
    assert!(one.same_as(&other));
    assert_eq!(one, other);
    assert_eq!(manifest("worker", one.clone()), manifest("worker", other.clone()));
    assert!(manifest("worker", one.clone()).same_as(&manifest("worker", other)));

    let renamed = Environments::new()
        .insert("staging".to_string(), Environment::default())
        .insert("prod".to_string(), named("other"));
    assert!(!one.same_as(&renamed));
    assert_ne!(one, renamed);
    let fewer = Environments::new().insert("prod".to_string(), named("live"));
    assert_ne!(one, fewer);
    let elsewhere = Environments::new()
        .insert("prod".to_string(), named("live"))
        .insert("dev".to_string(), Environment::default());
    assert_ne!(one, elsewhere);
    assert!(!manifest("worker", one.clone()).same_as(&manifest("other", one)));
}

#[test]
fn sections_are_compared_by_value() {
    let plain = Environment::default();
    let routed = Environment {
        routes: Some(vec!["a.com/*".to_string()]),
        ..Environment::default()
    };
    let longer = Environment {
        routes: Some(vec!["a.com/*".to_string(), "b.com/*".to_string()]),
        ..Environment::default()
    };
    assert!(plain.same_as(&Environment::default()));
    assert!(routed.same_as(&routed.clone()));
    assert!(!plain.same_as(&routed));
    assert!(!routed.same_as(&longer));
    assert!(!named("a").same_as(&named("b")));
}
