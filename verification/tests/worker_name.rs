use worker_manifest::environment::Environment;
use worker_manifest::environments::Environments;
use worker_manifest::manifest::Manifest;
use worker_manifest::target_type::TargetType;

const TEST_ENV_NAME: &str = "test";

fn webpack(name: &str) -> Manifest {
    Manifest {
        name: name.to_string(),
        target_type: TargetType::Webpack,
        ..Manifest::default()
    }
}

fn with_env(name: &str, environment: Environment) -> Manifest {
    Manifest {
        env: Environments::new().insert(TEST_ENV_NAME.to_string(), environment),
        ..webpack(name)
    }
}

#[test]
fn it_returns_top_level_name_when_no_env() {
    let top_level_name = "worker";

    let manifest = webpack(top_level_name);

    assert_eq!(manifest.worker_name(None), top_level_name);
}

#[test]
fn it_concatenates_top_level_with_env_when_env_omits_name() {
    let top_level_name = "worker";

    let manifest = with_env(top_level_name, Environment::default());

    assert_eq!(
        manifest.worker_name(Some(TEST_ENV_NAME)),
        format!("{}-{}", top_level_name, TEST_ENV_NAME)
    );
}

#[test]
fn it_uses_env_name_when_provided() {
    let top_level_name = "worker";
    let custom_env_name = "george";

    let environment = Environment {
        name: Some(custom_env_name.to_string()),
        ..Environment::default()
    };
    let manifest = with_env(top_level_name, environment);

    assert_eq!(manifest.worker_name(Some(TEST_ENV_NAME)), custom_env_name);
}

#[test]
fn worker_name_falls_back_to_top_level_on_unknown_environment() {
    let manifest = with_env("worker", Environment::default());
    assert_eq!(manifest.worker_name(Some("missing")), "worker");
    let bare = webpack("worker");
    assert_eq!(bare.worker_name(Some("prod")), "worker");
}

#[test]
fn naming_follows_the_environment() {
    let plain = Manifest {
        env: Environments::new().insert("prod".to_string(), Environment::default()),
        ..webpack("worker")
    };
    assert_eq!(plain.worker_name(Some("prod")), "worker-prod");
    let custom = Environment { name: Some("custom".to_string()), ..Environment::default() };
    let named = Manifest {
        env: Environments::new().insert("prod".to_string(), custom),
        ..webpack("worker")
    };
    assert_eq!(named.worker_name(Some("prod")), "custom");
}
