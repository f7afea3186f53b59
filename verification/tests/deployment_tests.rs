use devenv_controller::deployment::{
    build_deployment, delete_deployment_step, deployment_labels, ensure_deployment_step,
    DeploymentConfig, DeploymentEvent, DeploymentManifest, DeploymentStep,
};
use devenv_controller::crd::{DevEnvironment, DevEnvironmentSpec};
use devenv_controller::errors::{Error, KubeFailure};
use devenv_controller::labels::Labels;
use devenv_controller::namespace::{ensure_namespace_step, NamespaceEvent, NamespaceStep};
use devenv_controller::reconciler::{reconcile_step, ReconcileEvent, ReconcileStep};

fn api_failure(code: u16) -> KubeFailure {
    KubeFailure { api_code: Some(code), message: format!("status {}", code) }
}

fn config(name: &str, replicas: i32, labels: &[(&str, &str)]) -> DeploymentConfig {
    DeploymentConfig {
        name: name.to_string(),
        namespace: "test-target-deploy".to_string(),
        image: "nginx:alpine".to_string(),
        replicas,
        env_vars: vec![],
        labels: labels.iter().map(|(k, v)| (k.to_string(), v.to_string())).collect(),
    }
}

fn label<'a>(labels: &'a Labels, key: &str) -> Option<&'a str> {
    labels.get(key).map(|v| v.as_str())
}

fn sorted_entries(labels: &Labels) -> Vec<(String, String)> {
    let mut entries = labels.entries().clone();
    entries.sort();
    entries
}

fn created(step: DeploymentStep) -> DeploymentManifest {
    match step {
        DeploymentStep::Create { deployment } => deployment,
        other => panic!("expected a creation, got {:?}", other),
    }
}

fn dev_env(name: &str, replicas: i32, target: &str) -> DevEnvironment {
    DevEnvironment {
        name: Some(name.to_string()),
        namespace: Some("devenv-integration-tests".to_string()),
        spec: DevEnvironmentSpec {
            image: "nginx:alpine".to_string(),
            replicas,
            database: None,
            target_namespace: Some(target.to_string()),
        },
        status: None,
    }
}

fn deployment_config_of(env: &DevEnvironment) -> DeploymentConfig {
    match reconcile_step(env, ReconcileEvent::NamespaceEnsured(Ok(()))) {
        ReconcileStep::EnsureDeployment { config } => config,
        other => panic!("expected the deployment, got {:?}", other),
    }
}

#[test]
fn test_creates_deployment() {
    let env = dev_env("test-deploy", 2, "test-target-deploy");
    let cfg = deployment_config_of(&env);
    let deployment = created(ensure_deployment_step(
        &cfg,
        DeploymentEvent::Fetched(Err(api_failure(404))),
    ));
    assert_eq!(deployment.replicas, 2, "Deployment should have 2 replicas");
    assert_eq!(label(&deployment.labels, "managed-by"), Some("devenv-controller"));
    assert_eq!(label(&deployment.labels, "app"), Some("test-deploy"));
    assert_eq!(deployment.name, "test-deploy");
    assert_eq!(deployment.namespace, "test-target-deploy");
    assert_eq!(deployment.container_name, "app");
    assert_eq!(deployment.image, "nginx:alpine");
    assert!(deployment.env_vars.is_empty());
}

#[test]
fn test_deployment_persists_after_devenv_deletion() {
    // A whole reconciliation, whatever the cluster answers, never deletes the
    // namespace or the deployment: both stay when the DevEnvironment goes.
    let env = dev_env("test-delete", 1, "test-target-delete");
    let namespace_events = || {
        vec![
            NamespaceEvent::Start,
            NamespaceEvent::Fetched(Err(api_failure(404))),
            NamespaceEvent::Fetched(Err(api_failure(500))),
            NamespaceEvent::Written(Ok(())),
            NamespaceEvent::Written(Err(api_failure(409))),
        ]
    };
    let deployment_events = || {
        vec![
            DeploymentEvent::Start,
            DeploymentEvent::Fetched(Ok(())),
            DeploymentEvent::Fetched(Err(api_failure(404))),
            DeploymentEvent::Fetched(Err(api_failure(500))),
            DeploymentEvent::Written(Ok(())),
            DeploymentEvent::Written(Err(api_failure(404))),
        ]
    };
    let reconcile_events = vec![
        ReconcileEvent::Start,
        ReconcileEvent::NamespaceEnsured(Ok(())),
        ReconcileEvent::NamespaceEnsured(Err(Error::ReconcileError("x".to_string()))),
        ReconcileEvent::DeploymentEnsured(Ok(())),
        ReconcileEvent::DeploymentEnsured(Err(Error::KubeError(api_failure(500)))),
    ];
    for event in reconcile_events {
        match reconcile_step(&env, event) {
            ReconcileStep::EnsureNamespace { name } => {
                assert_eq!(name, "test-target-delete");
                for event in namespace_events() {
                    let step = ensure_namespace_step(&name, event);
                    assert!(!matches!(step, NamespaceStep::Delete { .. }));
                }
                let existing = devenv_controller::namespace::managed_namespace(&name);
                assert!(matches!(
                    ensure_namespace_step(&name, NamespaceEvent::Fetched(Ok(existing))),
                    NamespaceStep::Done(Ok(()))
                ));
            }
            ReconcileStep::EnsureDeployment { config } => {
                for event in deployment_events() {
                    let step = ensure_deployment_step(&config, event);
                    assert!(!matches!(step, DeploymentStep::Delete { .. }));
                }
            }
            ReconcileStep::Done(_) => {}
        }
    }
}

#[test]
fn environment_variables_reach_the_container() {
    let mut cfg = config("web", 1, &[]);
    cfg.env_vars = vec![
        ("K".to_string(), "V".to_string()),
        ("MODE".to_string(), "dev".to_string()),
        ("K".to_string(), "W".to_string()),
    ];
    let deployment = created(ensure_deployment_step(
        &cfg,
        DeploymentEvent::Fetched(Err(api_failure(404))),
    ));
    assert_eq!(
        deployment.env_vars,
        vec![
            ("K".to_string(), "V".to_string()),
            ("MODE".to_string(), "dev".to_string()),
            ("K".to_string(), "W".to_string()),
        ]
    );
    let replaced = match ensure_deployment_step(&cfg, DeploymentEvent::Fetched(Ok(()))) {
        DeploymentStep::Replace { deployment } => deployment,
        other => panic!("expected a replacement, got {:?}", other),
    };
    assert_eq!(replaced.env_vars, deployment.env_vars);
}

#[test]
fn ensure_deployment_starts_by_fetching() {
    let cfg = config("web", 1, &[]);
    match ensure_deployment_step(&cfg, DeploymentEvent::Start) {
        DeploymentStep::Get { namespace, name } => {
            assert_eq!(namespace, "test-target-deploy");
            assert_eq!(name, "web");
        }
        other => panic!("expected a fetch, got {:?}", other),
    }
}

#[test]
fn existing_deployment_is_replaced_by_the_same_object() {
    let cfg = config("web", 3, &[("team", "a")]);
    let replacement = match ensure_deployment_step(&cfg, DeploymentEvent::Fetched(Ok(()))) {
        DeploymentStep::Replace { deployment } => deployment,
        other => panic!("expected a replacement, got {:?}", other),
    };
    let creation =
        created(ensure_deployment_step(&cfg, DeploymentEvent::Fetched(Err(api_failure(404)))));
    assert_eq!(replacement.name, creation.name);
    assert_eq!(replacement.namespace, creation.namespace);
    assert_eq!(replacement.replicas, 3);
    assert_eq!(creation.replicas, 3);
    assert_eq!(replacement.image, creation.image);
    assert_eq!(sorted_entries(&replacement.labels), sorted_entries(&creation.labels));
}

#[test]
fn ensure_deployment_passes_on_failures() {
    let cfg = config("web", 1, &[]);
    match ensure_deployment_step(&cfg, DeploymentEvent::Fetched(Err(api_failure(401)))) {
        DeploymentStep::Done(Err(Error::KubeError(failure))) => {
            assert_eq!(failure.api_code, Some(401))
        }
        other => panic!("expected a failure, got {:?}", other),
    }
    assert!(matches!(
        ensure_deployment_step(&cfg, DeploymentEvent::Written(Ok(()))),
        DeploymentStep::Done(Ok(()))
    ));
    assert!(matches!(
        ensure_deployment_step(&cfg, DeploymentEvent::Written(Err(api_failure(404)))),
        DeploymentStep::Done(Err(Error::KubeError(_)))
    ));
}

#[test]
fn configured_labels_override_in_order() {
    let cfg = config("web", 1, &[("app", "custom"), ("team", "a"), ("team", "b")]);
    let labels = deployment_labels(&cfg);
    assert_eq!(label(&labels, "app"), Some("custom"));
    assert_eq!(label(&labels, "team"), Some("b"));
    assert_eq!(label(&labels, "managed-by"), Some("devenv-controller"));
    assert_eq!(
        sorted_entries(&labels),
        vec![
            ("app".to_string(), "custom".to_string()),
            ("managed-by".to_string(), "devenv-controller".to_string()),
            ("team".to_string(), "b".to_string()),
        ]
    );
}

#[test]
fn default_labels_only() {
    let cfg = config("web", 1, &[]);
    let deployment = build_deployment(&cfg);
    assert_eq!(
        sorted_entries(&deployment.labels),
        vec![
            ("app".to_string(), "web".to_string()),
            ("managed-by".to_string(), "devenv-controller".to_string()),
        ]
    );
}

#[test]
fn delete_of_missing_deployment_succeeds() {
    match delete_deployment_step("web", "team-a", None) {
        DeploymentStep::Delete { namespace, name } => {
            assert_eq!(namespace, "team-a");
            assert_eq!(name, "web");
        }
        other => panic!("expected a deletion, got {:?}", other),
    }
    assert!(matches!(
        delete_deployment_step("web", "team-a", Some(Ok(()))),
        DeploymentStep::Done(Ok(()))
    ));
    assert!(matches!(
        delete_deployment_step("web", "team-a", Some(Err(api_failure(404)))),
        DeploymentStep::Done(Ok(()))
    ));
    match delete_deployment_step("web", "team-a", Some(Err(api_failure(503)))) {
        DeploymentStep::Done(Err(Error::KubeError(failure))) => {
            assert_eq!(failure.api_code, Some(503))
        }
        other => panic!("expected a failure, got {:?}", other),
    }
}
