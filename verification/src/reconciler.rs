use crate::crd::DevEnvironment;
use crate::deployment::{describes, DeploymentConfig, DeploymentManifest};
use crate::errors::Error;
use vstd::prelude::*;
use vstd::string::*;

verus! {

/// Seconds after which a DevEnvironment is reconciled again after a success.
pub const RECONCILE_INTERVAL_SECS: u64 = 300;

/// Seconds after which a failed reconciliation is retried.
pub const RETRY_INTERVAL_SECS: u64 = 60;

/// When the DevEnvironment should be reconciled again.
#[derive(Debug, Clone, Copy, PartialEq, Eq, Structural)]
pub struct ReconcileAction {
    /// Seconds to wait before the next reconciliation.
    pub requeue_after_secs: u64,
}

/// The namespace the DevEnvironment deploys into: the one its spec names,
/// or else `devenv-` followed by its name.
pub open spec fn target_namespace_of(dev_env: DevEnvironment) -> Seq<char>
    recommends
        dev_env.name is Some,
{
    match dev_env.spec.target_namespace {
        Some(target) => target@,
        None => "devenv-"@ + dev_env.name->0@,
    }
}

/// The namespace the DevEnvironment deploys into.
pub fn target_namespace(dev_env: &DevEnvironment) -> (namespace: String)
    requires
        dev_env.name is Some,
    ensures
        namespace@ == target_namespace_of(*dev_env),
{
    match &dev_env.spec.target_namespace {
        Some(target) => target.clone(),
        None => {
            let mut namespace = String::from_str("devenv-");
            namespace.append(dev_env.name.as_ref().unwrap().as_str());
            namespace
        },
    }
}

/// `config` is the deployment configuration of `dev_env` in `namespace`:
/// named after the DevEnvironment, with its image and replicas, and no extra
/// environment variables or labels.
pub open spec fn configures(config: DeploymentConfig, dev_env: DevEnvironment, namespace: Seq<char>) -> bool
    recommends
        dev_env.name is Some,
{
    &&& config.name@ == dev_env.name->0@
    &&& config.namespace@ == namespace
    &&& config.image@ == dev_env.spec.image@
    &&& config.replicas == dev_env.spec.replicas
    &&& config.env_vars@.len() == 0
    &&& config.labels@.len() == 0
}

/// The deployment configuration of `dev_env` in `namespace`.
pub fn deployment_config(dev_env: &DevEnvironment, namespace: String) -> (config: DeploymentConfig)
    requires
        dev_env.name is Some,
    ensures
        configures(config, *dev_env, namespace@),
{
    DeploymentConfig {
        name: dev_env.name.as_ref().unwrap().clone(),
        namespace,
        image: dev_env.spec.image.clone(),
        replicas: dev_env.spec.replicas,
        env_vars: Vec::new(),
        labels: Vec::new(),
    }
}

/// The target namespace is the one the spec names; without one it is
/// `devenv-` followed by the whole name of the DevEnvironment, uncut.
pub proof fn lemma_target_namespace(dev_env: DevEnvironment)
    requires
        dev_env.name is Some,
    ensures
        dev_env.spec.target_namespace matches Some(target) ==> target_namespace_of(dev_env)
            == target@,
        dev_env.spec.target_namespace is None ==> {
            let target = target_namespace_of(dev_env);
            let name = dev_env.name->0@;
            &&& target.len() == 7 + name.len()
            &&& target.subrange(0, 7) == "devenv-"@
            &&& target.subrange(7, target.len() as int) == name
        },
{
    reveal_strlit("devenv-");
    if dev_env.spec.target_namespace is None {
        let target = target_namespace_of(dev_env);
        let name = dev_env.name->0@;
        assert(target.subrange(0, 7) =~= "devenv-"@);
        assert(target.subrange(7, target.len() as int) =~= name);
    }
}

/// The deployment configuration of a DevEnvironment carries its name, its
/// image and its number of replicas unchanged, whatever that number is, into
/// the namespace it is given, with no extra environment or labels.
pub proof fn lemma_config_follows_spec(config: DeploymentConfig, dev_env: DevEnvironment, namespace: Seq<char>)
    requires
        dev_env.name is Some,
        configures(config, dev_env, namespace),
    ensures
        config.replicas == dev_env.spec.replicas,
        config.name@ == dev_env.name->0@,
        config.image@ == dev_env.spec.image@,
        config.namespace@ == namespace,
        config.env_vars@.len() == 0,
        config.labels@.len() == 0,
{
}

/// The deployment that a reconciliation writes runs the DevEnvironment's
/// image with its number of replicas, in the namespace made sure of first.
pub proof fn lemma_reconciled_deployment(
    deployment: DeploymentManifest,
    config: DeploymentConfig,
    dev_env: DevEnvironment,
)
    requires
        dev_env.name is Some,
        configures(config, dev_env, target_namespace_of(dev_env)),
        describes(deployment, config),
    ensures
        deployment.replicas == dev_env.spec.replicas,
        deployment.image@ == dev_env.spec.image@,
        deployment.name@ == dev_env.name->0@,
        deployment.namespace@ == target_namespace_of(dev_env),
{
}

/// How the last part of a reconciliation ended.
#[derive(Debug)]
pub enum ReconcileEvent {
    /// The reconciliation has just begun.
    Start,
    /// Making sure of the target namespace ended so.
    NamespaceEnsured(Result<(), Error>),
    /// Making sure of the deployment ended so.
    DeploymentEnsured(Result<(), Error>),
}

/// What a reconciliation does next.
#[derive(Debug)]
pub enum ReconcileStep {
    /// Make sure that the namespace `name` exists.
    EnsureNamespace { name: String },
    /// Make sure that the deployment of `config` exists as configured.
    EnsureDeployment { config: DeploymentConfig },
    /// Stop with this result.
    Done(Result<ReconcileAction, Error>),
}

/// The next step of reconciling `dev_env`, given how the last one ended.
///
/// A reconciliation makes sure of the target namespace, then of the
/// deployment, and asks to be run again after [`RECONCILE_INTERVAL_SECS`].
/// The first failure ends it with that failure. It deletes nothing: what it
/// made stays when the DevEnvironment goes.
pub fn reconcile_step(dev_env: &DevEnvironment, event: ReconcileEvent) -> (step: ReconcileStep)
    requires
        dev_env.name is Some,
    ensures
        match event {
            ReconcileEvent::Start => step matches ReconcileStep::EnsureNamespace { name } && name@
                == target_namespace_of(*dev_env),
            ReconcileEvent::NamespaceEnsured(Ok(())) => step matches ReconcileStep::EnsureDeployment {
                config,
            } && configures(config, *dev_env, target_namespace_of(*dev_env)),
            ReconcileEvent::NamespaceEnsured(Err(error)) => step == ReconcileStep::Done(Err(error)),
            ReconcileEvent::DeploymentEnsured(Ok(())) => step == ReconcileStep::Done(
                Ok(ReconcileAction { requeue_after_secs: RECONCILE_INTERVAL_SECS }),
            ),
            ReconcileEvent::DeploymentEnsured(Err(error)) => step == ReconcileStep::Done(Err(error)),
        },
{
    match event {
        ReconcileEvent::Start => ReconcileStep::EnsureNamespace { name: target_namespace(dev_env) },
        ReconcileEvent::NamespaceEnsured(Ok(())) => {
            let namespace = target_namespace(dev_env);
            ReconcileStep::EnsureDeployment { config: deployment_config(dev_env, namespace) }
        },
        ReconcileEvent::NamespaceEnsured(Err(error)) => ReconcileStep::Done(Err(error)),
        ReconcileEvent::DeploymentEnsured(Ok(())) => ReconcileStep::Done(
            Ok(ReconcileAction { requeue_after_secs: RECONCILE_INTERVAL_SECS }),
        ),
        ReconcileEvent::DeploymentEnsured(Err(error)) => ReconcileStep::Done(Err(error)),
    }
}

/// What to do when a reconciliation fails: try again after
/// [`RETRY_INTERVAL_SECS`], whatever the error.
pub fn error_policy(error: &Error) -> (action: ReconcileAction)
    ensures
        action.requeue_after_secs == RETRY_INTERVAL_SECS,
{
    ReconcileAction { requeue_after_secs: RETRY_INTERVAL_SECS }
}

} // verus!
