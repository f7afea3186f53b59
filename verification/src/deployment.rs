use crate::errors::{Error, KubeFailure};
use crate::labels::{lemma_map_of_last_wins, map_of, pairs_view, Labels};
use crate::namespace::{CONTROLLER_NAME, MANAGED_BY_KEY};
use vstd::prelude::*;
use vstd::string::*;

verus! {

/// Label key that carries the deployment's name.
pub const APP_LABEL_KEY: &'static str = "app";

/// Name of the one container of a dev environment's pods.
pub const CONTAINER_NAME: &'static str = "app";

/// Configuration for creating a deployment.
#[derive(Debug)]
pub struct DeploymentConfig {
    /// Name of the deployment.
    pub name: String,
    /// Target namespace.
    pub namespace: String,
    /// Container image.
    pub image: String,
    /// Number of replicas.
    pub replicas: i32,
    /// Environment variables for the container, as (name, value) pairs.
    pub env_vars: Vec<(String, String)>,
    /// Labels to apply, in order; a later pair wins over an earlier one.
    pub labels: Vec<(String, String)>,
}

/// The deployment that the controller writes to the cluster.
///
/// `labels` are the deployment's own labels, its selector's labels and the
/// labels of its pod template alike.
#[derive(Debug)]
pub struct DeploymentManifest {
    /// Name of the deployment.
    pub name: String,
    /// Namespace of the deployment.
    pub namespace: String,
    /// Labels of the deployment, of its selector and of its pods.
    pub labels: Labels,
    /// Number of replicas.
    pub replicas: i32,
    /// Name of the pods' one container.
    pub container_name: String,
    /// Image of that container.
    pub image: String,
    /// Environment variables of that container, as (name, value) pairs in order.
    pub env_vars: Vec<(String, String)>,
}

/// The labels every deployment starts with, before the configured ones.
pub open spec fn base_label_pairs(name: Seq<char>) -> Seq<(Seq<char>, Seq<char>)> {
    seq![(APP_LABEL_KEY@, name), (MANAGED_BY_KEY@, CONTROLLER_NAME@)]
}

/// The labels of the deployment for `config`: the base labels, then the
/// configured labels inserted in order over them.
pub open spec fn deployment_labels_of(config: DeploymentConfig) -> Map<Seq<char>, Seq<char>> {
    map_of(base_label_pairs(config.name@) + pairs_view(config.labels@))
}

/// `deployment` is the deployment that the controller writes for `config`.
pub open spec fn describes(deployment: DeploymentManifest, config: DeploymentConfig) -> bool {
    &&& deployment.name@ == config.name@
    &&& deployment.namespace@ == config.namespace@
    &&& deployment.labels@ == deployment_labels_of(config)
    &&& deployment.replicas == config.replicas
    &&& deployment.container_name@ == CONTAINER_NAME@
    &&& deployment.image@ == config.image@
    &&& deployment.env_vars@ == config.env_vars@
}

/// The labels of the deployment for `config`.
pub fn deployment_labels(config: &DeploymentConfig) -> (labels: Labels)
    ensures
        labels@ == deployment_labels_of(*config),
{
    let ghost base = base_label_pairs(config.name@);
    let ghost extra = pairs_view(config.labels@);
    let mut labels = Labels::new();
    labels.insert(String::from_str(APP_LABEL_KEY), config.name.clone());
    labels.insert(String::from_str(MANAGED_BY_KEY), String::from_str(CONTROLLER_NAME));
    proof {
        assert(base.drop_last() =~= seq![(APP_LABEL_KEY@, config.name@)]);
        assert(base.drop_last().drop_last() =~= Seq::<(Seq<char>, Seq<char>)>::empty());
        assert(base + extra.take(0) =~= base);
        reveal_with_fuel(map_of, 3);
    }
    let mut i: usize = 0;
    while i < config.labels.len()
        invariant
            i <= config.labels.len(),
            base == base_label_pairs(config.name@),
            extra == pairs_view(config.labels@),
            labels@ == map_of(base + extra.take(i as int)),
        decreases config.labels.len() - i,
    {
        let key = config.labels[i].0.clone();
        let value = config.labels[i].1.clone();
        labels.insert(key, value);
        proof {
            assert((base + extra.take(i + 1)).drop_last() =~= base + extra.take(i as int));
            assert((base + extra.take(i + 1)).last() == extra[i as int]);
        }
        i = i + 1;
    }
    assert(extra.take(config.labels.len() as int) =~= extra);
    labels
}

/// A copy of the (name, value) pairs `pairs`, in the same order.
fn copy_pairs(pairs: &Vec<(String, String)>) -> (copy: Vec<(String, String)>)
    ensures
        copy@ == pairs@,
{
    let mut copy: Vec<(String, String)> = Vec::new();
    let mut i: usize = 0;
    while i < pairs.len()
        invariant
            i <= pairs.len(),
            copy@ == pairs@.take(i as int),
        decreases pairs.len() - i,
    {
        let name = pairs[i].0.clone();
        let value = pairs[i].1.clone();
        copy.push((name, value));
        assert(copy@ =~= pairs@.take(i + 1));
        i = i + 1;
    }
    assert(pairs@.take(pairs.len() as int) =~= pairs@);
    copy
}

/// The deployment that the controller writes for `config`.
pub fn build_deployment(config: &DeploymentConfig) -> (deployment: DeploymentManifest)
    ensures
        describes(deployment, *config),
{
    DeploymentManifest {
        name: config.name.clone(),
        namespace: config.namespace.clone(),
        labels: deployment_labels(config),
        replicas: config.replicas,
        container_name: String::from_str(CONTAINER_NAME),
        image: config.image.clone(),
        env_vars: copy_pairs(&config.env_vars),
    }
}

/// A deployment is labelled `app` with its name and `managed-by` with the
/// controller's name, unless a configured label sets that key itself.
pub proof fn lemma_base_labels_kept(config: DeploymentConfig)
    ensures
        (forall|i: int| 0 <= i < config.labels.len() ==> #[trigger] config.labels[i].0@
            != APP_LABEL_KEY@) ==> deployment_labels_of(config).contains_key(APP_LABEL_KEY@)
            && deployment_labels_of(config)[APP_LABEL_KEY@] == config.name@,
        (forall|i: int| 0 <= i < config.labels.len() ==> #[trigger] config.labels[i].0@
            != MANAGED_BY_KEY@) ==> deployment_labels_of(config).contains_key(MANAGED_BY_KEY@)
            && deployment_labels_of(config)[MANAGED_BY_KEY@] == CONTROLLER_NAME@,
{
    let all = base_label_pairs(config.name@) + pairs_view(config.labels@);
    reveal_strlit("app");
    reveal_strlit("managed-by");
    assert(all[0] == (APP_LABEL_KEY@, config.name@));
    assert(all[1] == (MANAGED_BY_KEY@, CONTROLLER_NAME@));
    assert(APP_LABEL_KEY@ != MANAGED_BY_KEY@) by {
        assert(APP_LABEL_KEY@.len() != MANAGED_BY_KEY@.len());
    }
    if forall|i: int| 0 <= i < config.labels.len() ==> #[trigger] config.labels[i].0@
        != APP_LABEL_KEY@ {
        assert forall|j: int| 0 < j < all.len() implies #[trigger] all[j].0 != all[0].0 by {
            if j >= 2 {
                assert(all[j] == (config.labels[j - 2].0@, config.labels[j - 2].1@));
            }
        }
        lemma_map_of_last_wins(all, 0);
    }
    if forall|i: int| 0 <= i < config.labels.len() ==> #[trigger] config.labels[i].0@
        != MANAGED_BY_KEY@ {
        assert forall|j: int| 1 < j < all.len() implies #[trigger] all[j].0 != all[1].0 by {
            assert(all[j] == (config.labels[j - 2].0@, config.labels[j - 2].1@));
        }
        lemma_map_of_last_wins(all, 1);
    }
}

/// A configured label is applied with the value of the last configured pair
/// that carries its key, whatever the base labels hold.
pub proof fn lemma_configured_label_wins(config: DeploymentConfig, i: int)
    requires
        0 <= i < config.labels.len(),
        forall|j: int| i < j < config.labels.len() ==> #[trigger] config.labels[j].0@
            != config.labels[i].0@,
    ensures
        deployment_labels_of(config).contains_key(config.labels[i].0@),
        deployment_labels_of(config)[config.labels[i].0@] == config.labels[i].1@,
{
    let all = base_label_pairs(config.name@) + pairs_view(config.labels@);
    assert(all[i + 2] == (config.labels[i].0@, config.labels[i].1@));
    assert forall|j: int| i + 2 < j < all.len() implies #[trigger] all[j].0 != all[i + 2].0 by {
        assert(all[j] == (config.labels[j - 2].0@, config.labels[j - 2].1@));
    }
    lemma_map_of_last_wins(all, i + 2);
}

/// The deployment written for a configuration has that configuration's name,
/// namespace, image, environment variables and number of replicas, whatever
/// that number is, and runs one container named `app`.
pub proof fn lemma_deployment_follows_config(deployment: DeploymentManifest, config: DeploymentConfig)
    requires
        describes(deployment, config),
    ensures
        deployment.replicas == config.replicas,
        deployment.name@ == config.name@,
        deployment.namespace@ == config.namespace@,
        deployment.image@ == config.image@,
        deployment.env_vars@ == config.env_vars@,
        deployment.container_name@ == "app"@,
{
}

/// What the cluster answered to the last call about a deployment.
#[derive(Debug)]
pub enum DeploymentEvent {
    /// Nothing was asked yet.
    Start,
    /// The answer to fetching the deployment.
    Fetched(Result<(), KubeFailure>),
    /// The answer to creating, replacing or deleting the deployment.
    Written(Result<(), KubeFailure>),
}

/// What to do next about a deployment.
#[derive(Debug)]
pub enum DeploymentStep {
    /// Fetch the deployment `name` in `namespace`.
    Get { namespace: String, name: String },
    /// Create `deployment`.
    Create { deployment: DeploymentManifest },
    /// Replace the existing deployment of that name by `deployment`.
    Replace { deployment: DeploymentManifest },
    /// Delete the deployment `name` in `namespace`.
    Delete { namespace: String, name: String },
    /// Stop with this result.
    Done(Result<(), Error>),
}

/// The next step in making sure that the deployment for `config` exists as
/// configured, given the cluster's answer to the previous one.
///
/// The deployment is fetched; one that exists is replaced and one that does
/// not is created, in both cases by the deployment built from `config`, so
/// that repeating the process changes nothing more. No step deletes.
pub fn ensure_deployment_step(config: &DeploymentConfig, event: DeploymentEvent) -> (step:
    DeploymentStep)
    ensures
        !(step is Delete),
        step matches DeploymentStep::Create { deployment } ==> describes(deployment, *config),
        step matches DeploymentStep::Replace { deployment } ==> describes(deployment, *config),
        match event {
            DeploymentEvent::Start => step matches DeploymentStep::Get { namespace, name }
                && namespace@ == config.namespace@ && name@ == config.name@,
            DeploymentEvent::Fetched(Ok(())) => step is Replace,
            DeploymentEvent::Fetched(Err(failure)) => if failure.not_found() {
                step is Create
            } else {
                step == DeploymentStep::Done(Err(Error::KubeError(failure)))
            },
            DeploymentEvent::Written(Ok(())) => step matches DeploymentStep::Done(Ok(())),
            DeploymentEvent::Written(Err(failure)) => step == DeploymentStep::Done(
                Err(Error::KubeError(failure)),
            ),
        },
{
    match event {
        DeploymentEvent::Start => DeploymentStep::Get {
            namespace: config.namespace.clone(),
            name: config.name.clone(),
        },
        DeploymentEvent::Fetched(Ok(())) => DeploymentStep::Replace {
            deployment: build_deployment(config),
        },
        DeploymentEvent::Fetched(Err(failure)) => {
            if failure.is_not_found() {
                DeploymentStep::Create { deployment: build_deployment(config) }
            } else {
                DeploymentStep::Done(Err(Error::KubeError(failure)))
            }
        },
        DeploymentEvent::Written(Ok(())) => DeploymentStep::Done(Ok(())),
        DeploymentEvent::Written(Err(failure)) => DeploymentStep::Done(
            Err(Error::KubeError(failure)),
        ),
    }
}

/// The next step in deleting the deployment `name` in `namespace`, given the
/// answer to the deletion (`None` before it was asked for).
///
/// A deployment that does not exist needs nothing: that answer is a success.
pub fn delete_deployment_step(
    name: &str,
    namespace: &str,
    answer: Option<Result<(), KubeFailure>>,
) -> (step: DeploymentStep)
    ensures
        match answer {
            None => step matches DeploymentStep::Delete { namespace: ns, name: n } && ns@
                == namespace@ && n@ == name@,
            Some(Ok(())) => step matches DeploymentStep::Done(Ok(())),
            Some(Err(failure)) => if failure.not_found() {
                step matches DeploymentStep::Done(Ok(()))
            } else {
                step == DeploymentStep::Done(Err(Error::KubeError(failure)))
            },
        },
{
    match answer {
        None => DeploymentStep::Delete {
            namespace: String::from_str(namespace),
            name: String::from_str(name),
        },
        Some(Ok(())) => DeploymentStep::Done(Ok(())),
        Some(Err(failure)) => {
            if failure.is_not_found() {
                DeploymentStep::Done(Ok(()))
            } else {
                DeploymentStep::Done(Err(Error::KubeError(failure)))
            }
        },
    }
}

} // verus!
