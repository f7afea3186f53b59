use crate::errors::{Error, KubeFailure};
use crate::labels::Labels;
use vstd::prelude::*;
use vstd::string::*;

verus! {

/// Label key that marks namespaces as managed by this controller.
pub const MANAGED_LABEL_KEY: &'static str = "devenv.example.com/managed";

/// Value of [`MANAGED_LABEL_KEY`] on a managed namespace.
pub const MANAGED_LABEL_VALUE: &'static str = "true";

/// Label key naming the controller that manages an object.
pub const MANAGED_BY_KEY: &'static str = "managed-by";

/// This controller's name, the value of [`MANAGED_BY_KEY`].
pub const CONTROLLER_NAME: &'static str = "devenv-controller";

/// Namespaces that are never used for dev environments.
pub open spec fn blocked_namespaces() -> Seq<Seq<char>> {
    seq!["flux-system"@, "kube-system"@, "cert-manager"@, "ingress-nginx"@, "default"@]
}

/// The namespace `name` is one that is never used for dev environments.
pub open spec fn namespace_blocked(name: Seq<char>) -> bool {
    blocked_namespaces().contains(name)
}

/// Whether the namespace `name` is one that is never used for dev environments.
pub fn is_blocked(name: &str) -> (blocked: bool)
    ensures
        blocked == namespace_blocked(name@),
{
    let name = String::from_str(name);
    let blocked = name == String::from_str("flux-system") || name == String::from_str(
        "kube-system",
    ) || name == String::from_str("cert-manager") || name == String::from_str("ingress-nginx")
        || name == String::from_str("default");
    proof {
        let list = blocked_namespaces();
        assert(list[0] == "flux-system"@);
        assert(list[1] == "kube-system"@);
        assert(list[2] == "cert-manager"@);
        assert(list[3] == "ingress-nginx"@);
        assert(list[4] == "default"@);
        if list.contains(name@) {
            let i = choose|i: int| 0 <= i < list.len() && list[i] == name@;
            assert(0 <= i < 5);
        }
    }
    blocked
}

/// A namespace as the controller reads it from the cluster or writes it.
#[derive(Debug)]
pub struct NamespaceObject {
    /// The namespace's name.
    pub name: String,
    /// The namespace's labels, if it has any.
    pub labels: Option<Labels>,
}

/// The namespace carries the management label with its value.
pub open spec fn managed(namespace: NamespaceObject) -> bool {
    match namespace.labels {
        Some(labels) => labels@.contains_key(MANAGED_LABEL_KEY@) && labels@[MANAGED_LABEL_KEY@]
            == MANAGED_LABEL_VALUE@,
        None => false,
    }
}

/// Whether the namespace carries the management label with its value.
pub fn is_managed(namespace: &NamespaceObject) -> (is_managed: bool)
    ensures
        is_managed == managed(*namespace),
{
    match &namespace.labels {
        Some(labels) => match labels.get(MANAGED_LABEL_KEY) {
            Some(value) => *value == String::from_str(MANAGED_LABEL_VALUE),
            None => false,
        },
        None => false,
    }
}

/// The labels the controller puts on a namespace that it creates.
pub open spec fn created_namespace_labels() -> Map<Seq<char>, Seq<char>> {
    map![MANAGED_BY_KEY@ => CONTROLLER_NAME@, MANAGED_LABEL_KEY@ => MANAGED_LABEL_VALUE@]
}

/// The namespace the controller creates under the name `name`.
pub fn managed_namespace(name: &str) -> (namespace: NamespaceObject)
    ensures
        namespace.name@ == name@,
        namespace.labels matches Some(labels) && labels@ == created_namespace_labels(),
{
    let mut labels = Labels::new();
    labels.insert(String::from_str(MANAGED_BY_KEY), String::from_str(CONTROLLER_NAME));
    labels.insert(String::from_str(MANAGED_LABEL_KEY), String::from_str(MANAGED_LABEL_VALUE));
    NamespaceObject { name: String::from_str(name), labels: Some(labels) }
}

/// What the cluster answered to the last call about a namespace.
#[derive(Debug)]
pub enum NamespaceEvent {
    /// Nothing was asked yet.
    Start,
    /// The answer to fetching the namespace.
    Fetched(Result<NamespaceObject, KubeFailure>),
    /// The answer to creating or deleting the namespace.
    Written(Result<(), KubeFailure>),
}

/// What to do next about a namespace.
#[derive(Debug)]
pub enum NamespaceStep {
    /// Fetch the namespace `name`.
    Get { name: String },
    /// Create `namespace`.
    Create { namespace: NamespaceObject },
    /// Delete the namespace `name`.
    Delete { name: String },
    /// Stop with this result.
    Done(Result<(), Error>),
}

/// The message with which a blocked namespace is refused for a dev environment.
pub open spec fn blocked_for_use_message(name: Seq<char>) -> Seq<char> {
    "Namespace '"@ + name + "' is blocked for dev environments"@
}

/// The message with which the deletion of a blocked namespace is refused.
pub open spec fn blocked_for_deletion_message(name: Seq<char>) -> Seq<char> {
    "Namespace '"@ + name + "' is blocked and cannot be deleted"@
}

/// `step` stops with a refusal whose message is `message`.
pub open spec fn refuses_with(step: NamespaceStep, message: Seq<char>) -> bool {
    step matches NamespaceStep::Done(Err(Error::ReconcileError(m))) && m@ == message
}

/// `step` stops with the failure `failure` of a call.
pub open spec fn fails_with(step: NamespaceStep, failure: KubeFailure) -> bool {
    step == NamespaceStep::Done(Err(Error::KubeError(failure)))
}

/// `step` stops successfully.
pub open spec fn succeeds(step: NamespaceStep) -> bool {
    step matches NamespaceStep::Done(Ok(()))
}

fn blocked_message(name: &str, reason: &str) -> (message: String)
    ensures
        message@ == "Namespace '"@ + name@ + reason@,
{
    let mut message = String::from_str("Namespace '");
    message.append(name);
    message.append(reason);
    message
}

/// The next step in making sure that the namespace `name` exists, given the
/// cluster's answer to the previous one.
///
/// A blocked namespace is refused. Otherwise the namespace is fetched; one that
/// exists is left as it is, whoever made it; one that does not is created with
/// the management label. No step ever deletes a namespace.
pub fn ensure_namespace_step(name: &str, event: NamespaceEvent) -> (step: NamespaceStep)
    ensures
        !(step is Delete),
        namespace_blocked(name@) ==> refuses_with(step, blocked_for_use_message(name@)),
        !namespace_blocked(name@) ==> match event {
            NamespaceEvent::Start => step matches NamespaceStep::Get { name: n } && n@ == name@,
            NamespaceEvent::Fetched(Ok(_)) => succeeds(step),
            NamespaceEvent::Fetched(Err(failure)) => if failure.not_found() {
                &&& step matches NamespaceStep::Create { namespace }
                &&& namespace.name@ == name@
                &&& namespace.labels matches Some(labels)
                &&& labels@ == created_namespace_labels()
            } else {
                fails_with(step, failure)
            },
            NamespaceEvent::Written(Ok(())) => succeeds(step),
            NamespaceEvent::Written(Err(failure)) => fails_with(step, failure),
        },
{
    if is_blocked(name) {
        return NamespaceStep::Done(
            Err(Error::ReconcileError(blocked_message(name, "' is blocked for dev environments"))),
        );
    }
    match event {
        NamespaceEvent::Start => NamespaceStep::Get { name: String::from_str(name) },
        NamespaceEvent::Fetched(Ok(_)) => NamespaceStep::Done(Ok(())),
        NamespaceEvent::Fetched(Err(failure)) => {
            if failure.is_not_found() {
                NamespaceStep::Create { namespace: managed_namespace(name) }
            } else {
                NamespaceStep::Done(Err(Error::KubeError(failure)))
            }
        },
        NamespaceEvent::Written(Ok(())) => NamespaceStep::Done(Ok(())),
        NamespaceEvent::Written(Err(failure)) => NamespaceStep::Done(Err(Error::KubeError(failure))),
    }
}

/// The next step in deleting the namespace `name`, given the cluster's answer
/// to the previous one.
///
/// A blocked namespace is refused. Otherwise the namespace is fetched, and
/// deleted only if it carries the management label: a namespace that a user
/// provided is left alone, and one that does not exist needs nothing. No step
/// ever creates a namespace.
pub fn delete_namespace_step(name: &str, event: NamespaceEvent) -> (step: NamespaceStep)
    ensures
        !(step is Create),
        step is Delete ==> (event matches NamespaceEvent::Fetched(Ok(ns)) && managed(ns)),
        namespace_blocked(name@) ==> refuses_with(step, blocked_for_deletion_message(name@)),
        !namespace_blocked(name@) ==> match event {
            NamespaceEvent::Start => step matches NamespaceStep::Get { name: n } && n@ == name@,
            NamespaceEvent::Fetched(Ok(namespace)) => if managed(namespace) {
                step matches NamespaceStep::Delete { name: n } && n@ == name@
            } else {
                succeeds(step)
            },
            NamespaceEvent::Fetched(Err(failure)) => if failure.not_found() {
                succeeds(step)
            } else {
                fails_with(step, failure)
            },
            NamespaceEvent::Written(Ok(())) => succeeds(step),
            NamespaceEvent::Written(Err(failure)) => fails_with(step, failure),
        },
{
    if is_blocked(name) {
        return NamespaceStep::Done(
            Err(Error::ReconcileError(blocked_message(name, "' is blocked and cannot be deleted"))),
        );
    }
    match event {
        NamespaceEvent::Start => NamespaceStep::Get { name: String::from_str(name) },
        NamespaceEvent::Fetched(Ok(namespace)) => {
            if is_managed(&namespace) {
                NamespaceStep::Delete { name: String::from_str(name) }
            } else {
                NamespaceStep::Done(Ok(()))
            }
        },
        NamespaceEvent::Fetched(Err(failure)) => {
            if failure.is_not_found() {
                NamespaceStep::Done(Ok(()))
            } else {
                NamespaceStep::Done(Err(Error::KubeError(failure)))
            }
        },
        NamespaceEvent::Written(Ok(())) => NamespaceStep::Done(Ok(())),
        NamespaceEvent::Written(Err(failure)) => NamespaceStep::Done(Err(Error::KubeError(failure))),
    }
}

/// A namespace that the controller creates carries the management label, so
/// that a later deletion recognises it as the controller's own.
pub proof fn lemma_created_namespace_is_managed(namespace: NamespaceObject)
    requires
        namespace.labels matches Some(labels) && labels@ == created_namespace_labels(),
    ensures
        managed(namespace),
{
}

/// A namespace is blocked exactly when its whole name is one of
/// `flux-system`, `kube-system`, `cert-manager`, `ingress-nginx` and
/// `default`; a name that only contains or ends with one of them is not.
pub proof fn lemma_blocked_names_are_exactly_the_listed_ones(name: Seq<char>)
    ensures
        namespace_blocked(name) <==> (name == "flux-system"@ || name == "kube-system"@ || name
            == "cert-manager"@ || name == "ingress-nginx"@ || name == "default"@),
{
    let list = blocked_namespaces();
    assert(list[0] == "flux-system"@);
    assert(list[1] == "kube-system"@);
    assert(list[2] == "cert-manager"@);
    assert(list[3] == "ingress-nginx"@);
    assert(list[4] == "default"@);
    if list.contains(name) {
        let i = choose|i: int| 0 <= i < list.len() && list[i] == name;
        assert(0 <= i < 5);
    }
}

/// Whether a namespace is managed is read from its labels alone: it holds
/// exactly when the label `devenv.example.com/managed` is `true`, whatever
/// the namespace's name.
pub proof fn lemma_managed_reads_only_the_label(namespace: NamespaceObject)
    ensures
        managed(namespace) <==> (namespace.labels is Some && namespace.labels->0@.contains_key(
            "devenv.example.com/managed"@,
        ) && namespace.labels->0@["devenv.example.com/managed"@] == "true"@),
{
}

/// Two namespaces with the same labels are alike managed or not, so neither
/// a deletion nor a refusal to delete depends on the name.
pub proof fn lemma_managed_ignores_the_name(a: NamespaceObject, b: NamespaceObject)
    requires
        a.labels == b.labels,
    ensures
        managed(a) == managed(b),
{
}

/// A namespace without the management label set to `true` is never managed,
/// so `delete_namespace_step` never deletes it.
pub proof fn lemma_unlabelled_namespace_not_managed(namespace: NamespaceObject)
    requires
        namespace.labels is None || !namespace.labels->0@.contains_key(
            "devenv.example.com/managed"@,
        ) || namespace.labels->0@["devenv.example.com/managed"@] != "true"@,
    ensures
        !managed(namespace),
{
}

} // verus!
