use vstd::prelude::*;

verus! {

/// The spec of a DevEnvironment: what the user wants.
#[derive(Debug, Clone)]
pub struct DevEnvironmentSpec {
    /// Container image to deploy.
    pub image: String,
    /// Number of replicas.
    pub replicas: i32,
    /// Optional database type.
    pub database: Option<String>,
    /// Namespace to deploy into; when absent one is derived from the name.
    pub target_namespace: Option<String>,
}

/// Number of replicas used when a `DevEnvironment` does not name one.
pub fn default_replicas() -> (replicas: i32)
    ensures
        replicas == 1,
{
    1
}

/// The status of a DevEnvironment: what actually exists.
#[derive(Debug, Clone)]
pub struct DevEnvironmentStatus {
    /// Current phase (Pending, Creating, Ready, Failed).
    pub phase: Option<String>,
    /// Human-readable message about the current state.
    pub message: Option<String>,
    /// URLs where the environment can be accessed.
    pub endpoints: Option<Vec<String>>,
}

/// A DevEnvironment custom resource, as far as the controller reads it.
#[derive(Debug, Clone)]
pub struct DevEnvironment {
    /// The resource's name.
    pub name: Option<String>,
    /// The namespace the resource lives in.
    pub namespace: Option<String>,
    /// What the user wants.
    pub spec: DevEnvironmentSpec,
    /// What actually exists.
    pub status: Option<DevEnvironmentStatus>,
}

} // verus!
