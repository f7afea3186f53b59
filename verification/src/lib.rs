//! Decision logic of a Kubernetes controller that turns `DevEnvironment`
//! custom resources into a managed namespace and a deployment.
//!
//! The cluster itself is reached by the program around this library; every
//! function here takes the cluster's answers as plain values and says what
//! to do next.

pub mod crd;
pub mod labels;
pub mod errors;
pub mod namespace;
pub mod deployment;
pub mod reconciler;
