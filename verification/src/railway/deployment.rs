//! Build logs of one deployment, as harvested after the builds settle.

use vstd::prelude::*;

verus! {

/// One harvested build-log line.
#[derive(Debug, Clone)]
pub struct DeploymentLog {
    /// Structured key-value attributes attached to the line.
    pub attributes: Vec<(String, String)>,
    pub message: String,
    pub severity: Option<String>,
    pub timestamp: String,
}

/// The build-log operation of the platform; the fetch itself runs outside
/// the library, keyed by a deployment id taken from a service instance.
#[derive(Debug, Clone)]
pub struct Deployment;

} // verus!
