//! The parsed shape of a template's serialized configuration.
//!
//! The raw configuration arrives as an opaque structured value; only the
//! fields the request builder reads are modelled here, as plain values.
//! Maps are kept as ordered lists of entries, so that the order in which
//! the builder walks them is explicit.

use vstd::prelude::*;

verus! {

/// The networking block of a service: only the keys of its two maps are
/// ever read, so only they are kept.
#[derive(Debug, Clone)]
pub struct DeserializedServiceNetworking {
    /// Keys of the service-domain map; the builder only asks whether any exist.
    pub service_domains: Vec<String>,
    /// Keys of the TCP proxy map; each key is a port written as a string.
    pub tcp_proxies: Vec<String>,
}

/// One volume mount of a service.
#[derive(Debug, Clone)]
pub struct DeserializedServiceVolumeMount {
    pub mount_path: String,
}

/// One declared variable of a service.
#[derive(Debug, Clone)]
pub struct DeserializedServiceVariable {
    pub default_value: Option<String>,
    pub description: Option<String>,
    pub is_optional: Option<bool>,
}

/// The deploy block of a service.
#[derive(Debug, Clone)]
pub struct DeserializedServiceDeploy {
    pub healthcheck_path: Option<String>,
    pub start_command: Option<String>,
}

/// Where a service's code comes from: a container image or a repository.
#[derive(Debug, Clone)]
pub enum DeserializedServiceSource {
    Image { image: String },
    Repo { root_directory: Option<String>, repo: String },
}

/// One service of a template's environment.
#[derive(Debug, Clone)]
pub struct DeserializedService {
    pub deploy: Option<DeserializedServiceDeploy>,
    pub icon: Option<String>,
    pub name: String,
    pub networking: Option<DeserializedServiceNetworking>,
    pub source: Option<DeserializedServiceSource>,
    /// Variable name to declaration, in the order the builder walks them.
    pub variables: Vec<(String, DeserializedServiceVariable)>,
    /// Mount id to mount, in the order the builder walks them.
    pub volume_mounts: Vec<(String, DeserializedServiceVolumeMount)>,
}

/// A template's whole parsed environment: service id to service.
#[derive(Debug, Clone)]
pub struct DeserializedEnvironment {
    pub services: Vec<(String, DeserializedService)>,
}

} // verus!
