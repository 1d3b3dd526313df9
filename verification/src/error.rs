//! The closed set of error kinds that a validation run can record.
//!
//! Every failure that the pipeline tolerates is surfaced as one of these
//! variants on the run's error list; nothing is retried and nothing panics.

use vstd::prelude::*;

verus! {

/// One typed error recorded on a run.
///
/// The variants follow the failure taxonomy of the pipeline:
/// configuration errors (`Json`, `ParseIntWithMetadata`), transport and
/// API errors (`Railway*`), workflow-domain failures (`Workflow`,
/// `WorkflowNotFound`), cleanup failures (`ProjectDelete`), and the
/// startup failure (`MissingEnvVar`).
#[derive(Debug, Clone, PartialEq, Eq)]
pub enum Error {
    /// A filesystem write of harvested logs failed; carries the message.
    Io(String),
    /// A template's serialized configuration could not be deserialized.
    Json(String),
    /// A required environment variable was absent at startup.
    MissingEnvVar(String),
    /// A TCP proxy port key was not a valid integer; carries the key.
    ParseIntWithMetadata(String),
    /// The platform reported that it could not delete a project;
    /// carries the project id.
    ProjectDelete(String),
    /// The API response body carried an error list.
    Railway(Vec<String>),
    /// The API response body could not be read or decoded.
    RailwayBody(String),
    /// A successful API response carried neither errors nor data.
    RailwayDataMissing,
    /// The API transport failed outright.
    RailwayFailure(String),
    /// The API answered with a non-success status code and a body.
    RailwayStatusFailure(u16, String),
    /// A provisioning workflow ended in its error state, with the
    /// message the platform attached to it, if any.
    Workflow(Option<String>),
    /// A provisioning workflow was unknown to the platform.
    WorkflowNotFound,
}

impl Error {
    /// Whether this error belongs to the workflow domain rather than to
    /// configuration, transport or cleanup.
    pub fn is_workflow(&self) -> (r: bool)
        ensures
            r == (self is Workflow || self is WorkflowNotFound),
    {
        match self {
            Error::Workflow(_) => true,
            Error::WorkflowNotFound => true,
            _ => false,
        }
    }
}

} // verus!
