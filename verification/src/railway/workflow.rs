//! The status of a provisioning workflow, and which statuses end the poll.

use vstd::prelude::*;

verus! {

/// The status a workflow-status query reports.
///
/// `Complete` and `Error` are terminal; `Running` means the poll must ask
/// again after its fixed interval; `NotFound` means the platform does not
/// know the workflow, which the pipeline treats as a synthetic error.
#[derive(Debug, Clone, PartialEq, Eq)]
pub enum WorkflowStatus {
    Complete,
    /// The workflow failed; the platform may attach a message.
    Error(Option<String>),
    Running,
    NotFound,
}

impl WorkflowStatus {
    /// Whether this status ends the poll: everything but `Running` does,
    /// `NotFound` as a synthetic error.
    pub fn is_terminal(&self) -> (r: bool)
        ensures
            r == !(self is Running),
    {
        match self {
            WorkflowStatus::Running => false,
            _ => true,
        }
    }
}

/// The workflow-status operation of the platform; the query itself runs
/// outside the library, and the poll loop around it is driven by the
/// template pipeline.
pub struct Workflow;

} // verus!
