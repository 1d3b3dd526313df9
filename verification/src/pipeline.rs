//! The per-template pipeline, as an explicit state machine.
//!
//! One `TemplateWorker` drives one template from its parsed configuration
//! to a terminal outcome: build the deploy request, deploy, poll the
//! provisioning workflow, wait for builds to settle, harvest build logs,
//! and delete the created project. The worker only decides; every remote
//! call is performed outside the library, which then hands the outcome
//! back as a `TemplateEvent` and performs the next `TemplateAction`.
//!
//! The cleanup guarantee is a property of this machine: once a deploy is
//! confirmed, every path to the terminal phase passes through exactly one
//! `Delete` action, and a failed deploy call issues none.

use vstd::prelude::*;

use crate::error::Error;
use crate::railway::service::{all_settled, Service};
use crate::railway::template::{
    environment_rejection, BuildError, DeployedTemplate, NewService, Template, TemplateConfig,
};
use crate::railway::template::{built_service_ok, has_healthcheck};
use crate::railway::workflow::WorkflowStatus;
use crate::Run;

verus! {

/// What the surrounding process reports back to the worker: the outcome
/// of the remote call it was asked to perform.
#[derive(Debug)]
pub enum TemplateEvent {
    /// The deploy call finished.
    Deployed(Result<DeployedTemplate, Error>),
    /// One workflow-status query finished.
    WorkflowPolled(Result<WorkflowStatus, Error>),
    /// One service-list query finished.
    ServicesListed(Result<Vec<Service>, Error>),
    /// One build-log fetch, including persisting the logs, finished.
    LogsFetched(Result<(), Error>),
    /// The project-delete call finished.
    Deleted(Result<(), Error>),
}

/// What the surrounding process must do next.
#[derive(Debug)]
pub enum TemplateAction {
    /// Submit the built service list with the template's code.
    Deploy(Vec<NewService>),
    /// Wait one poll interval, then query the workflow status.
    PollWorkflow,
    /// Wait one build-wait interval, then list the project's services.
    WaitServices,
    /// List the project's services once more, for harvesting.
    ListForHarvest,
    /// Fetch and persist the build logs of one deployment, keyed by
    /// service id and deployment id.
    FetchLogs(String, String),
    /// Delete the created project.
    Delete,
    /// The template is finished; absorb the worker into the chunk's run.
    Finish,
}

/// Where the worker stands.
#[derive(Debug)]
pub enum Phase {
    /// The deploy request was issued; its outcome is awaited.
    AwaitDeploy,
    /// The workflow status is being polled.
    Polling { project: String, workflow: String },
    /// The build-completion wait is running.
    WaitingBuilds { project: String },
    /// Builds settled; a fresh service list for harvesting is awaited.
    HarvestList { project: String },
    /// Build logs are being harvested, one instance at a time, at the
    /// given position in the listed services.
    Harvesting {
        project: String,
        services: Vec<Service>,
        service_index: usize,
        instance_index: usize,
    },
    /// The project is being deleted.
    Cleanup { project: String },
    /// Processing ended; `project` is the created project, when the
    /// deploy was confirmed.
    Done { project: Option<String> },
}

/// The state of one template's processing.
#[derive(Debug)]
pub struct TemplateWorker {
    pub phase: Phase,
    /// Whether the workflow reached `Complete`.
    pub valid: bool,
    /// The error that ended processing, if one did.
    pub error: Option<Error>,
    /// The error of the delete call, if it failed.
    pub cleanup_error: Option<Error>,
    /// How many `Delete` actions the worker has issued.
    pub deletes: u64,
}

/// The position of the next instance, at or after `(si, ii)` in row-major
/// order, that carries a deployment id.
pub open spec fn next_target(services: Seq<Service>, si: int, ii: int) -> Option<(int, int)>
    decreases services.len() - si, services[si].instances@.len() - ii,
{
    if si >= services.len() {
        None
    } else if ii >= services[si].instances@.len() {
        next_target(services, si + 1, 0)
    } else if services[si].instances@[ii].deployment_id is Some {
        Some((si, ii))
    } else {
        next_target(services, si, ii + 1)
    }
}

/// A found target lies within bounds and carries a deployment id.
proof fn lemma_next_target_valid(services: Seq<Service>, si: int, ii: int)
    requires
        0 <= si,
        0 <= ii,
        next_target(services, si, ii) is Some,
    ensures
        ({
            let (a, b) = next_target(services, si, ii).unwrap();
            &&& 0 <= a < services.len()
            &&& 0 <= b < services[a].instances@.len()
            &&& services[a].instances@[b].deployment_id is Some
            &&& si <= a
        }),
    decreases services.len() - si, services[si].instances@.len() - ii,
{
    if si >= services.len() {
    } else if ii >= services[si].instances@.len() {
        lemma_next_target_valid(services, si + 1, 0);
    } else if services[si].instances@[ii].deployment_id is Some {
    } else {
        lemma_next_target_valid(services, si, ii + 1);
    }
}

impl TemplateWorker {
    /// The machine's invariant: the delete counter tracks the phase — no
    /// delete has been issued before cleanup, exactly one during it, and
    /// a finished worker has issued one delete exactly when a project was
    /// confirmed. A worker is only `valid` once its workflow completed.
    pub open spec fn wf(self) -> bool {
        match self.phase {
            Phase::AwaitDeploy => self.deletes == 0 && !self.valid && self.error is None
                && self.cleanup_error is None,
            Phase::Polling { .. } => self.deletes == 0 && !self.valid && self.error is None
                && self.cleanup_error is None,
            Phase::WaitingBuilds { .. } => self.deletes == 0 && self.valid && self.error is None
                && self.cleanup_error is None,
            Phase::HarvestList { .. } => self.deletes == 0 && self.valid && self.error is None
                && self.cleanup_error is None,
            Phase::Harvesting { services, service_index, instance_index, .. } => self.deletes == 0
                && self.valid && self.error is None && self.cleanup_error is None
                && service_index < services@.len() && instance_index
                < services@[service_index as int].instances@.len(),
            Phase::Cleanup { .. } => self.deletes == 1 && self.cleanup_error is None,
            Phase::Done { project } => match project {
                Some(_) => self.deletes == 1,
                None => self.deletes == 0,
            },
        }
    }
}

/// Whether an event answers what the worker's phase is waiting for.
pub open spec fn event_fits(m: TemplateWorker, e: TemplateEvent) -> bool {
    match (m.phase, e) {
        (Phase::AwaitDeploy, TemplateEvent::Deployed(_)) => true,
        (Phase::Polling { .. }, TemplateEvent::WorkflowPolled(_)) => true,
        (Phase::WaitingBuilds { .. }, TemplateEvent::ServicesListed(_)) => true,
        (Phase::HarvestList { .. }, TemplateEvent::ServicesListed(_)) => true,
        (Phase::Harvesting { .. }, TemplateEvent::LogsFetched(_)) => true,
        (Phase::Cleanup { .. }, TemplateEvent::Deleted(_)) => true,
        _ => false,
    }
}

/// The transition function: what one event does to the worker, and which
/// action follows. An event that answers nothing the phase asked for
/// leaves the worker unchanged.
pub open spec fn spec_step(m: TemplateWorker, e: TemplateEvent) -> (TemplateWorker, TemplateAction) {
    match (m.phase, e) {
        (Phase::AwaitDeploy, TemplateEvent::Deployed(res)) => match res {
            Ok(deployed) => match deployed.workflow_id {
                Some(workflow) => (
                    TemplateWorker {
                        phase: Phase::Polling { project: deployed.project_id, workflow },
                        ..m
                    },
                    TemplateAction::PollWorkflow,
                ),
                None => (
                    TemplateWorker {
                        phase: Phase::Cleanup { project: deployed.project_id },
                        deletes: (m.deletes + 1) as u64,
                        ..m
                    },
                    TemplateAction::Delete,
                ),
            },
            Err(err) => (
                TemplateWorker {
                    phase: Phase::Done { project: None },
                    error: Some(err),
                    ..m
                },
                TemplateAction::Finish,
            ),
        },
        (Phase::Polling { project, workflow }, TemplateEvent::WorkflowPolled(res)) => match res {
            Ok(status) => match status {
                WorkflowStatus::Running => (
                    TemplateWorker { phase: Phase::Polling { project, workflow }, ..m },
                    TemplateAction::PollWorkflow,
                ),
                WorkflowStatus::Complete => (
                    TemplateWorker {
                        phase: Phase::WaitingBuilds { project },
                        valid: true,
                        ..m
                    },
                    TemplateAction::WaitServices,
                ),
                WorkflowStatus::Error(message) => (
                    TemplateWorker {
                        phase: Phase::Cleanup { project },
                        error: Some(Error::Workflow(message)),
                        deletes: (m.deletes + 1) as u64,
                        ..m
                    },
                    TemplateAction::Delete,
                ),
                WorkflowStatus::NotFound => (
                    TemplateWorker {
                        phase: Phase::Cleanup { project },
                        error: Some(Error::WorkflowNotFound),
                        deletes: (m.deletes + 1) as u64,
                        ..m
                    },
                    TemplateAction::Delete,
                ),
            },
            Err(err) => (
                TemplateWorker {
                    phase: Phase::Cleanup { project },
                    error: Some(err),
                    deletes: (m.deletes + 1) as u64,
                    ..m
                },
                TemplateAction::Delete,
            ),
        },
        (Phase::WaitingBuilds { project }, TemplateEvent::ServicesListed(res)) => match res {
            Ok(services) => if all_settled(services@) {
                (
                    TemplateWorker { phase: Phase::HarvestList { project }, ..m },
                    TemplateAction::ListForHarvest,
                )
            } else {
                (
                    TemplateWorker { phase: Phase::WaitingBuilds { project }, ..m },
                    TemplateAction::WaitServices,
                )
            },
            Err(err) => (
                TemplateWorker {
                    phase: Phase::Cleanup { project },
                    error: Some(err),
                    deletes: (m.deletes + 1) as u64,
                    ..m
                },
                TemplateAction::Delete,
            ),
        },
        (Phase::HarvestList { project }, TemplateEvent::ServicesListed(res)) => match res {
            Ok(services) => match next_target(services@, 0, 0) {
                Some((si, ii)) => (
                    TemplateWorker {
                        phase: Phase::Harvesting {
                            project,
                            services,
                            service_index: si as usize,
                            instance_index: ii as usize,
                        },
                        ..m
                    },
                    TemplateAction::FetchLogs(
                        services@[si].id,
                        services@[si].instances@[ii].deployment_id.unwrap(),
                    ),
                ),
                None => (
                    TemplateWorker {
                        phase: Phase::Cleanup { project },
                        deletes: (m.deletes + 1) as u64,
                        ..m
                    },
                    TemplateAction::Delete,
                ),
            },
            Err(err) => (
                TemplateWorker {
                    phase: Phase::Cleanup { project },
                    error: Some(err),
                    deletes: (m.deletes + 1) as u64,
                    ..m
                },
                TemplateAction::Delete,
            ),
        },
        (
            Phase::Harvesting { project, services, service_index, instance_index },
            TemplateEvent::LogsFetched(res),
        ) => match res {
            Ok(_) => match next_target(services@, service_index as int, instance_index + 1) {
                Some((si, ii)) => (
                    TemplateWorker {
                        phase: Phase::Harvesting {
                            project,
                            services: services,
                            service_index: si as usize,
                            instance_index: ii as usize,
                        },
                        ..m
                    },
                    TemplateAction::FetchLogs(
                        services@[si].id,
                        services@[si].instances@[ii].deployment_id.unwrap(),
                    ),
                ),
                None => (
                    TemplateWorker {
                        phase: Phase::Cleanup { project },
                        deletes: (m.deletes + 1) as u64,
                        ..m
                    },
                    TemplateAction::Delete,
                ),
            },
            Err(err) => (
                TemplateWorker {
                    phase: Phase::Cleanup { project },
                    error: Some(err),
                    deletes: (m.deletes + 1) as u64,
                    ..m
                },
                TemplateAction::Delete,
            ),
        },
        (Phase::Cleanup { project }, TemplateEvent::Deleted(res)) => match res {
            Ok(_) => (
                TemplateWorker { phase: Phase::Done { project: Some(project) }, ..m },
                TemplateAction::Finish,
            ),
            Err(err) => (
                TemplateWorker {
                    phase: Phase::Done { project: Some(project) },
                    cleanup_error: Some(err),
                    ..m
                },
                TemplateAction::Finish,
            ),
        },
        _ => (m, TemplateAction::Finish),
    }
}

/// One step preserves the invariant, and the delete counter counts
/// exactly the `Delete` actions issued.
pub proof fn lemma_spec_step_wf(m: TemplateWorker, e: TemplateEvent)
    requires
        m.wf(),
    ensures
        ({
            let (m2, a) = spec_step(m, e);
            &&& m2.wf()
            &&& m2.deletes == m.deletes + (if a is Delete {
                1int
            } else {
                0int
            })
        }),
{
    let (m2, a) = spec_step(m, e);
    match (m.phase, e) {
        (Phase::HarvestList { .. }, TemplateEvent::ServicesListed(res)) => {
            if let Ok(services) = res {
                vstd::std_specs::vec::axiom_spec_len(&services);
                if next_target(services@, 0, 0) is Some {
                    lemma_next_target_valid(services@, 0, 0);
                    let (a, b) = next_target(services@, 0, 0).unwrap();
                    vstd::std_specs::vec::axiom_spec_len(&services@[a].instances);
                }
            }
        },
        (
            Phase::Harvesting { services, service_index, instance_index, .. },
            TemplateEvent::LogsFetched(res),
        ) => {
            if let Ok(_) = res {
                vstd::std_specs::vec::axiom_spec_len(&services);
                if next_target(services@, service_index as int, instance_index + 1) is Some {
                    lemma_next_target_valid(services@, service_index as int, instance_index + 1);
                    let (a, b) = next_target(
                        services@,
                        service_index as int,
                        instance_index + 1,
                    ).unwrap();
                    vstd::std_specs::vec::axiom_spec_len(&services@[a].instances);
                }
            }
        },
        _ => {},
    }
}

/// Finds the next harvest position at or after `(si, ii)`.
fn find_next_target(services: &Vec<Service>, si: usize, ii: usize) -> (r: Option<(usize, usize)>)
    ensures
        r is Some <==> next_target(services@, si as int, ii as int) is Some,
        (r matches Some((a, b)) ==> next_target(services@, si as int, ii as int) == Some(
            (a as int, b as int),
        ) && a < services@.len() && b < services@[a as int].instances@.len()
            && services@[a as int].instances@[b as int].deployment_id is Some),
    decreases services@.len() - si, (if (si as int) < services@.len() {
        services@[si as int].instances@.len() - ii
    } else {
        0int
    }),
{
    if si >= services.len() {
        None
    } else if ii >= services[si].instances.len() {
        find_next_target(services, si + 1, 0)
    } else if services[si].instances[ii].deployment_id.is_some() {
        Some((si, ii))
    } else {
        find_next_target(services, si, ii + 1)
    }
}

impl TemplateWorker {
    /// Starts one template: a missing configuration or a rejected build
    /// ends processing at once — a blocking variable silently, a bad
    /// configuration or proxy key with a recorded error — and otherwise
    /// the built deploy request is handed out for submission. No deploy
    /// is ever requested for a template whose environment is rejected.
    pub fn start(template: Template) -> (r: (TemplateWorker, TemplateAction))
        ensures
            r.0.wf(),
            !r.0.valid,
            r.0.cleanup_error is None,
            r.0.deletes == 0,
            (template.config is Missing ==> r.0.phase == (Phase::Done { project: None })
                && r.0.error is None && r.1 is Finish),
            (template.config matches TemplateConfig::Invalid(message) ==> r.0.phase == (
            Phase::Done { project: None }) && r.0.error == Some(Error::Json(message))
                && r.1 is Finish),
            (template.config matches TemplateConfig::Parsed(env) ==> {
                let rejection = environment_rejection(env.services@);
                &&& (rejection matches Some(e) ==> r.0.phase == (Phase::Done { project: None })
                    && r.1 is Finish && (e matches BuildError::MissingVariable(_)
                    ==> r.0.error is None) && (e matches BuildError::InvalidPort(key)
                    ==> r.0.error == Some(Error::ParseIntWithMetadata(key))))
                &&& (rejection is None ==> r.0.phase is AwaitDeploy && r.0.error is None
                    && (r.1 matches TemplateAction::Deploy(services) && services@.len()
                    == env.services@.len() && forall|i: int|
                    0 <= i < env.services@.len() ==> built_service_ok(
                        env.services@[i].0,
                        env.services@[i].1,
                        #[trigger] services@[i],
                    )))
            }),
    {
        match template.config {
            TemplateConfig::Missing => (
                TemplateWorker {
                    phase: Phase::Done { project: None },
                    valid: false,
                    error: None,
                    cleanup_error: None,
                    deletes: 0,
                },
                TemplateAction::Finish,
            ),
            TemplateConfig::Invalid(message) => (
                TemplateWorker {
                    phase: Phase::Done { project: None },
                    valid: false,
                    error: Some(Error::Json(message)),
                    cleanup_error: None,
                    deletes: 0,
                },
                TemplateAction::Finish,
            ),
            TemplateConfig::Parsed(env) => match crate::railway::template::build_services(&env) {
                Ok(built) => (
                    TemplateWorker {
                        phase: Phase::AwaitDeploy,
                        valid: false,
                        error: None,
                        cleanup_error: None,
                        deletes: 0,
                    },
                    TemplateAction::Deploy(built.services),
                ),
                Err(BuildError::MissingVariable(_)) => (
                    TemplateWorker {
                        phase: Phase::Done { project: None },
                        valid: false,
                        error: None,
                        cleanup_error: None,
                        deletes: 0,
                    },
                    TemplateAction::Finish,
                ),
                Err(BuildError::InvalidPort(key)) => (
                    TemplateWorker {
                        phase: Phase::Done { project: None },
                        valid: false,
                        error: Some(Error::ParseIntWithMetadata(key)),
                        cleanup_error: None,
                        deletes: 0,
                    },
                    TemplateAction::Finish,
                ),
            },
        }
    }

    /// Feeds one event to the worker and returns its next state and the
    /// action to perform.
    pub fn step(self, event: TemplateEvent) -> (r: (TemplateWorker, TemplateAction))
        requires
            self.wf(),
            event_fits(self, event),
        ensures
            r == spec_step(self, event),
            r.0.wf(),
    {
        proof {
            lemma_spec_step_wf(self, event);
        }
        let TemplateWorker { phase, valid, error, cleanup_error, deletes } = self;
        match (phase, event) {
            (Phase::AwaitDeploy, TemplateEvent::Deployed(res)) => match res {
                Ok(deployed) => {
                    let DeployedTemplate { project_id, workflow_id } = deployed;
                    match workflow_id {
                        Some(workflow) => (
                            TemplateWorker {
                                phase: Phase::Polling { project: project_id, workflow },
                                valid,
                                error,
                                cleanup_error,
                                deletes,
                            },
                            TemplateAction::PollWorkflow,
                        ),
                        None => (
                            TemplateWorker {
                                phase: Phase::Cleanup { project: project_id },
                                valid,
                                error,
                                cleanup_error,
                                deletes: deletes + 1,
                            },
                            TemplateAction::Delete,
                        ),
                    }
                },
                Err(err) => (
                    TemplateWorker {
                        phase: Phase::Done { project: None },
                        valid,
                        error: Some(err),
                        cleanup_error,
                        deletes,
                    },
                    TemplateAction::Finish,
                ),
            },
            (Phase::Polling { project, workflow }, TemplateEvent::WorkflowPolled(res)) => match res {
                Ok(status) => match status {
                    WorkflowStatus::Running => (
                        TemplateWorker {
                            phase: Phase::Polling { project, workflow },
                            valid,
                            error,
                            cleanup_error,
                            deletes,
                        },
                        TemplateAction::PollWorkflow,
                    ),
                    WorkflowStatus::Complete => (
                        TemplateWorker {
                            phase: Phase::WaitingBuilds { project },
                            valid: true,
                            error,
                            cleanup_error,
                            deletes,
                        },
                        TemplateAction::WaitServices,
                    ),
                    WorkflowStatus::Error(message) => (
                        TemplateWorker {
                            phase: Phase::Cleanup { project },
                            valid,
                            error: Some(Error::Workflow(message)),
                            cleanup_error,
                            deletes: deletes + 1,
                        },
                        TemplateAction::Delete,
                    ),
                    WorkflowStatus::NotFound => (
                        TemplateWorker {
                            phase: Phase::Cleanup { project },
                            valid,
                            error: Some(Error::WorkflowNotFound),
                            cleanup_error,
                            deletes: deletes + 1,
                        },
                        TemplateAction::Delete,
                    ),
                },
                Err(err) => (
                    TemplateWorker {
                        phase: Phase::Cleanup { project },
                        valid,
                        error: Some(err),
                        cleanup_error,
                        deletes: deletes + 1,
                    },
                    TemplateAction::Delete,
                ),
            },
            (Phase::WaitingBuilds { project }, TemplateEvent::ServicesListed(res)) => match res {
                Ok(services) => if Service::all_builds_settled(&services) {
                    (
                        TemplateWorker {
                            phase: Phase::HarvestList { project },
                            valid,
                            error,
                            cleanup_error,
                            deletes,
                        },
                        TemplateAction::ListForHarvest,
                    )
                } else {
                    (
                        TemplateWorker {
                            phase: Phase::WaitingBuilds { project },
                            valid,
                            error,
                            cleanup_error,
                            deletes,
                        },
                        TemplateAction::WaitServices,
                    )
                },
                Err(err) => (
                    TemplateWorker {
                        phase: Phase::Cleanup { project },
                        valid,
                        error: Some(err),
                        cleanup_error,
                        deletes: deletes + 1,
                    },
                    TemplateAction::Delete,
                ),
            },
            (Phase::HarvestList { project }, TemplateEvent::ServicesListed(res)) => match res {
                Ok(services) => match find_next_target(&services, 0, 0) {
                    Some((si, ii)) => {
                        let service_id = services[si].id.clone();
                        let deployment_id = match &services[si].instances[ii].deployment_id {
                            Some(d) => d.clone(),
                            None => vstd::pervasive::unreached(),
                        };
                        (
                            TemplateWorker {
                                phase: Phase::Harvesting {
                                    project,
                                    services,
                                    service_index: si,
                                    instance_index: ii,
                                },
                                valid,
                                error,
                                cleanup_error,
                                deletes,
                            },
                            TemplateAction::FetchLogs(service_id, deployment_id),
                        )
                    },
                    None => (
                        TemplateWorker {
                            phase: Phase::Cleanup { project },
                            valid,
                            error,
                            cleanup_error,
                            deletes: deletes + 1,
                        },
                        TemplateAction::Delete,
                    ),
                },
                Err(err) => (
                    TemplateWorker {
                        phase: Phase::Cleanup { project },
                        valid,
                        error: Some(err),
                        cleanup_error,
                        deletes: deletes + 1,
                    },
                    TemplateAction::Delete,
                ),
            },
            (
                Phase::Harvesting { project, services, service_index, instance_index },
                TemplateEvent::LogsFetched(res),
            ) => match res {
                Ok(_) => {
                    proof {
                        vstd::std_specs::vec::axiom_spec_len(
                            &services@[service_index as int].instances,
                        );
                    }
                    let found = find_next_target(&services, service_index, instance_index + 1);
                    match found {
                    Some((si, ii)) => {
                        let service_id = services[si].id.clone();
                        let deployment_id = match &services[si].instances[ii].deployment_id {
                            Some(d) => d.clone(),
                            None => vstd::pervasive::unreached(),
                        };
                        (
                            TemplateWorker {
                                phase: Phase::Harvesting {
                                    project,
                                    services,
                                    service_index: si,
                                    instance_index: ii,
                                },
                                valid,
                                error,
                                cleanup_error,
                                deletes,
                            },
                            TemplateAction::FetchLogs(service_id, deployment_id),
                        )
                    },
                    None => (
                        TemplateWorker {
                            phase: Phase::Cleanup { project },
                            valid,
                            error,
                            cleanup_error,
                            deletes: deletes + 1,
                        },
                        TemplateAction::Delete,
                    ),
                    }
                },
                Err(err) => (
                    TemplateWorker {
                        phase: Phase::Cleanup { project },
                        valid,
                        error: Some(err),
                        cleanup_error,
                        deletes: deletes + 1,
                    },
                    TemplateAction::Delete,
                ),
            },
            (Phase::Cleanup { project }, TemplateEvent::Deleted(res)) => match res {
                Ok(_) => (
                    TemplateWorker {
                        phase: Phase::Done { project: Some(project) },
                        valid,
                        error,
                        cleanup_error,
                        deletes,
                    },
                    TemplateAction::Finish,
                ),
                Err(err) => (
                    TemplateWorker {
                        phase: Phase::Done { project: Some(project) },
                        valid,
                        error,
                        cleanup_error: Some(err),
                        deletes,
                    },
                    TemplateAction::Finish,
                ),
            },
            _ => vstd::pervasive::unreached(),
        }
    }
}

/// The state after feeding a sequence of events, in order.
pub open spec fn run_events(m: TemplateWorker, events: Seq<TemplateEvent>) -> TemplateWorker
    decreases events.len(),
{
    if events.len() == 0 {
        m
    } else {
        run_events(spec_step(m, events[0]).0, events.drop_first())
    }
}

/// How many `Delete` actions a sequence of events makes the worker issue.
pub open spec fn deletes_emitted(m: TemplateWorker, events: Seq<TemplateEvent>) -> nat
    decreases events.len(),
{
    if events.len() == 0 {
        0
    } else {
        (if spec_step(m, events[0]).1 is Delete {
            1nat
        } else {
            0nat
        }) + deletes_emitted(spec_step(m, events[0]).0, events.drop_first())
    }
}

/// The invariant holds along any event sequence, and the delete counter
/// accounts exactly for the `Delete` actions issued on the way.
pub proof fn lemma_deletes_account(m: TemplateWorker, events: Seq<TemplateEvent>)
    requires
        m.wf(),
    ensures
        run_events(m, events).wf(),
        run_events(m, events).deletes == m.deletes + deletes_emitted(m, events),
    decreases events.len(),
{
    if events.len() > 0 {
        lemma_spec_step_wf(m, events[0]);
        lemma_deletes_account(spec_step(m, events[0]).0, events.drop_first());
    }
}

/// A finished worker stays finished: further events change nothing and
/// issue nothing.
pub proof fn lemma_done_absorbing(m: TemplateWorker, events: Seq<TemplateEvent>)
    requires
        m.phase is Done,
    ensures
        run_events(m, events) == m,
        deletes_emitted(m, events) == 0,
    decreases events.len(),
{
    if events.len() > 0 {
        assert(spec_step(m, events[0]) == (m, TemplateAction::Finish));
        lemma_done_absorbing(m, events.drop_first());
    }
}

/// Cleanup guarantee: from the moment a deploy is awaited, an event
/// sequence that finishes the template has made the worker issue exactly
/// one delete when a project was confirmed, and none otherwise.
pub proof fn lemma_cleanup_guarantee(m: TemplateWorker, events: Seq<TemplateEvent>)
    requires
        m.wf(),
        m.phase is AwaitDeploy,
        run_events(m, events).phase is Done,
    ensures
        (run_events(m, events).phase matches Phase::Done { project } ==> deletes_emitted(m, events)
            == (if project is Some {
            1nat
        } else {
            0nat
        })),
{
    lemma_deletes_account(m, events);
}

/// No cleanup before a project exists: when the deploy call itself fails,
/// the template is finished at once with no project recorded, and no
/// delete is issued — not by this event and not by any that follow.
pub proof fn lemma_no_cleanup_before_project(
    m: TemplateWorker,
    deploy_error: Error,
    rest: Seq<TemplateEvent>,
)
    requires
        m.wf(),
        m.phase is AwaitDeploy,
    ensures
        ({
            let e = TemplateEvent::Deployed(Err(deploy_error));
            let (m2, a) = spec_step(m, e);
            &&& !(a is Delete)
            &&& m2.phase == (Phase::Done { project: None })
            &&& deletes_emitted(m, seq![e] + rest) == 0
        }),
{
    let e = TemplateEvent::Deployed(Err(deploy_error));
    let (m2, a) = spec_step(m, e);
    let events = seq![e] + rest;
    assert(events[0] == e);
    assert(events.drop_first() =~= rest);
    lemma_done_absorbing(m2, rest);
}

/// The events of a scripted sequence of service listings, each answering
/// one round of the build wait.
pub open spec fn listed_events(lists: Seq<Vec<Service>>) -> Seq<TemplateEvent> {
    lists.map_values(|l: Vec<Service>| TemplateEvent::ServicesListed(Ok(l)))
}

/// An unsettled listing leaves a waiting worker exactly as it was, asking
/// for the next round; a settled one moves it on to harvesting.
proof fn lemma_wait_step(m: TemplateWorker, services: Vec<Service>)
    requires
        m.phase is WaitingBuilds,
    ensures
        ({
            let (m2, a) = spec_step(m, TemplateEvent::ServicesListed(Ok(services)));
            &&& !all_settled(services@) ==> m2 == m && a is WaitServices
            &&& all_settled(services@) ==> m2.phase is HarvestList && a is ListForHarvest
        }),
{
    if let Phase::WaitingBuilds { project } = m.phase {
        let (m2, a) = spec_step(m, TemplateEvent::ServicesListed(Ok(services)));
        if !all_settled(services@) {
            assert(m2 == m);
        }
    }
}

/// Build-wait termination, first half: while the scripted listings stay
/// unsettled the worker waits unchanged, and the first settled listing
/// ends the wait — the waiter returns exactly at that answer.
pub proof fn lemma_build_wait_returns(m: TemplateWorker, lists: Seq<Vec<Service>>, k: int)
    requires
        m.wf(),
        m.phase is WaitingBuilds,
        0 <= k < lists.len(),
        all_settled(lists[k]@),
        forall|j: int| 0 <= j < k ==> !all_settled(#[trigger] lists[j]@),
    ensures
        run_events(m, listed_events(lists).take(k)) == m,
        run_events(m, listed_events(lists).take(k + 1)).phase is HarvestList,
    decreases k,
{
    let events = listed_events(lists);
    if k == 0 {
        assert(events.take(0) =~= Seq::<TemplateEvent>::empty());
        assert(events.take(1)[0] == events[0]);
        assert(events.take(1).drop_first() =~= Seq::<TemplateEvent>::empty());
        lemma_wait_step(m, lists[0]);
        assert(events[0] == TemplateEvent::ServicesListed(Ok(lists[0])));
        let m1 = spec_step(m, events[0]).0;
        assert(run_events(m, events.take(1)) == run_events(
            m1,
            events.take(1).drop_first(),
        ));
        assert(run_events(m1, Seq::<TemplateEvent>::empty()) == m1);
    } else {
        lemma_wait_step(m, lists[0]);
        let m1 = spec_step(m, events[0]).0;
        assert(m1 == m);
        assert(listed_events(lists.drop_first()) =~= events.drop_first());
        lemma_build_wait_returns(m, lists.drop_first(), k - 1);
        assert(events.take(k)[0] == events[0]);
        assert(events.take(k).drop_first() =~= events.drop_first().take(k - 1));
        assert(events.take(k + 1)[0] == events[0]);
        assert(events.take(k + 1).drop_first() =~= events.drop_first().take(k));
    }
}

/// Build-wait termination, second half: a listing script that never
/// settles never moves the worker on — the waiter never returns.
pub proof fn lemma_build_wait_never_returns(m: TemplateWorker, lists: Seq<Vec<Service>>)
    requires
        m.wf(),
        m.phase is WaitingBuilds,
        forall|j: int| 0 <= j < lists.len() ==> !all_settled(#[trigger] lists[j]@),
    ensures
        run_events(m, listed_events(lists)) == m,
    decreases lists.len(),
{
    let events = listed_events(lists);
    if lists.len() > 0 {
        lemma_wait_step(m, lists[0]);
        assert(listed_events(lists.drop_first()) =~= events.drop_first());
        lemma_build_wait_never_returns(m, lists.drop_first());
    }
}

/// The errors a finished worker contributes to the run, in order: the
/// processing error, then the cleanup error.
pub open spec fn recorded_errors(w: TemplateWorker) -> Seq<Error> {
    (match w.error {
        Some(e) => seq![e],
        None => Seq::empty(),
    }) + (match w.cleanup_error {
        Some(e) => seq![e],
        None => Seq::empty(),
    })
}

impl Run {
    /// Absorbs one finished template into a chunk's accumulator: one more
    /// attempted template, one more valid one when its workflow completed,
    /// and the worker's recorded errors appended in order.
    pub fn absorb(&mut self, worker: TemplateWorker)
        requires
            old(self).total < u64::MAX,
            old(self).valid < u64::MAX,
            worker.phase is Done,
        ensures
            final(self).total == old(self).total + 1,
            final(self).valid == old(self).valid + (if worker.valid {
                1int
            } else {
                0int
            }),
            final(self).errors@ == old(self).errors@ + recorded_errors(worker),
    {
        self.total = self.total + 1;
        if worker.valid {
            self.valid = self.valid + 1;
        }
        let ghost pre = self.errors@;
        match worker.error {
            Some(e) => self.errors.push(e),
            None => {},
        }
        match worker.cleanup_error {
            Some(e) => self.errors.push(e),
            None => {},
        }
        proof {
            assert(self.errors@ =~= pre + recorded_errors(worker));
        }
    }
}

} // verus!
