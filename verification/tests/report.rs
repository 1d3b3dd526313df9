use crater::error::Error;
use crater::railway::project::Project;
use crater::railway::service::{LatestDeployment, Service, ServiceInstance, ServiceInstanceNode};
use crater::railway::template::{Template, TemplateConfig};
use crater::railway::workflow::WorkflowStatus;
use crater::railway::{Railway, RailwayError, RailwayResponse};
use crater::{merge_all, partition, shuffle_templates, Run};

fn run_with(total: u64, valid: u64, errors: Vec<Error>) -> Run {
    Run { total, valid, errors }
}

fn template(code: &str) -> Template {
    Template {
        id: format!("id-{code}"),
        code: String::from(code),
        config: TemplateConfig::Missing,
    }
}

#[test]
fn merge_sums_counts_and_concatenates_errors() {
    let mut left = run_with(3, 1, vec![Error::RailwayDataMissing]);
    let right = run_with(2, 2, vec![Error::Workflow(None)]);
    left.merge(right);
    assert_eq!(left.total, 5);
    assert_eq!(left.valid, 3);
    assert_eq!(left.errors, vec![Error::RailwayDataMissing, Error::Workflow(None)]);
}

#[test]
fn merged_report_is_the_same_in_any_completion_order() {
    // The same chunk results, finished in two different orders, give one
    // and the same aggregate: equal counts, same errors as a set.
    let chunks = || {
        vec![
            run_with(3, 1, vec![Error::RailwayDataMissing]),
            run_with(2, 0, vec![Error::Workflow(Some(String::from("boom")))]),
            run_with(4, 4, Vec::new()),
        ]
    };
    let mut reversed: Vec<Run> = chunks();
    reversed.reverse();
    let one = merge_all(chunks());
    let other = merge_all(reversed);
    assert_eq!(one.total, other.total);
    assert_eq!(one.valid, other.valid);
    assert_eq!(one.errors.len(), other.errors.len());
    for error in &one.errors {
        assert!(other.errors.contains(error));
    }
}

#[test]
fn partition_keeps_order_and_balances_sizes() {
    let templates: Vec<Template> =
        (0..10).map(|i| template(&format!("t{i}"))).collect();
    let chunks = partition(templates, 4);
    assert_eq!(chunks.len(), 4);
    let sizes: Vec<usize> = chunks.iter().map(|c| c.len()).collect();
    assert_eq!(sizes, vec![3, 3, 2, 2]);
    let flattened: Vec<String> =
        chunks.iter().flat_map(|c| c.iter().map(|t| t.code.clone())).collect();
    let expected: Vec<String> = (0..10).map(|i| format!("t{i}")).collect();
    assert_eq!(flattened, expected);
}

#[test]
fn partition_into_one_chunk_is_identity() {
    let templates: Vec<Template> = (0..3).map(|i| template(&format!("t{i}"))).collect();
    let chunks = partition(templates, 1);
    assert_eq!(chunks.len(), 1);
    assert_eq!(chunks[0].len(), 3);
}

#[test]
fn partition_with_more_chunks_than_templates_leaves_empties() {
    let templates: Vec<Template> = (0..3).map(|i| template(&format!("t{i}"))).collect();
    let chunks = partition(templates, 5);
    let sizes: Vec<usize> = chunks.iter().map(|c| c.len()).collect();
    assert_eq!(sizes, vec![1, 1, 1, 0, 0]);
}

#[test]
fn merging_no_chunks_gives_an_empty_report() {
    let report = merge_all(Vec::new());
    assert_eq!(report.total, 0);
    assert_eq!(report.valid, 0);
    assert!(report.errors.is_empty());
}

#[test]
fn shuffle_keeps_the_same_templates() {
    let templates: Vec<Template> = (0..8).map(|i| template(&format!("t{i}"))).collect();
    let mut shuffled = templates.iter().map(|t| Template {
        id: t.id.clone(),
        code: t.code.clone(),
        config: TemplateConfig::Missing,
    }).collect::<Vec<_>>();
    shuffle_templates(&mut shuffled);
    assert_eq!(shuffled.len(), templates.len());
    let mut codes: Vec<String> = shuffled.iter().map(|t| t.code.clone()).collect();
    codes.sort();
    let mut expected: Vec<String> = templates.iter().map(|t| t.code.clone()).collect();
    expected.sort();
    assert_eq!(codes, expected);
}

#[test]
fn response_errors_take_precedence_over_data() {
    let response = RailwayResponse::<u64> {
        data: Some(7),
        errors: vec![
            RailwayError { message: String::from("first") },
            RailwayError { message: String::from("second") },
        ],
    };
    assert_eq!(
        Railway::resolve(response),
        Err(Error::Railway(vec![String::from("first"), String::from("second")]))
    );
}

#[test]
fn response_data_is_returned_when_no_errors() {
    let response = RailwayResponse::<u64> { data: Some(7), errors: Vec::new() };
    assert_eq!(Railway::resolve(response), Ok(7));
}

#[test]
fn response_without_data_or_errors_is_an_error() {
    let response = RailwayResponse::<u64> { data: None, errors: Vec::new() };
    assert_eq!(Railway::resolve(response), Err(Error::RailwayDataMissing));
}

#[test]
fn non_success_status_is_classified() {
    assert_eq!(Railway::classify_status(200, String::from("ok")), Ok(()));
    assert_eq!(
        Railway::classify_status(502, String::from("bad gateway")),
        Err(Error::RailwayStatusFailure(502, String::from("bad gateway")))
    );
}

#[test]
fn delete_false_is_a_cleanup_error() {
    assert_eq!(Project::interpret_delete(String::from("proj-1"), true), Ok(()));
    assert_eq!(
        Project::interpret_delete(String::from("proj-1"), false),
        Err(Error::ProjectDelete(String::from("proj-1")))
    );
}

#[test]
fn service_projection_reads_the_latest_deployment() {
    let nodes = vec![
        ServiceInstanceNode {
            healthcheck_path: Some(String::from("/health")),
            healthcheck_timeout: Some(30),
            latest_deployment: Some(LatestDeployment {
                id: String::from("dep-1"),
                static_url: Some(String::from("app.example")),
                status: String::from("SUCCESS"),
            }),
        },
        ServiceInstanceNode {
            healthcheck_path: None,
            healthcheck_timeout: None,
            latest_deployment: None,
        },
    ];
    let service = Service::from_nodes(String::from("svc-1"), String::from("api"), nodes);
    assert_eq!(service.id, "svc-1");
    assert_eq!(service.name, "api");
    assert_eq!(service.instances.len(), 2);
    let with_deployment = &service.instances[0];
    assert_eq!(with_deployment.status, Some(String::from("SUCCESS")));
    assert_eq!(with_deployment.deployment_id, Some(String::from("dep-1")));
    assert_eq!(with_deployment.static_url, Some(String::from("app.example")));
    assert_eq!(with_deployment.healthcheck_path, Some(String::from("/health")));
    let without_deployment = &service.instances[1];
    assert_eq!(without_deployment.status, None);
    assert_eq!(without_deployment.deployment_id, None);
    assert_eq!(without_deployment.static_url, None);
}

#[test]
fn settled_ignores_services_without_instances() {
    let services = vec![Service {
        id: String::from("svc-1"),
        name: String::from("api"),
        instances: Vec::new(),
    }];
    assert!(Service::all_builds_settled(&services));
    assert!(Service::all_builds_settled(&Vec::new()));
}

#[test]
fn every_nonterminal_status_keeps_the_wait_going() {
    for status in ["BUILDING", "WAITING", "INITIALIZING", "QUEUED"] {
        let services = vec![Service {
            id: String::from("svc-1"),
            name: String::from("api"),
            instances: vec![ServiceInstance {
                healthcheck_path: None,
                healthcheck_timeout: None,
                static_url: None,
                status: Some(String::from(status)),
                deployment_id: None,
            }],
        }];
        assert!(!Service::all_builds_settled(&services));
    }
}

#[test]
fn workflow_terminal_statuses() {
    assert!(WorkflowStatus::Complete.is_terminal());
    assert!(WorkflowStatus::Error(None).is_terminal());
    assert!(WorkflowStatus::NotFound.is_terminal());
    assert!(!WorkflowStatus::Running.is_terminal());
}

#[test]
fn workflow_errors_are_their_own_kind() {
    assert!(Error::Workflow(None).is_workflow());
    assert!(Error::WorkflowNotFound.is_workflow());
    assert!(!Error::RailwayDataMissing.is_workflow());
    assert!(!Error::ProjectDelete(String::from("p")).is_workflow());
}
