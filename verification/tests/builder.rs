use crater::environment::{
    DeserializedEnvironment, DeserializedService, DeserializedServiceDeploy,
    DeserializedServiceNetworking, DeserializedServiceSource, DeserializedServiceVariable,
    DeserializedServiceVolumeMount,
};
use crater::railway::template::{build_services, parse_decimal_i64, BuildError};

fn bare_service(name: &str) -> DeserializedService {
    DeserializedService {
        deploy: None,
        icon: None,
        name: String::from(name),
        networking: None,
        source: None,
        variables: Vec::new(),
        volume_mounts: Vec::new(),
    }
}

fn variable(default_value: Option<&str>, is_optional: Option<bool>) -> DeserializedServiceVariable {
    DeserializedServiceVariable {
        default_value: default_value.map(String::from),
        description: None,
        is_optional,
    }
}

#[test]
fn parses_plain_ports() {
    assert_eq!(parse_decimal_i64("8080"), Some(8080));
    assert_eq!(parse_decimal_i64("0"), Some(0));
    assert_eq!(parse_decimal_i64("0080"), Some(80));
    assert_eq!(parse_decimal_i64("+42"), Some(42));
    assert_eq!(parse_decimal_i64("-1"), Some(-1));
}

#[test]
fn rejects_malformed_integers() {
    assert_eq!(parse_decimal_i64(""), None);
    assert_eq!(parse_decimal_i64("+"), None);
    assert_eq!(parse_decimal_i64("-"), None);
    assert_eq!(parse_decimal_i64("12a"), None);
    assert_eq!(parse_decimal_i64("8 0"), None);
    assert_eq!(parse_decimal_i64("1.5"), None);
}

#[test]
fn rejects_non_ascii_digits() {
    assert_eq!(parse_decimal_i64("٨٠٨٠"), None);
    assert_eq!(parse_decimal_i64("8٠"), None);
    assert_eq!(parse_decimal_i64("−1"), None);
}

#[test]
fn parses_at_the_i64_bounds() {
    assert_eq!(parse_decimal_i64("9223372036854775807"), Some(i64::MAX));
    assert_eq!(parse_decimal_i64("9223372036854775808"), None);
    assert_eq!(parse_decimal_i64("-9223372036854775808"), Some(i64::MIN));
    assert_eq!(parse_decimal_i64("-9223372036854775809"), None);
    assert_eq!(parse_decimal_i64("99999999999999999999999999"), None);
}

#[test]
fn builds_repo_service_with_proxy_port() {
    // A service with one TCP proxy and a repository source keeps the
    // proxy port, the root directory, and the repository as the target.
    let mut service = bare_service("app");
    service.networking = Some(DeserializedServiceNetworking {
        service_domains: Vec::new(),
        tcp_proxies: vec![String::from("8080")],
    });
    service.source = Some(DeserializedServiceSource::Repo {
        root_directory: Some(String::from("backend")),
        repo: String::from("org/app"),
    });
    let env = DeserializedEnvironment { services: vec![(String::from("svc-1"), service)] };
    let built = build_services(&env).expect("the template should build");
    assert_eq!(built.services.len(), 1);
    let new_service = &built.services[0];
    assert_eq!(new_service.id, "svc-1");
    assert_eq!(new_service.tcp_proxy_application_port, Some(8080));
    assert_eq!(new_service.root_directory, Some(String::from("backend")));
    assert_eq!(new_service.template, "org/app");
    assert_eq!(new_service.has_domain, Some(false));
    assert!(!built.any_healthcheck);
}

#[test]
fn required_variable_without_default_rejects_template() {
    let mut service = bare_service("api");
    service.variables = vec![(
        String::from("API_KEY"),
        variable(None, Some(false)),
    )];
    let env = DeserializedEnvironment { services: vec![(String::from("svc-1"), service)] };
    assert_eq!(
        build_services(&env),
        Err(BuildError::MissingVariable(String::from("API_KEY")))
    );
}

#[test]
fn empty_default_counts_as_missing() {
    let mut service = bare_service("api");
    service.variables = vec![(String::from("TOKEN"), variable(Some(""), None))];
    let env = DeserializedEnvironment { services: vec![(String::from("svc-1"), service)] };
    assert_eq!(
        build_services(&env),
        Err(BuildError::MissingVariable(String::from("TOKEN")))
    );
}

#[test]
fn optional_variable_without_default_is_skipped() {
    let mut service = bare_service("api");
    service.variables = vec![
        (String::from("OPTIONAL"), variable(None, Some(true))),
        (String::from("PORT"), variable(Some("3000"), None)),
    ];
    let env = DeserializedEnvironment { services: vec![(String::from("svc-1"), service)] };
    let built = build_services(&env).expect("optional variables never block");
    assert_eq!(
        built.services[0].variables,
        vec![(String::from("PORT"), String::from("3000"))]
    );
}

#[test]
fn malformed_proxy_port_rejects_template() {
    let mut service = bare_service("api");
    service.networking = Some(DeserializedServiceNetworking {
        service_domains: Vec::new(),
        tcp_proxies: vec![String::from("eighty")],
    });
    let env = DeserializedEnvironment { services: vec![(String::from("svc-1"), service)] };
    assert_eq!(
        build_services(&env),
        Err(BuildError::InvalidPort(String::from("eighty")))
    );
}

#[test]
fn earlier_service_rejection_wins() {
    // The first rejecting service, in order, decides the error.
    let mut bad_port = bare_service("first");
    bad_port.networking = Some(DeserializedServiceNetworking {
        service_domains: Vec::new(),
        tcp_proxies: vec![String::from("nope")],
    });
    let mut missing_var = bare_service("second");
    missing_var.variables = vec![(String::from("KEY"), variable(None, None))];
    let env = DeserializedEnvironment {
        services: vec![
            (String::from("svc-1"), bad_port),
            (String::from("svc-2"), missing_var),
        ],
    };
    assert_eq!(
        build_services(&env),
        Err(BuildError::InvalidPort(String::from("nope")))
    );
}

#[test]
fn image_source_and_fallback_target() {
    let mut image_service = bare_service("cache");
    image_service.source = Some(DeserializedServiceSource::Image {
        image: String::from("redis:7"),
    });
    let sourceless = bare_service("mystery");
    let env = DeserializedEnvironment {
        services: vec![
            (String::from("svc-1"), image_service),
            (String::from("svc-2"), sourceless),
        ],
    };
    let built = build_services(&env).expect("no rule rejects these services");
    assert_eq!(built.services[0].template, "redis:7");
    assert_eq!(built.services[0].root_directory, None);
    // Without a source the display name stands in as a defensive fallback.
    assert_eq!(built.services[1].template, "mystery");
}

#[test]
fn healthcheck_flag_and_deploy_fields() {
    let mut service = bare_service("web");
    service.deploy = Some(DeserializedServiceDeploy {
        healthcheck_path: Some(String::from("/health")),
        start_command: Some(String::from("npm start")),
    });
    service.icon = Some(String::from("globe"));
    service.volume_mounts = vec![(
        String::from("mount-1"),
        DeserializedServiceVolumeMount { mount_path: String::from("/data") },
    )];
    let env = DeserializedEnvironment { services: vec![(String::from("svc-1"), service)] };
    let built = build_services(&env).expect("a plain service builds");
    assert!(built.any_healthcheck);
    let new_service = &built.services[0];
    assert_eq!(new_service.healthcheck_path, Some(String::from("/health")));
    assert_eq!(new_service.start_command, Some(String::from("npm start")));
    assert_eq!(new_service.service_icon, Some(String::from("globe")));
    assert_eq!(new_service.name, "web");
    assert_eq!(new_service.service_name, "web");
    assert_eq!(new_service.volumes.len(), 1);
    assert_eq!(new_service.volumes[0].mount_path, "/data");
}
