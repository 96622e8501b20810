use opencode_sandbox::gateway::api::env_profile_record;
use opencode_sandbox::digest::sha256_hex;
use opencode_sandbox::gateway::auth::{validate_identity, AuthError, Authenticator};
use opencode_sandbox::gateway::config::{
    validate_http_url, validate_key, validate_projects, AuthConfig, CheckpointConfig, Config,
    ConfigError, LifecycleConfig, OpenCodeConfig, Project, ProjectEnvironment, ResourcePair,
    Resources, RuntimeConfig,
};
use opencode_sandbox::gateway::k8s::{
    auth_content, deletion_verdict, resource_key, reusable_image_digest, teardown, workspace_exit_code,
    ContainerStatus, DeletionVerdict, K8sError, StepResult, TeardownFlow, TeardownStage,
};
use opencode_sandbox::gateway::lifecycle::should_ensure_workspace;
use opencode_sandbox::gateway::preview::{parse_host, request_headers, PreviewTarget, RequestHeaderError};
use opencode_sandbox::gateway::state::{
    check_duplicate, check_transition, StoreError, Workspace, WorkspaceState,
};
use opencode_sandbox::gateway::central::{CentralError, CentralRequest, LaunchFlow, LaunchSpec, LaunchStage};
use opencode_sandbox::gateway::checkpoint::CheckpointError as UploadError;
use opencode_sandbox::gateway::pod::{pod_spec, EnvValue, VolumeSource};
use opencode_sandbox::headers::Headers;

#[test]
fn records_a_reusable_digest_from_containerd_status() {
    assert_eq!(
        reusable_image_digest("registry.test/team/demo:dev", "containerd://sha256:abc").unwrap(),
        "registry.test/team/demo@sha256:abc"
    );
}

#[test]
fn reconciles_missing_and_interrupted_sandboxes_only() {
    assert!(should_ensure_workspace(WorkspaceState::Running, false));
    assert!(!should_ensure_workspace(WorkspaceState::Running, true));
    assert!(should_ensure_workspace(WorkspaceState::Provisioning, false));
    assert!(should_ensure_workspace(WorkspaceState::Resuming, false));
    assert!(!should_ensure_workspace(WorkspaceState::Error, false));
    assert!(!should_ensure_workspace(WorkspaceState::Suspended, false));
}

#[test]
fn parses_workspace_then_port_hostname() {
    assert_eq!(
        parse_host("wrk-abc-18080.test.invalid", "test.invalid"),
        Some(PreviewTarget { preview_key: "wrk-abc".into(), port: 18080 })
    );
}

#[test]
fn rejects_wrong_domain_and_control_ports() {
    assert!(parse_host("wrk-4096.test.invalid", "test.invalid").is_none());
    assert!(parse_host("wrk-8080.test.invalid.evil", "test.invalid").is_none());
}

#[test]
fn resource_mapping_is_stable_and_collision_safe() {
    assert_eq!(resource_key("wrk_1"), resource_key("wrk_1"));
    assert_ne!(resource_key("wrk_1"), resource_key("wrk-1"));
}

#[test]
fn resource_key_is_slug_and_digest_prefix() {
    let key = resource_key("wrk_1");
    let digest: String = sha256_hex(b"wrk_1").into_iter().collect();
    assert_eq!(key, format!("wrk-1-{}", &digest[..12]));
}

#[test]
fn sha256_hex_is_the_sha256_digest() {
    let digest: String = sha256_hex(b"abc").into_iter().collect();
    assert_eq!(digest, "ba7816bf8f01cfea414140de5dae2223b00361a396177a9cb410ff61f20015ad");
}

#[test]
fn observes_failed_supervisor_termination() {
    let statuses = vec![ContainerStatus {
        name: "workspace".into(),
        image_id: "demo".into(),
        terminated_exit_code: Some(1),
    }];
    assert_eq!(workspace_exit_code(&statuses), Some(1));
}

#[test]
fn exit_code_comes_from_the_workspace_container_only() {
    let statuses = vec![
        ContainerStatus { name: "sidecar".into(), image_id: "x".into(), terminated_exit_code: Some(7) },
        ContainerStatus { name: "workspace".into(), image_id: "y".into(), terminated_exit_code: None },
    ];
    assert_eq!(workspace_exit_code(&statuses), None);
}

#[test]
fn image_digest_needs_a_sha256_image_id() {
    assert!(reusable_image_digest("demo:dev", "containerd://abc").is_err());
    assert_eq!(
        reusable_image_digest("demo:dev", "docker-pullable://registry.test/demo@sha256:def").unwrap(),
        "registry.test/demo@sha256:def"
    );
}

#[test]
fn auth_content_reads_the_upstream_environment() {
    assert!(matches!(auth_content("not json"), Err(K8sError::InvalidUpstreamEnvironment)));
    assert!(matches!(auth_content("{\"OPENCODE_AUTH_CONTENT\":null}"), Err(K8sError::MissingAuthContent)));
    assert!(matches!(auth_content("{\"OPENCODE_AUTH_CONTENT\":\"\"}"), Err(K8sError::MissingAuthContent)));
    assert_eq!(auth_content("{\"A\":\"x\",\"OPENCODE_AUTH_CONTENT\":\"v\",\"Z\":null}").unwrap(), "v");
    let content = auth_content("{\"OPENCODE_AUTH_CONTENT\":\"auth-json\"}").unwrap();
    assert_eq!(content, "auth-json");
    assert!(auth_content("{}").is_err());
}

fn config() -> Config {
    Config {
        namespace: "sandboxes".into(),
        base_domain: "test.invalid".into(),
        listen: "0.0.0.0:8080".into(),
        preview_listen: "0.0.0.0:8081".into(),
        state_path: "/var/lib/opencode-gateway/state.db".into(),
        opencode: OpenCodeConfig {
            version: "1.18.3".into(),
            central_url: "http://central".into(),
            public_url: "https://opencode.test".into(),
        },
        runtime: RuntimeConfig {
            image: "runtime:v1".into(),
            generic_nix_image: "nix:v1".into(),
            gateway_url: "http://gateway:8080".into(),
        },
        checkpoint: CheckpointConfig { path: "/tmp".into(), periodic_seconds: 300 },
        lifecycle: LifecycleConfig {
            suspend_after_idle_seconds: 60,
            ready_timeout_seconds: 300,
            poll_seconds: 2,
            termination_grace_seconds: 180,
        },
        auth: AuthConfig::Development { user: "dev".into(), internal_token_file: None },
        projects_file: "projects.yaml".into(),
    }
}

#[test]
fn rejects_latest_runtime_image() {
    let mut config = config();
    config.runtime.image = "runtime:latest".into();
    assert!(config.validate().is_err());
}

#[test]
fn accepts_a_pinned_platform_configuration() {
    assert!(config().validate().is_ok());
    let mut bad = config();
    bad.lifecycle.poll_seconds = 0;
    assert!(matches!(bad.validate(), Err(ConfigError::DurationsNotPositive)));
}

#[test]
fn keys_and_urls_are_checked() {
    assert!(validate_key("demo_1-a", "namespace").is_ok());
    assert!(matches!(validate_key("de mo", "namespace"), Err(ConfigError::UnsupportedCharacters { name }) if name == "namespace"));
    assert!(validate_http_url("https://central.test", "centralUrl").is_ok());
    assert!(matches!(validate_http_url("ftp://central.test", "centralUrl"), Err(ConfigError::UrlNotHttp { .. })));
}

fn headers(entries: &[(&str, &str)]) -> Headers {
    let mut h = Headers::new();
    for (name, value) in entries {
        h.push(name.to_string(), Some(value.to_string()));
    }
    h
}

#[test]
fn maps_trusted_header_and_internal_token() {
    let auth = Authenticator::new(
        &AuthConfig::TrustedHeader {
            identity_header: "x-user".into(),
            internal_token_file: Some("token".into()),
        },
        Some(" service-secret\n"),
    )
    .unwrap();
    let headers = headers(&[("x-user", "dev@example.test"), ("authorization", "Bearer service-secret")]);
    assert_eq!(auth.identity(&headers).unwrap(), "dev@example.test");
    assert!(auth.is_internal(&headers));
}

#[test]
fn configured_missing_or_empty_internal_token_fails_startup() {
    let config = AuthConfig::Development { user: "dev".into(), internal_token_file: Some("missing".into()) };
    assert!(matches!(Authenticator::new(&config, None), Err(AuthError::TokenUnavailable)));
    let config = AuthConfig::Development { user: "dev".into(), internal_token_file: Some("empty".into()) };
    assert!(matches!(Authenticator::new(&config, Some(" \n")), Err(AuthError::EmptyToken)));
}

#[test]
fn wrong_internal_token_is_not_internal() {
    let auth = Authenticator::new(
        &AuthConfig::Development { user: "dev".into(), internal_token_file: Some("t".into()) },
        Some("secret"),
    )
    .unwrap();
    assert!(!auth.is_internal(&headers(&[("authorization", "Bearer secre")])));
    assert!(!auth.is_internal(&headers(&[("authorization", "secret")])));
    assert_eq!(auth.identity(&headers(&[])).unwrap(), "dev");
}

#[test]
fn identities_are_trimmed_and_checked() {
    assert_eq!(validate_identity("  dev@example.test ").unwrap(), "dev@example.test");
    assert!(validate_identity("   ").is_err());
    assert!(validate_identity("dev\u{7}").is_err());
}

#[test]
fn enforces_state_machine() {
    assert!(check_transition(WorkspaceState::Provisioning, WorkspaceState::Suspended).is_err());
    assert!(check_transition(WorkspaceState::Provisioning, WorkspaceState::Running).is_ok());
    assert!(check_transition(WorkspaceState::Running, WorkspaceState::Suspending).is_ok());
    assert!(check_transition(WorkspaceState::Suspending, WorkspaceState::Suspended).is_ok());
    assert!(check_transition(WorkspaceState::Deleted, WorkspaceState::Running).is_err());
    assert!(WorkspaceState::Running.permits(WorkspaceState::Running));
}

#[test]
fn state_names_round_trip() {
    for state in [
        WorkspaceState::Provisioning,
        WorkspaceState::Running,
        WorkspaceState::Checkpointing,
        WorkspaceState::Suspending,
        WorkspaceState::Suspended,
        WorkspaceState::Resuming,
        WorkspaceState::Deleting,
        WorkspaceState::Deleted,
        WorkspaceState::Error,
    ] {
        assert_eq!(WorkspaceState::parse(state.as_str()), Some(state));
    }
    assert_eq!(WorkspaceState::parse("running"), Some(WorkspaceState::Running));
    assert_eq!(WorkspaceState::parse("Running"), None);
}

fn demo_project(profile_target: &str) -> Project {
    Project {
        key: String::new(),
        name: "Demo".into(),
        repository: "https://git.test/demo.git".into(),
        default_ref: "main".into(),
        profile_target: profile_target.into(),
        trust_tracked_envrc: false,
        environment: ProjectEnvironment::Image { image: "registry.test/demo:dev".into() },
        resources: Resources {
            requests: ResourcePair { cpu: "100m".into(), memory: "128Mi".into() },
            limits: ResourcePair { cpu: "1".into(), memory: "1Gi".into() },
        },
    }
}

#[test]
fn rejects_unsafe_environment_profile_target() {
    let entries = vec![("demo".to_string(), demo_project("../secret"))];
    assert!(matches!(
        validate_projects(entries),
        Err(ConfigError::ProfileTargetInvalid { key }) if key == "demo"
    ));
    let accepted = validate_projects(vec![("demo".to_string(), demo_project(".envrc"))]).unwrap();
    assert_eq!(accepted[0].1.key, "demo");
}

fn stored_workspace() -> Workspace {
    Workspace {
        id: "wrk_1".into(),
        project_key: "demo".into(),
        git_ref: "main".into(),
        owner: "dev".into(),
        state: WorkspaceState::Provisioning,
        service_name: "workspace-one".into(),
        preview_key: "one".into(),
        password: "p".into(),
        runtime_token: "t".into(),
        upstream_environment: "{}".into(),
        image_ref: "image:dev".into(),
        image_digest: None,
        last_activity: String::new(),
        error: None,
    }
}

#[test]
fn duplicate_create_is_idempotent_but_not_mutable() {
    let existing = stored_workspace();
    assert_eq!(check_duplicate(&existing, &stored_workspace()), Ok(()));
    let mut changed = stored_workspace();
    changed.git_ref = "other".into();
    assert_eq!(check_duplicate(&existing, &changed), Err(StoreError::ImmutableConflict));
    let mut deleted = stored_workspace();
    deleted.state = WorkspaceState::Deleted;
    assert_eq!(check_duplicate(&deleted, &stored_workspace()), Err(StoreError::AlreadyDeleted));
}

#[test]
fn pod_is_ephemeral_and_hardened() {
    let mut config = config();
    config.opencode.central_url = "x".into();
    config.lifecycle = LifecycleConfig {
        suspend_after_idle_seconds: 3600,
        ready_timeout_seconds: 30,
        poll_seconds: 30,
        termination_grace_seconds: 180,
    };
    let mut workspace = stored_workspace();
    workspace.service_name = "workspace-a".into();
    workspace.preview_key = "a".into();
    workspace.password = "secret".into();
    workspace.runtime_token = "token".into();
    workspace.upstream_environment = r#"{"OPENCODE_AUTH_CONTENT":"auth-json"}"#.into();
    workspace.image_ref = "demo:dev".into();
    let mut project = demo_project(".envrc");
    project.key = "demo".into();
    project.repository = "https://git/demo".into();
    let pod = pod_spec(&config, &workspace, &project, true);

    assert!(pod
        .volumes
        .iter()
        .all(|volume| matches!(volume.source, VolumeSource::EmptyDir | VolumeSource::Secret { .. })));
    assert!(!pod.automount_service_account_token);
    assert_eq!(pod.fs_group, 2000);
    assert_eq!(pod.seccomp_profile, "RuntimeDefault");
    for container in pod.init_containers.iter().chain(pod.containers.iter()) {
        assert!(!container.allow_privilege_escalation);
        assert_eq!(container.drop_capabilities, vec!["ALL"]);
    }
    assert!(!format!("{pod:?}").contains("persistentVolumeClaim"));
    assert!(pod.volumes.iter().any(|volume| volume.name == "env-profile"));

    let init = &pod.init_containers;
    assert_eq!(init[0].name, "runtime-inject");
    assert_eq!(init[1].name, "checkout");
    let checkout = format!("{:?}", init[1]);
    assert!(checkout.contains("/opt/opencode/bin/supervisor restore"));
    assert!(checkout.contains("checkpoints/latest/blob"));
    assert!(checkout.contains("Authorization: Bearer"));
    assert!(!checkout.contains("CHECKPOINT_HEAD"));
    assert!(init[1].volume_mounts.iter().any(|mount| mount.mount_path == "/opt/opencode"));

    let containers = &pod.containers;
    assert_eq!(containers[0].command, vec!["/opt/opencode/bin/supervisor"]);
    let main = format!("{:?}", containers[0]);
    for required in [
        "OPENCODE_AUTH_CONTENT",
        "OPENCODE_GATEWAY_URL",
        "OPENCODE_GATEWAY_TOKEN",
        "OPENCODE_BASE_DOMAIN",
        "OPENCODE_SUPERVISOR_ENDPOINT",
        "OPENCODE_CHECKPOINT_ENDPOINT",
        "SUPERVISOR_CONTROL_TOKEN_FILE",
        "CHECKPOINT_SIDECAR_URL",
        "CHECKPOINT_CONTROL_TOKEN_FILE",
    ] {
        assert!(main.contains(required), "missing {required}");
    }
    assert!(main.contains("http://127.0.0.1:4097"));
    assert!(main.contains("http://127.0.0.1:4098/checkpoint"));
    assert!(main.contains("opencode-auth-content"));
    assert_eq!(containers[0].readiness_probe.as_ref().unwrap().port, 4096);
    assert!(!main.contains("auth-json"));
    let auth = containers[0].env.iter().find(|var| var.name == "OPENCODE_AUTH_CONTENT").unwrap();
    assert!(matches!(&auth.value, EnvValue::SecretKey { secret_name, key } if secret_name == "runtime-a" && key == "opencode-auth-content"));

    assert_eq!(containers.len(), 1);
    assert_eq!(init[2].command, vec!["/opt/opencode/bin/supervisor", "sidecar"]);
    assert_eq!(init[2].restart_policy.as_deref(), Some("Always"));
    let sidecar = format!("{:?}", init[2]);
    for required in [
        "CHECKPOINT_LISTEN",
        "127.0.0.1:4098",
        "CHECKPOINT_CONTROL_TOKEN_FILE",
        "WORKSPACE_RUNTIME_TOKEN_FILE",
        "GATEWAY_URL",
        "/run/opencode/checkpoints",
    ] {
        assert!(sidecar.contains(required), "missing {required}");
    }
    assert_eq!(auth_content(&workspace.upstream_environment).unwrap(), "auth-json");
}

#[test]
fn pod_without_profile_has_no_profile_volume() {
    let pod = pod_spec(&config(), &stored_workspace(), &demo_project(".envrc"), false);
    assert_eq!(pod.volumes.len(), 4);
    assert!(pod.volumes.iter().all(|volume| volume.name != "env-profile"));
    assert_eq!(pod.containers[0].volume_mounts.len(), 4);
    assert!(matches!(pod.containers[0].env[17].value, EnvValue::Null));
    assert_eq!(pod.name, "sandbox-one");
    assert_eq!(pod.termination_grace_period_seconds, 180);
}

fn workspace_status(code: Option<i32>) -> Vec<ContainerStatus> {
    vec![ContainerStatus { name: "workspace".into(), image_id: "demo".into(), terminated_exit_code: code }]
}

#[test]
fn deletion_waits_for_the_pod_and_reports_a_failed_supervisor() {
    assert_eq!(deletion_verdict(None, true), DeletionVerdict::Gone);
    assert_eq!(deletion_verdict(Some(&workspace_status(None)), false), DeletionVerdict::Wait);
    assert_eq!(deletion_verdict(Some(&workspace_status(Some(0))), false), DeletionVerdict::Wait);
    assert_eq!(deletion_verdict(Some(&workspace_status(None)), true), DeletionVerdict::TimedOut);
    assert_eq!(
        deletion_verdict(Some(&workspace_status(Some(3))), true),
        DeletionVerdict::SupervisorFailed { exit_code: 3 }
    );
}

#[test]
fn suspension_keeps_the_service_and_secret() {
    let suspend = teardown(false);
    assert!(suspend.pod && !suspend.service && !suspend.runtime_secret);
    let delete = teardown(true);
    assert!(delete.pod && delete.service && delete.runtime_secret);
}

#[test]
fn performs_directory_scoped_create_workspace_and_warp() {
    let spec = LaunchSpec {
        project_key: "demo",
        git_ref: "feature/test",
        owner: "dev@example.test",
        session_name: "Test session",
    };
    let mut flow = LaunchFlow::new(&spec);
    let mut calls: Vec<(String, CentralRequest)> = Vec::new();
    let mut answers = vec!["ses_1", "wrk_1", ""].into_iter();
    while let Some(request) = flow.request() {
        calls.push((request.path().to_string(), request));
        flow.answered(answers.next().unwrap().to_string());
    }
    assert_eq!(flow.stage, LaunchStage::Done);
    assert_eq!(flow.session_id, "ses_1");
    assert_eq!(flow.workspace_id, "wrk_1");
    assert_eq!(calls.len(), 3);
    assert_eq!(calls[0].0, "session");
    assert!(matches!(&calls[0].1, CentralRequest::CreateSession { directory, title } if directory == "/catalog/demo" && title == "Test session"));
    assert_eq!(calls[1].0, "experimental/workspace");
    assert!(matches!(&calls[1].1, CentralRequest::CreateWorkspace { branch, project_key, owner, .. }
        if branch == "feature/test" && project_key == "demo" && owner == "dev@example.test"));
    assert_eq!(calls[2].0, "experimental/workspace/warp");
    assert!(matches!(&calls[2].1, CentralRequest::Warp { workspace_id, session_id, .. } if workspace_id == "wrk_1" && session_id == "ses_1"));
}

#[test]
fn preview_request_headers_are_split_trimmed_and_checked() {
    let headers =
        request_headers(b"GET / HTTP/1.1\r\nHost: a-3000.test.invalid\r\nX-Forwarded-User:  dev \r\n\r\nbody").unwrap();
    assert_eq!(
        headers,
        vec![
            ("host".to_string(), "a-3000.test.invalid".to_string()),
            ("x-forwarded-user".to_string(), "dev".to_string())
        ]
    );
    assert_eq!(request_headers(b"GET / HTTP/1.1\r\n\r\n"), Ok(vec![]));
    assert_eq!(request_headers(b"GET / HTTP/1.1\r\nHost: x\r\n"), Err(RequestHeaderError::Incomplete));
    assert_eq!(request_headers(b"GET /\r\nno colon\r\n\r\n"), Err(RequestHeaderError::Malformed));
    assert_eq!(request_headers(b"GET /\r\nbad name: x\r\n\r\n"), Err(RequestHeaderError::InvalidName));
    assert_eq!(request_headers(b"GET /\r\nx: a\x01b\r\n\r\n"), Err(RequestHeaderError::InvalidValue));
    assert_eq!(request_headers(b"\xff\r\n\r\n"), Err(RequestHeaderError::NotUtf8));
}

#[test]
fn env_profile_record_holds_the_digest_not_the_profile() {
    let record = env_profile_record("demo", "dev", b"export A=1\n").unwrap();
    assert_eq!(record.project_key, "demo");
    assert_eq!(record.owner, "dev");
    assert_eq!(record.sha256, sha256_hex(b"export A=1\n").into_iter().collect::<String>());
    assert!(!format!("{record:?}").contains("export"));
    let empty = env_profile_record("demo", "dev", b"").unwrap_err();
    assert_eq!(empty.status, 400);
    assert!(env_profile_record("demo", "dev", b"a\0b").is_err());
    assert!(env_profile_record("demo", "dev", b"\xff").is_err());
}

fn run_teardown(plan_delete: bool, results: &[StepResult]) -> (Vec<TeardownStage>, TeardownStage) {
    let mut flow = TeardownFlow::new(teardown(plan_delete));
    let mut seen = Vec::new();
    for result in results {
        if flow.finished() {
            break;
        }
        seen.push(flow.stage);
        flow.advance(*result);
    }
    (seen, flow.stage)
}

#[test]
fn suspension_checkpoints_before_deleting_the_pod() {
    let (steps, end) = run_teardown(false, &[StepResult::Succeeded, StepResult::Succeeded, StepResult::Succeeded, StepResult::Succeeded]);
    assert_eq!(
        steps,
        vec![TeardownStage::LookUpPod, TeardownStage::CheckpointPod, TeardownStage::DeletePod, TeardownStage::AwaitPodGone]
    );
    assert_eq!(end, TeardownStage::Done);
    let (steps, end) = run_teardown(false, &[StepResult::Succeeded, StepResult::Failed, StepResult::Succeeded]);
    assert_eq!(steps, vec![TeardownStage::LookUpPod, TeardownStage::CheckpointPod]);
    assert_eq!(end, TeardownStage::Failed);
    let (steps, end) = run_teardown(false, &[StepResult::Absent]);
    assert_eq!(steps, vec![TeardownStage::LookUpPod]);
    assert_eq!(end, TeardownStage::Done);
    let (steps, end) = run_teardown(true, &[StepResult::Succeeded, StepResult::Succeeded, StepResult::Succeeded, StepResult::Succeeded, StepResult::Absent, StepResult::Succeeded]);
    assert_eq!(steps[4..], [TeardownStage::DeleteService, TeardownStage::DeleteRuntimeSecret]);
    assert_eq!(end, TeardownStage::Done);
}

#[test]
fn gateway_errors_carry_their_messages() {
    assert_eq!(UploadError::BundleShaMismatch.message(), "checkpoint bundle SHA-256 mismatch");
    assert_eq!(K8sError::MissingAuthContent.message(), "upstream environment omitted OPENCODE_AUTH_CONTENT");
    assert_eq!(CentralError::UrlInvalid.message(), "opencode.centralUrl is invalid");
    assert_eq!(RequestHeaderError::Malformed.message(), "malformed request header");
    assert_eq!(AuthError::EmptyToken.message(), "auth.internalTokenFile must not be empty");
    assert_eq!(
        StoreError::InvalidTransition { from: WorkspaceState::Deleted, to: WorkspaceState::Running }.message(),
        "invalid workspace transition deleted -> running"
    );
    assert_eq!(
        ConfigError::ProfileTargetInvalid { key: "demo".into() }.message(),
        "project demo profileTarget must be .envrc or .env"
    );
    assert_eq!(ConfigError::UrlNotHttp { name: "centralUrl".into() }.message(), "centralUrl must be an HTTP URL");
}

#[test]
fn header_names_are_lowercased_tokens() {
    assert_eq!(
        request_headers(b"GET /\r\nX-Custom_Name~1: v\r\n\r\n").unwrap(),
        vec![("x-custom_name~1".to_string(), "v".to_string())]
    );
    assert_eq!(request_headers(b"GET /\r\nna(me: v\r\n\r\n"), Err(RequestHeaderError::InvalidName));
    assert_eq!(request_headers(b"GET /\r\n: v\r\n\r\n"), Err(RequestHeaderError::InvalidName));
}
