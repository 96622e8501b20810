use opencode_sandbox::headers::Headers;
use opencode_sandbox::supervisor::checkpoint::{
    append_section, check_capture_consistency, check_fetched_refs, check_restore_inputs,
    check_restored_state, checkout_args, checkpoint_metadata, checkpoint_names, ensure_new_stash,
    ensure_repo, nonce, octal_bytes, stash_entries, restore_names, snapshot_state,
    stash_drop_target, text, untracked_paths, validate_workspace_id, CheckpointError,
    UntrackedFile, checkpoint_oid, ensure_output_outside, StateSnapshot,
};
use opencode_sandbox::supervisor::cli::{optional_secret, secret, SecretError};
use opencode_sandbox::supervisor::sidecar::{upload_target, upload_url, validate, SidecarConfig, SidecarError};
use opencode_sandbox::supervisor::checkpoint::CheckpointError as GitCheckpointError;
use opencode_sandbox::supervisor::supervisor::{
    assess_health, authorized, check_version_output, ensure_executable, final_checkpoint_target,
    listen_ip_allowed, parse_version, validate_config, Binary, FileFacts, HealthError,
    HealthMonitor, HealthVerdict, SocketIp, SupervisorConfig, SupervisorError,
    VersionCheckError,
};
use opencode_sandbox::supervisor::PINNED_OPENCODE_VERSION;
use std::path::PathBuf;

#[test]
fn parses_supported_version_outputs() {
    assert_eq!(parse_version("1.18.3\n").as_deref(), Some("1.18.3"));
    assert_eq!(parse_version("opencode v1.18.3").as_deref(), Some("1.18.3"));
    assert_eq!(parse_version("development").as_deref(), None);
}

#[test]
fn version_needs_three_numeric_pieces() {
    assert_eq!(parse_version("1.18").as_deref(), None);
    assert_eq!(parse_version("1..3 2.0.1").as_deref(), Some("2.0.1"));
    assert_eq!(parse_version("vv10.0.0-beta 3.4.5").as_deref(), Some("3.4.5"));
    assert_eq!(parse_version("  \t v0.0.7\t").as_deref(), Some("0.0.7"));
}

#[test]
fn restricts_control_listener_to_loopback_or_pod_interfaces() {
    assert!(listen_ip_allowed(Some(SocketIp::V4 { a: 127, b: 0, c: 0, d: 1 })));
    assert!(listen_ip_allowed(Some(SocketIp::V4 { a: 127, b: 9, c: 9, d: 9 })));
    assert!(listen_ip_allowed(Some(SocketIp::V4 { a: 0, b: 0, c: 0, d: 0 })));
    assert!(!listen_ip_allowed(Some(SocketIp::V4 { a: 10, b: 0, c: 0, d: 8 })));
    assert!(!listen_ip_allowed(Some(SocketIp::V6)));
    assert!(!listen_ip_allowed(None));
}

fn supervisor_config() -> SupervisorConfig {
    SupervisorConfig { control_token: "token".into(), ..SupervisorConfig::default() }
}

const EXECUTABLE: Option<FileFacts> = Some(FileFacts { is_file: true, mode: 0o100755 });
const LOOPBACK: Option<SocketIp> = Some(SocketIp::V4 { a: 127, b: 0, c: 0, d: 1 });

#[test]
fn default_configuration_is_pinned_and_loopback() {
    let config = SupervisorConfig::default();
    assert_eq!(config.expected_version, PINNED_OPENCODE_VERSION);
    assert_eq!(config.listen, "127.0.0.1:4097");
    assert_eq!(config.port, 4096);
    assert_eq!(config.workspace, PathBuf::from("/workspace"));
    assert_eq!(config.startup_timeout, std::time::Duration::from_secs(60));
}

#[test]
fn supervisor_configuration_checks_in_order() {
    let config = SupervisorConfig::default();
    assert_eq!(validate_config(&config, true, EXECUTABLE, EXECUTABLE, LOOPBACK), Err(SupervisorError::ControlTokenRequired));
    let config = supervisor_config();
    assert_eq!(validate_config(&config, true, EXECUTABLE, EXECUTABLE, LOOPBACK), Ok(()));
    assert_eq!(validate_config(&config, false, EXECUTABLE, EXECUTABLE, LOOPBACK), Err(SupervisorError::WorkspaceMissing));
    assert_eq!(
        validate_config(&config, true, None, EXECUTABLE, LOOPBACK),
        Err(SupervisorError::BinaryUnreadable { binary: Binary::OpenCode })
    );
    assert_eq!(
        validate_config(&config, true, EXECUTABLE, Some(FileFacts { is_file: true, mode: 0o644 }), LOOPBACK),
        Err(SupervisorError::BinaryNotExecutable { binary: Binary::Direnv })
    );
    assert_eq!(validate_config(&config, true, EXECUTABLE, EXECUTABLE, Some(SocketIp::V6)), Err(SupervisorError::ListenNotAllowed));
    let mut other = supervisor_config();
    other.expected_version = "1.18.4".into();
    assert_eq!(validate_config(&other, true, EXECUTABLE, EXECUTABLE, LOOPBACK), Err(SupervisorError::VersionNotPinned));
}

#[test]
fn checkpoint_sidecar_url_must_be_plain_loopback_http() {
    let mut config = supervisor_config();
    config.checkpoint_url = Some("http://127.0.0.1:4098/checkpoint".into());
    assert_eq!(validate_config(&config, true, EXECUTABLE, EXECUTABLE, LOOPBACK), Err(SupervisorError::CheckpointPairing));
    config.checkpoint_token = Some("t".into());
    assert_eq!(validate_config(&config, true, EXECUTABLE, EXECUTABLE, LOOPBACK), Ok(()));
    config.checkpoint_url = Some("https://127.0.0.1:4098/checkpoint".into());
    assert_eq!(validate_config(&config, true, EXECUTABLE, EXECUTABLE, LOOPBACK), Err(SupervisorError::CheckpointUrlNotLoopback));
    config.checkpoint_url = Some("http://user@127.0.0.1:4098/".into());
    assert_eq!(validate_config(&config, true, EXECUTABLE, EXECUTABLE, LOOPBACK), Err(SupervisorError::CheckpointUrlNotLoopback));
    config.checkpoint_url = Some("not a url".into());
    assert_eq!(validate_config(&config, true, EXECUTABLE, EXECUTABLE, LOOPBACK), Err(SupervisorError::CheckpointUrlInvalid));
}

#[test]
fn executables_need_a_file_with_an_execute_bit() {
    assert_eq!(ensure_executable(Some(FileFacts { is_file: true, mode: 0o001 }), Binary::OpenCode), Ok(()));
    assert_eq!(
        ensure_executable(Some(FileFacts { is_file: false, mode: 0o755 }), Binary::OpenCode),
        Err(SupervisorError::BinaryNotExecutable { binary: Binary::OpenCode })
    );
}

#[test]
fn final_checkpoint_needs_the_token() {
    let mut config = supervisor_config();
    assert_eq!(final_checkpoint_target(&config), Ok(None));
    config.checkpoint_url = Some("http://127.0.0.1:4098/checkpoint".into());
    assert_eq!(final_checkpoint_target(&config), Err(SupervisorError::CheckpointTokenMissing));
    config.checkpoint_token = Some("tok".into());
    assert_eq!(
        final_checkpoint_target(&config),
        Ok(Some(("http://127.0.0.1:4098/checkpoint".to_string(), "tok".to_string())))
    );
}

fn bearer(value: &str) -> Headers {
    let mut h = Headers::new();
    h.push("authorization".into(), Some(value.into()));
    h
}

#[test]
fn control_requests_need_the_exact_bearer_token() {
    assert!(authorized(&bearer("Bearer test-control-token"), "test-control-token"));
    assert!(!authorized(&bearer("Bearer test-control-toke"), "test-control-token"));
    assert!(!authorized(&bearer("bearer test-control-token"), "test-control-token"));
    assert!(!authorized(&Headers::new(), "test-control-token"));
}

#[test]
fn binary_version_check() {
    assert!(check_version_output(true, b"opencode v1.18.3\n", b"", "1.18.3").is_ok());
    match check_version_output(true, b"opencode 1.17.0", b"", "1.18.3") {
        Err(VersionCheckError::Mismatch { observed }) => assert_eq!(observed.as_deref(), Some("1.17.0")),
        other => panic!("unexpected {other:?}"),
    }
    match check_version_output(false, b"", b" boom \n", "1.18.3") {
        Err(VersionCheckError::Failed { stderr }) => assert_eq!(stderr, "boom"),
        other => panic!("unexpected {other:?}"),
    }
}

#[test]
fn health_answers_are_assessed() {
    assert_eq!(assess_health(true, None, Some("1.18.3".into()), "1.18.3").unwrap(), "1.18.3");
    assert!(matches!(assess_health(false, None, Some("1.18.3".into()), "1.18.3"), Err(HealthError::BadStatus)));
    assert!(matches!(assess_health(true, Some(false), Some("1.18.3".into()), "1.18.3"), Err(HealthError::Unhealthy)));
    assert!(matches!(assess_health(true, Some(true), None, "1.18.3"), Err(HealthError::MissingVersion)));
    assert!(matches!(
        assess_health(true, Some(true), Some("v1.19.0".into()), "1.18.3"),
        Err(HealthError::VersionMismatch { observed }) if observed == "1.19.0"
    ));
}

#[test]
fn ready_child_restarts_on_fifth_failure() {
    let mut monitor = HealthMonitor::new();
    assert_eq!(monitor.observe(&Ok("1.18.3".into()), false), HealthVerdict::Continue);
    for _ in 0..4 {
        assert_eq!(monitor.observe(&Err(HealthError::RequestFailed), true), HealthVerdict::Continue);
    }
    assert_eq!(monitor.observe(&Err(HealthError::RequestFailed), false), HealthVerdict::Restart);
    assert_eq!(monitor.observe(&Ok("1.18.3".into()), false), HealthVerdict::Continue);
    assert_eq!(monitor.failed_checks, 0);
}

#[test]
fn unready_child_waits_for_startup_timeout() {
    let mut monitor = HealthMonitor::new();
    for _ in 0..10 {
        assert_eq!(monitor.observe(&Err(HealthError::RequestFailed), false), HealthVerdict::Continue);
    }
    assert_eq!(monitor.observe(&Err(HealthError::RequestFailed), true), HealthVerdict::Restart);
}

#[test]
fn version_mismatch_is_fatal() {
    let mut monitor = HealthMonitor::new();
    let mismatch = Err(HealthError::VersionMismatch { observed: "1.0.0".into() });
    assert_eq!(monitor.observe(&mismatch, false), HealthVerdict::Fail);
}

#[test]
fn failure_count_saturates() {
    let mut monitor = HealthMonitor { failed_checks: 255, ever_ready: true };
    assert_eq!(monitor.observe(&Err(HealthError::BadStatus), false), HealthVerdict::Restart);
    assert_eq!(monitor.failed_checks, 255);
}

#[test]
fn secrets_by_value_or_file() {
    assert_eq!(optional_secret(Some("v".into()), None), Ok(Some("v".to_string())));
    assert_eq!(optional_secret(None, Some("  file-secret\n".into())), Ok(Some("file-secret".to_string())));
    assert_eq!(optional_secret(None, None), Ok(None));
    assert_eq!(optional_secret(Some("v".into()), Some("f".into())), Err(SecretError::Both));
    assert_eq!(optional_secret(None, Some(" \n".into())), Err(SecretError::Empty));
    assert_eq!(optional_secret(Some(String::new()), None), Err(SecretError::Empty));
    assert_eq!(secret(None, None), Err(SecretError::Missing));
    assert_eq!(secret(Some("x".into()), None), Ok("x".to_string()));
}

fn sidecar_config() -> SidecarConfig {
    SidecarConfig {
        workspace: PathBuf::from("/workspace"),
        workspace_id: "wrk_upload".into(),
        output_dir: PathBuf::from("/tmp/opencode-checkpoints"),
        listen: "127.0.0.1:4098".into(),
        control_token: "control".into(),
        gateway_url: "http://gateway:8080".into(),
        gateway_token: "gateway-secret".into(),
    }
}

#[test]
fn sidecar_configuration_checks() {
    assert_eq!(validate(&sidecar_config(), true), Ok(()));
    assert_eq!(validate(&sidecar_config(), false), Err(SidecarError::WorkspaceMissing));
    let mut c = sidecar_config();
    c.listen = "0.0.0.0:4098".into();
    assert_eq!(validate(&c, true), Err(SidecarError::ListenNotLoopback));
    let mut c = sidecar_config();
    c.gateway_url = "gateway without scheme".into();
    assert_eq!(validate(&c, true), Err(SidecarError::InvalidGatewayUrl));
    let mut c = sidecar_config();
    c.gateway_token = String::new();
    assert_eq!(validate(&c, true), Err(SidecarError::GatewayTokenRequired));
}

#[test]
fn upload_goes_to_the_workspace_checkpoint_endpoint() {
    assert_eq!(upload_url("http://gateway:8080//", "wrk_upload"), "http://gateway:8080/v1/workspaces/wrk_upload/checkpoints");
    assert_eq!(upload_target(b"{\"a\":1}", "http://g", "w").unwrap(), "http://g/v1/workspaces/w/checkpoints");
    assert_eq!(upload_target(b"{\"a\":\"\n\"}", "http://g", "w"), Err(SidecarError::MetadataNotHeader));
}

#[test]
fn workspace_ids_for_checkpoints() {
    assert_eq!(validate_workspace_id("wrk_test-1"), Ok(()));
    assert_eq!(validate_workspace_id(""), Err(CheckpointError::EmptyWorkspaceId));
    assert_eq!(validate_workspace_id("wrk/1"), Err(CheckpointError::InvalidWorkspaceId));
    assert_eq!(validate_workspace_id("wrké"), Err(CheckpointError::InvalidWorkspaceId));
}

#[test]
fn git_text_is_lossy_and_trimmed() {
    assert_eq!(text(b"  abc\n"), "abc");
    assert_eq!(text(b"a\xffb"), "a\u{fffd}b");
    assert_eq!(ensure_repo(b"true\n"), Ok(()));
    assert_eq!(ensure_repo(b"false\n"), Err(CheckpointError::NotWorktree));
}

#[test]
fn stash_list_is_parsed_in_pairs() {
    let output = b"1111\0opencode checkpoint wrk\0\0\02222\0On main: personal work\0";
    let entries = stash_entries(output);
    assert_eq!(
        entries,
        vec![
            ("1111".to_string(), "opencode checkpoint wrk".to_string()),
            ("2222".to_string(), "On main: personal work".to_string()),
        ]
    );
    assert!(stash_entries(b"").is_empty());
    assert_eq!(ensure_new_stash(&entries, "3333"), Ok(()));
    assert_eq!(ensure_new_stash(&entries, "2222"), Err(CheckpointError::NoNewStash));
}

#[test]
fn stash_drop_needs_a_unique_entry() {
    let entries = vec![
        ("aaaa".to_string(), "x".to_string()),
        ("bbbb".to_string(), "y".to_string()),
        ("aaaa".to_string(), "z".to_string()),
    ];
    assert_eq!(stash_drop_target(&entries, "bbbb").unwrap(), "stash@{1}");
    assert_eq!(stash_drop_target(&entries, "aaaa"), Err(CheckpointError::StashNotUnique));
    assert_eq!(stash_drop_target(&entries, "cccc"), Err(CheckpointError::StashNotUnique));
}

#[test]
fn checkpoint_names_follow_the_nonce() {
    let n = nonce(42, 1_700_000_000_123);
    assert_eq!(n, "42-1700000000123");
    assert_eq!(nonce(7, -5), "7--5");
    assert_eq!(nonce(1, i64::MIN), "1--9223372036854775808");
    let names = checkpoint_names("wrk_1", &n);
    assert_eq!(names.bundle_ref, "refs/opencode/checkpoints/wrk_1-42-1700000000123");
    assert_eq!(names.head_ref, "refs/opencode/heads/wrk_1-42-1700000000123");
    assert_eq!(names.bundle_file, "checkpoint-42-1700000000123.bundle");
    assert_eq!(names.metadata_file, "checkpoint-42-1700000000123.json");
    assert_eq!(names.stash_message, "opencode checkpoint wrk_1");
}

#[test]
fn sections_are_length_prefixed_big_endian() {
    let mut bytes = vec![9u8];
    append_section(&mut bytes, b"ab", b"xyz");
    assert_eq!(bytes, vec![9, 0, 0, 0, 0, 0, 0, 0, 2, b'a', b'b', 0, 0, 0, 0, 0, 0, 0, 3, b'x', b'y', b'z']);
}

fn read_section(b: &[u8]) -> (Vec<u8>, Vec<u8>, Vec<u8>) {
    let n = u64::from_be_bytes(b[0..8].try_into().unwrap()) as usize;
    let name = b[8..8 + n].to_vec();
    let m = u64::from_be_bytes(b[8 + n..16 + n].try_into().unwrap()) as usize;
    (name, b[16 + n..16 + n + m].to_vec(), b[16 + n + m..].to_vec())
}

#[test]
fn snapshot_sections_read_back() {
    let files = vec![UntrackedFile { path: b"new-dir/untracked.bin".to_vec(), mode: 0o100644, content: b"untracked\0bytes\n".to_vec() }];
    let s = snapshot_state(b"? new-dir/untracked.bin\0".to_vec(), b"cached", b"", &files);
    let (name, value, rest) = read_section(&s.bytes);
    assert_eq!((name.as_slice(), value.as_slice()), (&b"status"[..], &b"? new-dir/untracked.bin\0"[..]));
    let (name, value, rest) = read_section(&rest);
    assert_eq!((name.as_slice(), value.as_slice()), (&b"cached-diff"[..], &b"cached"[..]));
    let (name, value, rest) = read_section(&rest);
    assert_eq!((name.as_slice(), value.as_slice()), (&b"worktree-diff"[..], &b""[..]));
    let (name, value, rest) = read_section(&rest);
    assert_eq!((name.as_slice(), value.as_slice()), (&b"path"[..], &b"new-dir/untracked.bin"[..]));
    let (name, value, rest) = read_section(&rest);
    assert_eq!((name.as_slice(), value.as_slice()), (&b"mode"[..], &b"644"[..]));
    let (name, value, rest) = read_section(&rest);
    assert_eq!((name.as_slice(), value.as_slice()), (&b"content"[..], &b"untracked\0bytes\n"[..]));
    assert!(rest.is_empty());
    assert_eq!(octal_bytes(0o4755), b"4755".to_vec());
    assert_eq!(octal_bytes(0), b"0".to_vec());
}

#[test]
fn untracked_paths_skip_empty_pieces() {
    let paths = untracked_paths(b"a.txt\0\0dir/b.bin\0");
    assert_eq!(paths, vec![b"a.txt".to_vec(), b"dir/b.bin".to_vec()]);
}

#[test]
fn capture_must_leave_the_repository_unchanged() {
    let before = snapshot_state(b"M x\0".to_vec(), b"d", b"", &vec![]);
    let same = snapshot_state(b"M x\0".to_vec(), b"d", b"", &vec![]);
    let changed = snapshot_state(b"M x\0".to_vec(), b"e", b"", &vec![]);
    let moved = snapshot_state(b"M y\0".to_vec(), b"d", b"", &vec![]);
    let stash = vec![("1".to_string(), "s".to_string())];
    assert_eq!(check_capture_consistency(&before, &same, &stash, &stash), Ok(()));
    assert_eq!(check_capture_consistency(&before, &moved, &stash, &stash), Err(CheckpointError::StatusChanged));
    assert_eq!(check_capture_consistency(&before, &changed, &stash, &stash), Err(CheckpointError::StateChanged));
    assert_eq!(check_capture_consistency(&before, &same, &stash, &vec![]), Err(CheckpointError::StashChanged));
}

#[test]
fn restore_accepts_the_captured_checkpoint() {
    let before = snapshot_state(b"M x\0".to_vec(), b"d", b"w", &vec![]);
    let names = checkpoint_names("wrk_test", "1-2");
    let bundle = b"git bundle bytes".to_vec();
    let metadata = checkpoint_metadata(
        "wrk_test",
        "2026-07-17T00:00:00.000Z".into(),
        "1111111111111111111111111111111111111111".into(),
        Some("main".into()),
        &before,
        &bundle,
        Some("2222222222222222222222222222222222222222".into()),
        &names,
    )
    .unwrap();
    assert!(metadata.has_changes);
    assert_eq!(metadata.format_version, 1);
    assert_eq!(metadata.bundle_ref, "refs/opencode/checkpoints/wrk_test-1-2");
    assert_eq!(metadata.status_sha256.len(), 64);
    assert_eq!(check_restore_inputs(&metadata, &bundle, b""), Ok(()));
    assert_eq!(check_restore_inputs(&metadata, b"not a bundle", b""), Err(CheckpointError::BundleMismatch));
    assert_eq!(check_restore_inputs(&metadata, &bundle, b"1 .M x\0"), Err(CheckpointError::DirtyCheckout));
    assert_eq!(check_restored_state(&metadata, &before), Ok(()));
    let other = snapshot_state(b"M x\0".to_vec(), b"d", b"changed", &vec![]);
    assert_eq!(check_restored_state(&metadata, &other), Err(CheckpointError::StateFingerprintMismatch));
    assert_eq!(
        check_fetched_refs(&metadata, b"2222222222222222222222222222222222222222\n", b"1111111111111111111111111111111111111111\n"),
        Ok(())
    );
    assert_eq!(check_fetched_refs(&metadata, b"3333\n", b"1111"), Err(CheckpointError::CheckpointOidMismatch));
    let mut unsupported = metadata.clone();
    unsupported.format_version = 2;
    assert_eq!(check_restore_inputs(&unsupported, &bundle, b""), Err(CheckpointError::UnsupportedFormat));
}

#[test]
fn restore_refs_and_checkout() {
    let before = snapshot_state(Vec::new(), b"", b"", &vec![]);
    let names = checkpoint_names("wrk", "9-9");
    let mut metadata =
        checkpoint_metadata("wrk", "t".into(), "abc".into(), None, &before, b"", Some("stash".into()), &names).unwrap();
    assert!(!metadata.has_changes);
    assert_eq!(metadata.checkpoint_oid, "abc");
    let restore = restore_names(&metadata, "5-6");
    assert_eq!(restore.checkpoint_ref, "refs/opencode/restore/checkpoint-5-6");
    assert_eq!(restore.checkpoint_refspec, "refs/opencode/checkpoints/wrk-9-9:refs/opencode/restore/checkpoint-5-6");
    assert_eq!(restore.head_refspec, "refs/opencode/heads/wrk-9-9:refs/opencode/restore/head-5-6");
    assert_eq!(checkout_args(&metadata), vec!["checkout", "--detach", "abc"]);
    metadata.branch = Some("main".into());
    assert_eq!(checkout_args(&metadata), vec!["checkout", "-B", "main", "abc"]);
}

use opencode_sandbox::supervisor::checkpoint::{rollback_commands, CaptureAction, CaptureStage, CaptureTransaction};

fn git_args(action: CaptureAction) -> Vec<String> {
    match action {
        CaptureAction::Git { args } => args,
        other => panic!("expected a git step, got {other:?}"),
    }
}

fn changed() -> StateSnapshot {
    snapshot_state(b"1 .M x\0".to_vec(), b"d", b"", &vec![])
}

fn clean() -> StateSnapshot {
    snapshot_state(Vec::new(), b"", b"", &vec![])
}

#[test]
fn capture_with_changes_runs_the_steps_in_order() {
    let names = checkpoint_names("wrk", "1-2");
    let mut t = CaptureTransaction::new(&names, &changed(), Some("stash-oid".into()), "head-oid".into(), "/out/checkpoint-1-2.bundle".into())
        .unwrap();
    assert_eq!(git_args(t.action()), vec!["update-ref", "refs/opencode/checkpoints/wrk-1-2", "stash-oid"]);
    t.advance(true, b"");
    assert_eq!(git_args(t.action()), vec!["update-ref", "refs/opencode/heads/wrk-1-2", "head-oid"]);
    t.advance(true, b"");
    assert_eq!(
        git_args(t.action()),
        vec!["bundle", "create", "/out/checkpoint-1-2.bundle", "refs/opencode/checkpoints/wrk-1-2", "refs/opencode/heads/wrk-1-2"]
    );
    t.advance(true, b"");
    assert_eq!(git_args(t.action()), vec!["stash", "apply", "--index", "stash-oid"]);
    t.advance(true, b"");
    assert!(matches!(t.action(), CaptureAction::ListStash));
    t.advance(true, b"other\0user work\0stash-oid\0opencode checkpoint wrk\0");
    assert_eq!(git_args(t.action()), vec!["stash", "drop", "stash@{1}"]);
    t.advance(true, b"");
    assert_eq!(git_args(t.action()), vec!["update-ref", "-d", "refs/opencode/checkpoints/wrk-1-2"]);
    t.advance(true, b"");
    assert_eq!(git_args(t.action()), vec!["update-ref", "-d", "refs/opencode/heads/wrk-1-2"]);
    t.advance(true, b"");
    assert_eq!(t.stage, CaptureStage::Done);
    assert!(matches!(t.action(), CaptureAction::Stop));
}

#[test]
fn capture_failure_after_the_stash_rolls_back() {
    let names = checkpoint_names("wrk", "1-2");
    let mut t = CaptureTransaction::new(&names, &changed(), Some("stash-oid".into()), "head-oid".into(), "b".into()).unwrap();
    t.advance(true, b"");
    t.advance(true, b"");
    t.advance(false, b"");
    assert_eq!(t.stage, CaptureStage::RolledBack);
    let (a, b, c) = rollback_commands(&t);
    assert_eq!(a, vec!["update-ref", "-d", "refs/opencode/checkpoints/wrk-1-2"]);
    assert_eq!(b, vec!["update-ref", "-d", "refs/opencode/heads/wrk-1-2"]);
    assert_eq!(c, vec!["stash", "apply", "--index", "stash-oid"]);

    let mut t = CaptureTransaction::new(&names, &changed(), Some("stash-oid".into()), "head-oid".into(), "b".into()).unwrap();
    for _ in 0..4 {
        t.advance(true, b"");
    }
    t.advance(true, b"stash-oid\0x\0stash-oid\0y\0");
    assert_eq!(t.stage, CaptureStage::RolledBack);
}

#[test]
fn clean_capture_always_removes_its_refs() {
    let names = checkpoint_names("wrk", "3-4");
    let mut t = CaptureTransaction::new(&names, &clean(), None, "head-oid".into(), "b".into()).unwrap();
    assert_eq!(git_args(t.action()), vec!["update-ref", "refs/opencode/checkpoints/wrk-3-4", "head-oid"]);
    t.advance(true, b"");
    t.advance(true, b"");
    t.advance(false, b"");
    assert_eq!(git_args(t.action()), vec!["update-ref", "-d", "refs/opencode/checkpoints/wrk-3-4"]);
    t.advance(true, b"");
    assert_eq!(git_args(t.action()), vec!["update-ref", "-d", "refs/opencode/heads/wrk-3-4"]);
    t.advance(true, b"");
    assert_eq!(t.stage, CaptureStage::Failed);

    let mut ok = CaptureTransaction::new(&names, &clean(), Some("ignored".into()), "h".into(), "b".into()).unwrap();
    assert_eq!(ok.checkpoint_oid, "h");
    for _ in 0..5 {
        ok.advance(true, b"");
    }
    assert_eq!(ok.stage, CaptureStage::Done);
}

use opencode_sandbox::supervisor::supervisor::{
    after_stop, health_status_code, on_event, termination_outcome, AfterStop, LoopDecision, LoopEvent,
    RuntimeStatus, StopReason,
};

#[test]
fn restart_requests_never_checkpoint_but_termination_does() {
    let restart = on_event(LoopEvent::RestartRequested);
    assert_eq!(restart, LoopDecision::StopChild { reason: StopReason::RestartRequested });
    assert_eq!(after_stop(StopReason::RestartRequested), AfterStop::StartNext);
    assert_eq!(after_stop(StopReason::Exited), AfterStop::StartNext);
    assert_eq!(after_stop(StopReason::HealthFailed), AfterStop::StartNext);
    assert_eq!(on_event(LoopEvent::TerminationSignal), LoopDecision::StopChild { reason: StopReason::Terminating });
    assert_eq!(after_stop(StopReason::Terminating), AfterStop::FinalCheckpoint);
    assert_eq!(on_event(LoopEvent::Health { verdict: HealthVerdict::Continue }), LoopDecision::KeepRunning);
    assert_eq!(on_event(LoopEvent::Health { verdict: HealthVerdict::Fail }), LoopDecision::Abort);
    assert_eq!(
        on_event(LoopEvent::Health { verdict: HealthVerdict::Restart }),
        LoopDecision::StopChild { reason: StopReason::HealthFailed }
    );
}

#[test]
fn failed_final_checkpoint_fails_the_exit() {
    assert!(termination_outcome(true).is_ok());
    assert!(termination_outcome(false).is_err());
}

#[test]
fn runtime_status_follows_the_child() {
    let mut status = RuntimeStatus::new("1.18.3".into());
    assert_eq!(health_status_code(&status), 503);
    status.child_started(42, 0);
    assert_eq!(status.child_pid, Some(42));
    status.health_checked(&Ok("1.18.3".into()), String::new());
    assert!(status.ready);
    assert_eq!(health_status_code(&status), 200);
    assert_eq!(status.observed_version.as_deref(), Some("1.18.3"));
    status.health_checked(&Err(HealthError::Unhealthy), "child reports unhealthy".into());
    assert!(!status.ready);
    assert_eq!(status.last_error.as_deref(), Some("child reports unhealthy"));
    status.child_stopped("authenticated restart request".into());
    assert!(!status.child_running);
    assert_eq!(status.child_pid, None);
    status.child_started(43, 1);
    assert_eq!(status.restart_count, 1);
    assert!(status.last_error.is_none());
}

#[test]
fn capture_with_changes_needs_its_stash() {
    let names = checkpoint_names("wrk", "1-2");
    assert!(CaptureTransaction::new(&names, &changed(), None, "h".into(), "b".into()).is_none());
    assert!(matches!(
        checkpoint_metadata("wrk", "t".into(), "h".into(), None, &changed(), b"", None, &names),
        Err(CheckpointError::MissingStash)
    ));
    assert_eq!(checkpoint_oid(&changed(), Some("s".into()), &"h".to_string()), Some("s".to_string()));
    assert_eq!(checkpoint_oid(&clean(), Some("s".into()), &"h".to_string()), Some("h".to_string()));
}

fn parts(path: &str) -> Vec<Vec<u8>> {
    let mut out = vec![b"/".to_vec()];
    out.extend(path.split('/').filter(|p| !p.is_empty()).map(|p| p.as_bytes().to_vec()));
    out
}

#[test]
fn checkpoint_output_must_be_outside_the_repository() {
    assert_eq!(ensure_output_outside(&parts("/work/repo/out"), &parts("/work/repo")), Err(CheckpointError::OutputInsideRepository));
    assert_eq!(ensure_output_outside(&parts("/work/repo"), &parts("/work/repo")), Err(CheckpointError::OutputInsideRepository));
    assert_eq!(ensure_output_outside(&parts("/work/repo-out"), &parts("/work/repo")), Ok(()));
    assert_eq!(ensure_output_outside(&parts("/run/out"), &parts("/work/repo")), Ok(()));
    assert_eq!(ensure_output_outside(&parts("/work"), &parts("/work/repo")), Ok(()));
}

#[test]
fn supervisor_errors_carry_their_messages() {
    assert_eq!(SupervisorError::ControlTokenRequired.message(), "supervisor control token is required");
    assert_eq!(
        SupervisorError::VersionNotPinned.message(),
        format!("expected version must equal crate pin {PINNED_OPENCODE_VERSION}")
    );
    assert_eq!(
        SupervisorError::BinaryNotExecutable { binary: Binary::Direnv }.message(),
        "injected direnv is not executable"
    );
    assert_eq!(SupervisorError::BinaryUnreadable { binary: Binary::OpenCode }.message(), "inspect injected OpenCode binary");
    assert_eq!(SidecarError::ControlTokenRequired.message(), "sidecar control token is required");
    assert!(GitCheckpointError::BundleMismatch.message().contains("SHA-256 mismatch"));
    assert_eq!(
        GitCheckpointError::OutputInsideRepository.message(),
        "checkpoint output directory must be outside the repository"
    );
    assert_eq!(SecretError::Missing.message("control token"), "control token is required");
    assert_eq!(SecretError::Empty.message("control token"), "control token must not be empty");
    assert_eq!(
        SecretError::Both.message("control token"),
        "specify control token by value or file, not both"
    );
    let mismatch = VersionCheckError::Mismatch { observed: None }.message("1.18.3");
    assert_eq!(mismatch, "injected OpenCode version mismatch: expected 1.18.3, observed unknown");
    assert_eq!(
        VersionCheckError::Failed { stderr: "boom".into() }.message("1.18.3"),
        "injected OpenCode --version failed: boom"
    );
    let health = HealthError::VersionMismatch { observed: "1.0.0".into() }.message("1.18.3", "200 OK");
    assert_eq!(health, "child OpenCode version mismatch: expected 1.18.3, observed 1.0.0");
    assert!(health.contains("version mismatch"));
    assert_eq!(HealthError::BadStatus.message("1.18.3", "503 Service Unavailable"), "child health returned 503 Service Unavailable");
}
