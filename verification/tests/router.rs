use opencode_sandbox::router::config::{Config, RouterEnvironment};
use opencode_sandbox::router::index::{lookup, pod_index_entry, rebuild_index, PodInfo, PodSummary};
use opencode_sandbox::router::proxy::{
    find_header_end, head_read, parse_host, route_request, HeadRead, RouteOutcome, BAD_REQUEST,
    PARTIAL_REQUEST,
};

#[test]
fn test_parse_host_valid() {
    let result = parse_host("5173-a1b2c3d4.sandbox.test").unwrap();
    assert_eq!(result.port, 5173);
    assert_eq!(result.sandbox_id, "a1b2c3d4");
}

#[test]
fn test_parse_host_port_8080() {
    let result = parse_host("8080-abc12345.example.com").unwrap();
    assert_eq!(result.port, 8080);
    assert_eq!(result.sandbox_id, "abc12345");
}

#[test]
fn test_parse_host_invalid_no_port() {
    assert!(parse_host("abc12345.example.com").is_none());
}

#[test]
fn test_parse_host_invalid_short_id() {
    assert!(parse_host("8080-abcd.example.com").is_none());
}

#[test]
fn test_parse_host_invalid_long_id() {
    assert!(parse_host("8080-abcdefgh1.example.com").is_none());
}

#[test]
fn test_parse_host_invalid_hex_chars() {
    assert!(parse_host("8080-xyzw1234.example.com").is_none());
}

#[test]
fn test_parse_host_max_port_digits() {
    let result = parse_host("65535-a1b2c3d4.test").unwrap();
    assert_eq!(result.port, 65535);
}

#[test]
fn test_parse_host_port_too_large() {
    // 7 digits exceeds the 1-5 digit constraint
    assert!(parse_host("1234567-a1b2c3d4.test").is_none());
}

#[test]
fn test_find_header_end() {
    let buf = b"GET / HTTP/1.1\r\nHost: test\r\n\r\n";
    assert_eq!(find_header_end(buf), Some(29));
}

#[test]
fn test_find_header_end_not_found() {
    let buf = b"GET / HTTP/1.1\r\nHost: test";
    assert!(find_header_end(buf).is_none());
}

#[test]
fn router_host_with_five_digit_port_above_u16_is_refused() {
    assert!(parse_host("65536-a1b2c3d4.test").is_none());
    assert!(parse_host("0-a1b2c3d4.test").is_some());
}

#[test]
fn router_host_round_trips_port_and_id() {
    let host = format!("{}-{}.{}", 443, "0f0f0f0f", "anything.example");
    let parsed = parse_host(&host).unwrap();
    assert_eq!(parsed.port, 443);
    assert_eq!(parsed.sandbox_id, "0f0f0f0f");
}

#[test]
fn header_end_is_the_first_blank_line() {
    let buf = b"A\r\n\r\nB\r\n\r\n";
    assert_eq!(find_header_end(buf), Some(4));
    assert!(find_header_end(b"\r\n\r").is_none());
    assert_eq!(find_header_end(b"\r\n\r\n"), Some(3));
}

#[test]
fn head_read_refuses_oversized_heads() {
    let buf = b"GET / HTTP/1.1\r\nHost: test\r\n\r\n";
    assert_eq!(head_read(buf, 10), HeadRead::TooLarge);
    assert_eq!(head_read(buf, 100), HeadRead::Complete { end: 29 });
    assert_eq!(head_read(b"GET /", 100), HeadRead::Incomplete);
}

fn pod(ip: &str, name: &str) -> PodInfo {
    PodInfo { pod_ip: ip.into(), namespace: "sandboxes".into(), name: name.into() }
}

#[test]
fn routes_by_host_header_to_indexed_pod() {
    let index = vec![("a1b2c3d4".to_string(), pod("10.0.0.5", "sb-a"))];
    let buf = b"GET / HTTP/1.1\r\nhOsT: 5173-a1b2c3d4.sandbox.test\r\n\r\n";
    match route_request(buf, &Some("sandbox.test".into()), &index) {
        RouteOutcome::Forward { pod, port } => {
            assert_eq!(port, 5173);
            assert_eq!(pod.pod_ip, "10.0.0.5");
        }
        other => panic!("unexpected outcome {other:?}"),
    }
}

#[test]
fn routing_answers_each_refusal() {
    let index = vec![("a1b2c3d4".to_string(), pod("10.0.0.5", "sb-a"))];
    let missing = b"GET / HTTP/1.1\r\nX: y\r\n\r\n";
    assert!(matches!(route_request(missing, &None, &index), RouteOutcome::Respond { response } if response == BAD_REQUEST));
    let partial = b"GET / HTTP/1.1\r\nHost: x";
    assert!(matches!(route_request(partial, &None, &index), RouteOutcome::Respond { response } if response == PARTIAL_REQUEST));
    let wrong_domain = b"GET / HTTP/1.1\r\nHost: 5173-a1b2c3d4.evil.test\r\n\r\n";
    assert!(matches!(route_request(wrong_domain, &Some("sandbox.test".into()), &index), RouteOutcome::Respond { .. }));
    let unknown = b"GET / HTTP/1.1\r\nHost: 5173-ffffffff.sandbox.test\r\n\r\n";
    assert!(matches!(route_request(unknown, &None, &index), RouteOutcome::NotFound));
    let garbage = b"\x00\x01\x02 nonsense\r\n\r\n";
    assert!(matches!(route_request(garbage, &None, &index), RouteOutcome::Drop));
}

fn summary(phase: &str, ip: Option<&str>, id: Option<&str>, name: &str) -> PodSummary {
    let mut labels = Vec::new();
    if let Some(id) = id {
        labels.push(("opencode.ai/sandbox-id".to_string(), id.to_string()));
    }
    PodSummary {
        phase: Some(phase.into()),
        pod_ip: ip.map(Into::into),
        labels,
        namespace: Some("sandboxes".into()),
        name: Some(name.into()),
    }
}

#[test]
fn index_keeps_only_running_labelled_pods_with_an_ip() {
    let key = "opencode.ai/sandbox-id";
    assert!(pod_index_entry(&summary("Running", Some("10.0.0.1"), Some("a1b2c3d4"), "a"), key).is_some());
    assert!(pod_index_entry(&summary("Pending", Some("10.0.0.1"), Some("a1b2c3d4"), "a"), key).is_none());
    assert!(pod_index_entry(&summary("Running", None, Some("a1b2c3d4"), "a"), key).is_none());
    assert!(pod_index_entry(&summary("Running", Some("10.0.0.1"), None, "a"), key).is_none());
}

#[test]
fn index_refresh_forgets_stale_entries() {
    let key = "opencode.ai/sandbox-id";
    let first = rebuild_index(&vec![summary("Running", Some("10.0.0.1"), Some("a1b2c3d4"), "a")], key);
    assert!(lookup(&first, &"a1b2c3d4".to_string()).is_some());
    let second = rebuild_index(&vec![summary("Running", Some("10.0.0.2"), Some("bbbbbbbb"), "b")], key);
    assert!(lookup(&second, &"a1b2c3d4".to_string()).is_none());
    assert_eq!(lookup(&second, &"bbbbbbbb".to_string()).unwrap().pod_ip, "10.0.0.2");
}

fn empty_environment() -> RouterEnvironment {
    RouterEnvironment {
        proxy_addr: None,
        health_addr: None,
        namespace: None,
        label_key: None,
        log_level: None,
        connect_timeout_ms: None,
        max_header_bytes: None,
        base_domain: None,
        header_timeout_ms: None,
        max_connections: None,
    }
}

#[test]
fn router_configuration_defaults_and_overrides() {
    let defaults = Config::from_environment(empty_environment());
    assert!(defaults.namespace.is_none());
    assert!(defaults.base_domain.is_none());
    let mut env = empty_environment();
    env.max_header_bytes = Some("1024".into());
    env.base_domain = Some(String::new());
    env.connect_timeout_ms = Some("not a number".into());
    let config = Config::from_environment(env);
    assert_eq!(config.max_header_bytes, 1024);
    assert!(config.base_domain.is_none());
    assert_eq!(config.connect_timeout_ms, defaults.connect_timeout_ms);
}
