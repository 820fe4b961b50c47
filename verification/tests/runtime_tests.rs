use std::collections::BTreeSet;

use agentbox::container_paths::{CODEX_CONFIG_DESTINATION, OPENCODE_CONFIG_DESTINATION, OPENCODE_DATA_DESTINATION};
use agentbox::environment::Environment;
use agentbox::runtime::default_image::{
    default_image, default_image_context_hash, embedded_default_image_paths, image_context_hash,
    is_content_hash_default_image_ref, is_default_image_context_hash, EmbeddedDefaultImageFile,
    IMAGE_CONTEXT_HASH_LEN,
};
use agentbox::runtime::health::{endpoint_connection_health, HealthyFlag, RuntimeHealth};
use agentbox::runtime::host_state::{
    RuntimeHostStateContainerEnvironment, RuntimeHostStateDestination, RuntimeHostStateSource,
    RuntimeHostStateSourceResolution,
};
use agentbox::runtime::http::{
    get_response_from, http_get_request, read_response_from, HttpProbeError, HttpRead, HttpResponse,
    MAX_HTTP_RESPONSE_BYTES,
};
use agentbox::runtime::kind::RuntimeKind;
use agentbox::runtime::profile::all_host_state_mounts;
use agentbox::runtime::spec::{AttachEndpoint, RuntimeHealthResponsePolicy, RuntimeRunMode};

fn files() -> Vec<EmbeddedDefaultImageFile> {
    vec![
        EmbeddedDefaultImageFile { relative_path: "Containerfile", contents: b"FROM example\n".to_vec() },
        EmbeddedDefaultImageFile { relative_path: "bootstrap", contents: b"#!/bin/sh\n".to_vec() },
    ]
}

#[test]
fn image_context_hash_is_deterministic_over_paths_lengths_and_contents() {
    assert_eq!(image_context_hash(&files()), image_context_hash(&files()));
    assert_ne!(
        image_context_hash(&files()),
        image_context_hash(&[
            EmbeddedDefaultImageFile { relative_path: "Containerfile", contents: b"FROM example\n".to_vec() },
            EmbeddedDefaultImageFile { relative_path: "bootstrap", contents: b"#!/bin/bash\n".to_vec() },
        ])
    );
    assert_ne!(
        image_context_hash(&files()),
        image_context_hash(&[
            EmbeddedDefaultImageFile { relative_path: "bootstrap", contents: b"#!/bin/sh\n".to_vec() },
            EmbeddedDefaultImageFile { relative_path: "Containerfile", contents: b"FROM example\n".to_vec() },
        ])
    );
}

#[test]
fn embedded_image_inputs_exclude_docs_dev_files_and_tests() {
    let paths = embedded_default_image_paths();

    assert_eq!(
        paths,
        [
            "Containerfile",
            "bootstrap",
            "entrypoint",
            "lib/runtime-contract.sh",
            "profile.d/agentbox-runtime.sh",
            "runtime-packages.nix",
        ]
    );
    assert!(!paths.contains(&"README.md"));
    assert!(!paths.contains(&"justfile"));
    assert!(!paths.iter().any(|path| path.starts_with("tests/")));
}

#[test]
fn default_image_ref_uses_context_hash_tag() {
    let image = default_image(RuntimeKind::Opencode);
    let hash = default_image_context_hash();

    assert_eq!(hash.len(), IMAGE_CONTEXT_HASH_LEN);
    assert!(is_default_image_context_hash(&hash));
    assert_eq!(image, format!("localhost/agentbox-opencode:ctx-{hash}"));
    assert!(is_content_hash_default_image_ref(RuntimeKind::Opencode, &image));
    assert!(!is_content_hash_default_image_ref(RuntimeKind::Opencode, "localhost/agentbox-opencode:local"));
}

#[test]
fn default_image_context_hash_validation_matches_tag_format() {
    assert!(is_default_image_context_hash("0123456789abcdef"));
    assert!(is_default_image_context_hash("ABCDEF0123456789"));
    assert!(!is_default_image_context_hash("0123456789abcde"));
    assert!(!is_default_image_context_hash("0123456789abcdef0"));
    assert!(!is_default_image_context_hash("0123456789abcdeg"));
}

#[test]
fn default_image_of_codex_uses_its_own_repository() {
    let image = default_image(RuntimeKind::Codex);
    assert_eq!(image, format!("localhost/agentbox-codex:ctx-{}", default_image_context_hash()));
    assert!(is_content_hash_default_image_ref(RuntimeKind::Codex, &image));
    assert!(!is_content_hash_default_image_ref(RuntimeKind::Opencode, &image));
}

// ---------------------------------------------------------------------------
// Health probes, fed with what a server would send
// ---------------------------------------------------------------------------

enum ProbeResponse {
    Bytes(Vec<u8>),
    CloseWithoutResponse,
}

fn http_response(status: &str, body: &str) -> ProbeResponse {
    ProbeResponse::Bytes(
        format!(
            "HTTP/1.1 {status}\r\nContent-Type: application/json\r\nContent-Length: {}\r\n\r\n{body}",
            body.len()
        )
        .into_bytes(),
    )
}

fn healthy_flag(body: &[u8]) -> HealthyFlag {
    match serde_json::from_slice::<serde_json::Value>(body) {
        Ok(value) => match value.get("healthy").and_then(serde_json::Value::as_bool) {
            Some(true) => HealthyFlag::Healthy,
            Some(false) => HealthyFlag::NotHealthy,
            None => HealthyFlag::Malformed,
        },
        Err(_) => HealthyFlag::Malformed,
    }
}

fn assert_probe_result(runtime: RuntimeKind, response: ProbeResponse, expected: RuntimeHealth) {
    let health_check = runtime.health_check();
    let endpoint = AttachEndpoint {
        scheme: runtime.attach_spec().scheme.to_string(),
        host_ip: "127.0.0.1".to_string(),
        host_port: 41000,
    };
    let request = http_get_request(&endpoint, health_check.path);
    assert!(request.starts_with(&format!("GET {} HTTP/1.1", health_check.path)));
    let reads = match response {
        ProbeResponse::Bytes(bytes) => vec![HttpRead::Data(bytes)],
        ProbeResponse::CloseWithoutResponse => vec![],
    };
    let response = get_response_from(true, &reads);
    let flag = match &response {
        Ok(r) => healthy_flag(&r.body),
        Err(_) => HealthyFlag::Malformed,
    };
    assert_eq!(endpoint_connection_health(&response, health_check.response_policy, flag), expected);
}

#[test]
fn opencode_probe_accepts_global_health_http_200_with_healthy_true() {
    assert_probe_result(
        RuntimeKind::Opencode,
        http_response("200 OK", r#"{"healthy":true,"version":"0.0.0-test"}"#),
        RuntimeHealth::Healthy,
    );
}

#[test]
fn opencode_probe_rejects_tcp_accept_without_http_response() {
    assert_probe_result(RuntimeKind::Opencode, ProbeResponse::CloseWithoutResponse, RuntimeHealth::unhealthy("unreachable"));
}

#[test]
fn opencode_probe_rejects_non_200_global_health_response() {
    assert_probe_result(
        RuntimeKind::Opencode,
        http_response("503 Service Unavailable", r#"{"healthy":true}"#),
        RuntimeHealth::unhealthy("HTTP 503"),
    );
}

#[test]
fn opencode_probe_rejects_malformed_global_health_json() {
    assert_probe_result(RuntimeKind::Opencode, http_response("200 OK", "not-json"), RuntimeHealth::unhealthy("malformed JSON"));
}

#[test]
fn opencode_probe_rejects_unhealthy_global_health_json() {
    assert_probe_result(
        RuntimeKind::Opencode,
        http_response("200 OK", r#"{"healthy":false}"#),
        RuntimeHealth::unhealthy("healthy=false"),
    );
}

#[test]
fn codex_probe_accepts_readyz_http_200() {
    assert_probe_result(RuntimeKind::Codex, http_response("200 OK", ""), RuntimeHealth::Healthy);
}

#[test]
fn codex_probe_rejects_non_200_readyz_response() {
    assert_probe_result(RuntimeKind::Codex, http_response("503 Service Unavailable", ""), RuntimeHealth::unhealthy("HTTP 503"));
}

#[test]
fn codex_probe_rejects_tcp_accept_without_http_response() {
    assert_probe_result(RuntimeKind::Codex, ProbeResponse::CloseWithoutResponse, RuntimeHealth::unhealthy("unreachable"));
}

#[test]
fn health_policy_http_ok_ignores_the_body() {
    let response: Result<HttpResponse, HttpProbeError> = Ok(HttpResponse { status_code: 200, body: b"not-json".to_vec() });
    assert_eq!(
        endpoint_connection_health(&response, RuntimeHealthResponsePolicy::HttpOk, HealthyFlag::Malformed),
        RuntimeHealth::Healthy
    );
}

// ---------------------------------------------------------------------------
// Host-state sources
// ---------------------------------------------------------------------------

#[test]
fn runtime_host_state_sources_format_home_only_expression() {
    let source = RuntimeHostStateSource::HomeOnly { home_relative_components: vec![".codex"] };

    assert_eq!(source.expression(), "`${HOME}/.codex`");
}

#[test]
fn runtime_host_state_sources_format_environment_with_home_fallback_expression() {
    let source = RuntimeHostStateSource::EnvironmentOrHome {
        environment_variable: "CODEX_HOME",
        home_relative_components: vec![".codex"],
    };

    assert_eq!(source.expression(), "`CODEX_HOME` or `$HOME/.codex`");
}

#[test]
fn runtime_host_state_sources_format_xdg_with_home_suffix_fallback() {
    let source = RuntimeHostStateSource::XdgOrHome {
        xdg_variable: "XDG_CONFIG_HOME",
        xdg_relative_components: vec!["opencode"],
        home_relative_components: vec![".config", "opencode"],
    };

    assert_eq!(source.expression(), "`${XDG_CONFIG_HOME:-$HOME/.config}/opencode`");
}

#[test]
fn runtime_host_state_sources_format_xdg_with_distinct_home_fallback() {
    let source = RuntimeHostStateSource::XdgOrHome {
        xdg_variable: "XDG_EXAMPLE_HOME",
        xdg_relative_components: vec!["example", "state"],
        home_relative_components: vec![".example"],
    };

    assert_eq!(source.expression(), "`$XDG_EXAMPLE_HOME/example/state` or `$HOME/.example`");
}

fn env_of(values: &[(&str, &str)]) -> Environment {
    let mut env = Environment::empty();
    for (name, value) in values {
        env = env.with_text(name, value);
    }
    env
}

#[test]
fn runtime_host_state_sources_resolve_from_environment() {
    let xdg_source = RuntimeHostStateSource::XdgOrHome {
        xdg_variable: "XDG_CONFIG_HOME",
        xdg_relative_components: vec!["opencode"],
        home_relative_components: vec![".config", "opencode"],
    };
    let home_source = RuntimeHostStateSource::HomeOnly { home_relative_components: vec![".codex"] };
    let environment_source = RuntimeHostStateSource::EnvironmentOrHome {
        environment_variable: "CODEX_HOME",
        home_relative_components: vec![".codex"],
    };

    assert_eq!(
        xdg_source
            .resolve(&env_of(&[("HOME", "/home/example"), ("XDG_CONFIG_HOME", "/tmp/config")]))
            .unwrap()
            .source,
        Some("/tmp/config/opencode".to_string())
    );
    assert_eq!(
        xdg_source.resolve(&env_of(&[("HOME", "/home/example")])).unwrap().source,
        Some("/home/example/.config/opencode".to_string())
    );
    assert_eq!(
        home_source.resolve(&env_of(&[("HOME", "/home/example")])).unwrap().source,
        Some("/home/example/.codex".to_string())
    );
    assert_eq!(
        environment_source
            .resolve(&env_of(&[("HOME", "/home/example"), ("CODEX_HOME", "/custom/codex")]))
            .unwrap(),
        RuntimeHostStateSourceResolution {
            source: Some("/custom/codex".to_string()),
            source_environment_variable: Some("CODEX_HOME"),
        }
    );
    assert_eq!(
        environment_source.resolve(&env_of(&[("HOME", "/home/example")])).unwrap(),
        RuntimeHostStateSourceResolution {
            source: Some("/home/example/.codex".to_string()),
            source_environment_variable: None,
        }
    );
    assert_eq!(home_source.resolve(&env_of(&[])).unwrap().source, None);
}

#[test]
fn runtime_host_state_destinations_can_follow_environment_source_paths() {
    let destination = RuntimeHostStateDestination::SourcePathWhenEnvironment {
        environment_variable: "CODEX_HOME",
        fallback_destination: "/home/user/.codex",
    };

    assert_eq!(destination.resolve("/custom/codex", Some("CODEX_HOME")).unwrap(), "/custom/codex");
    assert_eq!(destination.resolve("/home/example/.codex", None).unwrap(), "/home/user/.codex");
    assert_eq!(
        destination.resolve("relative/codex", Some("CODEX_HOME")).unwrap_err().message(),
        "`CODEX_HOME` must be an absolute path for Codex server passthrough: relative/codex"
    );
}

#[test]
fn runtime_host_state_container_environment_uses_environment_sources_only() {
    let environment = RuntimeHostStateContainerEnvironment { name: "CODEX_HOME", source_environment_variable: "CODEX_HOME" };

    assert_eq!(
        environment.entry_for("/custom/codex", Some("CODEX_HOME")),
        Some(("CODEX_HOME".to_string(), "/custom/codex".to_string()))
    );
    assert_eq!(environment.entry_for("/home/example/.codex", None), None);
}

// ---------------------------------------------------------------------------
// Profiles
// ---------------------------------------------------------------------------

fn host_state_mount_destinations_are_unique() {
    for run_mode in [RuntimeRunMode::ManagedSession, RuntimeRunMode::TransientServer, RuntimeRunMode::Foreground] {
        let mut destinations = BTreeSet::new();
        for mount in all_host_state_mounts(run_mode) {
            assert!(
                destinations.insert(mount.snapshot_key()),
                "duplicate runtime host-state mount destination `{}` for `{run_mode:?}`",
                mount.snapshot_key(),
            );
        }
    }
}

#[test]
fn profile_runtime_host_state_mount_destinations_are_unique() {
    for run_mode in [RuntimeRunMode::ManagedSession, RuntimeRunMode::TransientServer, RuntimeRunMode::Foreground] {
        let mut destinations = Vec::new();
        for mount in all_host_state_mounts(run_mode) {
            assert!(
                !destinations.contains(&mount.destination),
                "duplicate runtime host-state mount destination `{:?}`",
                mount.destination,
            );
            destinations.push(mount.destination);
        }
    }
}

#[test]
fn mod_runtime_host_state_mount_destinations_are_unique() {
    host_state_mount_destinations_are_unique();
}

fn host_state_expressions(run_mode: RuntimeRunMode) -> Vec<(&'static str, String)> {
    all_host_state_mounts(run_mode)
        .iter()
        .map(|mount| (mount.snapshot_key(), mount.source_expression()))
        .collect()
}

#[test]
fn runtime_profile_host_state_sources_match_expected_locations() {
    assert_eq!(
        host_state_expressions(RuntimeRunMode::Foreground),
        vec![
            (OPENCODE_CONFIG_DESTINATION, "`${XDG_CONFIG_HOME:-$HOME/.config}/opencode`".to_string()),
            (OPENCODE_DATA_DESTINATION, "`${XDG_DATA_HOME:-$HOME/.local/share}/opencode`".to_string()),
            (CODEX_CONFIG_DESTINATION, "`${HOME}/.codex`".to_string()),
        ]
    );
}

#[test]
fn runtime_profile_server_host_state_sources_match_expected_locations() {
    assert_eq!(
        host_state_expressions(RuntimeRunMode::ManagedSession),
        vec![
            (OPENCODE_CONFIG_DESTINATION, "`${XDG_CONFIG_HOME:-$HOME/.config}/opencode`".to_string()),
            (OPENCODE_DATA_DESTINATION, "`${XDG_DATA_HOME:-$HOME/.local/share}/opencode`".to_string()),
            (CODEX_CONFIG_DESTINATION, "`CODEX_HOME` or `$HOME/.codex`".to_string()),
        ]
    );
}

#[test]
fn runtime_profile_foreground_host_state_sources_match_expected_locations() {
    assert_eq!(
        host_state_expressions(RuntimeRunMode::Foreground),
        vec![
            (OPENCODE_CONFIG_DESTINATION, "`${XDG_CONFIG_HOME:-$HOME/.config}/opencode`".to_string()),
            (OPENCODE_DATA_DESTINATION, "`${XDG_DATA_HOME:-$HOME/.local/share}/opencode`".to_string()),
            (CODEX_CONFIG_DESTINATION, "`${HOME}/.codex`".to_string()),
        ]
    );
}

fn profile_table_covers_value_enum_variants() {
    let mut names: Vec<&str> = RuntimeKind::variants().iter().map(|kind| kind.as_str()).collect();
    names.sort();
    names.dedup();
    let mut values = RuntimeKind::supported_values();
    values.sort();
    assert_eq!(names, values);
}

#[test]
fn profile_runtime_profile_table_covers_value_enum_variants() {
    profile_table_covers_value_enum_variants();
}

#[test]
fn mod_runtime_profile_table_covers_value_enum_variants() {
    profile_table_covers_value_enum_variants();
}

// ---------------------------------------------------------------------------
// HTTP responses
// ---------------------------------------------------------------------------

fn endpoint() -> AttachEndpoint {
    AttachEndpoint { scheme: "http".to_string(), host_ip: "127.0.0.1".to_string(), host_port: 49152 }
}

fn data(bytes: &[u8]) -> HttpRead {
    HttpRead::Data(bytes.to_vec())
}

#[test]
fn get_response_reads_declared_body_across_chunks() {
    let response = get_response_from(
        true,
        &vec![data(b"HTTP/1.1 200 OK\r\nContent-Length: 11\r\n\r\nhello"), data(b" world")],
    )
    .unwrap();

    assert_eq!(response.status_code, 200);
    assert_eq!(response.body, b"hello world");
}

#[test]
fn get_response_reads_undeclared_body_until_eof() {
    let response = get_response_from(true, &vec![data(b"HTTP/1.1 200 OK\r\n\r\nhello"), data(b" world")]).unwrap();

    assert_eq!(response.status_code, 200);
    assert_eq!(response.body, b"hello world");
}

#[test]
fn get_response_rejects_oversized_declared_body() {
    let response = format!("HTTP/1.1 200 OK\r\nContent-Length: {}\r\n\r\n", MAX_HTTP_RESPONSE_BYTES + 1);

    assert_eq!(
        get_response_from(true, &vec![data(response.as_bytes())]).unwrap_err(),
        HttpProbeError::ResponseTooLarge
    );
}

#[test]
fn get_response_rejects_missing_header_terminator() {
    assert_eq!(
        get_response_from(true, &vec![data(b"HTTP/1.1 200 OK")]).unwrap_err(),
        HttpProbeError::ResponseHeadersUnavailable
    );
}

#[test]
fn get_response_rejects_invalid_headers() {
    assert_eq!(
        get_response_from(true, &vec![data(b"not-http\r\n\r\n")]).unwrap_err(),
        HttpProbeError::InvalidResponseHeaders
    );
}

#[test]
fn get_response_rejects_incomplete_declared_body() {
    assert_eq!(
        get_response_from(true, &vec![data(b"HTTP/1.1 200 OK\r\nContent-Length: 8\r\n\r\nshort")]).unwrap_err(),
        HttpProbeError::ResponseBodyIncomplete
    );
}

fn rejects_request_write_failure() {
    assert_eq!(get_response_from(false, &vec![]).unwrap_err(), HttpProbeError::RequestWriteFailed);
}

#[test]
fn http_probe_get_response_rejects_request_write_failure() {
    rejects_request_write_failure();
}

#[test]
fn mod_get_response_rejects_request_write_failure() {
    rejects_request_write_failure();
}

#[test]
fn get_response_rejects_response_read_failure() {
    assert_eq!(get_response_from(true, &vec![HttpRead::Failed]).unwrap_err(), HttpProbeError::ResponseReadFailed);
}

fn writes_request_with_host_header() {
    let response = get_response_from(true, &vec![data(b"HTTP/1.1 204 No Content\r\n\r\n")]).unwrap();

    assert_eq!(response.status_code, 204);
    assert_eq!(
        http_get_request(&endpoint(), "/health").into_bytes(),
        b"GET /health HTTP/1.1\r\nHost: 127.0.0.1:49152\r\nConnection: close\r\n\r\n"
    );
}

#[test]
fn http_probe_get_response_writes_request_with_host_header() {
    writes_request_with_host_header();
}

#[test]
fn mod_get_response_writes_request_with_host_header() {
    writes_request_with_host_header();
}

#[test]
fn reads_declared_body_across_chunks() {
    let response =
        read_response_from(&vec![data(b"HTTP/1.1 200 OK\r\nContent-Length: 11\r\n\r\nhello"), data(b" world")]).unwrap();

    assert_eq!(response.status_code, 200);
    assert_eq!(response.body, b"hello world");
}

#[test]
fn reads_undeclared_body_until_eof() {
    let response = read_response_from(&vec![data(b"HTTP/1.1 200 OK\r\n\r\nhello"), data(b" world")]).unwrap();

    assert_eq!(response.status_code, 200);
    assert_eq!(response.body, b"hello world");
}

#[test]
fn rejects_oversized_declared_body() {
    let response = format!("HTTP/1.1 200 OK\r\nContent-Length: {}\r\n\r\n", MAX_HTTP_RESPONSE_BYTES + 1);

    assert_eq!(read_response_from(&vec![data(response.as_bytes())]).unwrap_err(), HttpProbeError::ResponseTooLarge);
}

#[test]
fn rejects_oversized_undeclared_body() {
    let mut body = vec![b'a'; MAX_HTTP_RESPONSE_BYTES];
    body.extend_from_slice(b"b");
    let mut response = b"HTTP/1.1 200 OK\r\n\r\n".to_vec();
    response.extend(body);

    assert_eq!(read_response_from(&vec![HttpRead::Data(response)]).unwrap_err(), HttpProbeError::ResponseTooLarge);
}

#[test]
fn rejects_missing_header_terminator() {
    assert_eq!(
        read_response_from(&vec![data(b"HTTP/1.1 200 OK")]).unwrap_err(),
        HttpProbeError::ResponseHeadersUnavailable
    );
}

#[test]
fn rejects_invalid_headers() {
    assert_eq!(read_response_from(&vec![data(b"not-http\r\n\r\n")]).unwrap_err(), HttpProbeError::InvalidResponseHeaders);
}

#[test]
fn rejects_incomplete_declared_body() {
    assert_eq!(
        read_response_from(&vec![data(b"HTTP/1.1 200 OK\r\nContent-Length: 8\r\n\r\nshort")]).unwrap_err(),
        HttpProbeError::ResponseBodyIncomplete
    );
}

#[test]
fn rejects_response_read_failure() {
    assert_eq!(read_response_from(&vec![HttpRead::Failed]).unwrap_err(), HttpProbeError::ResponseReadFailed);
}

#[test]
fn response_read_timeout_ends_an_undeclared_body() {
    let response = read_response_from(&vec![data(b"HTTP/1.1 200 OK\r\n\r\nabc"), HttpRead::Timeout]).unwrap();
    assert_eq!(response.body, b"abc");
}

#[test]
fn headers_that_are_not_utf8_are_invalid() {
    assert_eq!(
        read_response_from(&vec![data(b"HTTP/1.1 200 OK\r\nX-Bad: \xff\r\n\r\n")]).unwrap_err(),
        HttpProbeError::InvalidResponseHeaders
    );
    assert_eq!(read_response_from(&vec![data(b"HTTP/1.1 200 OK\r\nX-Good: \xc3\xa9\r\n\r\n")]).unwrap().status_code, 200);
}
