use helmer_core::artifact::{
    default_format, fresh_artifact_id, make_filename, temp_tar_name, valid_artifact_id,
};
use helmer_core::classify::{classify_failure, FailureCategory};
use helmer_core::credentials::authfile_content;
use helmer_core::events::{
    event_data, event_name, failure_message, has_credentials, next_last_error, ready_payload,
    stream_events, ProgressEvent, ToolLine, ToolRun,
};
use helmer_core::index::normalize_index_path;
use helmer_core::pull::{
    destination_spec, error_for_failure, error_for_spawn, prepare_pull, resolve_format,
    source_reference, PullError, PullRequest,
};
use helmer_core::reference::{extract_registry, parse_repo_tag, trim_str, valid_ref};

// --- reference validation -------------------------------------------------

#[test]
fn validator_accepts_class() {
    assert!(valid_ref("nginx"));
    assert!(valid_ref("docker.io/library/nginx:1.25"));
    assert!(valid_ref("registry.example.com:5000/team/app@sha256:deadbeef"));
    assert!(valid_ref("a_b-c.d/e:f"));
}

#[test]
fn validator_rejects_outside_class() {
    assert!(!valid_ref(""));
    assert!(!valid_ref(" "));
    assert!(!valid_ref("nginx latest"));
    assert!(!valid_ref("bad!ref"));
    assert!(!valid_ref("a\nb"));
    assert!(!valid_ref("name%20"));
}

// --- parsing --------------------------------------------------------------

#[test]
fn parse_bare_name() {
    let (repo, tag) = parse_repo_tag("nginx");
    assert_eq!(repo, "nginx");
    assert_eq!(tag, "latest");
}

#[test]
fn parse_registry_path_tag() {
    let (repo, tag) = parse_repo_tag("docker.io/library/nginx:1.25");
    assert_eq!(repo, "nginx");
    assert_eq!(tag, "1.25");
}

#[test]
fn parse_digest_pinned() {
    let (repo, tag) = parse_repo_tag("registry.example.com:5000/team/app@sha256:deadbeef");
    assert_eq!(repo, "app");
    assert_eq!(tag, "latest");
}

#[test]
fn parse_port_without_tag() {
    let (repo, tag) = parse_repo_tag("localhost:5000/app");
    assert_eq!(repo, "app");
    assert_eq!(tag, "latest");
}

#[test]
fn parse_strips_transport() {
    let (repo, tag) = parse_repo_tag("docker://nginx:2");
    assert_eq!(repo, "nginx");
    assert_eq!(tag, "2");
}

#[test]
fn parse_empty_tag_defaults() {
    let (repo, tag) = parse_repo_tag("nginx:");
    assert_eq!(repo, "nginx");
    assert_eq!(tag, "latest");
}

#[test]
fn parse_empty_segment_placeholder() {
    let (repo, tag) = parse_repo_tag("docker.io/library/");
    assert_eq!(repo, "image");
    assert_eq!(tag, "latest");
}

// --- registry host --------------------------------------------------------

#[test]
fn registry_defaults_to_public_marker() {
    assert_eq!(extract_registry("nginx"), "docker.io");
    assert_eq!(extract_registry("library/nginx"), "docker.io");
}

#[test]
fn registry_host_with_port() {
    assert_eq!(extract_registry("registry.example.com:5000/app"), "registry.example.com:5000");
}

#[test]
fn registry_localhost() {
    assert_eq!(extract_registry("localhost/app"), "localhost");
}

#[test]
fn registry_behind_transport() {
    assert_eq!(extract_registry("docker://quay.io/app"), "quay.io");
}

#[test]
fn trim_both_ends() {
    assert_eq!(trim_str("  abc\t"), "abc");
    assert_eq!(trim_str("   "), "");
    assert_eq!(trim_str("abc"), "abc");
}

// --- credentials ----------------------------------------------------------

#[test]
fn credentials_missing_yield_none() {
    assert!(authfile_content("nginx", None, Some("pw")).is_none());
    assert!(authfile_content("nginx", Some("user"), None).is_none());
    assert!(authfile_content("nginx", None, None).is_none());
}

#[test]
fn credentials_blank_yield_none() {
    assert!(authfile_content("nginx", Some(""), Some("pw")).is_none());
    assert!(authfile_content("nginx", Some("user"), Some("   ")).is_none());
    assert!(authfile_content("nginx", Some(" \t "), Some(" \n ")).is_none());
}

#[test]
fn credential_file_public_registry_has_alias() {
    let content = authfile_content("nginx", Some("user"), Some("pass")).unwrap();
    let blob = "dXNlcjpwYXNz";
    let host_key = format!("\"docker.io\":{{\"auth\":\"{}\"}}", blob);
    let alias_key = format!("\"https://index.docker.io/v1/\":{{\"auth\":\"{}\"}}", blob);
    assert!(content.contains(&host_key));
    assert!(content.contains(&alias_key));
    assert_eq!(
        content,
        format!("{{\"auths\":{{{},{}}}}}", host_key, alias_key)
    );
}

#[test]
fn credential_file_private_registry_no_alias() {
    let content =
        authfile_content("registry.example.com:5000/app", Some("u"), Some("p")).unwrap();
    assert_eq!(
        content,
        "{\"auths\":{\"registry.example.com:5000\":{\"auth\":\"dTpw\"}}}"
    );
    assert!(!content.contains("index.docker.io"));
}

#[test]
fn credential_values_are_trimmed() {
    let a = authfile_content("nginx", Some(" user "), Some(" pass ")).unwrap();
    let b = authfile_content("nginx", Some("user"), Some("pass")).unwrap();
    assert_eq!(a, b);
}

#[test]
fn has_credentials_requires_both() {
    assert!(has_credentials(&Some("u".to_string()), &Some("p".to_string())));
    assert!(!has_credentials(&Some("u".to_string()), &Some("  ".to_string())));
    assert!(!has_credentials(&None, &Some("p".to_string())));
}

// --- classification -------------------------------------------------------

#[test]
fn classify_unauthorized_is_forbidden() {
    assert_eq!(
        classify_failure("time=... level=fatal msg=unauthorized: access denied"),
        FailureCategory::Forbidden
    );
    assert_eq!(classify_failure("UNAUTHORIZED"), FailureCategory::Forbidden);
    assert_eq!(
        classify_failure("authentication required"),
        FailureCategory::Forbidden
    );
}

#[test]
fn classify_not_found_wins_over_denied() {
    assert_eq!(
        classify_failure("manifest unknown: denied"),
        FailureCategory::NotFound
    );
    assert_eq!(
        classify_failure("Manifest Unknown"),
        FailureCategory::NotFound
    );
    assert_eq!(
        classify_failure("repository name unknown"),
        FailureCategory::NotFound
    );
    assert_eq!(classify_failure("image not found"), FailureCategory::NotFound);
}

#[test]
fn classify_other_is_upstream() {
    assert_eq!(
        classify_failure("connection reset by peer"),
        FailureCategory::Upstream
    );
    assert_eq!(classify_failure(""), FailureCategory::Upstream);
}

#[test]
fn error_for_failure_maps_categories() {
    assert!(matches!(error_for_failure("not found"), PullError::NotFound));
    assert!(matches!(error_for_failure("denied"), PullError::Forbidden));
    match error_for_failure("tls handshake failed") {
        PullError::Upstream(m) => assert_eq!(m, "tls handshake failed"),
        _ => panic!("expected upstream error"),
    }
}

#[test]
fn error_for_spawn_distinguishes_missing_tool() {
    assert!(matches!(error_for_spawn(true, "No such file"), PullError::ToolMissing));
    match error_for_spawn(false, "permission denied") {
        PullError::Upstream(m) => assert_eq!(m, "permission denied"),
        _ => panic!("expected upstream error"),
    }
}

// --- pull planning --------------------------------------------------------

#[test]
fn prepare_pull_rejects_invalid() {
    assert!(matches!(prepare_pull("", "docker-archive"), Err(PullError::InvalidInput)));
    assert!(matches!(prepare_pull("  ", "docker-archive"), Err(PullError::InvalidInput)));
    assert!(matches!(prepare_pull("bad ref", "docker-archive"), Err(PullError::InvalidInput)));
}

#[test]
fn prepare_pull_resolves_plan() {
    let plan = prepare_pull("docker.io/library/nginx:1.25", "oci-archive").unwrap();
    assert_eq!(plan.fmt, "oci-archive");
    assert_eq!(plan.repo, "nginx");
    assert_eq!(plan.tag, "1.25");
    assert_eq!(plan.filename, "nginx-1.25-oci-archive.tar");
}

#[test]
fn format_fallback_is_silent() {
    assert_eq!(resolve_format("oci-archive"), "oci-archive");
    assert_eq!(resolve_format("docker-archive"), "docker-archive");
    assert_eq!(resolve_format("zip"), "docker-archive");
    assert_eq!(resolve_format(""), "docker-archive");
    assert_eq!(default_format(), "docker-archive");
}

#[test]
fn destination_spec_is_colon_delimited() {
    assert_eq!(
        destination_spec("docker-archive", "/tmp/pull-1.tar", "nginx", "latest"),
        "docker-archive:/tmp/pull-1.tar:nginx:latest"
    );
}

#[test]
fn source_reference_prefixes_transport() {
    assert_eq!(source_reference("nginx:1.25"), "docker://nginx:1.25");
}

#[test]
fn filename_pattern() {
    assert_eq!(make_filename("nginx", "1.25", "docker-archive"), "nginx-1.25-docker-archive.tar");
    assert_eq!(temp_tar_name("abc"), "pull-abc.tar");
}

// --- artifact identifiers -------------------------------------------------

#[test]
fn traversal_identifiers_rejected() {
    assert!(!valid_artifact_id(".."));
    assert!(!valid_artifact_id("../etc/passwd"));
    assert!(!valid_artifact_id("a/b"));
    assert!(!valid_artifact_id("a..b"));
    assert!(valid_artifact_id("abc-123"));
    assert!(valid_artifact_id(""));
    assert!(valid_artifact_id("a.b"));
}

#[test]
fn fresh_identifier_is_safe() {
    let id = fresh_artifact_id();
    assert_eq!(id.chars().count(), 36);
    assert!(valid_artifact_id(&id));
    assert!(id
        .chars()
        .all(|c| c.is_ascii_hexdigit() || c == '-'));
    let other = fresh_artifact_id();
    assert_ne!(id, other);
}

// --- streaming events -----------------------------------------------------

fn req(reference: &str, format: &str) -> PullRequest {
    PullRequest {
        reference: reference.to_string(),
        format: format.to_string(),
        username: None,
        password: None,
    }
}

fn names(events: &[ProgressEvent]) -> Vec<&'static str> {
    events.iter().map(event_name).collect()
}

#[test]
fn invalid_reference_stream_has_one_error_no_end() {
    let run = ToolRun::Exited(true, vec![]);
    let evs = stream_events(&req("bad ref!", "docker-archive"), &run, "id-1");
    assert_eq!(names(&evs), vec!["start", "error"]);
    assert_eq!(event_data(&evs[1]), "invalid reference");
    assert_eq!(evs.iter().filter(|e| event_name(e) == "error").count(), 1);
    assert!(evs.iter().all(|e| event_name(e) != "end"));
}

#[test]
fn empty_reference_stream_has_one_error_no_end() {
    let run = ToolRun::Exited(true, vec![]);
    let evs = stream_events(&req("  ", "docker-archive"), &run, "id-1");
    assert_eq!(names(&evs), vec!["start", "error"]);
}

#[test]
fn successful_stream_ends_with_ready_then_end() {
    let run = ToolRun::Exited(
        true,
        vec![
            ToolLine::Stdout("Copying blob".to_string()),
            ToolLine::Stderr("Getting signatures".to_string()),
        ],
    );
    let evs = stream_events(&req("nginx:1.25", "docker-archive"), &run, "id-7");
    assert_eq!(names(&evs), vec!["start", "progress", "progress", "ready", "end"]);
    assert_eq!(event_data(&evs[1]), "Copying blob");
    assert_eq!(event_data(&evs[2]), "Getting signatures");
    assert_eq!(
        event_data(&evs[3]),
        "{\"id\":\"id-7\",\"filename\":\"nginx-1.25-docker-archive.tar\"}"
    );
    assert_eq!(event_data(&evs[4]), "done");
}

#[test]
fn failing_stream_reports_last_stderr_line() {
    let run = ToolRun::Exited(
        false,
        vec![
            ToolLine::Stderr("first diagnostic".to_string()),
            ToolLine::Stdout("progress line".to_string()),
            ToolLine::Stderr("fatal: manifest unknown".to_string()),
        ],
    );
    let evs = stream_events(&req("nginx", "docker-archive"), &run, "id-2");
    assert_eq!(
        names(&evs),
        vec!["start", "progress", "progress", "progress", "error", "end"]
    );
    assert_eq!(event_data(&evs[4]), "fatal: manifest unknown");
}

#[test]
fn failing_stream_without_stderr_uses_fallback() {
    let run = ToolRun::Exited(false, vec![ToolLine::Stdout("only stdout".to_string())]);
    let evs = stream_events(&req("nginx", "docker-archive"), &run, "id-3");
    assert_eq!(names(&evs), vec!["start", "progress", "error", "end"]);
    assert_eq!(event_data(&evs[2]), "skopeo failed");
}

#[test]
fn stream_with_credentials_emits_auth() {
    let mut r = req("nginx", "docker-archive");
    r.username = Some("u".to_string());
    r.password = Some("p".to_string());
    let run = ToolRun::Exited(true, vec![]);
    let evs = stream_events(&r, &run, "id-4");
    assert_eq!(names(&evs), vec!["start", "auth", "ready", "end"]);
    assert_eq!(event_data(&evs[1]), "using credentials");
}

#[test]
fn spawn_failure_stream_errors_then_ends() {
    let run = ToolRun::SpawnFailed("boom".to_string());
    let evs = stream_events(&req("nginx", "docker-archive"), &run, "id-5");
    assert_eq!(names(&evs), vec!["start", "error", "end"]);
    assert_eq!(event_data(&evs[1]), "spawn error: boom");
}

#[test]
fn authfile_failure_stream_errors_then_ends() {
    let run = ToolRun::AuthfileFailed("disk full".to_string());
    let evs = stream_events(&req("nginx", "docker-archive"), &run, "id-6");
    assert_eq!(names(&evs), vec!["start", "error", "end"]);
    assert_eq!(event_data(&evs[1]), "authfile error: disk full");
}

#[test]
fn last_error_cell_is_last_write_wins() {
    let out = ToolLine::Stdout("o".to_string());
    let err1 = ToolLine::Stderr("e1".to_string());
    let err2 = ToolLine::Stderr("e2".to_string());
    let mut last = None;
    last = next_last_error(&out, last);
    assert!(last.is_none());
    last = next_last_error(&err1, last);
    last = next_last_error(&out, last);
    assert_eq!(last.as_deref(), Some("e1"));
    last = next_last_error(&err2, last);
    assert_eq!(last.as_deref(), Some("e2"));
    assert_eq!(failure_message(last), "e2");
    assert_eq!(failure_message(None), "skopeo failed");
}

#[test]
fn ready_payload_shape() {
    assert_eq!(
        ready_payload("abc", "app-latest-docker-archive.tar"),
        "{\"id\":\"abc\",\"filename\":\"app-latest-docker-archive.tar\"}"
    );
}

// --- index path -----------------------------------------------------------

#[test]
fn index_path_passthrough() {
    assert_eq!(normalize_index_path("/charts/index.yaml"), "/charts/index.yaml");
    assert_eq!(normalize_index_path("/charts/index.yml"), "/charts/index.yml");
}

#[test]
fn index_path_appended() {
    assert_eq!(normalize_index_path("/charts"), "/charts/index.yaml");
    assert_eq!(normalize_index_path("/charts///"), "/charts/index.yaml");
    assert_eq!(normalize_index_path(""), "/index.yaml");
}
