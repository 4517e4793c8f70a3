use std::time::Duration;

use themisdb_sdk::{
    backoff, backoff_millis, build_entity_key, build_urn, entity_url, holds_urn_marker,
    is_single_shard_query,
    next_step, normalize, pick_endpoint, resolve_endpoint, stable_hash, AttemptOutcome,
    RetryStep, ThemisError,
};

#[test]
fn stable_hash_is_deterministic() {
    let value = stable_hash("urn:themis:relational:default:users:1");
    assert_eq!(value, stable_hash("urn:themis:relational:default:users:1"));
    assert_ne!(value, stable_hash("urn:themis:relational:default:users:2"));
}

#[test]
fn stable_hash_known_values() {
    assert_eq!(stable_hash(""), 18652613);
    assert_eq!(stable_hash("a"), 1678518572);
    assert_eq!(stable_hash("urn:themis:relational:default:users:1"), 1850895707);
    assert_eq!(stable_hash("urn:themis:relational:default:users:2"), 1867673326);
    assert_eq!(stable_hash("é"), 513665217);
}

#[test]
fn normalize_trims_slash() {
    assert_eq!(normalize("http://example.com/"), "http://example.com");
}

#[test]
fn normalize_is_idempotent() {
    let once = normalize("http://h///");
    assert_eq!(once, "http://h");
    assert_eq!(normalize(&once), once);
    assert_eq!(normalize("http://h/"), "http://h");
    assert_eq!(normalize(""), "");
    assert_eq!(normalize("///"), "");
}

#[test]
fn build_urn_formats_values() {
    let urn = build_urn("relational", "default", "users", "550e8400");
    assert_eq!(urn, "urn:themis:relational:default:users:550e8400");
}

#[test]
fn build_entity_key_matches_format() {
    let key = build_entity_key("graph", "tenant", "nodes", "1234");
    assert_eq!(key, "graph.tenant.nodes:1234");
}

#[test]
fn entity_url_joins_endpoint_and_key() {
    let url = entity_url("http://h", "tenant", "graph", "nodes", "1234");
    assert_eq!(url, "http://h/entities/graph.tenant.nodes:1234");
}

#[test]
fn resolve_endpoint_picks_hashed_shard() {
    let endpoints = vec!["http://a".to_string(), "http://b".to_string(), "http://c".to_string()];
    let chosen = resolve_endpoint(&endpoints, "default", "relational", "users", "1").unwrap();
    assert_eq!(chosen, "http://c");
    let again = resolve_endpoint(&endpoints, "default", "relational", "users", "1").unwrap();
    assert_eq!(chosen, again);
    let other = resolve_endpoint(&endpoints, "default", "relational", "users", "2").unwrap();
    assert_eq!(other, "http://b");
}

#[test]
fn resolve_endpoint_without_endpoints_is_topology_error() {
    let endpoints: Vec<String> = Vec::new();
    let r = resolve_endpoint(&endpoints, "default", "relational", "users", "1");
    assert!(matches!(r, Err(ThemisError::Topology(_))));
    assert!(matches!(pick_endpoint(&endpoints, "q"), Err(ThemisError::Topology(_))));
}

#[test]
fn single_shard_queries_name_a_urn_in_any_case() {
    assert!(is_single_shard_query("FOR d IN users FILTER d._id == 'urn:themis:relational:default:users:1'"));
    assert!(is_single_shard_query("FOR d IN users FILTER d._id == 'URN:THEMIS:relational'"));
    assert!(!is_single_shard_query("FOR d IN users RETURN d"));
    assert!(!is_single_shard_query("urn:themis"));
}

#[test]
fn urn_marker_is_found_in_lowered_text() {
    assert!(holds_urn_marker("for d in c filter d._id == 'urn:themis:a'"));
    assert!(holds_urn_marker("urn:themis:"));
    assert!(!holds_urn_marker("URN:THEMIS:a"));
    assert!(!holds_urn_marker("urn:themis"));
    assert!(!holds_urn_marker(""));
}

#[test]
fn backoff_caps_at_one_second() {
    assert_eq!(backoff(1), Duration::from_millis(100));
    assert_eq!(backoff(5), Duration::from_millis(1_000));
    assert_eq!(backoff(10), Duration::from_millis(1_000));
}

#[test]
fn backoff_grows_by_doubling() {
    assert_eq!(backoff_millis(0), 50);
    assert_eq!(backoff_millis(1), 100);
    assert_eq!(backoff_millis(2), 200);
    assert_eq!(backoff_millis(3), 400);
    assert_eq!(backoff_millis(4), 800);
    assert_eq!(backoff_millis(5), 1000);
    assert_eq!(backoff_millis(usize::MAX), 1000);
}

#[test]
fn server_errors_are_retried_while_attempts_remain() {
    assert_eq!(
        next_step(0, 3, AttemptOutcome::Answered(503)),
        RetryStep::Retry { attempt: 1, delay_ms: 100 }
    );
    assert_eq!(
        next_step(1, 3, AttemptOutcome::Answered(500)),
        RetryStep::Retry { attempt: 2, delay_ms: 200 }
    );
    assert_eq!(next_step(2, 3, AttemptOutcome::Answered(503)), RetryStep::Deliver);
    assert_eq!(next_step(0, 1, AttemptOutcome::Answered(503)), RetryStep::Deliver);
}

#[test]
fn client_errors_are_never_retried() {
    assert_eq!(next_step(0, 3, AttemptOutcome::Answered(404)), RetryStep::Deliver);
    assert_eq!(next_step(0, 3, AttemptOutcome::Answered(429)), RetryStep::Deliver);
    assert_eq!(next_step(0, 3, AttemptOutcome::Answered(200)), RetryStep::Deliver);
}

#[test]
fn transport_failures_retry_only_when_retryable() {
    assert_eq!(
        next_step(0, 3, AttemptOutcome::TransportFailed { retryable: true }),
        RetryStep::Retry { attempt: 1, delay_ms: 100 }
    );
    assert_eq!(
        next_step(0, 3, AttemptOutcome::TransportFailed { retryable: false }),
        RetryStep::Fail
    );
    assert_eq!(
        next_step(2, 3, AttemptOutcome::TransportFailed { retryable: true }),
        RetryStep::Fail
    );
}
