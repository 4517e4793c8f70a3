use themisdb_sdk::error::decimal_text;
use themisdb_sdk::{
    blob_body, collect_results, decode_entity, entity_status, extract_endpoints,
    merge_query_results, parse_query_result, query_endpoints, query_payload, rank_hits,
    vector_payload, vector_response, BatchGetResult, EntityPayload, EntityStatus, Json,
    JsonNumber, QueryOptions, QueryResult, ThemisClientConfig, ThemisError, TopologyCache,
};

fn text(s: &str) -> Json {
    Json::String(s.to_string())
}

fn object(entries: Vec<(&str, Json)>) -> Json {
    Json::Object(entries.into_iter().map(|(k, v)| (k.to_string(), v)).collect())
}

fn number(n: u64) -> Json {
    Json::Number(JsonNumber::UInt(n))
}

#[test]
fn decode_entity_reads_entity_field() {
    let payload = object(vec![("entity", object(vec![("name", text("Alice"))]))]);
    let entity = decode_entity(payload);
    assert_eq!(entity, EntityPayload::Value(object(vec![("name", text("Alice"))])));
}

#[test]
fn decode_entity_reads_blob_field() {
    let payload = object(vec![("blob", text("{\"name\":\"Bob\"}"))]);
    let entity = decode_entity(payload);
    assert_eq!(entity, EntityPayload::Text("{\"name\":\"Bob\"}".to_string()));
    if let EntityPayload::Text(t) = entity {
        let parsed: serde_json::Value = serde_json::from_str(&t).expect("decode succeeds");
        assert_eq!(parsed["name"], "Bob");
    }
}

#[test]
fn decode_entity_falls_back_to_root() {
    let payload = object(vec![("name", text("Clara"))]);
    let entity = decode_entity(payload);
    assert_eq!(entity, EntityPayload::Value(object(vec![("name", text("Clara"))])));
}

#[test]
fn decode_entity_ignores_non_string_blob() {
    let payload = object(vec![("blob", number(7))]);
    assert_eq!(decode_entity(payload), EntityPayload::Value(object(vec![("blob", number(7))])));
}

#[test]
fn blob_envelope_round_trips_text() {
    let body = blob_body("raw-json-string".to_string());
    assert_eq!(body, object(vec![("blob", text("raw-json-string"))]));
    assert_eq!(decode_entity(body), EntityPayload::Text("raw-json-string".to_string()));
}

#[test]
fn entity_statuses_are_classified() {
    assert_eq!(entity_status(404), EntityStatus::Absent);
    assert_eq!(entity_status(200), EntityStatus::Done);
    assert_eq!(entity_status(204), EntityStatus::Done);
    assert_eq!(entity_status(500), EntityStatus::Failed);
    assert_eq!(entity_status(403), EntityStatus::Failed);
}

#[test]
fn http_error_message_carries_status_and_body() {
    let e = ThemisError::Http { status: 503, body: "busy".to_string() };
    assert_eq!(e.message(), "http error: 503 busy");
    assert_eq!(ThemisError::Topology("x".to_string()).message(), "topology error: x");
    assert_eq!(ThemisError::Transaction("y".to_string()).message(), "transaction error: y");
    let e = ThemisError::Http { status: 7, body: String::new() };
    assert_eq!(e.message(), "http error: 7 ");
}

#[test]
fn decimal_text_writes_digits() {
    assert_eq!(decimal_text(0), "0");
    assert_eq!(decimal_text(9), "9");
    assert_eq!(decimal_text(10), "10");
    assert_eq!(decimal_text(404), "404");
    assert_eq!(decimal_text(u16::MAX), "65535");
}

#[test]
fn batch_places_each_outcome_in_its_list() {
    let uuids: Vec<String> = vec!["a", "b", "c"].into_iter().map(String::from).collect();
    let outcomes = vec![Err(ThemisError::Serde("bad".to_string())), Ok(Some(2)), Ok(None)];
    let r: BatchGetResult<i32> = BatchGetResult::from_outcomes(&uuids, outcomes);
    assert_eq!(r.found, vec![("b".to_string(), 2)]);
    assert_eq!(r.missing, vec!["c".to_string()]);
    assert_eq!(r.errors, vec![("a".to_string(), "serialization error: bad".to_string())]);
}

#[test]
fn query_payload_omits_absent_options() {
    let payload = query_payload("FOR d IN c RETURN d", QueryOptions::default());
    assert_eq!(payload, object(vec![("query", text("FOR d IN c RETURN d"))]));
}

#[test]
fn query_payload_includes_present_options() {
    let options = QueryOptions {
        params: Some(vec![("x".to_string(), number(1))]),
        use_cursor: true,
        cursor: Some("c1".to_string()),
        batch_size: Some(50),
    };
    let payload = query_payload("Q", options);
    assert_eq!(
        payload,
        object(vec![
            ("query", text("Q")),
            ("params", object(vec![("x", number(1))])),
            ("use_cursor", Json::Bool(true)),
            ("cursor", text("c1")),
            ("batch_size", number(50)),
        ])
    );
}

#[test]
fn query_targets_broadcast_or_single_shard() {
    let endpoints = vec!["http://a".to_string(), "http://b".to_string(), "http://c".to_string()];
    let all = query_endpoints("FOR d IN c RETURN d", &endpoints).unwrap();
    assert_eq!(all, endpoints);
    let q = "SELECT * FROM users WHERE _key == \"urn:themis:x\"";
    let one = query_endpoints(q, &endpoints).unwrap();
    assert_eq!(one, vec!["http://c".to_string()]);
    let none: Vec<String> = Vec::new();
    assert!(matches!(query_endpoints(q, &none), Err(ThemisError::Topology(_))));
}

#[test]
fn parse_query_result_prefers_entities() {
    let payload = object(vec![
        ("entities", Json::Array(vec![object(vec![("entity", number(1))]), number(2)])),
        ("has_more", Json::Bool(true)),
        ("next_cursor", text("c")),
    ]);
    let r = parse_query_result(payload);
    assert_eq!(r.items, vec![EntityPayload::Value(number(1)), EntityPayload::Value(number(2))]);
    assert!(!r.has_more);
    assert_eq!(r.next_cursor, None);
}

#[test]
fn parse_query_result_reads_items_and_cursor() {
    let payload = object(vec![
        ("items", Json::Array(vec![object(vec![("blob", text("\"a\""))])])),
        ("has_more", Json::Bool(true)),
        ("next_cursor", text("c2")),
    ]);
    let r = parse_query_result(payload);
    assert_eq!(r.items, vec![EntityPayload::Text("\"a\"".to_string())]);
    assert!(r.has_more);
    assert_eq!(r.next_cursor, Some("c2".to_string()));
    let empty = parse_query_result(object(vec![]));
    assert!(empty.items.is_empty());
    assert!(!empty.has_more);
}

fn part(items: Vec<u64>, has_more: bool, cursor: Option<&str>) -> QueryResult<u64> {
    QueryResult {
        items,
        has_more,
        next_cursor: cursor.map(|c| c.to_string()),
        raw: number(if has_more { 1 } else { 0 }),
    }
}

#[test]
fn fan_out_merge_keeps_order_and_ors_has_more() {
    let parts = vec![
        part(vec![1, 2], false, Some("a")),
        part(vec![3], true, Some("b")),
        part(vec![4, 5], false, None),
    ];
    let merged = merge_query_results(parts);
    assert_eq!(merged.items, vec![1, 2, 3, 4, 5]);
    assert!(merged.has_more);
    assert_eq!(merged.next_cursor, None);
    assert_eq!(merged.raw, Json::Array(vec![number(0), number(1), number(0)]));
}

#[test]
fn single_shard_result_is_returned_unchanged() {
    let merged = merge_query_results(vec![part(vec![7], true, Some("c"))]);
    assert_eq!(merged.items, vec![7]);
    assert!(merged.has_more);
    assert_eq!(merged.next_cursor, Some("c".to_string()));
    let none = merge_query_results(Vec::<QueryResult<u64>>::new());
    assert!(none.items.is_empty());
    assert_eq!(none.raw, Json::Null);
}

fn hit(id: &str) -> Json {
    object(vec![("id", text(id))])
}

#[test]
fn vector_merge_keeps_global_top_k() {
    let shard1 = object(vec![("results", Json::Array(vec![hit("a"), hit("b")]))]);
    let shard2 = object(vec![("results", Json::Array(vec![hit("c"), hit("d")]))]);
    let bodies = vec![shard1, shard2];
    let hits = collect_results(&bodies);
    assert_eq!(hits, vec![hit("a"), hit("b"), hit("c"), hit("d")]);
    // keys that order like the scores 0.9, 0.2, 0.95, 0.1
    let keys = vec![90, 20, 95, 10];
    let order = rank_hits(&keys, Some(2));
    assert_eq!(order, vec![2, 0]);
    let response = vector_response(&hits, &order, bodies);
    match response {
        Json::Object(entries) => {
            assert_eq!(entries[0].0, "results");
            assert_eq!(entries[0].1, Json::Array(vec![hit("c"), hit("a")]));
            assert_eq!(entries[1].0, "partials");
        }
        _ => panic!("not an object"),
    }
}

#[test]
fn ranking_is_stable_and_complete_without_limit() {
    let keys = vec![5, 7, 5, 7, 1];
    assert_eq!(rank_hits(&keys, None), vec![1, 3, 0, 2, 4]);
    assert_eq!(rank_hits(&keys, Some(10)), vec![1, 3, 0, 2, 4]);
    assert_eq!(rank_hits(&keys, Some(0)), Vec::<usize>::new());
    assert_eq!(rank_hits(&Vec::new(), Some(3)), Vec::<usize>::new());
}

#[test]
fn vector_payload_lists_present_fields() {
    let p = vector_payload(vec![number(1)], None, Some(2));
    assert_eq!(p, object(vec![("vector", Json::Array(vec![number(1)])), ("k", number(2))]));
}

#[test]
fn topology_endpoints_are_extracted_and_normalized() {
    let payload = object(vec![(
        "shards",
        Json::Array(vec![
            text("http://s1/"),
            object(vec![
                ("endpoint", text("http://s2")),
                ("http_endpoint", text("http://s3//")),
                ("endpoints", Json::Array(vec![text("http://s4/"), number(3), text("http://s1")])),
            ]),
            number(9),
        ]),
    )]);
    assert_eq!(
        extract_endpoints(&payload),
        vec!["http://s1", "http://s2", "http://s3", "http://s4", "http://s1"]
    );
}

#[test]
fn empty_topology_falls_back_to_configured_endpoints() {
    let fallback = vec!["http://configured".to_string()];
    let mut cache = TopologyCache::new();
    assert!(cache.needs_discovery());
    let r = cache.complete_discovery(Ok(object(vec![("shards", Json::Array(vec![]))])), &fallback);
    assert!(matches!(r, Err(ThemisError::Topology(_))));
    assert!(!cache.needs_discovery());
    assert_eq!(cache.current_endpoints(&Vec::new()), fallback);
}

#[test]
fn discovered_topology_is_kept() {
    let fallback = vec!["http://configured".to_string()];
    let mut cache = TopologyCache::new();
    let r = cache.complete_discovery(Ok(object(vec![("shards", Json::Array(vec![text("http://x/")]))])), &fallback);
    assert!(r.is_ok());
    let again = cache.complete_discovery(Err(ThemisError::Serde("late".to_string())), &fallback);
    assert!(again.is_ok());
    assert_eq!(cache.current_endpoints(&fallback), vec!["http://x".to_string()]);
}

#[test]
fn failed_discovery_falls_back_and_surfaces_error() {
    let fallback = vec!["http://configured".to_string()];
    let mut cache = TopologyCache::new();
    let r = cache.complete_discovery(Err(ThemisError::Http { status: 500, body: String::new() }), &fallback);
    assert!(matches!(r, Err(ThemisError::Http { status: 500, .. })));
    assert_eq!(cache.current_endpoints(&Vec::new()), fallback);
}

#[test]
fn batch_partitions_every_uuid() {
    let uuids: Vec<String> = vec!["u1", "u2", "u3", "u4"].into_iter().map(String::from).collect();
    let outcomes = vec![
        Ok(Some(10)),
        Ok(None),
        Err(ThemisError::Topology("shard unreachable".to_string())),
        Ok(Some(40)),
    ];
    let r: BatchGetResult<i32> = BatchGetResult::from_outcomes(&uuids, outcomes);
    assert_eq!(r.found, vec![("u1".to_string(), 10), ("u4".to_string(), 40)]);
    assert_eq!(r.missing, vec!["u2".to_string()]);
    assert_eq!(r.errors, vec![("u3".to_string(), "topology error: shard unreachable".to_string())]);
}

#[test]
fn batch_last_outcome_wins_for_repeated_uuid() {
    let mut r: BatchGetResult<i32> = BatchGetResult::new();
    r.record("u".to_string(), Ok(Some(1)));
    r.record("u".to_string(), Ok(None));
    assert!(r.found.is_empty());
    assert_eq!(r.missing, vec!["u".to_string()]);
    assert!(r.errors.is_empty());
}

#[test]
fn config_defaults_and_checks() {
    let config = ThemisClientConfig::default();
    assert!(config.endpoints.is_empty());
    assert_eq!(config.namespace, "default");
    assert_eq!(config.timeout_ms, 30_000);
    assert_eq!(config.max_retries, 3);
    assert!(matches!(config.check(), Err(ThemisError::InvalidConfig(_))));
    let config = ThemisClientConfig { endpoints: vec!["http://h".to_string()], ..Default::default() };
    assert!(config.check().is_ok());
    assert_eq!(config.metadata_url(), "http://h/_admin/cluster/topology");
    assert_eq!(config.health_url().unwrap(), "http://h/health");
    let relative = ThemisClientConfig {
        endpoints: vec!["http://h".to_string()],
        metadata_endpoint: Some("/meta".to_string()),
        ..Default::default()
    };
    assert_eq!(relative.metadata_url(), "http://h/meta");
    let absolute = ThemisClientConfig {
        endpoints: vec!["http://h".to_string()],
        metadata_endpoint: Some("https://m/topo".to_string()),
        max_retries: 0,
        ..Default::default()
    };
    assert_eq!(absolute.metadata_url(), "https://m/topo");
    assert_eq!(absolute.max_attempts(), 1);
}

#[test]
fn json_lookup_takes_first_member_and_copies_deeply() {
    let doc = object(vec![
        ("a", number(1)),
        ("b", text("x")),
        ("a", number(2)),
        ("c", Json::Array(vec![object(vec![("d", Json::Bool(true))])])),
    ]);
    assert_eq!(doc.get("a"), Some(&number(1)));
    assert_eq!(doc.str_field("b"), Some(&"x".to_string()));
    assert_eq!(doc.str_field("a"), None);
    assert_eq!(doc.get("z"), None);
    assert_eq!(text("q").get("a"), None);
    assert_eq!(doc.duplicate(), doc);
}
