use themisdb_sdk::{
    begin_request, IsolationLevel, Json, JsonNumber, ThemisClientConfig, ThemisError,
    TransactionOptions, TransactionState,
};

fn config() -> ThemisClientConfig {
    ThemisClientConfig { endpoints: vec!["http://localhost:8080".to_string()], ..Default::default() }
}

fn begin_answer(id: &str) -> Json {
    Json::Object(vec![("transaction_id".to_string(), Json::String(id.to_string()))])
}

#[test]
fn transaction_has_active_state() {
    let tx = TransactionState::from_begin_response(&begin_answer("tx-1")).expect("transaction begins");
    assert!(tx.is_active());
    assert_eq!(tx.transaction_id(), "tx-1");
    assert_eq!(tx.headers(), vec![("X-Transaction-Id".to_string(), "tx-1".to_string())]);
}

#[test]
fn transaction_isolation_levels() {
    let options_rc = TransactionOptions {
        isolation_level: IsolationLevel::ReadCommitted,
        timeout_ms: None,
    };

    let options_snapshot = TransactionOptions {
        isolation_level: IsolationLevel::Snapshot,
        timeout_ms: Some(5000),
    };

    assert_eq!(options_rc.isolation_level, IsolationLevel::ReadCommitted);
    assert_eq!(options_snapshot.isolation_level, IsolationLevel::Snapshot);
    assert_eq!(options_snapshot.timeout_ms, Some(5000));
}

#[test]
fn transaction_default_isolation() {
    let options = TransactionOptions::default();
    assert_eq!(options.isolation_level, IsolationLevel::ReadCommitted);
    assert_eq!(options.timeout_ms, None);
}

#[test]
fn begin_request_names_level_and_timeout() {
    let options = TransactionOptions { isolation_level: IsolationLevel::Snapshot, timeout_ms: Some(5000) };
    let (url, body) = begin_request(&config(), &options).unwrap();
    assert_eq!(url, "http://localhost:8080/transaction/begin");
    assert_eq!(
        body,
        Json::Object(vec![
            ("isolation_level".to_string(), Json::String("SNAPSHOT".to_string())),
            ("timeout".to_string(), Json::Number(JsonNumber::UInt(5000))),
        ])
    );
    let empty = ThemisClientConfig::default();
    assert!(matches!(begin_request(&empty, &options), Err(ThemisError::InvalidConfig(_))));
}

#[test]
fn begin_without_id_is_transaction_error() {
    let none = TransactionState::from_begin_response(&Json::Object(vec![]));
    assert!(matches!(none, Err(ThemisError::Transaction(_))));
    let empty = TransactionState::from_begin_response(&begin_answer(""));
    assert!(matches!(empty, Err(ThemisError::Transaction(_))));
}

#[test]
fn transaction_error_on_inactive() {
    let config = config();
    let mut tx = TransactionState::from_begin_response(&begin_answer("tx-2")).unwrap();
    let (url, body) = tx.commit_request(&config).expect("commit succeeds");
    assert_eq!(url, "http://localhost:8080/transaction/commit");
    assert_eq!(
        body,
        Json::Object(vec![("transaction_id".to_string(), Json::String("tx-2".to_string()))])
    );
    tx.finish();
    assert!(!tx.is_active());
    assert!(matches!(tx.commit_request(&config), Err(ThemisError::Transaction(_))));
    assert!(matches!(tx.rollback_request(&config), Err(ThemisError::Transaction(_))));
    assert!(matches!(tx.query_target(&config), Err(ThemisError::Transaction(_))));
    assert!(matches!(
        tx.entity_target(&config.endpoints, "default", "relational", "accounts", "acc1"),
        Err(ThemisError::Transaction(_))
    ));
    assert!(matches!(tx.ensure_active(), Err(ThemisError::Transaction(_))));
    let endpoints = &config.endpoints;
    assert!(matches!(
        tx.get(endpoints, "default", "relational", "accounts", "acc1"),
        Err(ThemisError::Transaction(_))
    ));
    assert!(matches!(
        tx.put(endpoints, "default", "relational", "accounts", "acc1", "{}".to_string()),
        Err(ThemisError::Transaction(_))
    ));
    assert!(matches!(
        tx.delete(endpoints, "default", "relational", "accounts", "acc1"),
        Err(ThemisError::Transaction(_))
    ));
}

#[test]
fn active_transaction_routes_like_the_client() {
    let config = config();
    let tx = TransactionState::from_begin_response(&begin_answer("tx-3")).unwrap();
    assert_eq!(tx.query_target(&config).unwrap(), "http://localhost:8080/query/aql");
    assert_eq!(
        tx.entity_target(&config.endpoints, "default", "relational", "accounts", "acc1").unwrap(),
        "http://localhost:8080/entities/relational.default.accounts:acc1"
    );
    let header = vec![("X-Transaction-Id".to_string(), "tx-3".to_string())];
    let (url, headers) = tx.get(&config.endpoints, "default", "relational", "accounts", "acc1").unwrap();
    assert_eq!(url, "http://localhost:8080/entities/relational.default.accounts:acc1");
    assert_eq!(headers, header);
    let (url, body, headers) = tx
        .put(&config.endpoints, "default", "relational", "accounts", "acc1", "{\"balance\":1}".to_string())
        .unwrap();
    assert_eq!(url, "http://localhost:8080/entities/relational.default.accounts:acc1");
    assert_eq!(
        body,
        Json::Object(vec![("blob".to_string(), Json::String("{\"balance\":1}".to_string()))])
    );
    assert_eq!(headers, header);
    let (url, headers) = tx.delete(&config.endpoints, "default", "relational", "accounts", "acc1").unwrap();
    assert_eq!(url, "http://localhost:8080/entities/relational.default.accounts:acc1");
    assert_eq!(headers, header);
    let (url, _) = tx.rollback_request(&config).unwrap();
    assert_eq!(url, "http://localhost:8080/transaction/rollback");
}
