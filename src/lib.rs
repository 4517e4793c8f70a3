//! Routing and resilience core of a client for a sharded multi-model database:
//! shard selection, topology caching, retry decisions, query and vector-search
//! merging, and the transaction handle's state machine. The HTTP exchanges
//! themselves are made by the caller, which hands each answer back here.

mod text;
pub mod json;
pub mod error;
pub mod config;
pub mod routing;
pub mod topology;
pub mod retry;
pub mod entity;
pub mod query;
pub mod vector;
pub mod transaction;
pub mod batch;

pub use batch::BatchGetResult;
pub use config::{
    default_max_retries, default_namespace, default_timeout_ms, IsolationLevel,
    ThemisClientConfig, TransactionOptions,
};
pub use entity::{blob_body, decode_entity, entity_status, EntityPayload, EntityStatus};
pub use error::ThemisError;
pub use json::{Json, JsonNumber};
pub use query::{
    merge_query_results, parse_query_result, query_endpoints, query_payload, query_url,
    QueryOptions, QueryResult,
};
pub use retry::{
    backoff, backoff_millis, is_success, next_step, should_retry, AttemptOutcome, RetryStep,
};
pub use routing::{
    build_entity_key, build_urn, entity_target, entity_url, holds_urn_marker,
    is_single_shard_query, normalize, pick_endpoint, resolve_endpoint, resolve_query_endpoint,
    stable_hash,
};
pub use topology::{extract_endpoints, TopologyCache};
pub use transaction::{begin_request, TransactionState};
pub use vector::{collect_results, rank_hits, vector_payload, vector_response, vector_url};
