use vstd::prelude::*;
use vstd::string::*;
use crate::error::ThemisError;
use crate::text::{has_prefix, join2, owned, starts_with_text};

verus! {

/// Settings of a client, fixed once the client is built.
#[derive(Debug, Clone)]
pub struct ThemisClientConfig {
    /// Endpoint URLs in order; the first is the primary endpoint.
    pub endpoints: Vec<String>,
    pub namespace: String,
    pub timeout_ms: u64,
    /// Where topology is discovered: an absolute URL, or a path under the primary endpoint.
    pub metadata_endpoint: Option<String>,
    pub max_retries: usize,
}

/// The namespace used when none is given.
pub fn default_namespace() -> (r: String)
    ensures
        r@ == "default"@,
{
    owned("default")
}

/// The request timeout used when none is given, in milliseconds.
pub fn default_timeout_ms() -> (r: u64)
    ensures
        r == 30_000,
{
    30_000
}

/// The number of attempts used when none is given.
pub fn default_max_retries() -> (r: usize)
    ensures
        r == 3,
{
    3
}

impl Default for ThemisClientConfig {
    fn default() -> (r: Self)
        ensures
            r.endpoints@.len() == 0,
            r.namespace@ == "default"@,
            r.timeout_ms == 30_000,
            r.metadata_endpoint is None,
            r.max_retries == 3,
    {
        ThemisClientConfig {
            endpoints: Vec::new(),
            namespace: default_namespace(),
            timeout_ms: default_timeout_ms(),
            metadata_endpoint: None,
            max_retries: default_max_retries(),
        }
    }
}

/// The path of topology discovery under the primary endpoint.
pub open spec fn topology_path() -> Seq<char> {
    "/_admin/cluster/topology"@
}

impl ThemisClientConfig {
    /// The configured endpoints, as text.
    pub open spec fn endpoint_views(&self) -> Seq<Seq<char>> {
        self.endpoints@.map_values(|e: String| e@)
    }

    /// The URL of topology discovery.
    pub open spec fn metadata_url_spec(&self) -> Seq<char>
        recommends
            self.endpoints@.len() > 0,
    {
        match self.metadata_endpoint {
            Some(m) => if has_prefix(m@, "http"@) {
                m@
            } else {
                self.endpoints@[0]@ + m@
            },
            None => self.endpoints@[0]@ + topology_path(),
        }
    }

    /// The number of attempts a request gets: `max_retries`, and at least one.
    pub open spec fn attempts_spec(&self) -> nat {
        if self.max_retries >= 1 {
            self.max_retries as nat
        } else {
            1
        }
    }

    /// Accepts a configuration with at least one endpoint.
    pub fn check(&self) -> (r: Result<(), ThemisError>)
        ensures
            r is Ok <==> self.endpoints@.len() > 0,
            r matches Err(e) ==> e is InvalidConfig,
    {
        if self.endpoints.len() == 0 {
            return Err(ThemisError::InvalidConfig(owned("endpoints must not be empty")));
        }
        Ok(())
    }

    /// The primary endpoint: the first configured one.
    pub fn primary_endpoint(&self) -> (r: Result<String, ThemisError>)
        ensures
            self.endpoints@.len() > 0 ==> (r matches Ok(p) && p@ == self.endpoints@[0]@),
            self.endpoints@.len() == 0 ==> (r matches Err(e) && e is InvalidConfig),
    {
        if self.endpoints.len() == 0 {
            return Err(ThemisError::InvalidConfig(owned("endpoints must not be empty")));
        }
        Ok(self.endpoints[0].clone())
    }

    /// The URL of the liveness probe on the primary endpoint.
    pub fn health_url(&self) -> (r: Result<String, ThemisError>)
        ensures
            self.endpoints@.len() > 0 ==> (r matches Ok(u) && u@ == self.endpoints@[0]@
                + "/health"@),
            self.endpoints@.len() == 0 ==> (r matches Err(e) && e is InvalidConfig),
    {
        let primary = self.primary_endpoint()?;
        Ok(primary.concat("/health"))
    }

    /// The URL of topology discovery.
    pub fn metadata_url(&self) -> (r: String)
        requires
            self.endpoints@.len() > 0,
        ensures
            r@ == self.metadata_url_spec(),
    {
        match &self.metadata_endpoint {
            Some(m) => {
                if starts_with_text(m.as_str(), "http") {
                    m.clone()
                } else {
                    join2(self.endpoints[0].as_str(), m.as_str())
                }
            },
            None => join2(self.endpoints[0].as_str(), "/_admin/cluster/topology"),
        }
    }

    /// The number of attempts a request gets.
    pub fn max_attempts(&self) -> (r: usize)
        ensures
            r == self.attempts_spec(),
    {
        if self.max_retries >= 1 {
            self.max_retries
        } else {
            1
        }
    }
}

/// How a transaction sees concurrent writes.
#[derive(Debug, Clone, Copy, PartialEq, Eq, Structural)]
pub enum IsolationLevel {
    ReadCommitted,
    Snapshot,
}

impl Default for IsolationLevel {
    fn default() -> (r: Self)
        ensures
            r == IsolationLevel::ReadCommitted,
    {
        IsolationLevel::ReadCommitted
    }
}

/// The name of an isolation level on the wire.
pub open spec fn isolation_name(level: IsolationLevel) -> Seq<char> {
    match level {
        IsolationLevel::ReadCommitted => "READ_COMMITTED"@,
        IsolationLevel::Snapshot => "SNAPSHOT"@,
    }
}

impl IsolationLevel {
    /// The name of the level on the wire.
    pub fn wire_name(&self) -> (r: String)
        ensures
            r@ == isolation_name(*self),
    {
        match self {
            IsolationLevel::ReadCommitted => owned("READ_COMMITTED"),
            IsolationLevel::Snapshot => owned("SNAPSHOT"),
        }
    }
}

/// How a transaction is started.
#[derive(Debug, Clone)]
pub struct TransactionOptions {
    pub isolation_level: IsolationLevel,
    pub timeout_ms: Option<u64>,
}

impl Default for TransactionOptions {
    fn default() -> (r: Self)
        ensures
            r.isolation_level == IsolationLevel::ReadCommitted,
            r.timeout_ms is None,
    {
        TransactionOptions { isolation_level: IsolationLevel::default(), timeout_ms: None }
    }
}

} // verus!
