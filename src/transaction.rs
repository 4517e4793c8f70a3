use vstd::prelude::*;
use vstd::string::*;
use crate::config::{isolation_name, ThemisClientConfig, TransactionOptions};
use crate::entity::{blob_body, blob_envelope};
use crate::error::ThemisError;
use crate::json::{entry_models, object_model, Json, JsonModel, JsonNumber};
use crate::query::optional_entry;
use crate::routing::{entity_key_of, entity_target, shard_index_of, urn_of};
use crate::text::{join2, owned};

verus! {

/// The body that starts a transaction: `{isolation_level, timeout?}`.
pub open spec fn begin_payload_spec(options: TransactionOptions) -> JsonModel {
    JsonModel::Object(
        seq![("isolation_level"@, JsonModel::String(isolation_name(options.isolation_level)))]
            + optional_entry(
            options.timeout_ms is Some,
            "timeout"@,
            JsonModel::Number(JsonNumber::UInt(options.timeout_ms->0)),
        ),
    )
}

/// The request that starts a transaction: its URL on the primary endpoint, and its body.
pub fn begin_request(config: &ThemisClientConfig, options: &TransactionOptions) -> (r: Result<
    (String, Json),
    ThemisError,
>)
    ensures
        config.endpoints@.len() == 0 ==> (r matches Err(e) && e is InvalidConfig),
        config.endpoints@.len() > 0 ==> (r matches Ok((url, body)) && url@
            == config.endpoints@[0]@ + "/transaction/begin"@ && body.model()
            == begin_payload_spec(*options)),
{
    let primary = config.primary_endpoint()?;
    let url = primary.concat("/transaction/begin");
    let mut entries: Vec<(String, Json)> = Vec::new();
    entries.push((owned("isolation_level"), Json::String(options.isolation_level.wire_name())));
    match options.timeout_ms {
        Some(t) => {
            entries.push((owned("timeout"), Json::Number(JsonNumber::UInt(t))));
        },
        None => {},
    }
    proof {
        object_model(entries);
        assert(entry_models(entries@) =~= begin_payload_spec(*options)->Object_0);
    }
    Ok((url, Json::Object(entries)))
}

/// A transaction as the client holds it: its identifier, and whether it may still be used.
/// It starts active and becomes inactive, for good, when committed or rolled back.
#[derive(Debug)]
pub struct TransactionState {
    id: String,
    active: bool,
}

/// The body that ends a transaction: `{transaction_id}`.
pub open spec fn end_payload_spec(id: Seq<char>) -> JsonModel {
    JsonModel::Object(seq![("transaction_id"@, JsonModel::String(id))])
}

impl TransactionState {
    pub closed spec fn id_spec(&self) -> Seq<char> {
        self.id@
    }

    pub closed spec fn active_spec(&self) -> bool {
        self.active
    }

    /// Reads the answer to a begin request: an active transaction when it carries a non-empty
    /// `transaction_id` string.
    pub fn from_begin_response(payload: &Json) -> (r: Result<TransactionState, ThemisError>)
        ensures
            match payload.model().str_field("transaction_id"@) {
                Some(id) => if id.len() > 0 {
                    r matches Ok(t) && t.id_spec() == id && t.active_spec()
                } else {
                    r matches Err(e) && e is Transaction
                },
                None => r matches Err(e) && e is Transaction,
            },
    {
        match payload.str_field("transaction_id") {
            Some(id) => {
                if id.as_str().unicode_len() > 0 {
                    return Ok(TransactionState { id: id.clone(), active: true });
                }
            },
            None => {},
        }
        Err(ThemisError::Transaction(owned("missing transaction_id in response")))
    }

    /// The transaction's identifier.
    pub fn transaction_id(&self) -> (r: &str)
        ensures
            r@ == self.id_spec(),
    {
        self.id.as_str()
    }

    /// Whether the transaction may still be used.
    pub fn is_active(&self) -> (r: bool)
        ensures
            r == self.active_spec(),
    {
        self.active
    }

    /// Refuses a finished transaction.
    pub fn ensure_active(&self) -> (r: Result<(), ThemisError>)
        ensures
            r is Ok <==> self.active_spec(),
            r matches Err(e) ==> e is Transaction,
    {
        if !self.active {
            return Err(ThemisError::Transaction(owned("transaction is not active")));
        }
        Ok(())
    }

    /// The headers that bind a request to the transaction: `X-Transaction-Id: <id>`.
    pub fn headers(&self) -> (r: Vec<(String, String)>)
        ensures
            r@.len() == 1,
            r@[0].0@ == "X-Transaction-Id"@,
            r@[0].1@ == self.id_spec(),
    {
        let mut h: Vec<(String, String)> = Vec::new();
        h.push((owned("X-Transaction-Id"), self.id.clone()));
        h
    }

    /// The URL of an entity read, write or delete within the transaction. It routes as outside
    /// a transaction; a finished transaction is refused.
    pub fn entity_target(
        &self,
        endpoints: &Vec<String>,
        namespace: &str,
        model: &str,
        collection: &str,
        uuid: &str,
    ) -> (r: Result<String, ThemisError>)
        ensures
            !self.active_spec() ==> (r matches Err(e) && e is Transaction),
            self.active_spec() && endpoints@.len() == 0 ==> (r matches Err(e) && e is Topology),
            self.active_spec() && endpoints@.len() > 0 ==> (r matches Ok(u) && u@ == endpoints@[
                shard_index_of(urn_of(model@, namespace@, collection@, uuid@), endpoints@.len())
                    as int]@ + "/entities/"@ + entity_key_of(model@, namespace@, collection@, uuid@)),
    {
        self.ensure_active()?;
        entity_target(endpoints, namespace, model, collection, uuid)
    }

    /// The request that reads an entity within the transaction: its URL and the headers that
    /// bind it to the transaction. A finished transaction is refused before any request is
    /// formed.
    pub fn get(
        &self,
        endpoints: &Vec<String>,
        namespace: &str,
        model: &str,
        collection: &str,
        uuid: &str,
    ) -> (r: Result<(String, Vec<(String, String)>), ThemisError>)
        ensures
            !self.active_spec() ==> (r matches Err(e) && e is Transaction),
            self.active_spec() && endpoints@.len() == 0 ==> (r matches Err(e) && e is Topology),
            self.active_spec() && endpoints@.len() > 0 ==> (r matches Ok((u, h)) && u@ == endpoints@[
                shard_index_of(urn_of(model@, namespace@, collection@, uuid@), endpoints@.len())
                    as int]@ + "/entities/"@ + entity_key_of(model@, namespace@, collection@, uuid@)
                && h@.len() == 1 && h@[0].0@ == "X-Transaction-Id"@ && h@[0].1@ == self.id_spec()),
    {
        let url = self.entity_target(endpoints, namespace, model, collection, uuid)?;
        Ok((url, self.headers()))
    }

    /// The request that writes an entity within the transaction: its URL, the `{"blob": ...}`
    /// body holding the encoded entity, and the headers that bind it to the transaction. A
    /// finished transaction is refused before any request is formed.
    pub fn put(
        &self,
        endpoints: &Vec<String>,
        namespace: &str,
        model: &str,
        collection: &str,
        uuid: &str,
        encoded: String,
    ) -> (r: Result<(String, Json, Vec<(String, String)>), ThemisError>)
        ensures
            !self.active_spec() ==> (r matches Err(e) && e is Transaction),
            self.active_spec() && endpoints@.len() == 0 ==> (r matches Err(e) && e is Topology),
            self.active_spec() && endpoints@.len() > 0 ==> (r matches Ok((u, b, h)) && u@ == endpoints@[
                shard_index_of(urn_of(model@, namespace@, collection@, uuid@), endpoints@.len())
                    as int]@ + "/entities/"@ + entity_key_of(model@, namespace@, collection@, uuid@)
                && b.model() == blob_envelope(encoded@) && h@.len() == 1 && h@[0].0@
                == "X-Transaction-Id"@ && h@[0].1@ == self.id_spec()),
    {
        let url = self.entity_target(endpoints, namespace, model, collection, uuid)?;
        Ok((url, blob_body(encoded), self.headers()))
    }

    /// The request that deletes an entity within the transaction: its URL and the headers that
    /// bind it to the transaction. A finished transaction is refused before any request is
    /// formed.
    pub fn delete(
        &self,
        endpoints: &Vec<String>,
        namespace: &str,
        model: &str,
        collection: &str,
        uuid: &str,
    ) -> (r: Result<(String, Vec<(String, String)>), ThemisError>)
        ensures
            !self.active_spec() ==> (r matches Err(e) && e is Transaction),
            self.active_spec() && endpoints@.len() == 0 ==> (r matches Err(e) && e is Topology),
            self.active_spec() && endpoints@.len() > 0 ==> (r matches Ok((u, h)) && u@ == endpoints@[
                shard_index_of(urn_of(model@, namespace@, collection@, uuid@), endpoints@.len())
                    as int]@ + "/entities/"@ + entity_key_of(model@, namespace@, collection@, uuid@)
                && h@.len() == 1 && h@[0].0@ == "X-Transaction-Id"@ && h@[0].1@ == self.id_spec()),
    {
        let url = self.entity_target(endpoints, namespace, model, collection, uuid)?;
        Ok((url, self.headers()))
    }

    /// The URL of a query within the transaction: always on the primary endpoint. A finished
    /// transaction is refused.
    pub fn query_target(&self, config: &ThemisClientConfig) -> (r: Result<String, ThemisError>)
        ensures
            !self.active_spec() ==> (r matches Err(e) && e is Transaction),
            self.active_spec() && config.endpoints@.len() == 0 ==> (r matches Err(e)
                && e is InvalidConfig),
            self.active_spec() && config.endpoints@.len() > 0 ==> (r matches Ok(u) && u@
                == config.endpoints@[0]@ + "/query/aql"@),
    {
        self.ensure_active()?;
        let primary = config.primary_endpoint()?;
        Ok(primary.concat("/query/aql"))
    }

    fn end_request(&self, config: &ThemisClientConfig, path: &str) -> (r: Result<
        (String, Json),
        ThemisError,
    >)
        ensures
            !self.active_spec() ==> (r matches Err(e) && e is Transaction),
            self.active_spec() && config.endpoints@.len() == 0 ==> (r matches Err(e)
                && e is InvalidConfig),
            self.active_spec() && config.endpoints@.len() > 0 ==> (r matches Ok((url, body))
                && url@ == config.endpoints@[0]@ + path@ && body.model() == end_payload_spec(
                self.id_spec(),
            )),
    {
        self.ensure_active()?;
        let primary = config.primary_endpoint()?;
        let url = join2(primary.as_str(), path);
        let mut entries: Vec<(String, Json)> = Vec::new();
        entries.push((owned("transaction_id"), Json::String(self.id.clone())));
        proof {
            object_model(entries);
            assert(entry_models(entries@) =~= end_payload_spec(self.id_spec())->Object_0);
        }
        Ok((url, Json::Object(entries)))
    }

    /// The request that commits the transaction. A finished transaction is refused.
    pub fn commit_request(&self, config: &ThemisClientConfig) -> (r: Result<(String, Json), ThemisError>)
        ensures
            !self.active_spec() ==> (r matches Err(e) && e is Transaction),
            self.active_spec() && config.endpoints@.len() == 0 ==> (r matches Err(e)
                && e is InvalidConfig),
            self.active_spec() && config.endpoints@.len() > 0 ==> (r matches Ok((url, body))
                && url@ == config.endpoints@[0]@ + "/transaction/commit"@ && body.model()
                == end_payload_spec(self.id_spec())),
    {
        self.end_request(config, "/transaction/commit")
    }

    /// The request that rolls the transaction back. A finished transaction is refused.
    pub fn rollback_request(&self, config: &ThemisClientConfig) -> (r: Result<
        (String, Json),
        ThemisError,
    >)
        ensures
            !self.active_spec() ==> (r matches Err(e) && e is Transaction),
            self.active_spec() && config.endpoints@.len() == 0 ==> (r matches Err(e)
                && e is InvalidConfig),
            self.active_spec() && config.endpoints@.len() > 0 ==> (r matches Ok((url, body))
                && url@ == config.endpoints@[0]@ + "/transaction/rollback"@ && body.model()
                == end_payload_spec(self.id_spec())),
    {
        self.end_request(config, "/transaction/rollback")
    }

    /// Marks the transaction finished, after a commit or rollback went through.
    pub fn finish(&mut self)
        ensures
            !final(self).active_spec(),
            final(self).id_spec() == old(self).id_spec(),
    {
        self.active = false;
    }
}

} // verus!
