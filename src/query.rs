use vstd::prelude::*;
use vstd::string::*;
use crate::entity::{decode_entity, entity_of, EntityModel, EntityPayload};
use crate::error::ThemisError;
use crate::json::{array_model, models_push, concat_all, concat_all_step, entry_models, object_model, Json, JsonModel, JsonNumber};
use crate::routing::{is_single_shard_query, lowercase_of, resolve_query_endpoint, shard_index_of, urn_marker};
use crate::text::{has_infix, join2, owned};
use crate::topology::texts;

verus! {

/// Options of a query; each one that is absent is left out of the request.
#[derive(Debug)]
pub struct QueryOptions {
    pub params: Option<Vec<(String, Json)>>,
    pub use_cursor: bool,
    pub cursor: Option<String>,
    pub batch_size: Option<u32>,
}

impl Default for QueryOptions {
    fn default() -> (r: Self)
        ensures
            r.params is None,
            !r.use_cursor,
            r.cursor is None,
            r.batch_size is None,
    {
        QueryOptions { params: None, use_cursor: false, cursor: None, batch_size: None }
    }
}

/// The outcome of a query: its items, whether more remain, where to continue, and what the
/// shards sent.
#[derive(Debug)]
pub struct QueryResult<T> {
    pub items: Vec<T>,
    pub has_more: bool,
    pub next_cursor: Option<String>,
    pub raw: Json,
}

impl<T> Default for QueryResult<T> {
    fn default() -> (r: Self)
        ensures
            r.items@.len() == 0,
            !r.has_more,
            r.next_cursor is None,
            r.raw.model() == JsonModel::Null,
    {
        QueryResult { items: Vec::new(), has_more: false, next_cursor: None, raw: Json::Null }
    }
}

/// A member `key: value` when `present`, else nothing.
pub open spec fn optional_entry(present: bool, key: Seq<char>, value: JsonModel) -> Seq<
    (Seq<char>, JsonModel),
> {
    if present {
        seq![(key, value)]
    } else {
        Seq::empty()
    }
}

/// The body of a query request: `{query, params?, use_cursor?, cursor?, batch_size?}`.
pub open spec fn query_payload_spec(aql: Seq<char>, o: QueryOptions) -> JsonModel {
    JsonModel::Object(
        seq![("query"@, JsonModel::String(aql))] + optional_entry(
            o.params is Some,
            "params"@,
            JsonModel::Object(entry_models(o.params->0@)),
        ) + optional_entry(o.use_cursor, "use_cursor"@, JsonModel::Bool(true)) + optional_entry(
            o.cursor is Some,
            "cursor"@,
            JsonModel::String(o.cursor->0@),
        ) + optional_entry(
            o.batch_size is Some,
            "batch_size"@,
            JsonModel::Number(JsonNumber::UInt(o.batch_size->0 as u64)),
        ),
    )
}

proof fn entry_models_push(v: Seq<(String, Json)>, e: (String, Json))
    ensures
        entry_models(v.push(e)) == entry_models(v).push((e.0@, e.1.model())),
{
    assert(entry_models(v.push(e)) =~= entry_models(v).push((e.0@, e.1.model())));
}

/// Builds the body of a query request.
pub fn query_payload(aql: &str, options: QueryOptions) -> (r: Json)
    ensures
        r.model() == query_payload_spec(aql@, options),
{
    let ghost o = options;
    let mut entries: Vec<(String, Json)> = Vec::new();
    let ghost empty = Seq::<(Seq<char>, JsonModel)>::empty();
    assert(entry_models(entries@) =~= empty);
    let e = (owned("query"), Json::String(owned(aql)));
    proof {
        entry_models_push(entries@, e);
    }
    entries.push(e);
    let ghost expect = seq![("query"@, JsonModel::String(aql@))];
    assert(entry_models(entries@) =~= expect);
    let ghost params_model = JsonModel::Object(entry_models(o.params->0@));
    match options.params {
        Some(params) => {
            proof {
                object_model(params);
            }
            let e = (owned("params"), Json::Object(params));
            proof {
                entry_models_push(entries@, e);
            }
            entries.push(e);
        },
        None => {},
    }
    let ghost expect = expect + optional_entry(o.params is Some, "params"@, params_model);
    assert(entry_models(entries@) =~= expect);
    if options.use_cursor {
        let e = (owned("use_cursor"), Json::Bool(true));
        proof {
            entry_models_push(entries@, e);
        }
        entries.push(e);
    }
    let ghost expect = expect + optional_entry(o.use_cursor, "use_cursor"@, JsonModel::Bool(true));
    assert(entry_models(entries@) =~= expect);
    match options.cursor {
        Some(cursor) => {
            let e = (owned("cursor"), Json::String(cursor));
            proof {
                entry_models_push(entries@, e);
            }
            entries.push(e);
        },
        None => {},
    }
    let ghost expect = expect + optional_entry(
        o.cursor is Some,
        "cursor"@,
        JsonModel::String(o.cursor->0@),
    );
    assert(entry_models(entries@) =~= expect);
    match options.batch_size {
        Some(n) => {
            let e = (owned("batch_size"), Json::Number(JsonNumber::UInt(n as u64)));
            proof {
                entry_models_push(entries@, e);
            }
            entries.push(e);
        },
        None => {},
    }
    let ghost expect = expect + optional_entry(
        o.batch_size is Some,
        "batch_size"@,
        JsonModel::Number(JsonNumber::UInt(o.batch_size->0 as u64)),
    );
    assert(entry_models(entries@) =~= expect);
    proof {
        object_model(entries);
    }
    Json::Object(entries)
}

/// Whether a query goes to one shard only.
pub open spec fn single_shard_spec(aql: Seq<char>) -> bool {
    has_infix(lowercase_of(aql), urn_marker())
}

/// The endpoints a query is sent to: the one its text hashes to when it names an entity URN,
/// else every known endpoint.
pub fn query_endpoints(aql: &str, endpoints: &Vec<String>) -> (r: Result<Vec<String>, ThemisError>)
    ensures
        single_shard_spec(aql@) && endpoints@.len() == 0 ==> (r matches Err(e) && e is Topology),
        single_shard_spec(aql@) && endpoints@.len() > 0 ==> (r matches Ok(v) && texts(v@) == seq![
            endpoints@[shard_index_of(aql@, endpoints@.len()) as int]@,
        ]),
        !single_shard_spec(aql@) ==> (r matches Ok(v) && texts(v@) == texts(endpoints@)),
{
    if is_single_shard_query(aql) {
        let target = resolve_query_endpoint(endpoints, aql)?;
        let ghost t = target@;
        let mut v: Vec<String> = Vec::new();
        v.push(target);
        assert(texts(v@) =~= seq![t]);
        Ok(v)
    } else {
        Ok(endpoints.clone())
    }
}

/// The URL that runs queries on an endpoint.
pub fn query_url(endpoint: &str) -> (r: String)
    ensures
        r@ == endpoint@ + "/query/aql"@,
{
    join2(endpoint, "/query/aql")
}

/// The entities that some items carry, each by its envelope.
pub open spec fn entities_of(items: Seq<JsonModel>) -> Seq<EntityModel> {
    items.map_values(|j: JsonModel| entity_of(j))
}

/// The models of some entity payloads.
pub open spec fn entity_models(items: Seq<EntityPayload>) -> Seq<EntityModel> {
    items.map_values(|e: EntityPayload| e.model())
}

/// The items of a shard's answer: its `entities` array if there is one, else its `items`
/// array, else none.
pub open spec fn answer_items(p: JsonModel) -> Seq<EntityModel> {
    match p.array_field("entities"@) {
        Some(es) => entities_of(es),
        None => match p.array_field("items"@) {
            Some(xs) => entities_of(xs),
            None => Seq::empty(),
        },
    }
}

/// Whether a shard's answer says more items remain: never with an `entities` array, else its
/// `has_more` member when that is `true`.
pub open spec fn answer_has_more(p: JsonModel) -> bool {
    p.array_field("entities"@) is None && p.bool_field("has_more"@) == Some(true)
}

/// Where a shard's answer says to continue: nowhere with an `entities` array, else its
/// `next_cursor` member when that is a string.
pub open spec fn answer_cursor(p: JsonModel) -> Option<Seq<char>> {
    if p.array_field("entities"@) is Some {
        None
    } else {
        p.str_field("next_cursor"@)
    }
}

/// The text of an optional string.
pub open spec fn opt_text(s: Option<String>) -> Option<Seq<char>> {
    match s {
        Some(t) => Some(t@),
        None => None,
    }
}

/// Takes the entity out of each item.
fn decode_all(items: &Vec<Json>) -> (r: Vec<EntityPayload>)
    ensures
        entity_models(r@) == entities_of(Json::models(items@)),
{
    let mut out: Vec<EntityPayload> = Vec::new();
    let mut i: usize = 0;
    while i < items.len()
        invariant
            i <= items.len(),
            out@.len() == i,
            forall|j: int| 0 <= j < i ==> #[trigger] out@[j].model() == entity_of(items@[j].model()),
        decreases items.len() - i,
    {
        out.push(decode_entity(items[i].duplicate()));
        i = i + 1;
    }
    assert(entity_models(out@) =~= entities_of(Json::models(items@)));
    out
}

/// Reads one shard's answer to a query.
pub fn parse_query_result(payload: Json) -> (r: QueryResult<EntityPayload>)
    ensures
        entity_models(r.items@) == answer_items(payload.model()),
        r.has_more == answer_has_more(payload.model()),
        opt_text(r.next_cursor) == answer_cursor(payload.model()),
        r.raw.model() == payload.model(),
{
    let items = match payload.array_field("entities") {
        Some(es) => Some(decode_all(es)),
        None => None,
    };
    match items {
        Some(items) => {
            return QueryResult { items, has_more: false, next_cursor: None, raw: payload };
        },
        None => {},
    }
    let items = match payload.array_field("items") {
        Some(xs) => decode_all(xs),
        None => {
            let v: Vec<EntityPayload> = Vec::new();
            assert(entity_models(v@) =~= Seq::<EntityModel>::empty());
            v
        },
    };
    let has_more = match payload.bool_field("has_more") {
        Some(b) => b,
        None => false,
    };
    let next_cursor = match payload.str_field("next_cursor") {
        Some(c) => Some(c.clone()),
        None => None,
    };
    QueryResult { items, has_more, next_cursor, raw: payload }
}

/// The items of each part, joined in part order.
pub open spec fn joined_items<T>(parts: Seq<QueryResult<T>>) -> Seq<T> {
    concat_all(parts.map_values(|p: QueryResult<T>| p.items@))
}

/// Whether any part says more items remain.
pub open spec fn any_has_more<T>(parts: Seq<QueryResult<T>>) -> bool {
    exists|i: int| 0 <= i < parts.len() && #[trigger] parts[i].has_more
}

/// What each part's shard sent, in part order.
pub open spec fn raw_models<T>(parts: Seq<QueryResult<T>>) -> Seq<JsonModel> {
    parts.map_values(|p: QueryResult<T>| p.raw.model())
}

/// Merges the answers of the shards a query went to. One answer is returned as it is. Several
/// are joined: items in shard order, more remaining when any shard says so, no cursor, and
/// the shards' raw answers as an array in shard order. No answer gives an empty result.
pub fn merge_query_results<T>(parts: Vec<QueryResult<T>>) -> (r: QueryResult<T>)
    ensures
        parts@.len() == 0 ==> r.items@.len() == 0 && !r.has_more && r.next_cursor is None
            && r.raw.model() == JsonModel::Null,
        parts@.len() == 1 ==> r == parts@[0],
        parts@.len() > 1 ==> r.items@ == joined_items(parts@) && r.has_more == any_has_more(
            parts@,
        ) && r.next_cursor is None && r.raw.model() == JsonModel::Array(raw_models(parts@)),
{
    let ghost orig = parts@;
    let mut parts = parts;
    let n = parts.len();
    if n == 0 {
        return QueryResult::default();
    }
    if n == 1 {
        return parts.remove(0);
    }
    let mut items: Vec<T> = Vec::new();
    let mut has_more = false;
    let mut raws: Vec<Json> = Vec::new();
    let ghost item_parts = orig.map_values(|p: QueryResult<T>| p.items@);
    let mut i: usize = 0;
    assert(orig.skip(0) =~= orig);
    assert(item_parts.take(0) =~= Seq::<Seq<T>>::empty());
    while i < n
        invariant
            n == orig.len(),
            i <= n,
            parts@ == orig.skip(i as int),
            item_parts == orig.map_values(|p: QueryResult<T>| p.items@),
            items@ == concat_all(item_parts.take(i as int)),
            has_more == (exists|j: int| 0 <= j < i && #[trigger] orig[j].has_more),
            raws@.len() == i,
            Json::models(raws@) == raw_models(orig.take(i as int)),
        decreases n - i,
    {
        proof {
            concat_all_step(item_parts, i as int);
        }
        assert(parts@[0] == orig[i as int]);
        let mut part = parts.remove(0);
        assert(parts@ =~= orig.skip(i + 1));
        items.append(&mut part.items);
        has_more = has_more || part.has_more;
        proof {
            models_push(raws@, part.raw);
        }
        raws.push(part.raw);
        assert(Json::models(raws@) =~= raw_models(orig.take(i + 1)));
        i = i + 1;
    }
    assert(item_parts.take(n as int) =~= item_parts);
    assert(orig.take(n as int) =~= orig);
    proof {
        array_model(raws);
    }
    QueryResult { items, has_more, next_cursor: None, raw: Json::Array(raws) }
}

} // verus!
