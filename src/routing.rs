use vstd::prelude::*;
use vstd::string::*;
use crate::error::ThemisError;
use crate::text::{contains_text, has_infix, join2, owned};

verus! {

/// The routing key of an entity: `urn:themis:<model>:<namespace>:<collection>:<uuid>`.
pub open spec fn urn_of(
    model: Seq<char>,
    namespace: Seq<char>,
    collection: Seq<char>,
    uuid: Seq<char>,
) -> Seq<char> {
    "urn:themis:"@ + model + ":"@ + namespace + ":"@ + collection + ":"@ + uuid
}

/// The path component naming an entity: `<model>.<namespace>.<collection>:<uuid>`.
pub open spec fn entity_key_of(
    model: Seq<char>,
    namespace: Seq<char>,
    collection: Seq<char>,
    uuid: Seq<char>,
) -> Seq<char> {
    model + "."@ + namespace + "."@ + collection + ":"@ + uuid
}

/// An endpoint with every trailing `/` removed.
pub open spec fn trimmed(s: Seq<char>) -> Seq<char>
    decreases s.len(),
{
    if s.len() > 0 && s.last() == '/' {
        trimmed(s.drop_last())
    } else {
        s
    }
}

/// One round of the 64-bit FNV-1a style mixing.
pub open spec fn fnv_step(h: u64, b: u8) -> u64 {
    (h ^ (b as u64)).wrapping_mul(16777619)
}

/// The running hash after the given bytes, starting from the offset basis.
pub open spec fn fnv_hash(bytes: Seq<u8>) -> u64
    decreases bytes.len(),
{
    if bytes.len() == 0 {
        2166136261
    } else {
        fnv_step(fnv_hash(bytes.drop_last()), bytes.last())
    }
}

/// The stable hash of a text: the FNV-1a value of its UTF-8 bytes, kept to 31 bits.
pub open spec fn stable_hash_of(s: Seq<char>) -> nat {
    (fnv_hash(vstd::utf8::encode_utf8(s)) & 0x7FFF_FFFFu64) as nat
}

/// The index of the shard that a routing key maps to among `n` endpoints.
pub open spec fn shard_index_of(key: Seq<char>, n: nat) -> nat
    recommends
        n > 0,
{
    stable_hash_of(key) % n
}

/// Builds the routing key of an entity.
pub fn build_urn(model: &str, namespace: &str, collection: &str, uuid: &str) -> (r: String)
    ensures
        r@ == urn_of(model@, namespace@, collection@, uuid@),
{
    let r = owned("urn:themis:");
    let r = r.concat(model);
    let r = r.concat(":");
    let r = r.concat(namespace);
    let r = r.concat(":");
    let r = r.concat(collection);
    let r = r.concat(":");
    r.concat(uuid)
}

/// Builds the path component of an entity.
pub fn build_entity_key(model: &str, namespace: &str, collection: &str, uuid: &str) -> (r: String)
    ensures
        r@ == entity_key_of(model@, namespace@, collection@, uuid@),
{
    let r = join2(model, ".");
    let r = r.concat(namespace);
    let r = r.concat(".");
    let r = r.concat(collection);
    let r = r.concat(":");
    r.concat(uuid)
}

/// Strips every trailing `/` from an endpoint.
pub fn normalize(endpoint: &str) -> (r: String)
    ensures
        r@ == trimmed(endpoint@),
{
    let mut end = endpoint.unicode_len();
    assert(endpoint@.subrange(0, end as int) =~= endpoint@);
    loop
        invariant
            end <= endpoint@.len(),
            trimmed(endpoint@) == trimmed(endpoint@.subrange(0, end as int)),
        ensures
            end == 0 || endpoint@[end - 1] != '/',
        decreases end,
    {
        if end == 0 || endpoint.get_char(end - 1) != '/' {
            break;
        }
        assert(endpoint@.subrange(0, end as int).drop_last() =~= endpoint@.subrange(0, end - 1));
        end = end - 1;
    }
    let r = owned(endpoint.substring_char(0, end));
    assert(r@ == endpoint@.subrange(0, end as int));
    assert(r@.len() == 0 || r@.last() != '/');
    r
}

/// Hashes a text: FNV-1a over its UTF-8 bytes in 64-bit arithmetic, masked to 31 bits.
pub fn stable_hash(input: &str) -> (r: usize)
    ensures
        r == stable_hash_of(input@),
{
    let bytes = input.as_bytes();
    let mut hash: u64 = 2166136261;
    let mut i: usize = 0;
    while i < bytes.len()
        invariant
            i <= bytes@.len(),
            bytes@ == vstd::utf8::encode_utf8(input@),
            hash == fnv_hash(bytes@.subrange(0, i as int)),
        decreases bytes@.len() - i,
    {
        assert(bytes@.subrange(0, i + 1).drop_last() =~= bytes@.subrange(0, i as int));
        hash = hash ^ (bytes[i] as u64);
        hash = hash.wrapping_mul(16777619);
        i = i + 1;
    }
    assert(bytes@.subrange(0, i as int) =~= bytes@);
    let masked: u64 = hash & 0x7FFF_FFFF;
    assert(masked <= 0x7FFF_FFFF) by (bit_vector)
        requires
            masked == hash & 0x7FFF_FFFFu64,
    ;
    masked as usize
}

/// What `str::to_lowercase` returns for a text.
pub uninterp spec fn lowercase_of(s: Seq<char>) -> Seq<char>;

/// Relies on `str::to_lowercase`: the lower-case form depends on the characters alone.
#[verifier::external_body]
fn lowercase(s: &str) -> (r: String)
    ensures
        r@ == lowercase_of(s@),
{
    s.to_lowercase()
}

/// The marker whose presence makes a query single-shard.
pub open spec fn urn_marker() -> Seq<char> {
    "urn:themis:"@
}

/// Whether a query, already in lower case, holds the URN marker.
pub fn holds_urn_marker(lowered: &str) -> (r: bool)
    ensures
        r == has_infix(lowered@, urn_marker()),
{
    contains_text(lowered, "urn:themis:")
}

/// Whether a query names an entity URN (in any letter case) and so goes to a single shard.
pub fn is_single_shard_query(aql: &str) -> (r: bool)
    ensures
        r == has_infix(lowercase_of(aql@), urn_marker()),
{
    let lowered = lowercase(aql);
    holds_urn_marker(lowered.as_str())
}

/// Picks the endpoint that a routing key maps to.
pub fn pick_endpoint(endpoints: &Vec<String>, key: &str) -> (r: Result<String, ThemisError>)
    ensures
        endpoints@.len() == 0 ==> (r matches Err(e) && e is Topology),
        endpoints@.len() > 0 ==> (r matches Ok(u)
            && u@ == endpoints@[shard_index_of(key@, endpoints@.len()) as int]@),
{
    if endpoints.len() == 0 {
        return Err(ThemisError::Topology(owned("no endpoints available")));
    }
    let index = stable_hash(key) % endpoints.len();
    Ok(endpoints[index].clone())
}

/// The endpoint that holds an entity: the shard its URN hashes to.
pub fn resolve_endpoint(
    endpoints: &Vec<String>,
    namespace: &str,
    model: &str,
    collection: &str,
    uuid: &str,
) -> (r: Result<String, ThemisError>)
    ensures
        endpoints@.len() == 0 ==> (r matches Err(e) && e is Topology),
        endpoints@.len() > 0 ==> (r matches Ok(u) && u@ == endpoints@[shard_index_of(
            urn_of(model@, namespace@, collection@, uuid@),
            endpoints@.len(),
        ) as int]@),
{
    let urn = build_urn(model, namespace, collection, uuid);
    pick_endpoint(endpoints, urn.as_str())
}

/// The endpoint that a single-shard query goes to: the shard its text hashes to.
pub fn resolve_query_endpoint(endpoints: &Vec<String>, aql: &str) -> (r: Result<String, ThemisError>)
    ensures
        endpoints@.len() == 0 ==> (r matches Err(e) && e is Topology),
        endpoints@.len() > 0 ==> (r matches Ok(u)
            && u@ == endpoints@[shard_index_of(aql@, endpoints@.len()) as int]@),
{
    pick_endpoint(endpoints, aql)
}

/// The URL of an entity on its endpoint: `<endpoint>/entities/<model>.<namespace>.<collection>:<uuid>`.
pub fn entity_url(
    endpoint: &str,
    namespace: &str,
    model: &str,
    collection: &str,
    uuid: &str,
) -> (r: String)
    ensures
        r@ == endpoint@ + "/entities/"@ + entity_key_of(model@, namespace@, collection@, uuid@),
{
    let key = build_entity_key(model, namespace, collection, uuid);
    let r = join2(endpoint, "/entities/");
    r.concat(key.as_str())
}

/// The URL of an entity on the shard that holds it.
pub fn entity_target(
    endpoints: &Vec<String>,
    namespace: &str,
    model: &str,
    collection: &str,
    uuid: &str,
) -> (r: Result<String, ThemisError>)
    ensures
        endpoints@.len() == 0 ==> (r matches Err(e) && e is Topology),
        endpoints@.len() > 0 ==> (r matches Ok(u) && u@ == endpoints@[shard_index_of(
            urn_of(model@, namespace@, collection@, uuid@),
            endpoints@.len(),
        ) as int]@ + "/entities/"@ + entity_key_of(model@, namespace@, collection@, uuid@)),
{
    let endpoint = resolve_endpoint(endpoints, namespace, model, collection, uuid)?;
    Ok(entity_url(endpoint.as_str(), namespace, model, collection, uuid))
}

/// Routing is a function of its inputs: the same entity and the same endpoint count always give
/// the same shard, and that shard is one of the endpoints.
pub proof fn same_entity_same_shard(
    model: Seq<char>,
    namespace: Seq<char>,
    collection: Seq<char>,
    uuid: Seq<char>,
    model2: Seq<char>,
    namespace2: Seq<char>,
    collection2: Seq<char>,
    uuid2: Seq<char>,
    count: nat,
)
    requires
        model == model2,
        namespace == namespace2,
        collection == collection2,
        uuid == uuid2,
        count > 0,
    ensures
        shard_index_of(urn_of(model, namespace, collection, uuid), count) == shard_index_of(
            urn_of(model2, namespace2, collection2, uuid2),
            count,
        ),
        shard_index_of(urn_of(model, namespace, collection, uuid), count) < count,
{
}

/// Trimming trailing slashes twice is the same as trimming them once.
pub proof fn normalize_idempotent(s: Seq<char>)
    ensures
        trimmed(trimmed(s)) == trimmed(s),
    decreases s.len(),
{
    if s.len() > 0 && s.last() == '/' {
        normalize_idempotent(s.drop_last());
    }
}

} // verus!
