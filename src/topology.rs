use vstd::prelude::*;
use crate::error::ThemisError;
use crate::json::{concat_all, concat_all_step, Json, JsonModel};
use crate::routing::{normalize, trimmed};
use crate::text::owned;

verus! {

/// The normalized strings among some items, in order; other items are skipped.
pub open spec fn strings_in(items: Seq<JsonModel>) -> Seq<Seq<char>>
    decreases items.len(),
{
    if items.len() == 0 {
        Seq::empty()
    } else {
        let rest = strings_in(items.drop_last());
        match items.last() {
            JsonModel::String(s) => rest.push(trimmed(s)),
            _ => rest,
        }
    }
}

/// The normalized value of an optional string member, as zero or one endpoints.
pub open spec fn optional_endpoint(v: Option<Seq<char>>) -> Seq<Seq<char>> {
    match v {
        Some(s) => seq![trimmed(s)],
        None => Seq::empty(),
    }
}

/// The endpoints that one entry of a topology's `shards` array names.
pub open spec fn shard_endpoints(shard: JsonModel) -> Seq<Seq<char>> {
    match shard {
        JsonModel::String(s) => seq![trimmed(s)],
        JsonModel::Object(_) => optional_endpoint(shard.str_field("endpoint"@))
            + optional_endpoint(shard.str_field("http_endpoint"@)) + match shard.array_field(
            "endpoints"@,
        ) {
            Some(items) => strings_in(items),
            None => Seq::empty(),
        },
        _ => Seq::empty(),
    }
}

/// Every endpoint a topology response names, in the order first seen, duplicates kept.
pub open spec fn topology_endpoints(payload: JsonModel) -> Seq<Seq<char>> {
    match payload.array_field("shards"@) {
        Some(shards) => concat_all(shards.map_values(|s: JsonModel| shard_endpoints(s))),
        None => Seq::empty(),
    }
}

/// The text of each string in a vector.
pub open spec fn texts(v: Seq<String>) -> Seq<Seq<char>> {
    v.map_values(|s: String| s@)
}

proof fn texts_push(v: Seq<String>, s: String)
    ensures
        texts(v.push(s)) == texts(v).push(s@),
{
    assert(texts(v.push(s)) =~= texts(v).push(s@));
}

/// Appends the normalized strings among `items` to `out`.
fn push_strings(out: &mut Vec<String>, items: &Vec<Json>)
    ensures
        texts(final(out)@) == texts(old(out)@) + strings_in(Json::models(items@)),
{
    let ghost start = texts(out@);
    let mut i: usize = 0;
    assert(Json::models(items@).take(0) =~= Seq::<JsonModel>::empty());
    assert(start + Seq::<Seq<char>>::empty() =~= start);
    while i < items.len()
        invariant
            i <= items.len(),
            texts(out@) == start + strings_in(Json::models(items@).take(i as int)),
        decreases items.len() - i,
    {
        let ghost ms = Json::models(items@);
        assert(ms.take(i + 1).drop_last() =~= ms.take(i as int));
        assert(ms.take(i + 1).last() == items[i as int].model());
        match &items[i] {
            Json::String(s) => {
                let e = normalize(s.as_str());
                proof {
                    texts_push(out@, e);
                }
                out.push(e);
                assert(texts(out@) =~= start + strings_in(ms.take(i + 1)));
            },
            _ => {
                assert(texts(out@) =~= start + strings_in(ms.take(i + 1)));
            },
        }
        i = i + 1;
    }
    assert(Json::models(items@).take(i as int) =~= Json::models(items@));
}

/// Appends the normalized value of an optional string member to `out`.
fn push_optional(out: &mut Vec<String>, v: Option<&String>)
    ensures
        texts(final(out)@) == texts(old(out)@) + optional_endpoint(
            match v {
                Some(s) => Some(s@),
                None => None,
            },
        ),
{
    match v {
        Some(s) => {
            let e = normalize(s.as_str());
            proof {
                texts_push(out@, e);
            }
            out.push(e);
            assert(texts(final(out)@) =~= texts(old(out)@) + seq![trimmed(s@)]);
        },
        None => {
            assert(texts(out@) =~= texts(out@) + Seq::<Seq<char>>::empty());
        },
    }
}

/// Collects the endpoints that a topology response names: each entry of its `shards` array is
/// either an endpoint string or an object with `endpoint`, `http_endpoint` and `endpoints`
/// members; every string found is normalized.
pub fn extract_endpoints(payload: &Json) -> (r: Vec<String>)
    ensures
        texts(r@) == topology_endpoints(payload.model()),
{
    let mut out: Vec<String> = Vec::new();
    match payload.array_field("shards") {
        Some(shards) => {
            let ghost parts = Json::models(shards@).map_values(|s: JsonModel| shard_endpoints(s));
            let mut i: usize = 0;
            assert(parts.take(0) =~= Seq::<Seq<Seq<char>>>::empty());
            assert(texts(out@) =~= Seq::<Seq<char>>::empty());
            while i < shards.len()
                invariant
                    i <= shards.len(),
                    parts == Json::models(shards@).map_values(|s: JsonModel| shard_endpoints(s)),
                    texts(out@) == concat_all(parts.take(i as int)),
                decreases shards.len() - i,
            {
                proof {
                    concat_all_step(parts, i as int);
                }
                let ghost before = texts(out@);
                let shard = &shards[i];
                match shard {
                    Json::String(s) => {
                        let e = normalize(s.as_str());
                        proof {
                            texts_push(out@, e);
                        }
                        out.push(e);
                        assert(texts(out@) =~= before + seq![trimmed(s@)]);
                    },
                    Json::Object(_) => {
                        push_optional(&mut out, shard.str_field("endpoint"));
                        push_optional(&mut out, shard.str_field("http_endpoint"));
                        match shard.array_field("endpoints") {
                            Some(items) => push_strings(&mut out, items),
                            None => {},
                        }
                        assert(texts(out@) =~= before + parts[i as int]);
                    },
                    _ => {
                        assert(texts(out@) =~= before + parts[i as int]);
                    },
                }
                i = i + 1;
            }
            assert(parts.take(i as int) =~= parts);
        },
        None => {},
    }
    out
}

/// How the cache moves when discovery completes with `outcome`, from `before` to `after`,
/// answering `r`.
pub open spec fn discovery_post(
    before: Option<Seq<Seq<char>>>,
    outcome: Result<Json, ThemisError>,
    fallback: Seq<Seq<char>>,
    after: Option<Seq<Seq<char>>>,
    r: Result<(), ThemisError>,
) -> bool {
    if before is Some {
        after == before && r is Ok
    } else {
        match outcome {
            Ok(p) => if topology_endpoints(p.model()).len() > 0 {
                after == Some(topology_endpoints(p.model())) && r is Ok
            } else {
                after == Some(fallback) && (r matches Err(e) && e is Topology)
            },
            Err(e) => after == Some(fallback) && r == Err::<(), ThemisError>(e),
        }
    }
}

/// A topology response whose `shards` array is empty fails the call that triggered discovery
/// with a topology error, and fixes the configured endpoints, so that the next call routes
/// over them without trying discovery again.
pub proof fn empty_topology_falls_back(
    payload: Json,
    fallback: Seq<Seq<char>>,
    after: Option<Seq<Seq<char>>>,
    r: Result<(), ThemisError>,
)
    requires
        payload.model().array_field("shards"@) == Some(Seq::<JsonModel>::empty()),
        discovery_post(None, Ok(payload), fallback, after, r),
    ensures
        r matches Err(e) && e is Topology,
        after == Some(fallback),
{
    let parts = Seq::<JsonModel>::empty().map_values(|s: JsonModel| shard_endpoints(s));
    assert(parts =~= Seq::<Seq<Seq<char>>>::empty());
}

/// The shard topology as the client knows it: not yet resolved, or resolved to an ordered
/// list of endpoints that is then kept for the client's lifetime.
pub struct TopologyCache {
    resolved: Option<Vec<String>>,
}

impl TopologyCache {
    /// The endpoints the cache holds, once resolved.
    pub closed spec fn resolved_spec(&self) -> Option<Seq<Seq<char>>> {
        match self.resolved {
            Some(v) => Some(texts(v@)),
            None => None,
        }
    }

    /// A cache that has not yet tried discovery.
    pub fn new() -> (r: TopologyCache)
        ensures
            r.resolved_spec() is None,
    {
        TopologyCache { resolved: None }
    }

    /// Whether discovery is still to be tried.
    pub fn needs_discovery(&self) -> (r: bool)
        ensures
            r == (self.resolved_spec() is None),
    {
        self.resolved.is_none()
    }

    /// The endpoints to route over: the resolved list, or `fallback` while unresolved.
    pub fn current_endpoints(&self, fallback: &Vec<String>) -> (r: Vec<String>)
        ensures
            texts(r@) == match self.resolved_spec() {
                Some(v) => v,
                None => texts(fallback@),
            },
    {
        match &self.resolved {
            Some(v) => v.clone(),
            None => fallback.clone(),
        }
    }

    /// Records the outcome of discovery. A response naming at least one endpoint fixes those
    /// endpoints. A response naming none, or a failed discovery, fixes `fallback` instead and
    /// hands the error to the caller, so that discovery is never tried again. A cache that is
    /// already resolved stays as it is.
    pub fn complete_discovery(
        &mut self,
        outcome: Result<Json, ThemisError>,
        fallback: &Vec<String>,
    ) -> (r: Result<(), ThemisError>)
        ensures
            discovery_post(
                old(self).resolved_spec(),
                outcome,
                texts(fallback@),
                final(self).resolved_spec(),
                r,
            ),
    {
        if self.resolved.is_some() {
            return Ok(());
        }
        match outcome {
            Ok(payload) => {
                let shards = extract_endpoints(&payload);
                if shards.len() > 0 {
                    self.resolved = Some(shards);
                    Ok(())
                } else {
                    self.resolved = Some(fallback.clone());
                    Err(ThemisError::Topology(owned("topology response missing shards")))
                }
            },
            Err(e) => {
                self.resolved = Some(fallback.clone());
                Err(e)
            },
        }
    }
}

} // verus!
