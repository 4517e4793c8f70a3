use vstd::prelude::*;
use vstd::string::*;
use crate::json::{array_model, models_push, concat_all, concat_all_step, entry_models, object_model, Json, JsonModel, JsonNumber};
use crate::query::optional_entry;
use crate::text::{join2, owned};

verus! {

/// The body of a similarity search: `{vector, filter?, k?}`.
pub open spec fn vector_payload_spec(
    vector: Seq<Json>,
    filter: Option<Json>,
    top_k: Option<u32>,
) -> JsonModel {
    JsonModel::Object(
        seq![("vector"@, JsonModel::Array(Json::models(vector)))] + optional_entry(
            filter is Some,
            "filter"@,
            filter->0.model(),
        ) + optional_entry(top_k is Some, "k"@, JsonModel::Number(JsonNumber::UInt(top_k->0 as u64))),
    )
}

/// Builds the body of a similarity search from the query vector's components.
pub fn vector_payload(vector: Vec<Json>, filter: Option<Json>, top_k: Option<u32>) -> (r: Json)
    ensures
        r.model() == vector_payload_spec(vector@, filter, top_k),
{
    let ghost vs = vector@;
    let ghost f = filter;
    let mut entries: Vec<(String, Json)> = Vec::new();
    proof {
        array_model(vector);
    }
    entries.push((owned("vector"), Json::Array(vector)));
    let ghost expect = seq![("vector"@, JsonModel::Array(Json::models(vs)))];
    assert(entry_models(entries@) =~= expect);
    match filter {
        Some(fv) => {
            entries.push((owned("filter"), fv));
        },
        None => {},
    }
    let ghost expect = expect + optional_entry(f is Some, "filter"@, f->0.model());
    assert(entry_models(entries@) =~= expect);
    match top_k {
        Some(k) => {
            entries.push((owned("k"), Json::Number(JsonNumber::UInt(k as u64))));
        },
        None => {},
    }
    let ghost expect = expect + optional_entry(
        top_k is Some,
        "k"@,
        JsonModel::Number(JsonNumber::UInt(top_k->0 as u64)),
    );
    assert(entry_models(entries@) =~= expect);
    proof {
        object_model(entries);
    }
    Json::Object(entries)
}

/// The URL that runs similarity searches on an endpoint.
pub fn vector_url(endpoint: &str) -> (r: String)
    ensures
        r@ == endpoint@ + "/vector/search"@,
{
    join2(endpoint, "/vector/search")
}

/// The hits of one shard's answer: its `results` array, or none.
pub open spec fn hits_of(body: JsonModel) -> Seq<JsonModel> {
    match body.array_field("results"@) {
        Some(items) => items,
        None => Seq::empty(),
    }
}

/// The hits of all shards' answers, in shard order.
pub open spec fn all_hits(bodies: Seq<Json>) -> Seq<JsonModel> {
    concat_all(Json::models(bodies).map_values(|b: JsonModel| hits_of(b)))
}

/// Gathers the hits of every shard's answer, in shard order.
pub fn collect_results(bodies: &Vec<Json>) -> (r: Vec<Json>)
    ensures
        Json::models(r@) == all_hits(bodies@),
{
    let ghost parts = Json::models(bodies@).map_values(|b: JsonModel| hits_of(b));
    let mut out: Vec<Json> = Vec::new();
    let mut i: usize = 0;
    assert(parts.take(0) =~= Seq::<Seq<JsonModel>>::empty());
    assert(Json::models(out@) =~= Seq::<JsonModel>::empty());
    while i < bodies.len()
        invariant
            i <= bodies.len(),
            parts == Json::models(bodies@).map_values(|b: JsonModel| hits_of(b)),
            Json::models(out@) == concat_all(parts.take(i as int)),
        decreases bodies.len() - i,
    {
        proof {
            concat_all_step(parts, i as int);
        }
        let ghost before = Json::models(out@);
        match bodies[i].array_field("results") {
            Some(items) => {
                let mut j: usize = 0;
                while j < items.len()
                    invariant
                        j <= items.len(),
                        Json::models(out@) == before + Json::models(items@).take(j as int),
                    decreases items.len() - j,
                {
                    let d = items[j].duplicate();
                    proof {
                        models_push(out@, d);
                    }
                    out.push(d);
                    assert(Json::models(out@) =~= before + Json::models(items@).take(j + 1));
                    j = j + 1;
                }
                assert(Json::models(items@).take(j as int) =~= Json::models(items@));
            },
            None => {
                assert(Json::models(out@) =~= before + parts[i as int]);
            },
        }
        i = i + 1;
    }
    assert(parts.take(i as int) =~= parts);
    out
}

/// Whether hit `a` comes before hit `b`: a higher key first, and among equal keys the one
/// that arrived first.
pub open spec fn ranks_before(keys: Seq<u64>, a: int, b: int) -> bool {
    keys[a] > keys[b] || (keys[a] == keys[b] && a < b)
}

/// How many hits are kept: `top_k` when given and smaller than the number of hits.
pub open spec fn kept(count: nat, top_k: Option<u32>) -> nat {
    match top_k {
        Some(k) => if (k as nat) < count {
            k as nat
        } else {
            count
        },
        None => count,
    }
}

/// `order` lists the first `limit` hits by rank: distinct indices of hits in rank order, and
/// every hit left out ranks after all that are listed.
pub open spec fn is_top_order(keys: Seq<u64>, limit: nat, order: Seq<usize>) -> bool {
    &&& order.len() == limit
    &&& forall|i: int| 0 <= i < order.len() ==> #[trigger] order[i] < keys.len()
    &&& forall|i: int, j: int|
        0 <= i < j < order.len() ==> ranks_before(keys, #[trigger] order[i] as int, #[trigger] order[j] as int)
    &&& forall|x: int, i: int|
        #![trigger order.contains(x as usize), order[i]]
        0 <= x < keys.len() && !order.contains(x as usize) && 0 <= i < order.len()
            ==> ranks_before(keys, order[i] as int, x)
}

fn ranks_before_exec(keys: &Vec<u64>, a: usize, b: usize) -> (r: bool)
    requires
        a < keys.len(),
        b < keys.len(),
    ensures
        r == ranks_before(keys@, a as int, b as int),
{
    keys[a] > keys[b] || (keys[a] == keys[b] && a < b)
}

/// Ranks the hits by their keys, highest first and stable among equal keys, and keeps the
/// first `top_k` of them when a limit is given.
pub fn rank_hits(keys: &Vec<u64>, top_k: Option<u32>) -> (r: Vec<usize>)
    ensures
        is_top_order(keys@, kept(keys@.len(), top_k), r@),
{
    let n = keys.len();
    let mut order: Vec<usize> = Vec::new();
    let mut i: usize = 0;
    while i < n
        invariant
            n == keys@.len(),
            i <= n,
            order@.len() == i,
            forall|q: int| 0 <= q < order@.len() ==> #[trigger] order@[q] < i,
            forall|x: int| 0 <= x < i ==> #[trigger] order@.contains(x as usize),
            forall|p: int, q: int|
                0 <= p < q < order@.len() ==> ranks_before(keys@, #[trigger] order@[p] as int, #[trigger] order@[q] as int),
        decreases n - i,
    {
        let mut p: usize = 0;
        while p < order.len() && !ranks_before_exec(keys, i, order[p])
            invariant
                n == keys@.len(),
                i < n,
                p <= order@.len(),
                forall|q: int| 0 <= q < order@.len() ==> #[trigger] order@[q] < i,
                forall|q: int| 0 <= q < p ==> !ranks_before(keys@, i as int, #[trigger] order@[q] as int),
            decreases order@.len() - p,
        {
            p = p + 1;
        }
        let ghost old_order = order@;
        order.insert(p, i);
        assert(order@ == old_order.insert(p as int, i));
        assert forall|x: int| 0 <= x < i + 1 implies #[trigger] order@.contains(x as usize) by {
            if x < i {
                assert(old_order.contains(x as usize));
                let q = choose|q: int| 0 <= q < old_order.len() && old_order[q] == x as usize;
                if q < p {
                    assert(order@[q] == x as usize);
                } else {
                    assert(order@[q + 1] == x as usize);
                }
            } else {
                assert(order@[p as int] == i);
            }
        }
        assert forall|a: int, b: int|
            0 <= a < b < order@.len() implies ranks_before(keys@, #[trigger] order@[a] as int, #[trigger] order@[b] as int) by {
            if a < p && b == p {
                assert(!ranks_before(keys@, i as int, old_order[a] as int));
            } else if a == p && b > p {
                if b - 1 > p {
                    assert(ranks_before(keys@, old_order[p as int] as int, old_order[b - 1] as int));
                }
            }
        }
        i = i + 1;
    }
    let limit: usize = match top_k {
        Some(k) => if (k as usize) < n {
            k as usize
        } else {
            n
        },
        None => n,
    };
    let ghost full = order@;
    order.truncate(limit);
    assert(order@ == full.subrange(0, limit as int));
    assert forall|x: int, a: int|
        0 <= x < n && !order@.contains(x as usize) && 0 <= a < order@.len() implies #[trigger] ranks_before(
            keys@,
            order@[a] as int,
            x,
        ) by {
        assert(full.contains(x as usize));
        let q = choose|q: int| 0 <= q < full.len() && full[q] == x as usize;
        if q < limit {
            assert(order@[q] == x as usize);
        }
        assert(full[a] == order@[a]);
    }
    order
}

/// The answer of a similarity search: the hits in the given order, and every shard's answer.
pub open spec fn vector_response_spec(
    hits: Seq<Json>,
    order: Seq<usize>,
    partials: Seq<Json>,
) -> JsonModel {
    JsonModel::Object(
        seq![
            ("results"@, JsonModel::Array(order.map_values(|o: usize| hits[o as int].model()))),
            ("partials"@, JsonModel::Array(Json::models(partials))),
        ],
    )
}

/// Builds the answer of a similarity search: `{results, partials}`.
pub fn vector_response(hits: &Vec<Json>, order: &Vec<usize>, partials: Vec<Json>) -> (r: Json)
    requires
        forall|i: int| 0 <= i < order@.len() ==> #[trigger] order@[i] < hits@.len(),
    ensures
        r.model() == vector_response_spec(hits@, order@, partials@),
{
    let ghost ps = partials@;
    let mut picked: Vec<Json> = Vec::new();
    let mut i: usize = 0;
    while i < order.len()
        invariant
            i <= order@.len(),
            forall|j: int| 0 <= j < order@.len() ==> #[trigger] order@[j] < hits@.len(),
            Json::models(picked@) == order@.take(i as int).map_values(
                |o: usize| hits@[o as int].model(),
            ),
        decreases order@.len() - i,
    {
        let d = hits[order[i]].duplicate();
        proof {
            models_push(picked@, d);
        }
        picked.push(d);
        assert(Json::models(picked@) =~= order@.take(i + 1).map_values(
            |o: usize| hits@[o as int].model(),
        ));
        i = i + 1;
    }
    assert(order@.take(i as int) =~= order@);
    proof {
        array_model(picked);
        array_model(partials);
    }
    let mut entries: Vec<(String, Json)> = Vec::new();
    entries.push((owned("results"), Json::Array(picked)));
    entries.push((owned("partials"), Json::Array(partials)));
    proof {
        object_model(entries);
        assert(entry_models(entries@) =~= seq![
            ("results"@, JsonModel::Array(order@.map_values(|o: usize| hits@[o as int].model()))),
            ("partials"@, JsonModel::Array(Json::models(ps))),
        ]);
    }
    Json::Object(entries)
}

} // verus!
