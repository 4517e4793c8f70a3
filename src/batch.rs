use vstd::prelude::*;
use crate::error::{message_of, ThemisError};
use crate::text::str_eq;

verus! {

/// The outcome of reading many entities: each UUID is found (with its value), missing, or
/// failed (with the error's text), and in exactly one of the three.
#[derive(Debug)]
pub struct BatchGetResult<T> {
    pub found: Vec<(String, T)>,
    pub missing: Vec<String>,
    pub errors: Vec<(String, String)>,
}

/// The keys of some pairs, as text.
pub open spec fn pair_keys<V>(v: Seq<(String, V)>) -> Seq<Seq<char>> {
    v.map_values(|p: (String, V)| p.0@)
}

/// Some strings, as text.
pub open spec fn string_texts(v: Seq<String>) -> Seq<Seq<char>> {
    v.map_values(|s: String| s@)
}

/// Whether two key sequences share no key.
pub open spec fn disjoint(a: Seq<Seq<char>>, b: Seq<Seq<char>>) -> bool {
    forall|k: Seq<char>| !(#[trigger] a.contains(k) && b.contains(k))
}

/// Whether a result lists `uuid` by `outcome`: a value in `found`, an absent entity in
/// `missing`, a failure in `errors` with the error's text.
pub open spec fn placed<T>(r: BatchGetResult<T>, uuid: String, outcome: Result<Option<T>, ThemisError>) -> bool {
    match outcome {
        Ok(Some(v)) => r.found@.contains((uuid, v)),
        Ok(None) => string_texts(r.missing@).contains(uuid@),
        Err(e) => exists|m: String|
            #![trigger r.errors@.contains((uuid, m))]
            r.errors@.contains((uuid, m)) && m@ == message_of(e),
    }
}

/// Whether no UUID after position `i` and before `n` has the same text as the one at `i`.
pub open spec fn last_occurrence(uuids: Seq<String>, i: int, n: int) -> bool {
    forall|j: int| i < j < n ==> #[trigger] uuids[j]@ != uuids[i]@
}

impl<T> BatchGetResult<T> {
    /// No UUID is listed twice, within a list or across lists.
    pub open spec fn wf(&self) -> bool {
        &&& pair_keys(self.found@).no_duplicates()
        &&& string_texts(self.missing@).no_duplicates()
        &&& pair_keys(self.errors@).no_duplicates()
        &&& disjoint(pair_keys(self.found@), string_texts(self.missing@))
        &&& disjoint(pair_keys(self.found@), pair_keys(self.errors@))
        &&& disjoint(string_texts(self.missing@), pair_keys(self.errors@))
    }

    /// Whether a UUID is listed anywhere.
    pub open spec fn has_key(&self, k: Seq<char>) -> bool {
        pair_keys(self.found@).contains(k) || string_texts(self.missing@).contains(k) || pair_keys(
            self.errors@,
        ).contains(k)
    }

    /// An empty result.
    pub fn new() -> (r: Self)
        ensures
            r.wf(),
            r.found@.len() == 0 && r.missing@.len() == 0 && r.errors@.len() == 0,
    {
        let r = BatchGetResult { found: Vec::new(), missing: Vec::new(), errors: Vec::new() };
        assert(pair_keys(r.found@) =~= Seq::empty());
        assert(string_texts(r.missing@) =~= Seq::empty());
        assert(pair_keys(r.errors@) =~= Seq::empty());
        r
    }
}

impl<T> Default for BatchGetResult<T> {
    fn default() -> (r: Self)
        ensures
            r.wf(),
            r.found@.len() == 0 && r.missing@.len() == 0 && r.errors@.len() == 0,
    {
        BatchGetResult::new()
    }
}

proof fn keys_remove<V>(v: Seq<(String, V)>, i: int)
    requires
        0 <= i < v.len(),
    ensures
        pair_keys(v.remove(i)) == pair_keys(v).remove(i),
{
    assert(pair_keys(v.remove(i)) =~= pair_keys(v).remove(i));
}

proof fn keys_push<V>(v: Seq<(String, V)>, p: (String, V))
    ensures
        pair_keys(v.push(p)) == pair_keys(v).push(p.0@),
{
    assert(pair_keys(v.push(p)) =~= pair_keys(v).push(p.0@));
}

/// Removing the entry at `i` from a sequence without duplicates drops exactly that element.
proof fn remove_unique(s: Seq<Seq<char>>, i: int)
    requires
        0 <= i < s.len(),
        s.no_duplicates(),
    ensures
        s.remove(i).no_duplicates(),
        forall|k: Seq<char>| #[trigger] s.remove(i).contains(k) <==> (s.contains(k) && k != s[i]),
{
    let r = s.remove(i);
    assert forall|k: Seq<char>| #[trigger] r.contains(k) <==> (s.contains(k) && k != s[i]) by {
        if r.contains(k) {
            let q = choose|q: int| 0 <= q < r.len() && r[q] == k;
            if q < i {
                assert(s[q] == k);
            } else {
                assert(s[q + 1] == k);
            }
        }
        if s.contains(k) && k != s[i] {
            let q = choose|q: int| 0 <= q < s.len() && s[q] == k;
            if q < i {
                assert(r[q] == k);
            } else {
                assert(r[q - 1] == k);
            }
        }
    }
    assert forall|a: int, b: int| 0 <= a < r.len() && 0 <= b < r.len() && a != b implies r[a]
        != r[b] by {
        let sa = if a < i { a } else { a + 1 };
        let sb = if b < i { b } else { b + 1 };
        assert(r[a] == s[sa] && r[b] == s[sb]);
    }
}

/// Pushing a key that is absent keeps a sequence free of duplicates.
proof fn push_fresh(s: Seq<Seq<char>>, k: Seq<char>)
    requires
        s.no_duplicates(),
        !s.contains(k),
    ensures
        s.push(k).no_duplicates(),
        forall|x: Seq<char>| #[trigger] s.push(k).contains(x) <==> (s.contains(x) || x == k),
{
    let r = s.push(k);
    assert forall|x: Seq<char>| #[trigger] r.contains(x) <==> (s.contains(x) || x == k) by {
        if r.contains(x) {
            let q = choose|q: int| 0 <= q < r.len() && r[q] == x;
            if q < s.len() {
                assert(s[q] == x);
            }
        }
        if s.contains(x) {
            let q = choose|q: int| 0 <= q < s.len() && s[q] == x;
            assert(r[q] == x);
        }
        if x == k {
            assert(r[s.len() as int] == x);
        }
    }
}

/// Drops the entry with key `key`, if any, from pairs whose keys are distinct.
fn remove_pair<V>(v: &mut Vec<(String, V)>, key: &str)
    requires
        pair_keys(old(v)@).no_duplicates(),
    ensures
        pair_keys(final(v)@).no_duplicates(),
        forall|k: Seq<char>| #[trigger] pair_keys(final(v)@).contains(k) <==> (pair_keys(
            old(v)@,
        ).contains(k) && k != key@),
        forall|p: (String, V)| #[trigger] final(v)@.contains(p) ==> old(v)@.contains(p),
        forall|p: (String, V)| old(v)@.contains(p) && p.0@ != key@ ==> #[trigger] final(v)@.contains(p),
{
    let mut i: usize = 0;
    while i < v.len()
        invariant
            i <= v@.len(),
            v@ == old(v)@,
            pair_keys(old(v)@).no_duplicates(),
            forall|j: int| 0 <= j < i ==> #[trigger] v@[j].0@ != key@,
        decreases v@.len() - i,
    {
        if str_eq(v[i].0.as_str(), key) {
            let ghost before = v@;
            proof {
                keys_remove(before, i as int);
                remove_unique(pair_keys(before), i as int);
            }
            v.remove(i);
            assert forall|p: (String, V)| #[trigger] v@.contains(p) implies before.contains(p) by {
                let q = choose|q: int| 0 <= q < v@.len() && v@[q] == p;
                if q < i {
                    assert(before[q] == p);
                } else {
                    assert(before[q + 1] == p);
                }
            }
            assert forall|p: (String, V)| before.contains(p) && p.0@ != key@ implies #[trigger] v@.contains(p) by {
                let q = choose|q: int| 0 <= q < before.len() && before[q] == p;
                if q < i {
                    assert(v@[q] == p);
                } else {
                    assert(q != i);
                    assert(v@[q - 1] == p);
                }
            }
            return;
        }
        i = i + 1;
    }
    assert forall|k: Seq<char>| #[trigger] pair_keys(v@).contains(k) implies k != key@ by {
        let q = choose|q: int| 0 <= q < pair_keys(v@).len() && pair_keys(v@)[q] == k;
        assert(v@[q].0@ == k);
    }
}

/// Drops the string `key`, if present, from strings that are distinct.
fn remove_string(v: &mut Vec<String>, key: &str)
    requires
        string_texts(old(v)@).no_duplicates(),
    ensures
        string_texts(final(v)@).no_duplicates(),
        forall|k: Seq<char>| #[trigger] string_texts(final(v)@).contains(k) <==> (string_texts(
            old(v)@,
        ).contains(k) && k != key@),
{
    let mut i: usize = 0;
    while i < v.len()
        invariant
            i <= v@.len(),
            v@ == old(v)@,
            string_texts(old(v)@).no_duplicates(),
            forall|j: int| 0 <= j < i ==> #[trigger] v@[j]@ != key@,
        decreases v@.len() - i,
    {
        if str_eq(v[i].as_str(), key) {
            let ghost before = v@;
            proof {
                assert(string_texts(before.remove(i as int)) =~= string_texts(before).remove(
                    i as int,
                ));
                remove_unique(string_texts(before), i as int);
            }
            v.remove(i);
            return;
        }
        i = i + 1;
    }
    assert forall|k: Seq<char>| #[trigger] string_texts(v@).contains(k) implies k != key@ by {
        let q = choose|q: int| 0 <= q < string_texts(v@).len() && string_texts(v@)[q] == k;
        assert(v@[q]@ == k);
    }
}

impl<T> BatchGetResult<T> {
    /// Records the outcome of reading one UUID: a value goes to `found`, an absent entity to
    /// `missing`, a failure (as its text) to `errors`. An earlier outcome for the same UUID is
    /// replaced; every other entry is kept.
    pub fn record(&mut self, uuid: String, outcome: Result<Option<T>, ThemisError>)
        requires
            old(self).wf(),
        ensures
            final(self).wf(),
            forall|k: Seq<char>| #[trigger] final(self).has_key(k) <==> (old(self).has_key(k) || k
                == uuid@),
            placed(*final(self), uuid, outcome),
            forall|p: (String, T)|
                old(self).found@.contains(p) && p.0@ != uuid@ ==> #[trigger] final(self).found@.contains(p),
            forall|p: (String, String)|
                old(self).errors@.contains(p) && p.0@ != uuid@ ==> #[trigger] final(self).errors@.contains(p),
            forall|k: Seq<char>|
                string_texts(old(self).missing@).contains(k) && k != uuid@ ==> #[trigger] string_texts(
                    final(self).missing@,
                ).contains(k),
    {
        let ghost u = uuid@;
        remove_pair(&mut self.found, uuid.as_str());
        remove_string(&mut self.missing, uuid.as_str());
        remove_pair(&mut self.errors, uuid.as_str());
        match outcome {
            Ok(Some(v)) => {
                let ghost pair = (uuid, v);
                proof {
                    keys_push(self.found@, (uuid, v));
                    push_fresh(pair_keys(self.found@), u);
                }
                let ghost before = self.found@;
                self.found.push((uuid, v));
                assert(self.found@[self.found@.len() - 1] == pair);
                assert(self.found@.contains(pair));
                assert forall|p: (String, T)| before.contains(p) implies #[trigger] self.found@.contains(p) by {
                    let q = choose|q: int| 0 <= q < before.len() && before[q] == p;
                    assert(self.found@[q] == p);
                }
            },
            Ok(None) => {
                proof {
                    assert(string_texts(self.missing@.push(uuid)) =~= string_texts(
                        self.missing@,
                    ).push(u));
                    push_fresh(string_texts(self.missing@), u);
                }
                self.missing.push(uuid);
                assert(string_texts(self.missing@).last() == u);
            },
            Err(e) => {
                let m = e.message();
                let ghost pair = (uuid, m);
                proof {
                    keys_push(self.errors@, (uuid, m));
                    push_fresh(pair_keys(self.errors@), u);
                }
                let ghost before = self.errors@;
                self.errors.push((uuid, m));
                assert(self.errors@[self.errors@.len() - 1] == pair);
                assert(self.errors@.contains(pair));
                assert forall|p: (String, String)| before.contains(p) implies #[trigger] self.errors@.contains(p) by {
                    let q = choose|q: int| 0 <= q < before.len() && before[q] == p;
                    assert(self.errors@[q] == p);
                }
            },
        }
    }
}

impl<T> BatchGetResult<T> {
    /// Gathers the outcomes of reading each UUID, in order. Every UUID ends up in exactly one
    /// of `found`, `missing` and `errors`, and nothing else is listed; for a UUID given more
    /// than once, its last outcome counts.
    pub fn from_outcomes(uuids: &Vec<String>, outcomes: Vec<Result<Option<T>, ThemisError>>) -> (r: Self)
        requires
            uuids@.len() == outcomes@.len(),
        ensures
            r.wf(),
            forall|k: Seq<char>| #[trigger] r.has_key(k) <==> string_texts(uuids@).contains(k),
            forall|i: int|
                0 <= i < uuids@.len() && last_occurrence(uuids@, i, uuids@.len() as int)
                    ==> placed(r, #[trigger] uuids@[i], outcomes@[i]),
    {
        let ghost all = outcomes@;
        let mut outcomes = outcomes;
        let mut r = BatchGetResult::new();
        let mut i: usize = 0;
        while i < uuids.len()
            invariant
                i <= uuids@.len(),
                uuids@.len() == all.len(),
                outcomes@ == all.skip(i as int),
                r.wf(),
                forall|k: Seq<char>| #[trigger] r.has_key(k) <==> string_texts(uuids@.take(i as int)).contains(k),
                forall|k: int|
                    0 <= k < i && last_occurrence(uuids@, k, i as int) ==> placed(
                        r,
                        #[trigger] uuids@[k],
                        all[k],
                    ),
            decreases uuids@.len() - i,
        {
            let outcome = outcomes.remove(0);
            assert(outcomes@ =~= all.skip(i + 1));
            let ghost before = r;
            r.record(uuids[i].clone(), outcome);
            assert forall|k: int|
                0 <= k < i + 1 && last_occurrence(uuids@, k, i + 1) implies placed(
                r,
                #[trigger] uuids@[k],
                all[k],
            ) by {
                if k < i {
                    assert(uuids@[i as int]@ != uuids@[k]@);
                    assert(last_occurrence(uuids@, k, i as int));
                    assert(placed(before, uuids@[k], all[k]));
                    match all[k] {
                        Ok(Some(v)) => {
                            assert(before.found@.contains((uuids@[k], v)));
                        },
                        Ok(None) => {},
                        Err(e) => {
                            let m = choose|m: String|
                                before.errors@.contains((uuids@[k], m)) && m@ == message_of(e);
                            assert(r.errors@.contains((uuids@[k], m)));
                        },
                    }
                }
            }
            assert forall|k: Seq<char>| #[trigger] r.has_key(k) <==> string_texts(uuids@.take(i + 1)).contains(k) by {
                let t = string_texts(uuids@.take(i as int));
                assert(string_texts(uuids@.take(i + 1)) =~= t.push(uuids@[i as int]@));
                if t.contains(k) {
                    let q = choose|q: int| 0 <= q < t.len() && t[q] == k;
                    assert(t.push(uuids@[i as int]@)[q] == k);
                }
                if k == uuids@[i as int]@ {
                    assert(t.push(uuids@[i as int]@)[i as int] == k);
                }
                if t.push(uuids@[i as int]@).contains(k) {
                    let q = choose|q: int| 0 <= q < t.len() + 1 && t.push(uuids@[i as int]@)[q] == k;
                    if q < t.len() {
                        assert(t[q] == k);
                    }
                }
            }
            i = i + 1;
        }
        assert(uuids@.take(i as int) =~= uuids@);
        r
    }
}

} // verus!
