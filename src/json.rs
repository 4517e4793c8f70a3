use vstd::prelude::*;

verus! {

broadcast use vstd::std_specs::vec::axiom_vec_index_decreases;

/// A JSON number as it arrived: an integer, or the bit pattern of a binary64 value.
#[derive(Clone, Copy, Debug, PartialEq, Eq)]
pub enum JsonNumber {
    Int(i64),
    UInt(u64),
    FloatBits(u64),
}

/// A JSON document.
#[derive(Debug, PartialEq)]
pub enum Json {
    Null,
    Bool(bool),
    Number(JsonNumber),
    String(String),
    Array(Vec<Json>),
    Object(Vec<(String, Json)>),
}

/// The mathematical form of a JSON document.
#[verifier::ext_equal]
pub enum JsonModel {
    Null,
    Bool(bool),
    Number(JsonNumber),
    String(Seq<char>),
    Array(Seq<JsonModel>),
    Object(Seq<(Seq<char>, JsonModel)>),
}

/// The value stored under `key` in an object's entries: the first entry with that key.
pub open spec fn lookup(entries: Seq<(Seq<char>, JsonModel)>, key: Seq<char>) -> Option<JsonModel>
    decreases entries.len(),
{
    if entries.len() == 0 {
        None
    } else if entries[0].0 == key {
        Some(entries[0].1)
    } else {
        lookup(entries.drop_first(), key)
    }
}

/// The sequences joined end to end, in order.
pub open spec fn concat_all<A>(parts: Seq<Seq<A>>) -> Seq<A>
    decreases parts.len(),
{
    if parts.len() == 0 {
        Seq::empty()
    } else {
        concat_all(parts.drop_last()) + parts.last()
    }
}

/// Joining one more part extends the join of the parts before it.
pub proof fn concat_all_step<A>(parts: Seq<Seq<A>>, i: int)
    requires
        0 <= i < parts.len(),
    ensures
        concat_all(parts.take(i + 1)) == concat_all(parts.take(i)) + parts[i],
{
    assert(parts.take(i + 1).drop_last() =~= parts.take(i));
}

/// Pushing a document pushes its model.
pub proof fn models_push(items: Seq<Json>, item: Json)
    ensures
        Json::models(items.push(item)) == Json::models(items).push(item.model()),
{
    assert(Json::models(items.push(item)) =~= Json::models(items).push(item.model()));
}

/// The models of an object's entries.
pub open spec fn entry_models(entries: Seq<(String, Json)>) -> Seq<(Seq<char>, JsonModel)> {
    Seq::new(entries.len(), |i: int| (entries[i].0@, entries[i].1.model()))
}

/// The model of an array is the sequence of its items' models.
pub proof fn array_model(items: Vec<Json>)
    ensures
        Json::Array(items).model() == JsonModel::Array(Json::models(items@)),
{
    assert(Json::Array(items).model()->Array_0 =~= Json::models(items@));
}

/// The model of an object is the sequence of its entries' models.
pub proof fn object_model(entries: Vec<(String, Json)>)
    ensures
        Json::Object(entries).model() == JsonModel::Object(entry_models(entries@)),
{
    assert(Json::Object(entries).model()->Object_0 =~= entry_models(entries@));
}

impl JsonModel {
    /// The member `key` of an object; nothing for any other kind of value.
    pub open spec fn field(self, key: Seq<char>) -> Option<JsonModel> {
        match self {
            JsonModel::Object(entries) => lookup(entries, key),
            _ => None,
        }
    }

    /// The member `key`, when it is a string.
    pub open spec fn str_field(self, key: Seq<char>) -> Option<Seq<char>> {
        match self.field(key) {
            Some(JsonModel::String(s)) => Some(s),
            _ => None,
        }
    }

    /// The member `key`, when it is an array.
    pub open spec fn array_field(self, key: Seq<char>) -> Option<Seq<JsonModel>> {
        match self.field(key) {
            Some(JsonModel::Array(items)) => Some(items),
            _ => None,
        }
    }

    /// The member `key`, when it is a boolean.
    pub open spec fn bool_field(self, key: Seq<char>) -> Option<bool> {
        match self.field(key) {
            Some(JsonModel::Bool(b)) => Some(b),
            _ => None,
        }
    }
}

impl Json {
    pub open spec fn model(&self) -> JsonModel
        decreases self,
    {
        match self {
            Json::Null => JsonModel::Null,
            Json::Bool(b) => JsonModel::Bool(*b),
            Json::Number(n) => JsonModel::Number(*n),
            Json::String(s) => JsonModel::String(s@),
            Json::Array(v) => JsonModel::Array(
                Seq::new(v.len() as nat, |i: int| if 0 <= i < v.len() { v[i].model() } else { JsonModel::Null }),
            ),
            Json::Object(v) => JsonModel::Object(
                Seq::new(v.len() as nat, |i: int|
                    if 0 <= i < v.len() { (v[i].0@, v[i].1.model()) } else { (Seq::empty(), JsonModel::Null) }),
            ),
        }
    }

    /// The models of a sequence of documents.
    pub open spec fn models(items: Seq<Json>) -> Seq<JsonModel> {
        Seq::new(items.len(), |i: int| items[i].model())
    }

    /// A deep copy of the document.
    pub fn duplicate(&self) -> (r: Json)
        ensures
            r.model() == self.model(),
        decreases self,
    {
        match self {
            Json::Null => Json::Null,
            Json::Bool(b) => Json::Bool(*b),
            Json::Number(n) => Json::Number(*n),
            Json::String(s) => Json::String(s.clone()),
            Json::Array(v) => {
                let mut out: Vec<Json> = Vec::new();
                let mut i: usize = 0;
                while i < v.len()
                    invariant
                        *self is Array,
                        self->Array_0 == *v,
                        i <= v.len(),
                        out.len() == i,
                        forall|j: int| 0 <= j < i ==> #[trigger] out[j].model() == v[j].model(),
                    decreases v.len() - i,
                {
                    proof {
                        vstd::std_specs::vec::axiom_vec_index_decreases(*v, i as int);
                    }
                    out.push(v[i].duplicate());
                    i = i + 1;
                }
                let r = Json::Array(out);
                proof {
                    let ra = r.model()->Array_0;
                    let sa = self.model()->Array_0;
                    assert forall|j: int| 0 <= j < ra.len() implies ra[j] == sa[j] by {
                        assert(out[j].model() == v[j].model());
                    }
                    assert(ra =~= sa);
                }
                r
            },
            Json::Object(v) => {
                let mut out: Vec<(String, Json)> = Vec::new();
                let mut i: usize = 0;
                while i < v.len()
                    invariant
                        *self is Object,
                        self->Object_0 == *v,
                        i <= v.len(),
                        out.len() == i,
                        forall|j: int|
                            0 <= j < i ==> #[trigger] out[j].0@ == v[j].0@ && out[j].1.model()
                                == v[j].1.model(),
                    decreases v.len() - i,
                {
                    proof {
                        vstd::std_specs::vec::axiom_vec_index_decreases(*v, i as int);
                    }
                    out.push((v[i].0.clone(), v[i].1.duplicate()));
                    i = i + 1;
                }
                let r = Json::Object(out);
                proof {
                    let ra = r.model()->Object_0;
                    let sa = self.model()->Object_0;
                    assert(ra =~= sa);
                }
                r
            },
        }
    }

    /// The member `key` of an object.
    pub fn get(&self, key: &str) -> (r: Option<&Json>)
        ensures
            match r {
                Some(v) => self.model().field(key@) == Some(v.model()),
                None => self.model().field(key@) is None,
            },
    {
        match self {
            Json::Object(entries) => {
                let ghost m = match self.model() {
                    JsonModel::Object(e) => e,
                    _ => Seq::empty(),
                };
                let mut i: usize = 0;
                assert(m.skip(0) =~= m);
                while i < entries.len()
                    invariant
                        self.model().field(key@) == lookup(m, key@),
                        i <= entries.len(),
                        m.len() == entries.len(),
                        forall|j: int| 0 <= j < m.len() ==> #[trigger] m[j] == (entries[j].0@, entries[j].1.model()),
                        lookup(m, key@) == lookup(m.skip(i as int), key@),
                    decreases entries.len() - i,
                {
                    assert(m.skip(i as int).drop_first() =~= m.skip(i + 1));
                    if crate::text::str_eq(entries[i].0.as_str(), key) {
                        assert(m.skip(i as int)[0] == m[i as int]);
                        assert(m[i as int].0 == key@);
                        assert(lookup(m.skip(i as int), key@) == Some(m[i as int].1));
                        return Some(&entries[i].1);
                    }
                    i = i + 1;
                }
                assert(m.skip(i as int) =~= Seq::empty());
                None
            },
            _ => None,
        }
    }

    /// The member `key`, when it is a string.
    pub fn str_field(&self, key: &str) -> (r: Option<&String>)
        ensures
            match r {
                Some(s) => self.model().str_field(key@) == Some(s@),
                None => self.model().str_field(key@) is None,
            },
    {
        match self.get(key) {
            Some(Json::String(s)) => Some(s),
            _ => None,
        }
    }

    /// The member `key`, when it is an array.
    pub fn array_field(&self, key: &str) -> (r: Option<&Vec<Json>>)
        ensures
            match r {
                Some(items) => self.model().array_field(key@) == Some(Json::models(items@)),
                None => self.model().array_field(key@) is None,
            },
    {
        match self.get(key) {
            Some(Json::Array(items)) => {
                assert(Json::models(items@) =~= Seq::new(items.len() as nat, |i: int| if 0 <= i < items.len() { items[i].model() } else { JsonModel::Null }));
                Some(items)
            },
            _ => None,
        }
    }

    /// The member `key`, when it is a boolean.
    pub fn bool_field(&self, key: &str) -> (r: Option<bool>)
        ensures
            r == self.model().bool_field(key@),
    {
        match self.get(key) {
            Some(Json::Bool(b)) => Some(*b),
            _ => None,
        }
    }
}

} // verus!
