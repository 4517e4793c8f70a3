use vstd::prelude::*;
use vstd::string::*;
use crate::json::{object_model, entry_models, Json, JsonModel};
use crate::text::owned;

verus! {

/// An entity's payload as a shard delivered it: a JSON value, or JSON text still to be parsed.
#[derive(Debug, PartialEq)]
pub enum EntityPayload {
    Value(Json),
    Text(String),
}

/// The mathematical form of an entity payload.
pub enum EntityModel {
    Value(JsonModel),
    Text(Seq<char>),
}

impl EntityPayload {
    pub open spec fn model(&self) -> EntityModel {
        match self {
            EntityPayload::Value(v) => EntityModel::Value(v.model()),
            EntityPayload::Text(t) => EntityModel::Text(t@),
        }
    }
}

/// Where a response carries its entity: the `entity` member if there is one, else the `blob`
/// member when it is a string of JSON text, else the whole response.
pub open spec fn entity_of(payload: JsonModel) -> EntityModel {
    match payload.field("entity"@) {
        Some(e) => EntityModel::Value(e),
        None => match payload.str_field("blob"@) {
            Some(b) => EntityModel::Text(b),
            None => EntityModel::Value(payload),
        },
    }
}

/// Takes the entity out of a response, by the envelope it came in.
pub fn decode_entity(payload: Json) -> (r: EntityPayload)
    ensures
        r.model() == entity_of(payload.model()),
{
    match payload.get("entity") {
        Some(e) => {
            return EntityPayload::Value(e.duplicate());
        },
        None => {},
    }
    match payload.str_field("blob") {
        Some(b) => {
            return EntityPayload::Text(b.clone());
        },
        None => {},
    }
    EntityPayload::Value(payload)
}

/// The body that stores an entity: `{"blob": <text>}`.
pub open spec fn blob_envelope(text: Seq<char>) -> JsonModel {
    JsonModel::Object(seq![("blob"@, JsonModel::String(text))])
}

/// Builds the body that stores an entity from its encoded text.
pub fn blob_body(text: String) -> (r: Json)
    ensures
        r.model() == blob_envelope(text@),
{
    let mut entries: Vec<(String, Json)> = Vec::new();
    entries.push((owned("blob"), Json::String(text)));
    proof {
        object_model(entries);
        assert(entry_models(entries@) =~= seq![("blob"@, JsonModel::String(text@))]);
    }
    Json::Object(entries)
}

/// How a response to an entity read or delete is taken.
#[derive(Debug, PartialEq, Eq, Structural)]
pub enum EntityStatus {
    /// 404: the entity does not exist.
    Absent,
    /// 200..=299: the request did its work.
    Done,
    /// Anything else: an HTTP error.
    Failed,
}

/// Classifies the status of a response to an entity read or delete.
pub fn entity_status(status: u16) -> (r: EntityStatus)
    ensures
        status == 404 ==> r == EntityStatus::Absent,
        200 <= status <= 299 ==> r == EntityStatus::Done,
        status != 404 && !(200 <= status <= 299) ==> r == EntityStatus::Failed,
{
    if status == 404 {
        EntityStatus::Absent
    } else if 200 <= status && status <= 299 {
        EntityStatus::Done
    } else {
        EntityStatus::Failed
    }
}

/// Text stored through the blob envelope is read back unchanged.
pub proof fn blob_round_trip(text: Seq<char>)
    ensures
        entity_of(blob_envelope(text)) == EntityModel::Text(text),
{
    reveal_strlit("blob");
    reveal_strlit("entity");
    assert("blob"@.len() != "entity"@.len());
    let entries = seq![("blob"@, JsonModel::String(text))];
    assert(entries.drop_first() =~= Seq::<(Seq<char>, JsonModel)>::empty());
    assert(crate::json::lookup(entries.drop_first(), "entity"@) is None);
    assert(crate::json::lookup(entries, "entity"@) is None);
    assert(crate::json::lookup(entries, "blob"@) == Some(JsonModel::String(text)));
}

/// A value stored under `entity` is read back unchanged.
pub proof fn entity_round_trip(value: JsonModel)
    ensures
        entity_of(JsonModel::Object(seq![("entity"@, value)])) == EntityModel::Value(value),
{
}

/// A response with neither an `entity` member nor a string `blob` member is the entity itself.
pub proof fn root_round_trip(value: JsonModel)
    requires
        value.field("entity"@) is None,
        value.str_field("blob"@) is None,
    ensures
        entity_of(value) == EntityModel::Value(value),
{
}

} // verus!
