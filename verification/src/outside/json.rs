//! JSON objects, by the `serde_json` crate.
use vstd::prelude::*;

verus! {

#[verifier::external_type_specification]
#[verifier::external_body]
#[verifier::reject_recursive_types(K)]
#[verifier::reject_recursive_types(V)]
pub struct ExJsonMap<K, V>(serde_json::Map<K, V>);

#[verifier::external_type_specification]
#[verifier::external_body]
pub struct ExJsonValue(serde_json::Value);

#[verifier::external_type_specification]
#[verifier::external_body]
pub struct ExJsonError(serde_json::Error);

/// A JSON object.
pub type JsonObject = serde_json::Map<String, serde_json::Value>;

/// A text or an unsigned number, as a member of an object.
pub enum JsonScalar {
    Text(String),
    Number(u64),
}

/// What an object has under a name.
pub enum JsonField {
    Missing,
    Scalar(JsonScalar),
    Other,
}

/// The value of a member: a text, an unsigned number, or anything else by its
/// compact JSON form.
pub enum JsonModel {
    Text(Seq<char>),
    Number(u64),
    Other(Seq<char>),
}

impl View for JsonScalar {
    type V = JsonModel;

    open spec fn view(&self) -> JsonModel {
        match self {
            JsonScalar::Text(text) => JsonModel::Text(text@),
            JsonScalar::Number(number) => JsonModel::Number(*number),
        }
    }
}

/// The members of an object.
pub type JsonMembers = Map<Seq<char>, JsonModel>;

/// The members that `object` holds, by name.
pub uninterp spec fn json_members(object: JsonObject) -> Map<Seq<char>, JsonModel>;

/// The compact JSON form of an object with these members.
pub uninterp spec fn json_text(members: Map<Seq<char>, JsonModel>) -> Seq<char>;

/// The members of the object that a text is the JSON form of, where the last
/// of several members of one name counts; `None` where it is no object.
pub uninterp spec fn json_parsed(text: Seq<char>) -> Option<Map<Seq<char>, JsonModel>>;

/// Every member is a text or an unsigned number.
pub open spec fn scalars_only(members: Map<Seq<char>, JsonModel>) -> bool {
    forall|name: Seq<char>| #[trigger] members.contains_key(name) ==> !(members[name] is Other)
}

/// `serde_json::Map::new`: an object without members.
#[verifier::external_body]
pub(crate) fn json_object() -> (r: JsonObject)
    ensures
        json_members(r) == JsonMembers::empty(),
{
    serde_json::Map::new()
}

/// `serde_json::Map::insert`: the member is added, or replaced where the name
/// was there.
#[verifier::external_body]
pub(crate) fn json_insert(object: &mut JsonObject, name: &str, value: JsonScalar)
    ensures
        json_members(*final(object)) == json_members(*old(object)).insert(name@, value@),
{
    let value = match value {
        JsonScalar::Text(text) => serde_json::Value::String(text),
        JsonScalar::Number(number) => serde_json::Value::from(number),
    };
    object.insert(name.to_owned(), value);
}

/// `serde_json::Map::get`, with the value told apart by its kind; a number is
/// one that `serde_json::Value::as_u64` gives.
#[verifier::external_body]
pub(crate) fn json_get(object: &JsonObject, name: &str) -> (r: JsonField)
    ensures
        match r {
            JsonField::Missing => !json_members(*object).contains_key(name@),
            JsonField::Scalar(value) => json_members(*object).contains_pair(name@, value@),
            JsonField::Other => json_members(*object).contains_key(name@) && json_members(
                *object,
            )[name@] is Other,
        },
{
    match object.get(name) {
        None => JsonField::Missing,
        Some(serde_json::Value::String(text)) => JsonField::Scalar(JsonScalar::Text(text.clone())),
        Some(value) => match value.as_u64() {
            Some(number) => JsonField::Scalar(JsonScalar::Number(number)),
            None => JsonField::Other,
        },
    }
}

/// `serde_json::to_string` on an object, which cannot fail there.
///
/// The text depends on the members alone. An object of texts and unsigned
/// numbers comes back from its text.
#[verifier::external_body]
pub(crate) fn json_to_string(object: &JsonObject) -> (r: Result<String, serde_json::Error>)
    ensures
        match r {
            Ok(text) => text@ == json_text(json_members(*object)),
            Err(_) => false,
        },
        scalars_only(json_members(*object)) ==> json_parsed(r->Ok_0@) == Some(json_members(*object)),
{
    serde_json::to_string(object)
}

/// `serde_json::from_str` for an object. The result depends on the text alone.
#[verifier::external_body]
pub(crate) fn json_from_str(text: &str) -> (r: Result<JsonObject, serde_json::Error>)
    ensures
        match r {
            Ok(object) => json_parsed(text@) == Some(json_members(object)),
            Err(_) => json_parsed(text@) is None,
        },
{
    serde_json::from_str(text)
}

} // verus!
