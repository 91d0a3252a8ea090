//! JSON documents as `serde_json` holds them, and the few operations on them
//! that the wire codec needs.
//!
//! A `serde_json::Value` is opaque to the verifier. What it holds is named by
//! [`json_model`]; every operation below is a thin call into `serde_json`
//! whose contract is taken on trust and stated over that model.

use vstd::prelude::*;

verus! {

/// The members of a JSON object: the keys in the order in which the object
/// lists them, and the document stored under each key.
pub struct Fields {
    pub order: Seq<Seq<char>>,
    pub members: Map<Seq<char>, Json>,
}

/// The mathematical content of a JSON document.
pub enum Json {
    Null,
    Flag(bool),
    /// A number, by the digits that stand for it; the codec never looks inside.
    Number(Seq<char>),
    Text(Seq<char>),
    List(Seq<Json>),
    Object(Fields),
}

impl Fields {
    /// The object without members.
    pub open spec fn empty() -> Fields {
        Fields { order: Seq::empty(), members: Map::empty() }
    }

    /// The members after `doc` is stored under `key`: a new key is listed
    /// last, a known key keeps its place.
    pub open spec fn with(self, key: Seq<char>, doc: Json) -> Fields {
        Fields {
            order: if self.members.contains_key(key) {
                self.order
            } else {
                self.order.push(key)
            },
            members: self.members.insert(key, doc),
        }
    }
}

impl Json {
    /// The member stored under `key`, if this is an object that has one.
    pub open spec fn field(self, key: Seq<char>) -> Option<Json> {
        match self {
            Json::Object(fields) => if fields.members.contains_key(key) {
                Some(fields.members[key])
            } else {
                None
            },
            _ => None,
        }
    }

    /// The characters of a JSON string.
    pub open spec fn text(self) -> Option<Seq<char>> {
        match self {
            Json::Text(chars) => Some(chars),
            _ => None,
        }
    }

    /// The value of a JSON boolean.
    pub open spec fn flag(self) -> Option<bool> {
        match self {
            Json::Flag(b) => Some(b),
            _ => None,
        }
    }

    /// The elements of a JSON array.
    pub open spec fn items(self) -> Option<Seq<Json>> {
        match self {
            Json::List(items) => Some(items),
            _ => None,
        }
    }
}

/// The content of each document of a sequence.
pub open spec fn json_models(docs: Seq<serde_json::Value>) -> Seq<Json> {
    docs.map_values(|doc: serde_json::Value| json_model(doc))
}

#[verifier::external_type_specification]
#[verifier::external_body]
pub struct ExValue(serde_json::Value);

#[verifier::external_type_specification]
#[verifier::external_body]
#[verifier::reject_recursive_types(K)]
#[verifier::reject_recursive_types(V)]
pub struct ExMap<K, V>(serde_json::Map<K, V>);

/// What a `serde_json::Value` holds.
pub uninterp spec fn json_model(doc: serde_json::Value) -> Json;

/// What a `serde_json::Map` holds.
pub uninterp spec fn json_fields(fields: serde_json::Map<String, serde_json::Value>) -> Fields;

/// What `serde_json::from_str` makes of a text: the document it reads, or
/// nothing where it reports an error.
pub uninterp spec fn json_parse(text: Seq<char>) -> Option<Json>;

/// The compact text that `serde_json` writes for a document.
pub uninterp spec fn json_text(doc: Json) -> Seq<char>;

/// `serde_json::from_str` at type `Value`. Trusted: the outcome depends on
/// the text alone, and an error is reported as `None`.
#[verifier::external_body]
pub(crate) fn parse_document(text: &str) -> (parsed: Option<serde_json::Value>)
    ensures
        match parsed {
            Some(doc) => json_parse(text@) == Some(json_model(doc)),
            None => json_parse(text@) is None,
        },
{
    serde_json::from_str::<serde_json::Value>(text).ok()
}

/// `Value::get` with a string key. Trusted: it finds the member of an object
/// that is stored under the key, and nothing in any other document.
#[verifier::external_body]
pub(crate) fn member<'a>(doc: &'a serde_json::Value, key: &str) -> (found: Option<
    &'a serde_json::Value,
>)
    ensures
        match found {
            Some(inner) => json_model(*doc).field(key@) == Some(json_model(*inner)),
            None => json_model(*doc).field(key@) is None,
        },
{
    doc.get(key)
}

/// `Value::as_str`. Trusted: it hands out the characters of a JSON string,
/// and nothing for any other document.
#[verifier::external_body]
pub(crate) fn text_of<'a>(doc: &'a serde_json::Value) -> (found: Option<&'a str>)
    ensures
        match found {
            Some(chars) => json_model(*doc).text() == Some(chars@),
            None => json_model(*doc).text() is None,
        },
{
    doc.as_str()
}

/// `Value::as_bool`. Trusted: it hands out the value of a JSON boolean, and
/// nothing for any other document.
#[verifier::external_body]
pub(crate) fn flag_of(doc: &serde_json::Value) -> (found: Option<bool>)
    ensures
        found == json_model(*doc).flag(),
{
    doc.as_bool()
}

/// `Value::as_array`. Trusted: it hands out the elements of a JSON array in
/// their order, and nothing for any other document.
#[verifier::external_body]
pub(crate) fn items_of<'a>(doc: &'a serde_json::Value) -> (found: Option<
    &'a Vec<serde_json::Value>,
>)
    ensures
        match found {
            Some(items) => json_model(*doc).items() == Some(json_models(items@)),
            None => json_model(*doc).items() is None,
        },
{
    doc.as_array()
}

/// The variant `Value::String`. Trusted: the document is the JSON string of
/// the given characters.
#[verifier::external_body]
pub(crate) fn text_document(chars: String) -> (doc: serde_json::Value)
    ensures
        json_model(doc) == Json::Text(chars@),
{
    serde_json::Value::String(chars)
}

/// The variant `Value::Bool`. Trusted: the document is the JSON boolean of
/// the given value.
#[verifier::external_body]
pub(crate) fn flag_document(value: bool) -> (doc: serde_json::Value)
    ensures
        json_model(doc) == Json::Flag(value),
{
    serde_json::Value::Bool(value)
}

/// The variant `Value::Array`. Trusted: the document is the JSON array of the
/// given documents, in their order.
#[verifier::external_body]
pub(crate) fn list_document(items: Vec<serde_json::Value>) -> (doc: serde_json::Value)
    ensures
        json_model(doc) == Json::List(json_models(items@)),
{
    serde_json::Value::Array(items)
}

/// `Map::new`. Trusted: the new map has no members.
#[verifier::external_body]
pub(crate) fn no_fields() -> (fields: serde_json::Map<String, serde_json::Value>)
    ensures
        json_fields(fields) == Fields::empty(),
{
    serde_json::Map::new()
}

/// `Map::insert`. Trusted: the document is stored under the key. This crate
/// asks for `serde_json`'s `preserve_order`; the map then keeps its keys in
/// the order of their first insertion, so a new key is listed last and a
/// known key keeps its place.
#[verifier::external_body]
pub(crate) fn put_field(
    fields: &mut serde_json::Map<String, serde_json::Value>,
    key: String,
    doc: serde_json::Value,
)
    ensures
        json_fields(*final(fields)) == json_fields(*old(fields)).with(key@, json_model(doc)),
{
    fields.insert(key, doc);
}

/// The variant `Value::Object`. Trusted: the document is the JSON object of
/// the map's members.
#[verifier::external_body]
pub(crate) fn object_document(fields: serde_json::Map<String, serde_json::Value>) -> (doc:
    serde_json::Value)
    ensures
        json_model(doc) == Json::Object(json_fields(fields)),
{
    serde_json::Value::Object(fields)
}

/// `Value::to_string`. Trusted: the compact text written depends on the
/// document's content alone.
#[verifier::external_body]
pub(crate) fn render(doc: &serde_json::Value) -> (text: String)
    ensures
        text@ == json_text(json_model(*doc)),
{
    doc.to_string()
}

} // verus!
