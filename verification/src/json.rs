//! JSON values as the protocol carries them.
//!
//! The values themselves are `serde_json::Value`s. Verus cannot look inside
//! one, so this module gives each value a mathematical model, [`Json`], and
//! states every operation the library performs on a value over that model.
//! The operations are thin trusted wrappers round `serde_json`; everything
//! built on top of them is verified.
use vstd::prelude::*;

verus! {

/// `serde_json::Value`, carried through verified code as an opaque value.
#[verifier::external_type_specification]
#[verifier::external_body]
pub struct ExValue(serde_json::Value);

/// `serde_json::Error`, carried through verified code as an opaque value.
#[verifier::external_type_specification]
#[verifier::external_body]
pub struct ExJsonError(serde_json::Error);

/// Model of a JSON number: an unsigned integer, a negative integer, or a
/// finite binary64 number given by its bit pattern.
pub enum JsonNumber {
    PosInt(u64),
    NegInt(i64),
    Real(u64),
}

/// Model of a JSON value. An object is the sequence of its entries in
/// insertion order; no key occurs twice in it.
pub enum Json {
    Null,
    Bool(bool),
    Number(JsonNumber),
    String(Seq<char>),
    Array(Seq<Json>),
    Object(Seq<(Seq<char>, Json)>),
}

/// The entries of an object after `key` has been set to `value`: an entry
/// that already has the key keeps its place and gets the new value,
/// otherwise the new entry goes last.
pub open spec fn with_entry(
    entries: Seq<(Seq<char>, Json)>,
    key: Seq<char>,
    value: Json,
) -> Seq<(Seq<char>, Json)>
    decreases entries.len(),
{
    if entries.len() == 0 {
        seq![(key, value)]
    } else if entries[0].0 == key {
        seq![(key, value)] + entries.drop_first()
    } else {
        seq![entries[0]] + with_entry(entries.drop_first(), key, value)
    }
}

/// Whether some entry of an object has the given key.
pub open spec fn has_key(entries: Seq<(Seq<char>, Json)>, key: Seq<char>) -> bool {
    exists|i: int| 0 <= i < entries.len() && (#[trigger] entries[i]).0 == key
}

impl Json {
    /// This value with `key` set to `value`, for an object; any other value
    /// is left as it is.
    pub open spec fn with_key(self, key: Seq<char>, value: Json) -> Json {
        match self {
            Json::Object(entries) => Json::Object(with_entry(entries, key, value)),
            other => other,
        }
    }
}

/// What a `serde_json::Value` holds.
pub uninterp spec fn json_model(v: serde_json::Value) -> Json;

/// The compact JSON text that `serde_json::to_string` produces for a value
/// with the given model.
pub uninterp spec fn json_text(j: Json) -> Seq<char>;

/// The value that `serde_json::from_str` reads from a text, or `None` where
/// it rejects the text.
pub uninterp spec fn json_parse(s: Seq<char>) -> Option<Json>;

/// The models of a list of values, in order.
pub open spec fn json_models(items: Seq<serde_json::Value>) -> Seq<Json> {
    Seq::new(items.len(), |i: int| json_model(items[i]))
}

/// The model of an optional value.
pub open spec fn json_option(v: Option<serde_json::Value>) -> Option<Json> {
    match v {
        Some(v) => Some(json_model(v)),
        None => None,
    }
}

/// The model of an optional borrowed value.
pub open spec fn json_ref_option(v: Option<&serde_json::Value>) -> Option<Json> {
    match v {
        Some(v) => Some(json_model(*v)),
        None => None,
    }
}

/// `serde_json::Value::is_object`: true exactly for the `Object` variant.
#[verifier::external_body]
pub(crate) fn is_object(v: &serde_json::Value) -> (b: bool)
    ensures
        b == (json_model(*v) is Object),
{
    v.is_object()
}

/// `serde_json::Value::as_object_mut` followed by `serde_json::Map::insert`,
/// on a value that is an object. The map keeps insertion order: a key that is
/// already present keeps its place and has its value replaced, a new key is
/// entered last.
#[verifier::external_body]
pub(crate) fn insert_entry(v: &mut serde_json::Value, key: &str, item: serde_json::Value)
    requires
        json_model(*old(v)) is Object,
    ensures
        json_model(*final(v)) == json_model(*old(v)).with_key(key@, json_model(item)),
{
    v.as_object_mut().unwrap().insert(key.to_string(), item);
}

/// The variant `serde_json::Value::String`.
#[verifier::external_body]
pub(crate) fn string_value(s: &str) -> (v: serde_json::Value)
    ensures
        json_model(v) == Json::String(s@),
{
    serde_json::Value::String(s.to_string())
}

/// `serde_json::Number::from` on a `u32`, in the variant
/// `serde_json::Value::Number`: the unsigned integer itself.
#[verifier::external_body]
pub(crate) fn index_value(n: u32) -> (v: serde_json::Value)
    ensures
        json_model(v) == Json::Number(JsonNumber::PosInt(n as u64)),
{
    serde_json::Value::Number(serde_json::Number::from(n))
}

/// The variant `serde_json::Value::Array`, holding copies of the given values
/// in the given order.
#[verifier::external_body]
pub(crate) fn array_value(items: &Vec<serde_json::Value>) -> (v: serde_json::Value)
    ensures
        json_model(v) == Json::Array(json_models(items@)),
{
    serde_json::Value::Array(items.clone())
}

/// `serde_json::Value::default`: the JSON null.
#[verifier::external_body]
pub(crate) fn null_value() -> (v: serde_json::Value)
    ensures
        json_model(v) == Json::Null,
{
    serde_json::Value::default()
}

/// `serde_json::to_string` on a value. It writes into memory, and a value
/// has no keys but strings and no numbers but finite ones, so the call has
/// nothing to fail on. The text depends on what the value holds and on
/// nothing else; nothing more is claimed of it.
#[verifier::external_body]
pub(crate) fn encode(v: &serde_json::Value) -> (r: Result<String, serde_json::Error>)
    ensures
        r is Ok,
        r matches Ok(s) ==> s@ == json_text(json_model(*v)),
{
    serde_json::to_string(v)
}

/// `serde_json::from_str`, reading a `serde_json::Value`. The outcome depends
/// on the text and on nothing else; nothing more is claimed of it.
#[verifier::external_body]
pub(crate) fn decode(s: &str) -> (r: Result<serde_json::Value, serde_json::Error>)
    ensures
        r is Ok <==> json_parse(s@) is Some,
        r matches Ok(v) ==> json_parse(s@) == Some(json_model(v)),
{
    serde_json::from_str(s)
}

} // verus!
