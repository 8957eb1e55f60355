//! Trusted boundary to serde_json's string-keyed object type.
//!
//! A `serde_json::Map<String, Value>` is opaque to the verifier, so it is
//! modelled by its contents: a mathematical map from each key to the
//! canonical serialization text of its value (serde_json's map keeps its
//! keys sorted, so serialization is a function of those contents).

use vstd::prelude::*;

verus! {

#[verifier::external_type_specification]
#[verifier::external_body]
#[verifier::reject_recursive_types(K)]
#[verifier::reject_recursive_types(V)]
pub struct ExSerdeJsonMap<K, V>(serde_json::Map<K, V>);

#[verifier::external_type_specification]
#[verifier::external_body]
pub struct ExSerdeJsonValue(serde_json::Value);

/// What a serde_json object holds: each key mapped to the canonical
/// serialization text of its value.
pub uninterp spec fn obj_model(m: serde_json::Map<String, serde_json::Value>) -> Map<
    Seq<char>,
    Seq<char>,
>;

/// What `serde_json::to_string` returns on an object with the given contents.
pub uninterp spec fn json_text_of(model: Map<Seq<char>, Seq<char>>) -> Seq<char>;

/// What `serde_json::from_str` returns on the given text: the contents of
/// the parsed object, or `None` when the text is not a JSON object.
pub uninterp spec fn parsed_obj_of(s: Seq<char>) -> Option<Map<Seq<char>, Seq<char>>>;

/// The canonical serialization text of a JSON string value.
pub uninterp spec fn json_str_of(s: Seq<char>) -> Seq<char>;

/// What `Value::as_i64` returns on the value with the given canonical text.
pub uninterp spec fn i64_of_text(t: Seq<char>) -> Option<i64>;

/// The empty object contents.
pub open spec fn empty_model() -> Map<Seq<char>, Seq<char>> {
    Map::empty()
}

/// The integer stored under a key, if the key is present and its value is
/// an integer in range; matches `m.get(k).and_then(|v| v.as_i64())`.
pub open spec fn spec_obj_get_i64(model: Map<Seq<char>, Seq<char>>, k: Seq<char>) -> Option<i64> {
    if model.contains_key(k) {
        i64_of_text(model[k])
    } else {
        None
    }
}

/// Relies on `serde_json::Map::new`: a fresh object is empty.
#[verifier::external_body]
pub fn obj_new() -> (r: serde_json::Map<String, serde_json::Value>)
    ensures
        obj_model(r) == empty_model(),
{
    serde_json::Map::new()
}

/// Relies on `serde_json::Map::insert` with a `Value::String`.
#[verifier::external_body]
pub fn obj_insert_str(m: &mut serde_json::Map<String, serde_json::Value>, k: &str, v: &str)
    ensures
        obj_model(*final(m)) == obj_model(*old(m)).insert(k@, json_str_of(v@)),
{
    m.insert(k.to_owned(), serde_json::Value::String(v.to_owned()));
}

/// Relies on `serde_json::Map::get` and `Value::as_i64`.
#[verifier::external_body]
pub fn obj_get_i64(m: &serde_json::Map<String, serde_json::Value>, k: &str) -> (r: Option<i64>)
    ensures
        obj_model(*m).contains_key(k@) ==> r == i64_of_text(obj_model(*m)[k@]),
        !obj_model(*m).contains_key(k@) ==> r is None,
        r == spec_obj_get_i64(obj_model(*m), k@),
{
    match m.get(k) {
        Some(v) => v.as_i64(),
        None => None,
    }
}

/// Relies on `serde_json::Map::get`, `Value::as_str` and string equality:
/// whether the key is present and holds exactly the given string value.
#[verifier::external_body]
pub fn obj_has_str(m: &serde_json::Map<String, serde_json::Value>, k: &str, v: &str) -> (r: bool)
    ensures
        r == (obj_model(*m).contains_key(k@) && obj_model(*m)[k@] == json_str_of(v@)),
{
    match m.get(k) {
        Some(value) => match value.as_str() {
            Some(s) => s == v,
            None => false,
        },
        None => false,
    }
}

/// Relies on `serde_json::to_string` on an object: serialization of a
/// string-keyed object never fails, and parsing the result returns an
/// object with the same contents.
#[verifier::external_body]
pub fn obj_to_string(m: &serde_json::Map<String, serde_json::Value>) -> (r: String)
    ensures
        r@ == json_text_of(obj_model(*m)),
        parsed_obj_of(r@) == Some(obj_model(*m)),
{
    serde_json::to_string(m).unwrap()
}

/// Relies on `serde_json::from_str` at object type: it succeeds exactly on
/// the text of a JSON object.
#[verifier::external_body]
pub fn parse_json_obj(s: &str) -> (r: Option<serde_json::Map<String, serde_json::Value>>)
    ensures
        r is Some <==> parsed_obj_of(s@) is Some,
        r is Some ==> Some(obj_model(r->Some_0)) == parsed_obj_of(s@),
{
    match serde_json::from_str(s) {
        Ok(m) => Some(m),
        Err(_) => None,
    }
}

} // verus!
