//! The JSON boundary: a ghost model of JSON documents, and the trusted items
//! through which the loader reads a parsed `serde_json` document.
//!
//! Everything the loader learns about a document goes through the two names
//! [`json_of_text`] (what parsing a text yields) and [`json_of_value`] (what a
//! parsed value holds), applied by the contracts of the wrappers below.

use vstd::prelude::*;

verus! {

#[verifier::external_type_specification]
#[verifier::external_body]
pub struct ExValue(serde_json::Value);

/// Ghost model of a JSON document. Number payloads are not modelled: the
/// configuration format gives no meaning to numbers, only rejects them.
pub enum Json {
    Null,
    Bool(bool),
    Num,
    Str(Seq<char>),
    Arr(Seq<Json>),
    Obj(Seq<(Seq<char>, Json)>),
}

/// The model of the document a text parses to, or `None` when the text is
/// not well-formed JSON.
pub uninterp spec fn json_of_text(s: Seq<char>) -> Option<Json>;

/// The model of what a parsed JSON value holds.
pub uninterp spec fn json_of_value(v: serde_json::Value) -> Json;

/// The JSON encoding of a list of strings.
pub uninterp spec fn json_list_of(names: Seq<Seq<char>>) -> Seq<char>;

/// One level of a parsed JSON value, with children still opaque.
pub enum JsonShape {
    Null,
    Bool(bool),
    Num,
    Str(String),
    Arr(Vec<serde_json::Value>),
    Obj(Vec<(String, serde_json::Value)>),
}

/// Relies on `serde_json::from_str::<serde_json::Value>`: parses JSON text;
/// success and result depend on the text alone.
#[verifier::external_body]
pub(crate) fn parse_document(text: &str) -> (r: Option<serde_json::Value>)
    ensures
        r is Some <==> json_of_text(text@) is Some,
        r matches Some(v) ==> json_of_text(text@) == Some(json_of_value(v)),
{
    serde_json::from_str::<serde_json::Value>(text).ok()
}

/// Relies on `serde_json::Value`'s public variants (and `Map::iter` for the
/// object case): tells the variants apart, one arm each, cloning children.
#[verifier::external_body]
pub(crate) fn value_shape(v: &serde_json::Value) -> (r: JsonShape)
    ensures
        (match r {
            JsonShape::Null => json_of_value(*v) == Json::Null,
            JsonShape::Bool(b) => json_of_value(*v) == Json::Bool(b),
            JsonShape::Num => json_of_value(*v) == Json::Num,
            JsonShape::Str(s) => json_of_value(*v) == Json::Str(s@),
            JsonShape::Arr(a) => json_of_value(*v) == Json::Arr(
                a@.map_values(|x: serde_json::Value| json_of_value(x)),
            ),
            JsonShape::Obj(es) => json_of_value(*v) == Json::Obj(
                es@.map_values(|p: (String, serde_json::Value)| (p.0@, json_of_value(p.1))),
            ),
        }),
{
    match v {
        serde_json::Value::Null => JsonShape::Null,
        serde_json::Value::Bool(b) => JsonShape::Bool(*b),
        serde_json::Value::Number(_) => JsonShape::Num,
        serde_json::Value::String(s) => JsonShape::Str(s.clone()),
        serde_json::Value::Array(a) => JsonShape::Arr(a.clone()),
        serde_json::Value::Object(m) => JsonShape::Obj(
            m.iter().map(|(k, x)| (k.clone(), x.clone())).collect(),
        ),
    }
}

/// Relies on `serde_json::to_string` on a vector of strings: the encoding
/// depends on the names alone, and serializing strings cannot fail.
#[verifier::external_body]
pub(crate) fn encode_names(names: &Vec<String>) -> (r: String)
    ensures
        r@ == json_list_of(names@.map_values(|s: String| s@)),
{
    match serde_json::to_string(names) {
        Ok(s) => s,
        Err(_) => String::new(),
    }
}

} // verus!
