//! A mathematical model of parsed JSON documents, and the trusted boundary to
//! the `serde_json` crate that produces and inspects them.
//!
//! A `serde_json::Value` is opaque to the verifier; `json_model` gives its
//! structure as a `Json` tree, and every trusted wrapper below speaks only of
//! that model.
use vstd::prelude::*;

verus! {

/// The structure of a JSON document. Numbers are abstracted to a single
/// constructor: nothing in this library reads a numeric value.
pub enum Json {
    Null,
    Bool(bool),
    Number,
    Text(Seq<char>),
    Array(Seq<Json>),
    Object(Map<Seq<char>, Json>),
}

#[verifier::external_type_specification]
#[verifier::external_body]
pub struct ExValue(serde_json::Value);

/// The `Json` structure of a `serde_json::Value`.
pub uninterp spec fn json_model(v: serde_json::Value) -> Json;

/// What `serde_json::from_str` yields on a text: the model of the parsed
/// document, or `None` when the text is not valid JSON. The outcome depends
/// on the text alone.
pub uninterp spec fn parsed_doc(s: Seq<char>) -> Option<Json>;

/// Relies on `serde_json::from_str::<Value>`: it parses the whole text as one
/// JSON document, deterministically, and fails exactly on invalid JSON. The
/// parse failure itself carries nothing this library reads, so it is dropped
/// here.
#[verifier::external_body]
pub fn parse_json(s: &str) -> (r: Option<serde_json::Value>)
    ensures
        match r {
            Some(v) => parsed_doc(s@) == Some(json_model(v)),
            None => parsed_doc(s@) is None,
        },
{
    serde_json::from_str::<serde_json::Value>(s).ok()
}

/// Relies on `serde_json::Value::get` with a string index: on an object it
/// looks the key up in the underlying map, on anything else it returns `None`.
#[verifier::external_body]
pub fn json_get<'a>(v: &'a serde_json::Value, key: &str) -> (r: Option<&'a serde_json::Value>)
    ensures
        match r {
            Some(f) => json_model(*v) matches Json::Object(m) && m.contains_key(key@)
                && m[key@] == json_model(*f),
            None => !(json_model(*v) matches Json::Object(m) && m.contains_key(key@)),
        },
{
    v.get(key)
}

/// Relies on `serde_json::Value::as_str`: `Some` exactly on a JSON string,
/// returning its text.
#[verifier::external_body]
pub fn json_as_str<'a>(v: &'a serde_json::Value) -> (r: Option<&'a str>)
    ensures
        match r {
            Some(s) => json_model(*v) == Json::Text(s@),
            None => !(json_model(*v) is Text),
        },
{
    v.as_str()
}

} // verus!
