//! Trusted bridge: parsing a response body into the library's JSON tree.
//!
//! serde_json parses the text; the resulting serde tree is moved, arm by
//! arm, into the library's own `Json`, so that everything after the parse is
//! ordinary verified code over plain values. The parse result is a function
//! of the body text alone, so it carries a name, `json_doc_of`, and the one
//! trusted contract here ties the wrapper's result to that name exactly.

use vstd::prelude::*;
use crate::tree::Json;

verus! {

/// serde_json's JSON tree, declared so the conversion below can carry it.
#[verifier::external_type_specification]
#[verifier::external_body]
pub struct ExValue(serde_json::Value);

/// The library's JSON tree for a body text: nothing where the text is not a
/// JSON document, otherwise the parsed tree. A function of the text alone;
/// its definition (the JSON grammar) is left to serde_json.
pub uninterp spec fn json_doc_of(s: Seq<char>) -> Option<Json>;

/// Relies on serde_json::from_str: a deterministic parse of one JSON
/// document; malformed text and over-deep nesting return an error, never a
/// panic. The serde tree is moved into the library's `Json` by `convert`.
#[verifier::external_body]
pub(crate) fn parse_json(s: &str) -> (r: Option<Json>)
    ensures
        r == json_doc_of(s@),
{
    match serde_json::from_str::<serde_json::Value>(s) {
        Ok(v) => Some(convert(v)),
        Err(_) => None,
    }
}

/// The recursive arm of `parse_json`: relies on serde_json's `Value`
/// variants and on `Number::as_u64` / `as_i64` / its decimal rendering,
/// moving each variant into the library's tree one arm at a time (object
/// entries come out in serde_json's deterministic key order). Relied on
/// only through `parse_json`'s contract.
#[verifier::external_body]
fn convert(v: serde_json::Value) -> Json {
    match v {
        serde_json::Value::Null => Json::Null,
        serde_json::Value::Bool(b) => Json::Bool(b),
        serde_json::Value::Number(n) => match (n.as_u64(), n.as_i64()) {
            (Some(u), _) => Json::UInt(u),
            (None, Some(i)) => Json::Int(i),
            (None, None) => Json::Num(n.to_string()),
        },
        serde_json::Value::String(s) => Json::Str(s),
        serde_json::Value::Array(a) => Json::Arr(a.into_iter().map(convert).collect()),
        serde_json::Value::Object(m) => Json::Obj(
            m.into_iter().map(|(k, x)| (k, convert(x))).collect(),
        ),
    }
}

} // verus!
