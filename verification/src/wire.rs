//! The boundary to the JSON text parser.
//!
//! Parsing JSON text is delegated to serde_json; everything after the parse
//! is verified against the tree it returns. What a given text parses to is
//! named by `spec_json_parse` and never re-stated: the decoders' contracts
//! are exact from the tree down.

use vstd::prelude::*;

use crate::json::{Json, JsonV};

verus! {

#[verifier::external_type_specification]
#[verifier::external_body]
pub struct ExValue(serde_json::Value);

/// The document that a JSON text parses to, if it parses: a function of the
/// text alone.
pub uninterp spec fn spec_json_parse(s: Seq<char>) -> Option<JsonV>;

/// Relies on serde_json::Value: each variant maps to the corresponding tree
/// constructor, and a number becomes its decimal text.
#[verifier::external_body]
fn json_of_value(v: serde_json::Value) -> Json {
    match v {
        serde_json::Value::Null => Json::Null,
        serde_json::Value::Bool(b) => Json::Bool(b),
        serde_json::Value::Number(n) => Json::Num(n.to_string()),
        serde_json::Value::String(s) => Json::Str(s),
        serde_json::Value::Array(a) => Json::Arr(a.into_iter().map(json_of_value).collect()),
        serde_json::Value::Object(m) => Json::Obj(
            m.into_iter().map(|(k, x)| (k, json_of_value(x))).collect(),
        ),
    }
}

/// Relies on serde_json::from_str::<serde_json::Value>: whether a text
/// parses, and the document it parses to, depend on the text alone.
#[verifier::external_body]
pub(crate) fn parse_json(s: &str) -> (r: Option<Json>)
    ensures
        match r {
            Some(j) => spec_json_parse(s@) == Some(j@),
            None => spec_json_parse(s@) is None,
        },
{
    match serde_json::from_str::<serde_json::Value>(s) {
        Ok(v) => Some(json_of_value(v)),
        Err(_) => None,
    }
}

} // verus!
