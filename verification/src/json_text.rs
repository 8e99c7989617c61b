//! The boundary to serde_json: parsing settings text into a document value
//! and pretty-printing a document value back to text. Only these calls are
//! taken on trust; everything that reads or builds document values is
//! verified against them.

use vstd::prelude::*;
use crate::json::{Json, JsonV};

verus! {

#[verifier::external_type_specification]
#[verifier::external_body]
pub struct ExValue(serde_json::Value);

/// The document value that parsing a text yields: `None` when the text is
/// not valid JSON. The result depends on the text alone.
pub uninterp spec fn parsed_doc(s: Seq<char>) -> Option<JsonV>;

/// The tab-indented pretty-printed text of a document value. The text
/// depends on the value alone.
pub uninterp spec fn printed_doc(j: JsonV) -> Seq<char>;

/// Relies on serde_json::Value's constructors: rebuilds the same document
/// in serde_json's representation, converting each variant one for one.
#[verifier::external_body]
fn json_to_value(j: &Json) -> serde_json::Value {
    match j {
        Json::Null => serde_json::Value::Null,
        Json::Bool(b) => serde_json::Value::Bool(*b),
        Json::Int(i) => serde_json::Value::Number(serde_json::Number::from(*i)),
        Json::Str(s) => serde_json::Value::String(s.clone()),
        Json::Arr(items) => serde_json::Value::Array(items.iter().map(json_to_value).collect()),
        Json::Obj(entries) => serde_json::Value::Object(
            entries.iter().map(|e| (e.0.clone(), json_to_value(&e.1))).collect(),
        ),
    }
}

/// Relies on serde_json::Value and Number::as_i64: reads a parsed document
/// back variant by variant; a number outside the i64 range becomes null, so
/// that the field it belonged to keeps its prior value on merge.
#[verifier::external_body]
fn value_to_json(v: serde_json::Value) -> Json {
    match v {
        serde_json::Value::Null => Json::Null,
        serde_json::Value::Bool(b) => Json::Bool(b),
        serde_json::Value::Number(n) => n.as_i64().map(Json::Int).unwrap_or(Json::Null),
        serde_json::Value::String(s) => Json::Str(s),
        serde_json::Value::Array(items) => Json::Arr(
            items.into_iter().map(value_to_json).collect(),
        ),
        serde_json::Value::Object(entries) => Json::Obj(
            entries.into_iter().map(|e| (e.0, value_to_json(e.1))).collect(),
        ),
    }
}

/// Relies on serde_json::from_str: parses JSON text into a generic value,
/// or reports that the text is not valid JSON.
#[verifier::external_body]
pub fn parse_json_text(s: &str) -> (r: Option<Json>)
    ensures
        match r {
            Option::Some(j) => parsed_doc(s@) == Option::Some(j@),
            Option::None => parsed_doc(s@) is None,
        },
{
    serde_json::from_str::<serde_json::Value>(s).ok().map(value_to_json)
}

/// Relies on serde_json::Serializer with a tab-indenting PrettyFormatter:
/// pretty-prints a document value as the settings file text.
#[verifier::external_body]
pub fn to_pretty_text(j: &Json) -> (r: String)
    ensures
        r@ == printed_doc(j@),
{
    let value = json_to_value(j);
    let mut out: Vec<u8> = Vec::new();
    let formatter = serde_json::ser::PrettyFormatter::with_indent("\t".as_bytes());
    let mut ser = serde_json::Serializer::with_formatter(&mut out, formatter);
    if serde::Serialize::serialize(&value, &mut ser).is_ok() {
        String::from_utf8(out).unwrap_or_else(|_| String::new())
    } else {
        String::new()
    }
}

} // verus!
