//! Trusted boundary to the JSON codec: parsing text into document values and
//! rendering document values back to text.

use vstd::prelude::*;
use crate::doc::JsonValue;
use crate::doc::SpecJson;

verus! {

#[verifier::external_type_specification]
#[verifier::external_body]
pub struct ExSerdeValue(serde_json::Value);

/// The document value that the JSON codec reads from a text, `None` when the
/// text is not well-formed JSON. A function of the text alone.
pub uninterp spec fn spec_parse_json(s: Seq<char>) -> Option<SpecJson>;

/// The text that the JSON codec writes for a document value. A function of
/// the value alone.
pub uninterp spec fn spec_render_json(v: SpecJson) -> Seq<char>;

/// Relies on serde_json::from_str: decodes well-formed JSON text into a
/// value, reporting an error otherwise; machine-integer numbers keep their
/// value, other numbers keep their decimal text.
#[verifier::external_body]
pub fn parse_json(s: &str) -> (r: Option<JsonValue>)
    ensures
        match r {
            Some(v) => spec_parse_json(s@) == Some(v@),
            None => spec_parse_json(s@) is None,
        },
{
    serde_json::from_str::<serde_json::Value>(s).ok().map(from_serde)
}

/// Relies on serde_json's rendering of a value as compact JSON text.
#[verifier::external_body]
pub fn render_json(v: &JsonValue) -> (r: String)
    ensures
        r@ == spec_render_json(v@),
{
    to_serde(v).to_string()
}

/// Converts the codec's value shape into the library's, one arm per variant.
#[verifier::external_body]
fn from_serde(v: serde_json::Value) -> JsonValue {
    match v {
        serde_json::Value::Null => JsonValue::Null,
        serde_json::Value::Bool(b) => JsonValue::Bool(b),
        serde_json::Value::Number(n) => match n.as_i64() {
            Some(i) => JsonValue::Int(i),
            None => JsonValue::Num(n.to_string()),
        },
        serde_json::Value::String(s) => JsonValue::Str(s),
        serde_json::Value::Array(xs) => JsonValue::Arr(xs.into_iter().map(from_serde).collect()),
        serde_json::Value::Object(m) => JsonValue::Obj(
            m.into_iter().map(|(k, x)| (k, from_serde(x))).collect(),
        ),
    }
}

/// Converts the library's value shape into the codec's, one arm per variant;
/// numeric text that is not a well-formed number renders as null.
#[verifier::external_body]
fn to_serde(v: &JsonValue) -> serde_json::Value {
    match v {
        JsonValue::Null => serde_json::Value::Null,
        JsonValue::Bool(b) => serde_json::Value::Bool(*b),
        JsonValue::Int(n) => serde_json::Value::Number(serde_json::Number::from(*n)),
        JsonValue::Num(s) => s.parse::<serde_json::Number>().map(serde_json::Value::Number)
            .unwrap_or(serde_json::Value::Null),
        JsonValue::Str(s) => serde_json::Value::String(s.clone()),
        JsonValue::Arr(xs) => serde_json::Value::Array(xs.iter().map(to_serde).collect()),
        JsonValue::Obj(fs) => serde_json::Value::Object(
            fs.iter().map(|(k, x)| (k.clone(), to_serde(x))).collect(),
        ),
    }
}

} // verus!
