//! JSON values and the texts that they are written as.

use crate::json::{Json, JsonObject, JsonV, Num, NumV};
use crate::protocol::opt_json;
use serde_json::Value;
use vstd::prelude::*;

verus! {

/// A JSON value as serde_json holds it.
#[verifier::external_type_specification]
#[verifier::external_body]
pub struct ExValue(serde_json::Value);

/// The JSON value in a text, where the text is one.
pub uninterp spec fn json_in(text: Seq<char>) -> Option<JsonV>;

/// A JSON value as a text with one item or field on a line.
pub uninterp spec fn pretty_of(value: JsonV) -> Seq<char>;

/// Whether a value is nested no deeper than `depth`, and all its numbers are whole.
pub open spec fn plain_within(value: JsonV, depth: nat) -> bool
    decreases depth,
{
    depth > 0 && match value {
        JsonV::Num(NumV::Negative(n)) => n < 0,
        JsonV::Num(NumV::Float(_)) => false,
        JsonV::Arr(items) => forall|i: int|
            0 <= i < items.len() ==> plain_within(#[trigger] items[i], (depth - 1) as nat),
        JsonV::Obj(fields) => forall|k: Seq<char>|
            fields.dom().contains(k) ==> plain_within(#[trigger] fields[k], (depth - 1) as nat),
        _ => true,
    }
}

/// A `serde_json::Value`, one for one: a number that is no integer of 64 bits becomes the text of
/// it. Nothing is claimed of the result.
#[verifier::external_body]
fn from_value(value: Value) -> (r: Json) {
    match value {
        Value::Null => Json::Null,
        Value::Bool(b) => Json::Bool(b),
        Value::Number(n) => Json::Number(match (n.as_u64(), n.as_i64()) {
            (Some(u), _) => Num::Unsigned(u),
            (_, Some(i)) => Num::Negative(i),
            _ => Num::Float(n.to_string()),
        }),
        Value::String(s) => Json::Str(s),
        Value::Array(a) => Json::Array(a.into_iter().map(from_value).collect()),
        Value::Object(o) => Json::Object(
            JsonObject { entries: o.into_iter().map(|(k, v)| (k, from_value(v))).collect() }),
    }
}

/// The `serde_json::Value` of a value, one for one; of two fields with one name, `serde_json::Map`
/// keeps the later one. Nothing is claimed of the result.
#[verifier::external_body]
pub(crate) fn to_value(value: &Json) -> (r: Value) {
    match value {
        Json::Null => Value::Null,
        Json::Bool(b) => Value::Bool(*b),
        Json::Number(Num::Unsigned(n)) => Value::from(*n),
        Json::Number(Num::Negative(n)) => Value::from(*n),
        Json::Number(Num::Float(t)) => t.parse().map_or(Value::Null, Value::Number),
        Json::Str(s) => Value::from(s.as_str()),
        Json::Array(a) => Value::Array(a.iter().map(to_value).collect()),
        Json::Object(o) => Value::Object(
            o.entries.iter().map(|e| (e.0.clone(), to_value(&e.1))).collect()),
    }
}

/// `serde_json::from_str` into a `serde_json::Value`: the text alone determines whether it is a JSON
/// value, and which.
#[verifier::external_body]
pub(crate) fn read_json(text: &str) -> (r: Option<Json>)
    ensures
        opt_json(r) == json_in(text@),
{
    serde_json::from_str::<Value>(text).ok().map(from_value)
}

/// `serde_json::to_string_pretty` of a `serde_json::Value`, which the value alone determines: its
/// fields come in the order of their names. `serde_json::from_str` reads the value back from it,
/// where its numbers are whole and it is not nested deeper than that function reads.
#[verifier::external_body]
pub(crate) fn pretty_json(value: &Json) -> (r: String)
    ensures
        r@ == pretty_of(value@),
        plain_within(value@, 100) ==> json_in(r@) == Some(value@),
{
    serde_json::to_string_pretty(&to_value(value)).unwrap_or_default()
}

} // verus!
