//! JSON values as the library sees them, and the parse of a message.

use vstd::prelude::*;

verus! {

/// A JSON number: its integer value where it is one that fits in `i64`, and
/// its text as the parser prints it back (`1e2` reads as `100.0`, `1.50` as
/// `1.5`), which keeps the value the parser read.
pub struct JsonNumber {
    pub int: Option<i64>,
    pub text: String,
}

/// A JSON value. Object members keep the order in which the parser gave them.
pub enum JsonValue {
    Null,
    Bool(bool),
    Number(JsonNumber),
    Str(String),
    Array(Vec<JsonValue>),
    Object(Vec<(String, JsonValue)>),
}

/// No two members of the list share a name.
pub open spec fn keys_unique<V>(fields: Seq<(String, V)>) -> bool {
    forall|i: int, j: int|
        0 <= i < fields.len() && 0 <= j < fields.len() && i != j ==> fields[i].0@ != fields[j].0@
}

/// The objects that normalization takes from the value, the top-level object
/// or the objects of a top-level array, have unique member names.
pub open spec fn well_formed(v: JsonValue) -> bool {
    match v {
        JsonValue::Array(items) => forall|i: int|
            0 <= i < items.len() ==> (#[trigger] items[i] matches JsonValue::Object(members)
                ==> keys_unique(members@)),
        JsonValue::Object(members) => keys_unique(members@),
        _ => true,
    }
}

/// What the JSON parser makes of a text: `None` where the text is not JSON.
pub uninterp spec fn parsed_json(text: Seq<char>) -> Option<JsonValue>;

/// Relies on serde_json::from_str into serde_json::Value: it returns an error
/// where the text is not JSON, and its objects are maps, so no object has two
/// members of one name.
#[verifier::external_body]
fn parse_json(text: &str) -> (r: Option<JsonValue>)
    ensures
        r == parsed_json(text@),
        r matches Some(v) ==> well_formed(v),
{
    serde_json::from_str::<serde_json::Value>(text).ok().map(from_serde)
}

/// serde_json's dynamic JSON value, carried opaquely from the parser into
/// `from_serde`.
#[verifier::external_type_specification]
#[verifier::external_body]
pub struct ExValue(serde_json::Value);

/// Moves a value of serde_json into the library's JSON type, variant by
/// variant; used only by `parse_json` to hand back its result. A number keeps
/// serde_json's `Number::as_i64` and its `Display` text.
#[verifier::external_body]
fn from_serde(v: serde_json::Value) -> JsonValue {
    match v {
        serde_json::Value::Null => JsonValue::Null,
        serde_json::Value::Bool(b) => JsonValue::Bool(b),
        serde_json::Value::Number(n) => JsonValue::Number(JsonNumber { int: n.as_i64(), text: n.to_string() }),
        serde_json::Value::String(s) => JsonValue::Str(s),
        serde_json::Value::Array(a) => JsonValue::Array(a.into_iter().map(from_serde).collect()),
        serde_json::Value::Object(m) => JsonValue::Object(m.into_iter().map(|(k, x)| (k, from_serde(x))).collect()),
    }
}

/// Parses a text as JSON: `None` where it is not JSON.
pub(crate) fn parse_text(text: &str) -> (r: Option<JsonValue>)
    ensures
        r == parsed_json(text@),
        r matches Some(v) ==> well_formed(v),
{
    parse_json(text)
}

/// Parses a message; a text that is not JSON stands for an empty object.
pub fn parse_message(text: &str) -> (r: JsonValue)
    ensures
        parsed_json(text@) matches Some(v) ==> r == v,
        parsed_json(text@) is None ==> (r matches JsonValue::Object(fields) && fields@.len() == 0),
        well_formed(r),
{
    match parse_text(text) {
        Some(v) => v,
        None => {
            let empty: Vec<(String, JsonValue)> = Vec::new();
            proof {
                assert(keys_unique(empty@));
            }
            JsonValue::Object(empty)
        },
    }
}

} // verus!
