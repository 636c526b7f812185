//! The records handed to the embedding step, and their conversion from JSON.

use vstd::prelude::*;
use crate::json::{JsonValue, keys_unique};

verus! {

broadcast use vstd::std_specs::vec::group_vec_axioms;

/// A field's value in the form the embedding step takes: integers that fit in
/// `i64` as integers, other numbers by their exact text, and arrays and objects
/// converted member by member.
pub enum FieldValue {
    Null,
    Bool(bool),
    Int(i64),
    Number(String),
    Str(String),
    List(Vec<FieldValue>),
    Record(Vec<(String, FieldValue)>),
}

/// One record for the embedding step: field names with their values.
pub struct EmbeddingRecord {
    pub fields: Vec<(String, FieldValue)>,
}

/// `f` is the conversion of `j`.
pub open spec fn converts_to(j: JsonValue, f: FieldValue) -> bool
    decreases j,
{
    match j {
        JsonValue::Null => f is Null,
        JsonValue::Bool(b) => f matches FieldValue::Bool(c) && c == b,
        JsonValue::Number(n) => match n.int {
            Some(i) => f matches FieldValue::Int(k) && k == i,
            None => f matches FieldValue::Number(t) && t@ == n.text@,
        },
        JsonValue::Str(s) => f matches FieldValue::Str(t) && t@ == s@,
        JsonValue::Array(items) => match f {
            FieldValue::List(out) => out.len() == items.len() && forall|i: int|
                0 <= i < items.len() ==> converts_to(#[trigger] items[i], out[i]),
            _ => false,
        },
        JsonValue::Object(members) => match f {
            FieldValue::Record(out) => fields_convert(members@, out@),
            _ => false,
        },
    }
}

/// Each member of `out` has the name of the member of `members` at the same
/// place, and the conversion of its value.
pub open spec fn fields_convert(members: Seq<(String, JsonValue)>, out: Seq<(String, FieldValue)>) -> bool
    decreases members,
{
    out.len() == members.len() && forall|i: int|
        0 <= i < members.len() ==> #[trigger] out[i].0@ == members[i].0@ && converts_to(members[i].1, out[i].1)
}

/// Converts one JSON value: numbers by `converts_to`, arrays and objects
/// member by member, in order.
pub fn convert_value(j: &JsonValue) -> (r: FieldValue)
    ensures
        converts_to(*j, r),
    decreases j,
{
    match j {
        JsonValue::Null => FieldValue::Null,
        JsonValue::Bool(b) => FieldValue::Bool(*b),
        JsonValue::Number(n) => match n.int {
            Some(i) => FieldValue::Int(i),
            None => FieldValue::Number(n.text.clone()),
        },
        JsonValue::Str(s) => FieldValue::Str(s.clone()),
        JsonValue::Array(items) => {
            let mut out: Vec<FieldValue> = Vec::new();
            let mut i: usize = 0;
            while i < items.len()
                invariant
                    *j == JsonValue::Array(*items),
                    i <= items.len(),
                    out.len() == i,
                    forall|k: int| 0 <= k < i ==> converts_to(#[trigger] items[k], out[k]),
                decreases items.len() - i,
            {
                proof {
                    assert(decreases_to!(*j => (*j)->Array_0));
                    assert(decreases_to!(*items => items[i as int]));
                    assert(decreases_to!(*j => items[i as int]));
                }
                let f = convert_value(&items[i]);
                out.push(f);
                i = i + 1;
            }
            FieldValue::List(out)
        },
        JsonValue::Object(members) => FieldValue::Record(convert_members(members)),
    }
}

/// Converts the members of an object, keeping their names and order.
fn convert_members(members: &Vec<(String, JsonValue)>) -> (r: Vec<(String, FieldValue)>)
    ensures
        fields_convert(members@, r@),
    decreases members,
{
    let mut out: Vec<(String, FieldValue)> = Vec::new();
    let mut i: usize = 0;
    while i < members.len()
        invariant
            i <= members.len(),
            out.len() == i,
            forall|k: int| 0 <= k < i ==> #[trigger] out[k].0@ == members[k].0@ && converts_to(members[k].1, out[k].1),
        decreases members.len() - i,
    {
        let name = members[i].0.clone();
        let f = convert_value(&members[i].1);
        out.push((name, f));
        i = i + 1;
    }
    assert(fields_convert(members@, out@));
    out
}

/// Converts a JSON object into a record: one field for each member, with the
/// member's name and converted value, in the object's order.
pub fn to_embedding_record(members: &Vec<(String, JsonValue)>) -> (r: EmbeddingRecord)
    requires
        keys_unique(members@),
    ensures
        fields_convert(members@, r.fields@),
        r.wf(),
{
    let fields = convert_members(members);
    EmbeddingRecord { fields }
}

impl EmbeddingRecord {
    /// Field names are unique within a record.
    pub open spec fn wf(&self) -> bool {
        keys_unique(self.fields@)
    }
}

} // verus!
