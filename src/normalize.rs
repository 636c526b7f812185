//! The payload normalizer: from a message to the records for the embedding
//! step.

use vstd::prelude::*;
use crate::json::{JsonValue, parse_message, parsed_json, well_formed};
use crate::record::{EmbeddingRecord, fields_convert, to_embedding_record};

verus! {

/// The objects among `items`, in order; other values are left out.
pub open spec fn objects_in(items: Seq<JsonValue>) -> Seq<Vec<(String, JsonValue)>>
    decreases items.len(),
{
    if items.len() == 0 {
        Seq::empty()
    } else {
        let rest = objects_in(items.drop_last());
        match items.last() {
            JsonValue::Object(members) => rest.push(members),
            _ => rest,
        }
    }
}

/// The objects that a message's value stands for: the objects of a top-level
/// array, the top-level object itself, or none for any other value.
pub open spec fn normalized(v: JsonValue) -> Seq<Vec<(String, JsonValue)>> {
    match v {
        JsonValue::Array(items) => objects_in(items@),
        JsonValue::Object(members) => seq![members],
        _ => Seq::empty(),
    }
}

/// `records` holds, in order, the conversion of each object of `objects`.
pub open spec fn records_match(objects: Seq<Vec<(String, JsonValue)>>, records: Seq<EmbeddingRecord>) -> bool {
    records.len() == objects.len() && forall|i: int|
        0 <= i < objects.len() ==> fields_convert(objects[i]@, #[trigger] records[i].fields@)
            && records[i].wf()
}

/// Turns a JSON value into records: each object of a top-level array, in
/// order, or the top-level object alone; any other value gives none.
pub fn normalize(v: &JsonValue) -> (r: Vec<EmbeddingRecord>)
    requires
        well_formed(*v),
    ensures
        records_match(normalized(*v), r@),
{
    let mut out: Vec<EmbeddingRecord> = Vec::new();
    match v {
        JsonValue::Array(items) => {
            let mut i: usize = 0;
            while i < items.len()
                invariant
                    *v == JsonValue::Array(*items),
                    well_formed(*v),
                    i <= items.len(),
                    records_match(objects_in(items@.take(i as int)), out@),
                decreases items.len() - i,
            {
                assert(items@.take(i + 1).drop_last() == items@.take(i as int));
                match &items[i] {
                    JsonValue::Object(members) => {
                        let rec = to_embedding_record(members);
                        out.push(rec);
                    },
                    _ => {},
                }
                i = i + 1;
            }
            assert(items@.take(items.len() as int) == items@);
        },
        JsonValue::Object(members) => {
            let rec = to_embedding_record(members);
            out.push(rec);
        },
        _ => {},
    }
    out
}

/// `records` are the records of the message `text`: those of its JSON value,
/// or a single empty record where the text is not JSON.
pub open spec fn message_records(text: Seq<char>, records: Seq<EmbeddingRecord>) -> bool {
    match parsed_json(text) {
        Some(v) => records_match(normalized(v), records),
        None => records.len() == 1 && records[0].fields.len() == 0,
    }
}

/// The records of a message: those of its JSON value, or a single empty
/// record where the text is not JSON.
pub fn records_from_text(message: &str) -> (r: Vec<EmbeddingRecord>)
    ensures
        message_records(message@, r@),
{
    let v = parse_message(message);
    let r = normalize(&v);
    proof {
        if parsed_json(message@) is None {
            assert(fields_convert(v->Object_0@, r[0].fields@));
        }
    }
    r
}

/// A message that is not JSON yields the same records as one that parses to
/// an empty object: a single record with no field.
pub proof fn lemma_malformed_reads_as_empty_object(
    malformed: Seq<char>,
    empty_object: Seq<char>,
    records: Seq<EmbeddingRecord>,
)
    requires
        parsed_json(malformed) is None,
        parsed_json(empty_object) matches Some(JsonValue::Object(members)) && members.len() == 0,
    ensures
        message_records(malformed, records) <==> message_records(empty_object, records),
{
    let members = parsed_json(empty_object)->Some_0->Object_0;
    if records.len() == 1 {
        assert(fields_convert(members@, records[0].fields@) <==> records[0].fields@.len() == 0);
    }
}

} // verus!
