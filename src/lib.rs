//! Ingestion pipeline of a vector-database proxy: a JSON payload is turned
//! into records for an embedding step, and the embedded points are written in
//! one batch to the collection of a data source.
//!
//! The library holds the decisions: how the payload is parsed and normalized,
//! how each record is converted, and the stages of one run, as a state machine
//! that a host drives with the outcome of each outside step.

mod json;
mod normalize;
mod pipeline;
mod record;

pub use json::{JsonNumber, JsonValue, parse_message};
pub use normalize::{normalize, records_from_text};
pub use pipeline::{Action, Pipeline, Stage};
pub use record::{EmbeddingRecord, FieldValue, convert_value, to_embedding_record};
