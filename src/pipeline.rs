//! The stages of one ingestion run. The host performs each action (the
//! embedding call, the bulk upsert) and hands its outcome back; the pipeline
//! decides what comes next and reduces every failure to `false`.

use vstd::prelude::*;
use crate::json::{parse_text, parsed_json};
use crate::normalize::{normalize, normalized, records_match};
use crate::record::EmbeddingRecord;

verus! {

/// Where a run stands.
pub enum Stage {
    /// Waiting for the outcome of the embedding step.
    Embedding,
    /// Waiting for the outcome of the bulk upsert.
    Upserting,
    /// Finished, with the run's result.
    Done(bool),
}

/// What the host is to do next.
pub enum Action<P> {
    /// Call the embedding step once with the records, the raw message and the
    /// data-source tag.
    Embed { records: Vec<EmbeddingRecord>, message: String, tag: Option<String> },
    /// Write the points in one bulk upsert to the data source's collection.
    Upsert { collection: String, points: Vec<P> },
    /// The run is over, with this result.
    Finish(bool),
}

/// One run of the ingestion pipeline for one message and one data source.
pub struct Pipeline {
    pub data_source_id: String,
    pub stage: Stage,
}

impl Pipeline {
    /// Starts a run. A message that is not JSON ends it at once with `false`,
    /// before any outside call. Otherwise the message is normalized and the
    /// embedding step is asked for, exactly once, also where there is no
    /// record.
    pub fn start<P>(message: String, data_source_id: String) -> (r: (Pipeline, Action<P>))
        ensures
            r.0.data_source_id@ == data_source_id@,
            parsed_json(message@) is None ==> r.0.stage == Stage::Done(false) && r.1 == Action::<P>::Finish(false),
            parsed_json(message@) is Some ==> r.0.stage is Embedding && r.1 is Embed
                && records_match(normalized(parsed_json(message@)->Some_0), r.1->records@)
                && r.1->message@ == message@ && r.1->tag is Some && r.1->tag->Some_0@ == data_source_id@,
    {
        match parse_text(message.as_str()) {
            None => {
                let pipeline = Pipeline { data_source_id, stage: Stage::Done(false) };
                (pipeline, Action::Finish(false))
            },
            Some(v) => {
                let records = normalize(&v);
                let tag = data_source_id.clone();
                let pipeline = Pipeline { data_source_id, stage: Stage::Embedding };
                (pipeline, Action::Embed { records, message, tag: Some(tag) })
            },
        }
    }

    /// Takes the outcome of the embedding step. Points go on to the upsert
    /// unchanged, to the data source's collection; an error, or no point at
    /// all, ends the run with `false` and no write.
    pub fn on_embedded<P, E>(&mut self, outcome: Result<Vec<P>, E>) -> (a: Action<P>)
        requires
            old(self).stage is Embedding,
        ensures
            final(self).data_source_id@ == old(self).data_source_id@,
            outcome is Ok && outcome->Ok_0.len() > 0 ==> final(self).stage is Upserting && a is Upsert
                && a->collection@ == old(self).data_source_id@ && a->points@ == outcome->Ok_0@,
            !(outcome is Ok && outcome->Ok_0.len() > 0) ==> final(self).stage == Stage::Done(false)
                && a == Action::<P>::Finish(false),
    {
        match outcome {
            Ok(points) => {
                if points.len() > 0 {
                    self.stage = Stage::Upserting;
                    Action::Upsert { collection: self.data_source_id.clone(), points }
                } else {
                    self.stage = Stage::Done(false);
                    Action::Finish(false)
                }
            },
            Err(_) => {
                self.stage = Stage::Done(false);
                Action::Finish(false)
            },
        }
    }

    /// Takes the outcome of the bulk upsert and ends the run: `true` only where
    /// the store acknowledged the whole write, with no second attempt.
    pub fn on_upserted<P, E>(&mut self, outcome: Result<bool, E>) -> (a: Action<P>)
        requires
            old(self).stage is Upserting,
        ensures
            final(self).data_source_id@ == old(self).data_source_id@,
            final(self).stage == Stage::Done(outcome matches Ok(true)),
            a == Action::<P>::Finish(outcome matches Ok(true)),
    {
        let ok = match outcome {
            Ok(acknowledged) => acknowledged,
            Err(_) => false,
        };
        self.stage = Stage::Done(ok);
        Action::Finish(ok)
    }
}

} // verus!
