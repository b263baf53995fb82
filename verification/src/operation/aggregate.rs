//! Running an aggregation pipeline.

use vstd::prelude::*;
use std::time::Duration;
use crate::change_stream::AggregateTarget;
use crate::command::Command;
use crate::concern::{remove_empty_write_concern, ReadConcern, WriteConcern};
use crate::cursor::{specification_of, CursorSpecification};
use crate::document::{
    bson_array, bson_bool, bson_document, bson_int32, bson_string, bson_view, decoded, doc_clone,
    doc_insert, doc_keys, doc_new, doc_single, doc_view, documents_of, lemma_absent, merged,
    upsert, values_of, Fields, Value,
};
use crate::error::Error;
use crate::field::fields_of;
use crate::operation::response::{cursor_body_of, CursorBody, CursorBodyView, RawCommandResponse};
use crate::operation::{
    add_write_concern, append_options, checked, with_write_concern, Operation, Retryability,
};
use crate::selection_criteria::SelectionCriteria;
use crate::stream_description::{ServerAddress, StreamDescription, SERVER_4_2_0_WIRE_VERSION};
use crate::text::str_eq;
use crate::time::{duration_element, millis, millis_value};

verus! {

/// What the caller may ask of an aggregation.
#[derive(Debug)]
pub struct AggregateOptions {
    /// Whether stages may spill to disk.
    pub allow_disk_use: Option<bool>,
    /// The number of documents asked for in each batch.
    pub batch_size: Option<u32>,
    /// How long the server may wait for more documents of a tailable
    /// cursor.
    pub max_await_time: Option<Duration>,
    /// How long the server may work on the aggregation.
    pub max_time: Option<Duration>,
    /// The consistency asked of the aggregation.
    pub read_concern: Option<ReadConcern>,
    /// The servers that the aggregation may be sent to.
    pub selection_criteria: Option<SelectionCriteria>,
    /// The acknowledgment asked of an aggregation that writes.
    pub write_concern: Option<WriteConcern>,
}

/// The fields after an optional batch size is set under `batchSize` of a
/// `cursor` document. `None` where the size does not fit a 32-bit signed
/// integer.
pub open spec fn with_batch_size(base: Fields, size: Option<u32>) -> Option<Fields> {
    match size {
        Some(n) => if n <= i32::MAX {
            Some(
                upsert(
                    base,
                    "cursor"@,
                    Value::Document(seq![("batchSize"@, Value::Int32(n as i32))]),
                ),
            )
        } else {
            None
        },
        None => Some(base),
    }
}

/// The fields after an optional time limit is set under `maxTimeMS`, in
/// milliseconds. `None` where the limit is out of the range of the wire.
pub open spec fn with_time_limit(base: Fields, limit: Option<Duration>) -> Option<Fields> {
    match limit {
        Some(t) => match millis_value(millis(t)) {
            Some(v) => Some(upsert(base, "maxTimeMS"@, v)),
            None => None,
        },
        None => Some(base),
    }
}

impl AggregateOptions {
    /// The fields that the options add to the command body: `allowDiskUse`,
    /// the batch size unless the aggregation writes its result out,
    /// `maxTimeMS` and `writeConcern`, each only where it is set. `None`
    /// where a part is out of the range of the wire.
    pub open spec fn fields(&self, writes_out: bool) -> Option<Fields> {
        let spilled = match self.allow_disk_use {
            Some(b) => upsert(Fields::empty(), "allowDiskUse"@, Value::Boolean(b)),
            None => Fields::empty(),
        };
        let batched = if writes_out {
            if self.batch_size matches Some(n) && n > i32::MAX {
                None
            } else {
                Some(spilled)
            }
        } else {
            with_batch_size(spilled, self.batch_size)
        };
        match batched {
            Some(b) => match with_time_limit(b, self.max_time) {
                Some(limited) => with_write_concern(limited, self.write_concern),
                None => None,
            },
            None => None,
        }
    }

    /// Options with nothing set.
    pub fn new() -> (r: AggregateOptions)
        ensures
            r.allow_disk_use is None,
            r.batch_size is None,
            r.max_await_time is None,
            r.max_time is None,
            r.read_concern is None,
            r.selection_criteria is None,
            r.write_concern is None,
    {
        AggregateOptions {
            allow_disk_use: None,
            batch_size: None,
            max_await_time: None,
            max_time: None,
            read_concern: None,
            selection_criteria: None,
            write_concern: None,
        }
    }

    /// The wire form of the options for an aggregation that does or does
    /// not write its result out; an argument error where a part is out of
    /// the range of the wire.
    pub fn to_bson(&self, writes_out: bool) -> (r: Result<bson::Bson, Error>)
        ensures
            match r {
                Ok(b) => self.fields(writes_out) matches Some(f) && bson_view(b)
                    == Value::Document(f),
                Err(e) => self.fields(writes_out) is None && e@.kind is InvalidArgument,
            },
    {
        let mut d = doc_new();
        if let Some(b) = self.allow_disk_use {
            doc_insert(&mut d, "allowDiskUse", bson_bool(b));
        }
        if let Some(n) = self.batch_size {
            if n > 0x7fff_ffff {
                return Err(
                    Error::invalid_argument(
                        "batch size must be able to fit into a signed 32-bit integer",
                    ),
                );
            }
            if !writes_out {
                let size = doc_single("batchSize", bson_int32(n as i32));
                doc_insert(&mut d, "cursor", bson_document(size));
            }
        }
        if let Some(t) = &self.max_time {
            match duration_element(t) {
                Ok(b) => doc_insert(&mut d, "maxTimeMS", b),
                Err(e) => {
                    return Err(e);
                },
            }
        }
        match add_write_concern(&mut d, self.write_concern.as_ref()) {
            Ok(_) => Ok(bson_document(d)),
            Err(e) => Err(e),
        }
    }
}

/// The options with an empty write concern dropped.
pub open spec fn normalized(options: Option<AggregateOptions>) -> Option<AggregateOptions> {
    match options {
        Some(o) => Some(
            AggregateOptions {
                write_concern: match o.write_concern {
                    Some(w) => if w.empty() {
                        None
                    } else {
                        Some(w)
                    },
                    None => None,
                },
                ..o
            },
        ),
        None => None,
    }
}

/// Whether a pipeline writes its result out: its last stage is `$out` or
/// `$merge`.
pub open spec fn writes_out(pipeline: Seq<Fields>) -> bool {
    pipeline.len() > 0 && pipeline.last().len() > 0 && (pipeline.last()[0].0 == "$out"@
        || pipeline.last()[0].0 == "$merge"@)
}

/// What the command names as its target: the collection, or 1 for a whole
/// database.
pub open spec fn target_value(target: AggregateTarget) -> Value {
    match target {
        AggregateTarget::Database(_) => Value::Int32(1),
        AggregateTarget::Collection(ns) => Value::String(ns.coll@),
    }
}

/// The names of the fields of the command are pairwise different.
proof fn lemma_names_differ()
    ensures
        "aggregate"@ != "pipeline"@,
        "aggregate"@ != "cursor"@,
        "pipeline"@ != "cursor"@,
        "aggregate"@.len() > 0,
{
    reveal_strlit("aggregate");
    reveal_strlit("pipeline");
    reveal_strlit("cursor");
    assert("aggregate"@.len() == 9);
    assert("pipeline"@.len() == 8);
    assert("cursor"@.len() == 6);
}

/// An aggregation.
#[derive(Debug)]
pub struct Aggregate {
    pub target: AggregateTarget,
    pub pipeline: Vec<bson::Document>,
    pub options: Option<AggregateOptions>,
}

impl Aggregate {
    /// The command body without options: the target, the stages, and an
    /// empty cursor document.
    pub open spec fn base(&self) -> Fields {
        seq![
            ("aggregate"@, target_value(self.target)),
            ("pipeline"@, Value::Array(documents_of(self.pipeline@))),
            ("cursor"@, Value::Document(Fields::empty())),
        ]
    }

    /// Whether the aggregation writes its result out.
    pub open spec fn writes(&self) -> bool {
        writes_out(fields_of(self.pipeline@))
    }

    /// The body of the command: the base command with the options merged
    /// in. `None` where an option is out of the range of the wire.
    pub open spec fn body(&self) -> Option<Fields> {
        match normalized(self.options) {
            Some(o) => match o.fields(self.writes()) {
                Some(f) => Some(merged(self.base(), f)),
                None => None,
            },
            None => Some(self.base()),
        }
    }

    /// The read concern that the command carries.
    pub open spec fn read_concern(&self) -> Option<ReadConcern> {
        match self.options {
            Some(o) => o.read_concern,
            None => None,
        }
    }

    /// The batch size that the caller asked for, if any.
    pub open spec fn batch_size(&self) -> Option<u32> {
        match self.options {
            Some(o) => o.batch_size,
            None => None,
        }
    }

    /// The await time that the caller asked for, if any.
    pub open spec fn max_await_time(&self) -> Option<Duration> {
        match self.options {
            Some(o) => o.max_await_time,
            None => None,
        }
    }

    /// The aggregation of `pipeline` over `target`.
    pub fn new(target: AggregateTarget, pipeline: Vec<bson::Document>, options: Option<
        AggregateOptions,
    >) -> (r: Aggregate)
        ensures
            r.target == target,
            r.pipeline == pipeline,
            r.options == options,
    {
        Aggregate { target, pipeline, options }
    }

    /// Whether the aggregation writes its result out.
    pub fn is_out_or_merge(&self) -> (r: bool)
        ensures
            r == self.writes(),
    {
        let n = self.pipeline.len();
        if n == 0 {
            return false;
        }
        let keys = doc_keys(&self.pipeline[n - 1]);
        assert(fields_of(self.pipeline@).last() == doc_view(self.pipeline@[n - 1]));
        if keys.len() == 0 {
            false
        } else {
            str_eq(keys[0].as_str(), "$out") || str_eq(keys[0].as_str(), "$merge")
        }
    }

    fn stages(&self) -> (r: Vec<bson::Bson>)
        ensures
            values_of(r@) == documents_of(self.pipeline@),
    {
        let mut out: Vec<bson::Bson> = Vec::new();
        let mut i: usize = 0;
        while i < self.pipeline.len()
            invariant
                i <= self.pipeline.len(),
                out@.len() == i,
                forall|j: int|
                    0 <= j < i ==> bson_view(#[trigger] out@[j]) == Value::Document(
                        doc_view(self.pipeline@[j]),
                    ),
            decreases self.pipeline.len() - i,
        {
            out.push(bson_document(doc_clone(&self.pipeline[i])));
            i += 1;
        }
        assert(values_of(out@) =~= documents_of(self.pipeline@));
        out
    }

    fn build_base(&self) -> (d: bson::Document)
        ensures
            doc_view(d) == self.base(),
    {
        proof {
            lemma_names_differ();
        }
        let target = match &self.target {
            AggregateTarget::Database(_) => bson_int32(1),
            AggregateTarget::Collection(ns) => bson_string(ns.coll.as_str()),
        };
        let mut body = doc_single("aggregate", target);
        proof {
            lemma_absent(doc_view(body), "pipeline"@, Value::Array(documents_of(self.pipeline@)));
        }
        doc_insert(&mut body, "pipeline", bson_array(self.stages()));
        proof {
            lemma_absent(doc_view(body), "cursor"@, Value::Document(Fields::empty()));
        }
        doc_insert(&mut body, "cursor", bson_document(doc_new()));
        assert(doc_view(body) =~= self.base());
        body
    }

    /// Whether `r` is what a reply that holds the cursor body `body` comes
    /// to: for an aggregation that writes its result out, a write-concern
    /// error in the reply is the failure; else the cursor is opened on the
    /// server at `source`, with the caller's bounds.
    pub open spec fn opened(
        &self,
        body: CursorBodyView,
        source: ServerAddress,
        r: Result<CursorSpecification, Error>,
    ) -> bool {
        if self.writes() && body.write_concern_info.write_concern_error is Some {
            r is Err && checked(
                body.write_concern_info,
                match r {
                    Ok(_) => Ok(()),
                    Err(e) => Err(e),
                },
            )
        } else {
            r matches Ok(spec) && spec@ == specification_of(
                body.cursor,
                source,
                self.batch_size(),
                self.max_await_time(),
            )
        }
    }

    /// The cursor that a decoded reply from `source` opens.
    pub fn handle_body(&self, reply: &bson::Document, source: &ServerAddress) -> (r: Result<
        CursorSpecification,
        Error,
    >)
        ensures
            match cursor_body_of(doc_view(*reply)) {
                Some(body) => self.opened(body, *source, r),
                None => r matches Err(e) && e@.kind is InvalidResponse,
            },
    {
        match CursorBody::from_document(reply) {
            Ok(body) => {
                if self.is_out_or_merge() {
                    match body.write_concern_info.validate() {
                        Ok(_) => {},
                        Err(e) => {
                            return Err(e);
                        },
                    }
                }
                let (batch_size, max_await_time) = match &self.options {
                    Some(o) => (o.batch_size, o.max_await_time),
                    None => (None, None),
                };
                Ok(CursorSpecification::new(body.cursor, source.clone(), batch_size, max_await_time))
            },
            Err(e) => Err(e),
        }
    }
}

impl Operation for Aggregate {
    type O = CursorSpecification;

    open spec fn command_name(&self) -> Seq<char> {
        "aggregate"@
    }

    open spec fn target_db(&self) -> Seq<char> {
        self.target.db()
    }

    open spec fn write_concern_spec(&self) -> Option<WriteConcern> {
        match self.options {
            Some(o) => o.write_concern,
            None => None,
        }
    }

    /// The aggregate command with the options merged in and the read
    /// concern beside it. An empty write concern is dropped from the
    /// options first. Building fails only where an option is out of the
    /// range of the wire.
    fn build(&mut self, description: &StreamDescription) -> (r: Result<Command, Error>)
        ensures
            final(self).target == old(self).target,
            final(self).pipeline == old(self).pipeline,
            final(self).options == normalized(old(self).options),
            match r {
                Ok(cmd) => old(self).body() == Some(doc_view(cmd.body)) && cmd.name@
                    == "aggregate"@ && cmd.read_concern == old(self).read_concern(),
                Err(e) => old(self).body() is None && e@.kind is InvalidArgument,
            },
    {
        let mut body = self.build_base();
        let options = match self.options.take() {
            Some(o) => Some(
                AggregateOptions {
                    allow_disk_use: o.allow_disk_use,
                    batch_size: o.batch_size,
                    max_await_time: o.max_await_time,
                    max_time: o.max_time,
                    read_concern: o.read_concern,
                    selection_criteria: o.selection_criteria,
                    write_concern: remove_empty_write_concern(o.write_concern),
                },
            ),
            None => None,
        };
        self.options = options;
        let writes_out = self.is_out_or_merge();
        let mut read_concern: Option<ReadConcern> = None;
        if let Some(options) = &self.options {
            match options.to_bson(writes_out) {
                Ok(b) => match append_options(&mut body, Some(&b)) {
                    Ok(_) => {},
                    Err(e) => {
                        return Err(e);
                    },
                },
                Err(e) => {
                    return Err(e);
                },
            }
            if let Some(rc) = &options.read_concern {
                read_concern = Some(rc.clone());
            }
        }
        proof {
            lemma_names_differ();
        }
        Ok(Command::new_read("aggregate".to_string(), self.target.db_name().to_string(), read_concern, body))
    }

    /// The cursor that the reply opens, on the server that the reply came
    /// from. A reply that cannot be decoded, or that holds no well-formed
    /// cursor, is an invalid response.
    fn handle_response(&self, response: &RawCommandResponse, description: &StreamDescription) -> (r:
        Result<CursorSpecification, Error>)
        ensures
            match decoded(response.raw@) {
                Some(reply) => match cursor_body_of(reply) {
                    Some(body) => self.opened(body, response.source, r),
                    None => r matches Err(e) && e@.kind is InvalidResponse,
                },
                None => r matches Err(e) && e@.kind is InvalidResponse,
            },
    {
        match response.body() {
            Ok(reply) => self.handle_body(&reply, response.source_address()),
            Err(e) => Err(e),
        }
    }

    fn selection_criteria(&self) -> (r: Option<SelectionCriteria>)
        ensures
            r == match self.options {
                Some(o) => o.selection_criteria,
                None => None,
            },
    {
        match &self.options {
            Some(o) => o.selection_criteria,
            None => None,
        }
    }

    fn write_concern(&self) -> (r: Option<&WriteConcern>) {
        match &self.options {
            Some(o) => o.write_concern.as_ref(),
            None => None,
        }
    }

    /// An aggregation takes a read concern, unless it writes its result
    /// out on a server older than release 4.2.
    fn supports_read_concern(&self, description: &StreamDescription) -> (r: bool)
        ensures
            r == (!self.writes() || (description.max_wire_version matches Some(v) && v
                >= SERVER_4_2_0_WIRE_VERSION)),
    {
        if self.is_out_or_merge() {
            match description.max_wire_version {
                Some(v) => v >= SERVER_4_2_0_WIRE_VERSION,
                None => false,
            }
        } else {
            true
        }
    }

    /// An aggregation that only reads may be retried as a read; one that
    /// writes its result out is never retried.
    fn retryability(&self) -> (r: Retryability)
        ensures
            r == (if self.writes() {
                Retryability::Never
            } else {
                Retryability::Read
            }),
    {
        if self.is_out_or_merge() {
            Retryability::Never
        } else {
            Retryability::Read
        }
    }

    fn name(&self) -> (r: &str) {
        "aggregate"
    }
}

} // verus!
