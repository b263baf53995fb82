//! Counting the documents of a collection from its metadata.

use vstd::prelude::*;
use std::time::Duration;
use crate::command::{wire_fields, Command};
use crate::concern::{ReadConcern, WriteConcern};
use crate::document::{
    bson_array, bson_document, bson_int32, bson_string, bson_view, decoded, doc_insert, doc_single,
    doc_new, doc_view, lemma_absent, lemma_merged_one, lookup, merged, values_of, Fields, Value,
};
use crate::error::{Error, ErrorKindView};
use crate::field::{fields_of, u64_at, u64_field};
use crate::namespace::Namespace;
use crate::operation::response::{cursor_body_of, invalid_if_err, CursorBody, RawCommandResponse};
use crate::operation::{append_options, Operation, Retryability};
use crate::selection_criteria::SelectionCriteria;
use crate::stream_description::{StreamDescription, SERVER_4_9_0_WIRE_VERSION};
use crate::time::{duration_element, millis, millis_value};

verus! {

/// What the caller may ask of an estimated count.
#[derive(Debug)]
pub struct EstimatedDocumentCountOptions {
    /// How long the server may work on the count.
    pub max_time: Option<Duration>,
    /// The servers that the count may be sent to.
    pub selection_criteria: Option<SelectionCriteria>,
    /// The consistency asked of the count.
    pub read_concern: Option<ReadConcern>,
}

impl EstimatedDocumentCountOptions {
    /// The fields that the options add to the command body: the time limit
    /// in milliseconds under `maxTimeMS`, where one is set. `None` where the
    /// limit is out of the range of the wire.
    pub open spec fn fields(&self) -> Option<Fields> {
        match self.max_time {
            Some(t) => match millis_value(millis(t)) {
                Some(v) => Some(seq![("maxTimeMS"@, v)]),
                None => None,
            },
            None => Some(Fields::empty()),
        }
    }

    /// Options with nothing set.
    pub fn new() -> (r: EstimatedDocumentCountOptions)
        ensures
            r.max_time is None,
            r.selection_criteria is None,
            r.read_concern is None,
    {
        EstimatedDocumentCountOptions { max_time: None, selection_criteria: None, read_concern: None }
    }

    /// The wire form of the options; an argument error where the time limit
    /// is out of the range of the wire.
    pub fn to_bson(&self) -> (r: Result<bson::Bson, Error>)
        ensures
            match r {
                Ok(b) => self.fields() matches Some(f) && bson_view(b) == Value::Document(f),
                Err(e) => self.fields() is None && e@.kind is InvalidArgument,
            },
    {
        let mut d = doc_new();
        if let Some(t) = &self.max_time {
            match duration_element(t) {
                Ok(b) => {
                    proof {
                        lemma_absent(Fields::empty(), "maxTimeMS"@, bson_view(b));
                    }
                    doc_insert(&mut d, "maxTimeMS", b);
                },
                Err(e) => {
                    return Err(e);
                },
            }
        }
        Ok(bson_document(d))
    }
}

/// The two stages through which newer servers count: the collection's
/// statistics, summed up.
pub open spec fn count_pipeline() -> Seq<Value> {
    seq![
        Value::Document(
            seq![
                (
                    "$collStats"@,
                    Value::Document(seq![("count"@, Value::Document(Fields::empty()))]),
                ),
            ],
        ),
        Value::Document(
            seq![
                (
                    "$group"@,
                    Value::Document(
                        seq![
                            ("_id"@, Value::Int32(1)),
                            ("n"@, Value::Document(seq![("$sum"@, Value::String("$count"@))])),
                        ],
                    ),
                ),
            ],
        ),
    ]
}

/// The command body without options: the `count` command on the
/// collection, or, for servers that count through an aggregation, the
/// aggregation that counts.
pub open spec fn count_base(coll: Seq<char>, by_aggregation: bool) -> Fields {
    if by_aggregation {
        seq![
            ("aggregate"@, Value::String(coll)),
            ("pipeline"@, Value::Array(count_pipeline())),
            ("cursor"@, Value::Document(Fields::empty())),
        ]
    } else {
        seq![("count"@, Value::String(coll))]
    }
}

/// The name of the command that counts on a server.
pub open spec fn count_command(by_aggregation: bool) -> Seq<char> {
    if by_aggregation {
        "aggregate"@
    } else {
        "count"@
    }
}

/// The count that a reply holds.
///
/// A reply that holds a cursor is the answer of an aggregation: the count
/// is the `n` of the first document of its first batch, and only a server
/// that counts through an aggregation may answer so. Any other reply must
/// hold the count under `n`.
pub open spec fn count_in(reply: Fields, by_aggregation: bool) -> Option<u64> {
    match cursor_body_of(reply) {
        Some(body) => if by_aggregation && body.cursor.first_batch.len() > 0 {
            u64_at(body.cursor.first_batch[0], "n"@)
        } else {
            None
        },
        None => u64_at(reply, "n"@),
    }
}

/// The names of the fields of the command are pairwise different.
proof fn lemma_names_differ()
    ensures
        "aggregate"@ != "pipeline"@,
        "aggregate"@ != "cursor"@,
        "pipeline"@ != "cursor"@,
        "_id"@ != "n"@,
        "aggregate"@.len() > 0,
        "count"@.len() > 0,
        "count"@ != "$db"@,
        "count"@ != "maxTimeMS"@,
        "count"@ != "readConcern"@,
        "maxTimeMS"@ != "$db"@,
        "maxTimeMS"@ != "readConcern"@,
        "$db"@ != "readConcern"@,
{
    reveal_strlit("aggregate");
    reveal_strlit("pipeline");
    reveal_strlit("cursor");
    reveal_strlit("_id");
    reveal_strlit("n");
    reveal_strlit("count");
    reveal_strlit("$db");
    reveal_strlit("maxTimeMS");
    reveal_strlit("readConcern");
    assert("aggregate"@.len() == 9);
    assert("pipeline"@.len() == 8);
    assert("cursor"@.len() == 6);
    assert("_id"@.len() == 3);
    assert("n"@.len() == 1);
    assert("count"@.len() == 5);
    assert("$db"@.len() == 3);
    assert("maxTimeMS"@.len() == 9);
    assert("readConcern"@.len() == 11);
}

/// The estimated count of the documents of a collection.
#[derive(Debug)]
pub struct Count {
    pub ns: Namespace,
    pub options: Option<EstimatedDocumentCountOptions>,
}

impl Count {
    /// The fields that the options add to the command body.
    pub open spec fn option_fields(&self) -> Option<Fields> {
        match self.options {
            Some(o) => o.fields(),
            None => Some(Fields::empty()),
        }
    }

    /// The read concern that the command carries.
    pub open spec fn read_concern(&self) -> Option<ReadConcern> {
        match self.options {
            Some(o) => o.read_concern,
            None => None,
        }
    }

    /// The body of the command for a server: the base command with the
    /// options merged in. `None` where an option is out of the range of the
    /// wire.
    pub open spec fn body(&self, by_aggregation: bool) -> Option<Fields> {
        match self.option_fields() {
            Some(f) => Some(merged(count_base(self.ns.coll@, by_aggregation), f)),
            None => None,
        }
    }

    /// The count of the collection `ns`, with the caller's options.
    pub fn new(ns: Namespace, options: Option<EstimatedDocumentCountOptions>) -> (r: Count)
        ensures
            r.ns == ns,
            r.options == options,
            r.target_db() == ns.db@,
    {
        Count { ns, options }
    }

    /// A count of nothing in particular, for trials.
    pub fn empty() -> (r: Count)
        ensures
            r.ns.db@.len() == 0,
            r.ns.coll@.len() == 0,
            r.options is None,
    {
        Count { ns: Namespace::empty(), options: None }
    }

    fn base(&self, by_aggregation: bool) -> (d: bson::Document)
        ensures
            doc_view(d) == count_base(self.ns.coll@, by_aggregation),
    {
        proof {
            lemma_names_differ();
        }
        if by_aggregation {
            let stats = doc_single("count", bson_document(doc_new()));
            let first = doc_single("$collStats", bson_document(stats));
            let sum = doc_single("$sum", bson_string("$count"));
            let mut group = doc_single("_id", bson_int32(1));
            proof {
                lemma_absent(doc_view(group), "n"@, Value::Document(doc_view(sum)));
            }
            doc_insert(&mut group, "n", bson_document(sum));
            assert(doc_view(group) =~= seq![
                ("_id"@, Value::Int32(1)),
                ("n"@, Value::Document(seq![("$sum"@, Value::String("$count"@))])),
            ]);
            let second = doc_single("$group", bson_document(group));

            let mut stages: Vec<bson::Bson> = Vec::new();
            stages.push(bson_document(first));
            stages.push(bson_document(second));
            assert(values_of(stages@) =~= count_pipeline());

            let mut body = doc_single("aggregate", bson_string(self.ns.coll.as_str()));
            proof {
                lemma_absent(doc_view(body), "pipeline"@, Value::Array(count_pipeline()));
            }
            doc_insert(&mut body, "pipeline", bson_array(stages));
            proof {
                lemma_absent(doc_view(body), "cursor"@, Value::Document(Fields::empty()));
            }
            doc_insert(&mut body, "cursor", bson_document(doc_new()));
            assert(doc_view(body) =~= count_base(self.ns.coll@, true));
            body
        } else {
            doc_single("count", bson_string(self.ns.coll.as_str()))
        }
    }

    /// The count that a decoded reply holds; an invalid response where it
    /// holds none.
    pub fn handle_body(&self, reply: &bson::Document, description: &StreamDescription) -> (r:
        Result<u64, Error>)
        ensures
            match r {
                Ok(n) => count_in(doc_view(*reply), description.counts_by_aggregation()) == Some(n),
                Err(e) => count_in(doc_view(*reply), description.counts_by_aggregation())
                    is None,
            },
            invalid_if_err(r),
    {
        let by_aggregation = match description.max_wire_version {
            Some(v) => v >= SERVER_4_9_0_WIRE_VERSION,
            None => false,
        };
        let n = match CursorBody::from_document(reply) {
            Ok(body) => {
                let mut first_batch = body.cursor.first_batch;
                let ghost queued = fields_of(first_batch@);
                if by_aggregation {
                    match first_batch.pop_front() {
                        Some(counted) => {
                            assert(queued[0] == doc_view(counted));
                            u64_field(&counted, "n")
                        },
                        None => None,
                    }
                } else {
                    None
                }
            },
            Err(_) => u64_field(reply, "n"),
        };
        match n {
            Some(n) => Ok(n),
            None => Err(Error::invalid_response("response from server did not match count command")),
        }
    }
}

impl Operation for Count {
    type O = u64;

    open spec fn command_name(&self) -> Seq<char> {
        "count"@
    }

    open spec fn target_db(&self) -> Seq<char> {
        self.ns.db@
    }

    open spec fn write_concern_spec(&self) -> Option<WriteConcern> {
        None
    }

    /// The count command, or the counting aggregation for servers that
    /// count so, with the options merged in and the read concern beside it.
    /// Building fails only where an option is out of the range of the wire.
    fn build(&mut self, description: &StreamDescription) -> (r: Result<Command, Error>)
        ensures
            *final(self) == *old(self),
            match r {
                Ok(cmd) => old(self).body(description.counts_by_aggregation()) == Some(
                    doc_view(cmd.body),
                ) && cmd.name@ == count_command(description.counts_by_aggregation())
                    && cmd.read_concern == old(self).read_concern(),
                Err(e) => old(self).body(description.counts_by_aggregation()) is None && e@.kind
                    is InvalidArgument,
            },
    {
        let by_aggregation = match description.max_wire_version {
            Some(v) => v >= SERVER_4_9_0_WIRE_VERSION,
            None => false,
        };
        let mut body = self.base(by_aggregation);
        let name = if by_aggregation {
            "aggregate"
        } else {
            "count"
        };
        let mut read_concern: Option<ReadConcern> = None;
        if let Some(options) = &self.options {
            match options.to_bson() {
                Ok(b) => match append_options(&mut body, Some(&b)) {
                    Ok(_) => {},
                    Err(e) => {
                        return Err(e);
                    },
                },
                Err(e) => {
                    return Err(e);
                },
            }
            if let Some(rc) = &options.read_concern {
                read_concern = Some(rc.clone());
            }
        }
        proof {
            lemma_names_differ();
            lemma_merged_one(count_base(self.ns.coll@, by_aggregation), Seq::empty(), Value::Null);
        }
        Ok(Command::new_read(name.to_string(), self.ns.db.clone(), read_concern, body))
    }

    /// The count that the reply holds. A reply that cannot be decoded, or
    /// that holds no count, is an invalid response.
    fn handle_response(&self, response: &RawCommandResponse, description: &StreamDescription) -> (r:
        Result<u64, Error>)
        ensures
            match decoded(response.raw@) {
                Some(reply) => match count_in(reply, description.counts_by_aggregation()) {
                    Some(n) => r == Ok::<u64, Error>(n),
                    None => r is Err,
                },
                None => r is Err,
            },
            invalid_if_err(r),
    {
        match response.body() {
            Ok(reply) => self.handle_body(&reply, description),
            Err(e) => Err(e),
        }
    }

    /// A collection that does not exist holds no documents: that failure
    /// counts as zero. Every other failure is handed on unchanged.
    fn handle_error(&self, error: Error) -> (r: Result<u64, Error>)
        ensures
            r == (if error@.kind matches ErrorKindView::Command(e) && e.code == 26 {
                Ok::<u64, Error>(0)
            } else {
                Err::<u64, Error>(error)
            }),
    {
        if error.is_ns_not_found() {
            Ok(0)
        } else {
            Err(error)
        }
    }

    fn selection_criteria(&self) -> (r: Option<SelectionCriteria>)
        ensures
            r == match self.options {
                Some(o) => o.selection_criteria,
                None => None,
            },
    {
        match &self.options {
            Some(o) => o.selection_criteria,
            None => None,
        }
    }

    fn write_concern(&self) -> (r: Option<&WriteConcern>) {
        None
    }

    fn supports_read_concern(&self, description: &StreamDescription) -> (r: bool)
        ensures
            r,
    {
        true
    }

    fn retryability(&self) -> (r: Retryability)
        ensures
            r == Retryability::Read,
    {
        Retryability::Read
    }

    fn name(&self) -> (r: &str) {
        "count"
    }
}

/// A reply that holds neither a cursor nor a count holds no count,
/// whatever the server; so does a reply without any field.
pub proof fn lemma_count_required(reply: Fields, by_aggregation: bool)
    requires
        lookup(reply, "n"@) is None,
        lookup(reply, "cursor"@) is None,
    ensures
        count_in(reply, by_aggregation) is None,
        count_in(Fields::empty(), by_aggregation) is None,
{
}

/// A count without options goes out as its minimal command: the collection
/// under `count`, and the database under `$db`.
pub proof fn lemma_minimal_count(count: Count)
    requires
        count.options is None,
    ensures
        count.body(false) == Some(seq![("count"@, Value::String(count.ns.coll@))]),
        wire_fields(count.body(false)->Some_0, count.ns.db@, count.read_concern()) == seq![
            ("count"@, Value::String(count.ns.coll@)),
            ("$db"@, Value::String(count.ns.db@)),
        ],
{
    lemma_names_differ();
    let base = count_base(count.ns.coll@, false);
    lemma_absent(base, "$db"@, Value::String(count.ns.db@));
}

/// A count with a time limit and a read concern, and nothing else, goes
/// out as its minimal command plus exactly those two: the limit in
/// milliseconds under `maxTimeMS` and the concern under `readConcern`.
pub proof fn lemma_count_with_options(count: Count, limit: Value)
    requires
        count.options matches Some(o) && o.max_time matches Some(t) && millis_value(millis(t))
            == Some(limit) && o.read_concern is Some,
    ensures
        count.body(false) is Some,
        wire_fields(count.body(false)->Some_0, count.ns.db@, count.read_concern()) == seq![
            ("count"@, Value::String(count.ns.coll@)),
            ("maxTimeMS"@, limit),
            ("$db"@, Value::String(count.ns.db@)),
            ("readConcern"@, Value::Document(count.read_concern()->Some_0.fields())),
        ],
{
    lemma_names_differ();
    let base = count_base(count.ns.coll@, false);
    lemma_merged_one(base, "maxTimeMS"@, limit);
    lemma_absent(base, "maxTimeMS"@, limit);
    let body = base.push(("maxTimeMS"@, limit));
    lemma_absent(body, "$db"@, Value::String(count.ns.db@));
    let tagged = body.push(("$db"@, Value::String(count.ns.db@)));
    lemma_absent(
        tagged,
        "readConcern"@,
        Value::Document(count.read_concern()->Some_0.fields()),
    );
}

} // verus!
