//! Resumable change streams: the token to resume from, and what to do when
//! a poll of the stream succeeds or fails.

use vstd::prelude::*;
use std::marker::PhantomData;
use std::time::Duration;
use crate::client::Client;
use crate::concern::ReadConcern;
use crate::cursor::{BatchValue, BatchView};
use crate::document::{
    bson_clone, bson_document, bson_timestamp, bson_view, doc_clone, doc_get, doc_insert, doc_new,
    doc_single, doc_view, lookup, upsert, Fields, Value,
};
use crate::operation::aggregate::{Aggregate, AggregateOptions};
use crate::error::Error;
use crate::field::fields_of;
use crate::namespace::Namespace;
use crate::operation::response::Timestamp;
use crate::selection_criteria::SelectionCriteria;

verus! {

/// The position in a change feed from which the feed can be taken up
/// again. It is what the server sent, and is never looked into.
#[derive(Debug)]
pub struct ResumeToken {
    value: bson::Bson,
}

impl View for ResumeToken {
    type V = Value;

    closed spec fn view(&self) -> Value {
        bson_view(self.value)
    }
}

/// The value of an optional token.
pub open spec fn optional_token(token: Option<ResumeToken>) -> Option<Value> {
    match token {
        Some(t) => Some(t@),
        None => None,
    }
}

impl Clone for ResumeToken {
    fn clone(&self) -> (r: Self)
        ensures
            r == *self,
    {
        ResumeToken { value: bson_clone(&self.value) }
    }
}

impl ResumeToken {
    /// The token that is this value.
    pub fn new(value: bson::Bson) -> (r: ResumeToken)
        ensures
            r@ == bson_view(value),
    {
        ResumeToken { value }
    }

    /// The token that is this document.
    pub fn from_document(d: bson::Document) -> (r: ResumeToken)
        ensures
            r@ == Value::Document(doc_view(d)),
    {
        ResumeToken { value: bson_document(d) }
    }

    /// The value that the server sent.
    pub fn value(&self) -> (r: &bson::Bson)
        ensures
            bson_view(*r) == self@,
    {
        &self.value
    }
}

/// What an aggregation runs against.
#[derive(Debug)]
pub enum AggregateTarget {
    /// A whole database.
    Database(String),
    /// One collection.
    Collection(Namespace),
}

impl Clone for AggregateTarget {
    fn clone(&self) -> (r: Self)
        ensures
            r == *self,
    {
        match self {
            AggregateTarget::Database(db) => AggregateTarget::Database(db.clone()),
            AggregateTarget::Collection(ns) => AggregateTarget::Collection(ns.clone()),
        }
    }
}

impl AggregateTarget {
    /// The name of the database that the target lies in.
    pub open spec fn db(&self) -> Seq<char> {
        match self {
            AggregateTarget::Database(db) => db@,
            AggregateTarget::Collection(ns) => ns.db@,
        }
    }

    /// The name of the database that the target lies in.
    pub fn db_name(&self) -> (r: &str)
        ensures
            r@ == self.db(),
    {
        match self {
            AggregateTarget::Database(db) => db.as_str(),
            AggregateTarget::Collection(ns) => ns.db.as_str(),
        }
    }
}

/// What the caller may ask of a change stream.
#[derive(Debug)]
pub struct ChangeStreamOptions {
    /// Take the feed up after the event with this token.
    pub resume_after: Option<ResumeToken>,
    /// Start the feed after the event with this token, even if the event
    /// closed an earlier stream.
    pub start_after: Option<ResumeToken>,
    /// Start the feed at this point of the server's time.
    pub start_at_operation_time: Option<Timestamp>,
    /// How long the server may wait for events before it answers a poll.
    pub max_await_time: Option<Duration>,
    /// The number of events asked for in each batch.
    pub batch_size: Option<u32>,
    /// The consistency asked of the feed.
    pub read_concern: Option<ReadConcern>,
    /// The servers that the feed may be read from.
    pub selection_criteria: Option<SelectionCriteria>,
}

fn clone_token(token: &Option<ResumeToken>) -> (r: Option<ResumeToken>)
    ensures
        r == *token,
{
    match token {
        Some(t) => Some(t.clone()),
        None => None,
    }
}

impl Clone for ChangeStreamOptions {
    fn clone(&self) -> (r: Self)
        ensures
            r == *self,
    {
        ChangeStreamOptions {
            resume_after: clone_token(&self.resume_after),
            start_after: clone_token(&self.start_after),
            start_at_operation_time: self.start_at_operation_time,
            max_await_time: self.max_await_time,
            batch_size: self.batch_size,
            read_concern: match &self.read_concern {
                Some(c) => Some(c.clone()),
                None => None,
            },
            selection_criteria: self.selection_criteria,
        }
    }
}

pub struct ChangeStreamOptionsView {
    pub resume_after: Option<Value>,
    pub start_after: Option<Value>,
    pub start_at_operation_time: Option<Timestamp>,
    pub max_await_time: Option<Duration>,
    pub batch_size: Option<u32>,
    pub read_concern: Option<ReadConcern>,
    pub selection_criteria: Option<SelectionCriteria>,
}

impl View for ChangeStreamOptions {
    type V = ChangeStreamOptionsView;

    open spec fn view(&self) -> ChangeStreamOptionsView {
        ChangeStreamOptionsView {
            resume_after: optional_token(self.resume_after),
            start_after: optional_token(self.start_after),
            start_at_operation_time: self.start_at_operation_time,
            max_await_time: self.max_await_time,
            batch_size: self.batch_size,
            read_concern: self.read_concern,
            selection_criteria: self.selection_criteria,
        }
    }
}

/// The view of optional options.
pub open spec fn optional_options(options: Option<ChangeStreamOptions>) -> Option<
    ChangeStreamOptionsView,
> {
    match options {
        Some(o) => Some(o@),
        None => None,
    }
}

impl ChangeStreamOptions {
    /// Options with nothing set.
    pub open spec fn unset() -> ChangeStreamOptionsView {
        ChangeStreamOptionsView {
            resume_after: None,
            start_after: None,
            start_at_operation_time: None,
            max_await_time: None,
            batch_size: None,
            read_concern: None,
            selection_criteria: None,
        }
    }

    /// Options with nothing set.
    pub fn new() -> (r: ChangeStreamOptions)
        ensures
            r@ == ChangeStreamOptions::unset(),
    {
        ChangeStreamOptions {
            resume_after: None,
            start_after: None,
            start_at_operation_time: None,
            max_await_time: None,
            batch_size: None,
            read_concern: None,
            selection_criteria: None,
        }
    }
}

/// The options of a stream that is taken up after `token`: the feed
/// resumes after the token, every other start point is dropped, and all
/// else stays as the caller set it.
pub open spec fn resumed_after(original: Option<ChangeStreamOptionsView>, token: Value)
    -> ChangeStreamOptionsView {
    let base = match original {
        Some(o) => o,
        None => ChangeStreamOptions::unset(),
    };
    ChangeStreamOptionsView {
        resume_after: Some(token),
        start_after: None,
        start_at_operation_time: None,
        max_await_time: base.max_await_time,
        batch_size: base.batch_size,
        read_concern: base.read_concern,
        selection_criteria: base.selection_criteria,
    }
}

/// What a change stream keeps in order to open itself again.
#[derive(Debug)]
pub struct ChangeStreamData {
    /// The stages that follow the change-stream stage.
    pub pipeline: Vec<bson::Document>,
    /// The client that opened the stream; shared, not owned.
    pub client: Client,
    /// What the stream watches.
    pub target: AggregateTarget,
    /// The options that the caller gave.
    pub options: Option<ChangeStreamOptions>,
    /// Whether a resume has been tried since the last successful poll.
    pub resume_attempted: bool,
    /// Whether the stream has ever delivered an event.
    pub document_returned: bool,
}

impl ChangeStreamData {
    /// The data of a stream that was just opened: no resume tried, no
    /// event delivered.
    pub fn new(
        pipeline: Vec<bson::Document>,
        client: Client,
        target: AggregateTarget,
        options: Option<ChangeStreamOptions>,
    ) -> (r: ChangeStreamData)
        ensures
            r.pipeline == pipeline,
            r.client == client,
            r.target == target,
            r.options == options,
            !r.resume_attempted,
            !r.document_returned,
    {
        ChangeStreamData {
            pipeline,
            client,
            target,
            options,
            resume_attempted: false,
            document_returned: false,
        }
    }
}

/// The token that a successful poll yields.
///
/// A document that ends its batch yields the token that follows the batch,
/// where the server sent one: the server computed it, and it is right even
/// where the pipeline has dropped events. Any other document yields its own
/// `_id`. An empty batch yields the token that follows it, if any. An
/// exhausted cursor yields nothing.
pub open spec fn derived_token(batch: BatchView, batch_token: Option<Value>) -> Option<Value> {
    match batch {
        BatchView::Document { doc, is_last } => if is_last && batch_token is Some {
            batch_token
        } else {
            lookup(doc, "_id"@)
        },
        BatchView::Empty => batch_token,
        BatchView::Exhausted => None,
    }
}

/// The value of an optional borrowed token.
pub open spec fn borrowed_token(token: Option<&ResumeToken>) -> Option<Value> {
    match token {
        Some(t) => Some(t@),
        None => None,
    }
}

/// The token that a successful poll yields, given what the poll gave and
/// the token that the cursor reported after the batch.
pub fn get_resume_token(batch_value: &BatchValue, batch_token: Option<&ResumeToken>) -> (r: Option<
    ResumeToken,
>)
    ensures
        optional_token(r) == derived_token(batch_value@, borrowed_token(batch_token)),
{
    match batch_value {
        BatchValue::Document { doc, is_last } => {
            match batch_token {
                Some(t) if *is_last => Some(t.clone()),
                _ => match doc_get(doc, "_id") {
                    Some(id) => Some(ResumeToken::new(bson_clone(id))),
                    None => None,
                },
            }
        },
        BatchValue::Empty => match batch_token {
            Some(t) => Some(t.clone()),
            None => None,
        },
        BatchValue::Exhausted => None,
    }
}

/// What a poll of the stream's cursor came to.
#[derive(Debug)]
pub enum PollEvent {
    /// The poll succeeded: what it gave, and the token that the cursor
    /// reported after the batch, if any.
    Success { batch: BatchValue, batch_token: Option<ResumeToken> },
    /// The poll failed; `resumable` says whether the failure is one after
    /// which a change stream may be opened again.
    Failure { error: Error, resumable: bool },
}

/// What is needed to open the stream again.
#[derive(Debug)]
pub struct ResumeRequest {
    pub target: AggregateTarget,
    pub pipeline: Vec<bson::Document>,
    pub options: Option<ChangeStreamOptions>,
}

/// What the owner of the stream must do after a poll.
#[derive(Debug)]
pub enum StreamAction {
    /// Hand this to the caller.
    Deliver(BatchValue),
    /// Open the stream again as the request says, and poll the new cursor.
    Reissue(ResumeRequest),
    /// Hand this error to the caller; the stream is dead.
    Fail(Error),
}

/// The state of a change stream, as far as its behaviour depends on it.
pub struct StreamView {
    /// The cached resume token.
    pub token: Option<Value>,
    /// Whether a resume has been tried since the last successful poll.
    pub resume_attempted: bool,
    /// Whether the stream has ever delivered an event.
    pub document_returned: bool,
    /// Whether the cursor has reported that it is exhausted.
    pub exhausted: bool,
    /// Whether a failure has ended the stream.
    pub dead: bool,
    /// The client that opened the stream, through which it is opened
    /// again.
    pub client: Client,
    /// What the stream watches.
    pub target: AggregateTarget,
    /// The stages that follow the change-stream stage.
    pub pipeline: Seq<Fields>,
    /// The options that the caller gave.
    pub options: Option<ChangeStreamOptionsView>,
}

/// Whether a failure is answered by opening the stream again: the stream
/// is not dead, the failure is resumable, and no resume has been tried
/// since the last successful poll.
pub open spec fn resumes(s: StreamView, resumable: bool) -> bool {
    !s.dead && resumable && !s.resume_attempted
}

/// The state after a failed poll: a resume is now under way, or the stream
/// is dead. The cached token stays.
pub open spec fn after_failure(s: StreamView, resumable: bool) -> StreamView {
    if resumes(s, resumable) {
        StreamView { resume_attempted: true, ..s }
    } else {
        StreamView { dead: true, ..s }
    }
}

/// The state after a successful poll. The cached token is replaced by the
/// token that the poll yields, if it yields one; a resume may be tried
/// again. A dead stream stays as it is.
pub open spec fn after_success(s: StreamView, batch: BatchView, batch_token: Option<Value>)
    -> StreamView {
    if s.dead {
        s
    } else {
        StreamView {
            token: match derived_token(batch, batch_token) {
                Some(t) => Some(t),
                None => s.token,
            },
            resume_attempted: false,
            document_returned: s.document_returned || batch is Document,
            exhausted: s.exhausted || batch is Exhausted,
            ..s
        }
    }
}

/// The options with which the stream is opened again. Once an event has
/// been delivered the feed resumes after the cached token; before that no
/// better point is known than the one the caller set, so the caller's
/// options stay untouched.
pub open spec fn resume_options(s: StreamView) -> Option<ChangeStreamOptionsView> {
    match s.token {
        Some(t) => if s.document_returned {
            Some(resumed_after(s.options, t))
        } else {
            s.options
        },
        None => s.options,
    }
}

/// The state after a poll.
pub open spec fn step(s: StreamView, event: PollEvent) -> StreamView {
    match event {
        PollEvent::Success { batch, batch_token } => after_success(
            s,
            batch@,
            optional_token(batch_token),
        ),
        PollEvent::Failure { error, resumable } => after_failure(s, resumable),
    }
}

/// Whether `action` is what a stream in state `s` answers to a poll.
///
/// A successful poll is answered by delivering what it gave, or nothing if
/// the stream is dead. A failed poll is answered by a request to open the
/// stream again, with the stream's target and pipeline and the options to
/// resume with, where the stream resumes, and else by the error itself.
pub open spec fn answers(s: StreamView, event: PollEvent, action: StreamAction) -> bool {
    match event {
        PollEvent::Success { batch, batch_token } => action == (if s.dead {
            StreamAction::Deliver(BatchValue::Exhausted)
        } else {
            StreamAction::Deliver(batch)
        }),
        PollEvent::Failure { error, resumable } => if resumes(s, resumable) {
            action matches StreamAction::Reissue(request) && request.target == s.target
                && fields_of(request.pipeline@) == s.pipeline && optional_options(request.options)
                == resume_options(s)
        } else {
            action == StreamAction::Fail(error)
        },
    }
}

/// The fields after an optional value is set under `key`.
pub open spec fn with_value(base: Fields, key: Seq<char>, value: Option<Value>) -> Fields {
    match value {
        Some(v) => upsert(base, key, v),
        None => base,
    }
}

/// The timestamp element of an optional timestamp.
pub open spec fn timestamp_value(t: Option<Timestamp>) -> Option<Value> {
    match t {
        Some(t) => Some(Value::Timestamp { time: t.time, increment: t.increment }),
        None => None,
    }
}

/// What the change-stream stage says: where the feed starts, as far as
/// the options say. Without options it says nothing.
pub open spec fn stage_fields(options: Option<ChangeStreamOptionsView>) -> Fields {
    match options {
        Some(o) => with_value(
            with_value(
                with_value(Fields::empty(), "resumeAfter"@, o.resume_after),
                "startAtOperationTime"@,
                timestamp_value(o.start_at_operation_time),
            ),
            "startAfter"@,
            o.start_after,
        ),
        None => Fields::empty(),
    }
}

/// The stages of the aggregation that opens a change stream: the
/// change-stream stage, then the caller's stages.
pub open spec fn watch_pipeline(options: Option<ChangeStreamOptionsView>, pipeline: Seq<Fields>)
    -> Seq<Fields> {
    seq![seq![("$changeStream"@, Value::Document(stage_fields(options)))]] + pipeline
}

/// The options of the aggregation that opens a change stream: the batch
/// size, the await time, the read concern and the selection criteria of
/// the stream, and nothing else.
pub open spec fn watch_options(options: Option<ChangeStreamOptions>) -> AggregateOptions {
    AggregateOptions {
        allow_disk_use: None,
        batch_size: match options {
            Some(o) => o.batch_size,
            None => None,
        },
        max_await_time: match options {
            Some(o) => o.max_await_time,
            None => None,
        },
        max_time: None,
        read_concern: match options {
            Some(o) => o.read_concern,
            None => None,
        },
        selection_criteria: match options {
            Some(o) => o.selection_criteria,
            None => None,
        },
        write_concern: None,
    }
}

fn change_stream_stage(options: &Option<ChangeStreamOptions>) -> (d: bson::Document)
    ensures
        doc_view(d) == seq![("$changeStream"@, Value::Document(stage_fields(optional_options(*options))))],
{
    let mut stage = doc_new();
    if let Some(o) = options {
        if let Some(token) = &o.resume_after {
            doc_insert(&mut stage, "resumeAfter", bson_clone(token.value()));
        }
        if let Some(t) = o.start_at_operation_time {
            doc_insert(&mut stage, "startAtOperationTime", bson_timestamp(t.time, t.increment));
        }
        if let Some(token) = &o.start_after {
            doc_insert(&mut stage, "startAfter", bson_clone(token.value()));
        }
    }
    doc_single("$changeStream", bson_document(stage))
}

/// The aggregation that opens a change stream over `target`: the
/// change-stream stage with the start point that the options name, then
/// the caller's stages.
pub fn watch_aggregate(
    target: AggregateTarget,
    pipeline: Vec<bson::Document>,
    options: Option<ChangeStreamOptions>,
) -> (r: Aggregate)
    ensures
        r.target == target,
        fields_of(r.pipeline@) == watch_pipeline(optional_options(options), fields_of(pipeline@)),
        r.options == Some(watch_options(options)),
{
    let mut stages: Vec<bson::Document> = Vec::new();
    stages.push(change_stream_stage(&options));
    let mut pipeline = pipeline;
    let ghost rest = fields_of(pipeline@);
    stages.append(&mut pipeline);
    assert(fields_of(stages@) =~= watch_pipeline(optional_options(options), rest));
    let aggregate_options = match options {
        Some(o) => AggregateOptions {
            allow_disk_use: None,
            batch_size: o.batch_size,
            max_await_time: o.max_await_time,
            max_time: None,
            read_concern: o.read_concern,
            selection_criteria: o.selection_criteria,
            write_concern: None,
        },
        None => AggregateOptions {
            allow_disk_use: None,
            batch_size: None,
            max_await_time: None,
            max_time: None,
            read_concern: None,
            selection_criteria: None,
            write_concern: None,
        },
    };
    Aggregate::new(target, stages, Some(aggregate_options))
}

impl ResumeRequest {
    /// The aggregation that opens the stream again.
    pub fn into_aggregate(self) -> (r: Aggregate)
        ensures
            r.target == self.target,
            fields_of(r.pipeline@) == watch_pipeline(
                optional_options(self.options),
                fields_of(self.pipeline@),
            ),
            r.options == Some(watch_options(self.options)),
    {
        watch_aggregate(self.target, self.pipeline, self.options)
    }
}

/// A resumable feed of change events.
///
/// The stream owns its cached resume token and its resume state; the
/// cursor itself is polled by the owner of the stream, who reports each
/// poll to [`ChangeStream::advance`] and does what it answers.
#[derive(Debug)]
pub struct ChangeStream<T> {
    data: ChangeStreamData,
    resume_token: Option<ResumeToken>,
    exhausted: bool,
    dead: bool,
    _phantom: PhantomData<T>,
}

fn clone_documents(docs: &Vec<bson::Document>) -> (r: Vec<bson::Document>)
    ensures
        fields_of(r@) == fields_of(docs@),
{
    let mut out: Vec<bson::Document> = Vec::new();
    let mut i: usize = 0;
    while i < docs.len()
        invariant
            i <= docs.len(),
            out@.len() == i,
            forall|j: int| 0 <= j < i ==> doc_view(#[trigger] out@[j]) == doc_view(docs@[j]),
        decreases docs.len() - i,
    {
        out.push(doc_clone(&docs[i]));
        i += 1;
    }
    assert(fields_of(out@) =~= fields_of(docs@));
    out
}

impl<T> View for ChangeStream<T> {
    type V = StreamView;

    closed spec fn view(&self) -> StreamView {
        StreamView {
            token: optional_token(self.resume_token),
            resume_attempted: self.data.resume_attempted,
            document_returned: self.data.document_returned,
            exhausted: self.exhausted,
            dead: self.dead,
            client: self.data.client,
            target: self.data.target,
            pipeline: fields_of(self.data.pipeline@),
            options: optional_options(self.data.options),
        }
    }
}

impl<T> ChangeStream<T> {
    /// The client that opened the stream. The stream shares it with
    /// whoever else holds it, and only uses it to open itself again.
    pub open spec fn client(&self) -> Client {
        self@.client
    }

    /// The client that opened the stream.
    pub fn shared_client(&self) -> (r: &Client)
        ensures
            *r == self.client(),
    {
        &self.data.client
    }

    /// A stream that was just opened, with the token to resume from if one
    /// is known already.
    pub fn new(data: ChangeStreamData, resume_token: Option<ResumeToken>) -> (r: ChangeStream<T>)
        ensures
            r@.token == optional_token(resume_token),
            r@.resume_attempted == data.resume_attempted,
            r@.document_returned == data.document_returned,
            !r@.exhausted,
            !r@.dead,
            r.client() == data.client,
            r@.target == data.target,
            r@.pipeline == fields_of(data.pipeline@),
            r@.options == optional_options(data.options),
    {
        ChangeStream { data, resume_token, exhausted: false, dead: false, _phantom: PhantomData }
    }

    /// The cached resume token: the point after the most recent event that
    /// the stream has seen.
    pub fn resume_token(&self) -> (r: Option<&ResumeToken>)
        ensures
            borrowed_token(r) == self@.token,
    {
        self.resume_token.as_ref()
    }

    /// The same stream, its events read as another type.
    pub fn with_type<D>(self) -> (r: ChangeStream<D>)
        ensures
            r@ == self@,
            r.client() == self.client(),
    {
        ChangeStream {
            data: self.data,
            resume_token: self.resume_token,
            exhausted: self.exhausted,
            dead: self.dead,
            _phantom: PhantomData,
        }
    }

    /// Whether the stream will receive further events: its cursor is not
    /// exhausted and no failure has ended it.
    pub fn is_alive(&self) -> (r: bool)
        ensures
            r == (!self@.exhausted && !self@.dead),
    {
        !self.exhausted && !self.dead
    }

    /// What is needed to open the stream again from where it stands.
    pub fn resume_request(&self) -> (r: ResumeRequest)
        ensures
            r.target == self@.target,
            fields_of(r.pipeline@) == self@.pipeline,
            optional_options(r.options) == resume_options(self@),
    {
        let options = match &self.resume_token {
            Some(token) if self.data.document_returned => {
                let (max_await_time, batch_size, read_concern, selection_criteria) =
                    match &self.data.options {
                    Some(o) => (
                        o.max_await_time,
                        o.batch_size,
                        match &o.read_concern {
                            Some(c) => Some(c.clone()),
                            None => None,
                        },
                        o.selection_criteria,
                    ),
                    None => (None, None, None, None),
                };
                Some(
                    ChangeStreamOptions {
                        resume_after: Some(token.clone()),
                        start_after: None,
                        start_at_operation_time: None,
                        max_await_time,
                        batch_size,
                        read_concern,
                        selection_criteria,
                    },
                )
            },
            _ => match &self.data.options {
                Some(o) => Some(o.clone()),
                None => None,
            },
        };
        ResumeRequest {
            target: self.data.target.clone(),
            pipeline: clone_documents(&self.data.pipeline),
            options,
        }
    }

    /// Takes note of a poll and says what to do next.
    ///
    /// After a successful poll the token is brought up to date and the
    /// result is delivered. After a failed poll the stream is opened again
    /// if the failure is resumable and no resume has been tried since the
    /// last success; else the stream is dead and the error is handed on
    /// unchanged. A dead stream delivers nothing more.
    pub fn advance(&mut self, event: PollEvent) -> (action: StreamAction)
        ensures
            final(self)@ == step(old(self)@, event),
            final(self).client() == old(self).client(),
            answers(old(self)@, event, action),
    {
        match event {
            PollEvent::Success { batch, batch_token } => {
                if self.dead {
                    return StreamAction::Deliver(BatchValue::Exhausted);
                }
                if let Some(token) = get_resume_token(&batch, batch_token.as_ref()) {
                    self.resume_token = Some(token);
                }
                self.data.resume_attempted = false;
                match &batch {
                    BatchValue::Document { .. } => {
                        self.data.document_returned = true;
                    },
                    BatchValue::Exhausted => {
                        self.exhausted = true;
                    },
                    BatchValue::Empty => {},
                }
                StreamAction::Deliver(batch)
            },
            PollEvent::Failure { error, resumable } => {
                if !self.dead && resumable && !self.data.resume_attempted {
                    let request = self.resume_request();
                    self.data.resume_attempted = true;
                    StreamAction::Reissue(request)
                } else {
                    self.dead = true;
                    StreamAction::Fail(error)
                }
            },
        }
    }
}

/// The token that a poll yields is chosen as follows: the token after the
/// batch for a document that ends its batch, where the server sent one;
/// the document's own `_id` for a document that does not end its batch;
/// the token after the batch, if any, for an empty batch; nothing for an
/// exhausted cursor.
pub proof fn lemma_token_choice(doc: Fields, after_batch: Option<Value>)
    ensures
        after_batch is Some ==> derived_token(
            BatchView::Document { doc, is_last: true },
            after_batch,
        ) == after_batch,
        derived_token(BatchView::Document { doc, is_last: false }, after_batch) == lookup(
            doc,
            "_id"@,
        ),
        derived_token(BatchView::Document { doc, is_last: true }, None) == lookup(doc, "_id"@),
        derived_token(BatchView::Empty, after_batch) == after_batch,
        derived_token(BatchView::Exhausted, after_batch) is None,
{
}

/// A poll that yields no token leaves the cached token as it was: so does
/// an empty batch without a token after it, and so does an exhausted
/// cursor. No poll, successful or failed, ever clears a cached token.
pub proof fn lemma_token_retained(
    s: StreamView,
    batch: BatchView,
    after_batch: Option<Value>,
    resumable: bool,
)
    ensures
        after_success(s, BatchView::Empty, None).token == s.token,
        after_success(s, BatchView::Exhausted, after_batch).token == s.token,
        derived_token(batch, after_batch) is None ==> after_success(s, batch, after_batch).token
            == s.token,
        s.token is Some ==> after_success(s, batch, after_batch).token is Some,
        after_failure(s, resumable).token == s.token,
{
}

/// One resumable failure of a live stream is answered by opening the
/// stream again, from a point chosen by whether an event has been
/// delivered; a second failure before any successful poll, resumable or
/// not, ends the stream instead. A successful poll in between makes a
/// resume possible again.
pub proof fn lemma_single_resume(
    s: StreamView,
    second_resumable: bool,
    batch: BatchView,
    after_batch: Option<Value>,
)
    requires
        !s.dead,
        !s.resume_attempted,
    ensures
        resumes(s, true),
        s.document_returned && s.token is Some ==> resume_options(s) == Some(
            resumed_after(s.options, s.token->Some_0),
        ),
        !s.document_returned ==> resume_options(s) == s.options,
        !resumes(after_failure(s, true), second_resumable),
        after_failure(after_failure(s, true), second_resumable).dead,
        resumes(after_success(after_failure(s, true), batch, after_batch), true),
{
}

/// A failure that is not resumable ends the stream at once, and a dead
/// stream stays dead whatever is reported to it.
pub proof fn lemma_dead_is_final(
    s: StreamView,
    resumable: bool,
    batch: BatchView,
    after_batch: Option<Value>,
)
    ensures
        after_failure(s, false).dead,
        s.dead ==> after_failure(s, resumable).dead && after_success(s, batch, after_batch).dead
            && !resumes(s, resumable),
{
}

} // verus!
