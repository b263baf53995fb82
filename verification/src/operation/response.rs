//! The shapes of server replies, and their decoders.
//!
//! A decoder never guesses: a required field that is missing, or a field
//! that is there in the wrong shape, makes the whole reply invalid.

use vstd::prelude::*;
use std::collections::{HashMap, VecDeque};
use crate::document::{
    decode, decoded, doc_clone, doc_get, doc_view, encode, encoded, bson_clone, bson_view, lookup,
    values_of, Fields, Value,
};
use crate::error::{
    duplicate_strings, duplicate_write_errors, ids_view, optional_fields, optional_text,
    optional_texts,
    optional_write_concern_error, optional_write_errors, texts, write_errors_view, distinct,
    BulkWriteError, BulkWriteErrorView, BulkWriteFailure, BulkWriteFailureView, CommandError,
    CommandErrorView, Error, ErrorKind, ErrorKindView, WriteConcernError, WriteConcernErrorView,
    WriteFailure, WriteFailureView,
};
use crate::field::{
    all_documents, array_at, array_field, document_at, document_field, fields_of,
    i32_at, i32_field, i64_at, int_field, optional_document_at, optional_document_field,
    optional_text_at, optional_text_field, optional_texts_at, optional_texts_field, text_at,
    text_field, timestamp_at, timestamp_field, u64_at, u64_field,
};
use crate::namespace::Namespace;
use crate::number::{get_int, integer_of};
use crate::stream_description::ServerAddress;

verus! {

/// A point in the server's logical time: seconds, and a counter within the
/// second.
#[derive(Clone, Copy, Debug, PartialEq, Eq, Structural)]
pub struct Timestamp {
    pub time: u32,
    pub increment: u32,
}

/// The cluster time that a reply gossips, with the signature that vouches
/// for it.
#[derive(Debug)]
pub struct ClusterTime {
    pub cluster_time: Timestamp,
    pub signature: bson::Document,
}

pub struct ClusterTimeView {
    pub cluster_time: Timestamp,
    pub signature: Fields,
}

impl View for ClusterTime {
    type V = ClusterTimeView;

    open spec fn view(&self) -> ClusterTimeView {
        ClusterTimeView { cluster_time: self.cluster_time, signature: doc_view(self.signature) }
    }
}

/// The cluster time that a `$clusterTime` document holds: a timestamp under
/// `clusterTime` and a document under `signature`.
pub open spec fn cluster_time_of(fields: Fields) -> Option<ClusterTimeView> {
    match (timestamp_at(fields, "clusterTime"@), document_at(fields, "signature"@)) {
        (Some(t), Some(s)) => Some(
            ClusterTimeView { cluster_time: Timestamp { time: t.0, increment: t.1 }, signature: s },
        ),
        _ => None,
    }
}

/// The view of an optional cluster time.
pub open spec fn optional_cluster_time(t: Option<ClusterTime>) -> Option<ClusterTimeView> {
    match t {
        Some(t) => Some(t@),
        None => None,
    }
}

impl ClusterTime {
    /// Reads a `$clusterTime` document; `None` where it is malformed.
    pub fn from_document(d: &bson::Document) -> (r: Option<ClusterTime>)
        ensures
            optional_cluster_time(r) == cluster_time_of(doc_view(*d)),
    {
        match (timestamp_field(d, "clusterTime"), document_field(d, "signature")) {
            (Some(t), Some(s)) => Some(
                ClusterTime {
                    cluster_time: Timestamp { time: t.0, increment: t.1 },
                    signature: doc_clone(s),
                },
            ),
            _ => None,
        }
    }
}

/// A reply as it came from the wire, with the address it came from.
#[derive(Debug)]
pub struct RawCommandResponse {
    pub source: ServerAddress,
    pub raw: Vec<u8>,
}

/// What reading the body gives for each outcome of the decoder: its
/// document, or an invalid-response error with the decoder's message.
pub fn decoded_body(outcome: Result<bson::Document, String>) -> (r: Result<bson::Document, Error>)
    ensures
        match outcome {
            Ok(d) => r == Ok::<bson::Document, Error>(d),
            Err(message) => r matches Err(e) && e@.kind == (ErrorKindView::InvalidResponse {
                message: message@,
            }) && e@.labels.len() == 0,
        },
{
    match outcome {
        Ok(d) => Ok(d),
        Err(message) => Err(Error::new(ErrorKind::InvalidResponse { message }, None)),
    }
}

impl RawCommandResponse {
    /// A reply of these bytes from this address.
    pub fn new(source: ServerAddress, raw: Vec<u8>) -> (r: RawCommandResponse)
        ensures
            r.source == source,
            r.raw == raw,
    {
        RawCommandResponse { source, raw }
    }

    /// The reply that holds `doc`, as if it came from the default address.
    /// The encoder decides whether the document can be encoded.
    pub fn with_document(doc: &bson::Document) -> (r: Result<RawCommandResponse, Error>)
        ensures
            match r {
                Ok(reply) => encoded(doc_view(*doc)) == Some(reply.raw@)
                    && reply.source.host@ == "localhost"@ && reply.source.port is None,
                Err(e) => encoded(doc_view(*doc)) is None && e@.kind is BsonSerialization,
            },
    {
        match crate::command::finish_serialization(encode(doc)) {
            Ok(raw) => Ok(RawCommandResponse { source: ServerAddress::default(), raw }),
            Err(e) => Err(e),
        }
    }

    /// The document that the reply holds. Bytes that hold no document are
    /// an invalid response.
    pub fn body(&self) -> (r: Result<bson::Document, Error>)
        ensures
            match r {
                Ok(d) => decoded(self.raw@) == Some(doc_view(d)),
                Err(e) => decoded(self.raw@) is None && e@.kind is InvalidResponse
                    && e@.labels.len() == 0,
            },
    {
        decoded_body(decode(self.raw.as_slice()))
    }

    /// The address of the server that sent the reply.
    pub fn source_address(&self) -> (r: &ServerAddress)
        ensures
            *r == self.source,
    {
        &self.source
    }
}

/// The envelope of every reply: the `ok` indicator, the gossiped cluster
/// time if any, and the body, which is the reply itself.
#[derive(Debug)]
pub struct CommandResponse {
    pub ok: bson::Bson,
    pub cluster_time: Option<ClusterTime>,
    pub body: bson::Document,
}

pub struct CommandResponseView {
    pub ok: Value,
    pub cluster_time: Option<ClusterTimeView>,
    pub body: Fields,
}

impl View for CommandResponse {
    type V = CommandResponseView;

    open spec fn view(&self) -> CommandResponseView {
        CommandResponseView {
            ok: bson_view(self.ok),
            cluster_time: optional_cluster_time(self.cluster_time),
            body: doc_view(self.body),
        }
    }
}

/// The cluster time of a reply: none where `$clusterTime` is absent, the
/// one it holds where it is a well-formed document. The outer `None` says
/// that the field is there and malformed.
pub open spec fn gossiped_cluster_time(fields: Fields) -> Option<Option<ClusterTimeView>> {
    match lookup(fields, "$clusterTime"@) {
        None => Some(None),
        Some(Value::Document(d)) => match cluster_time_of(d) {
            Some(t) => Some(Some(t)),
            None => None,
        },
        Some(_) => None,
    }
}

/// The envelope that a reply holds: `ok` is required, `$clusterTime` is not.
pub open spec fn command_response_of(fields: Fields) -> Option<CommandResponseView> {
    match (lookup(fields, "ok"@), gossiped_cluster_time(fields)) {
        (Some(ok), Some(cluster_time)) => Some(
            CommandResponseView { ok, cluster_time, body: fields },
        ),
        _ => None,
    }
}

/// The view of a decoded value, where decoding gave one.
pub open spec fn decoded_view<T: View>(r: Result<T, Error>) -> Option<T::V> {
    match r {
        Ok(t) => Some(t@),
        Err(_) => None,
    }
}

/// Whether a decoder's failure is an invalid-response error without labels.
pub open spec fn invalid_if_err<T>(r: Result<T, Error>) -> bool {
    r matches Err(e) ==> e@.kind is InvalidResponse && e@.labels.len() == 0
}

fn gossiped(d: &bson::Document) -> (r: Option<Option<ClusterTime>>)
    ensures
        match r {
            Some(t) => gossiped_cluster_time(doc_view(*d)) == Some(optional_cluster_time(t)),
            None => gossiped_cluster_time(doc_view(*d)) is None,
        },
{
    match doc_get(d, "$clusterTime") {
        None => Some(None),
        Some(b) => match crate::document::bson_as_document(b) {
            Some(inner) => match ClusterTime::from_document(inner) {
                Some(t) => Some(Some(t)),
                None => None,
            },
            None => None,
        },
    }
}

impl CommandResponse {
    /// Reads the envelope of a reply. A reply without `ok`, or with a
    /// malformed `$clusterTime`, is an invalid response.
    pub fn from_document(d: &bson::Document) -> (r: Result<CommandResponse, Error>)
        ensures
            decoded_view(r) == command_response_of(doc_view(*d)),
            invalid_if_err(r),
    {
        match (doc_get(d, "ok"), gossiped(d)) {
            (Some(ok), Some(cluster_time)) => Ok(
                CommandResponse { ok: bson_clone(ok), cluster_time, body: doc_clone(d) },
            ),
            _ => Err(Error::invalid_response("reply lacks a well-formed envelope")),
        }
    }

    /// Whether the command succeeded: `ok` is a number equal to 1.
    pub fn is_success(&self) -> (r: bool)
        ensures
            r == (integer_of(self@.ok) == Some(1int)),
    {
        match get_int(&self.ok) {
            Some(n) => n == 1,
            None => false,
        }
    }

    /// The cluster time that the reply gossips, if any.
    pub fn cluster_time(&self) -> (r: Option<&ClusterTime>)
        ensures
            match r {
                Some(t) => self.cluster_time == Some(*t),
                None => self.cluster_time is None,
            },
    {
        self.cluster_time.as_ref()
    }
}

/// The body of a reply with `ok` other than 1: the error, and the labels
/// attached to it.
#[derive(Debug)]
pub struct CommandErrorBody {
    pub error_labels: Option<Vec<String>>,
    pub command_error: CommandError,
}

pub struct CommandErrorBodyView {
    pub error_labels: Option<Seq<Seq<char>>>,
    pub command_error: CommandErrorView,
}

/// The texts of an optional list of strings, absence kept.
pub open spec fn optional_list(strings: Option<Vec<String>>) -> Option<Seq<Seq<char>>> {
    match strings {
        Some(v) => Some(texts(v@)),
        None => None,
    }
}

impl View for CommandErrorBody {
    type V = CommandErrorBodyView;

    open spec fn view(&self) -> CommandErrorBodyView {
        CommandErrorBodyView {
            error_labels: optional_list(self.error_labels),
            command_error: self.command_error@,
        }
    }
}

/// The text of an optional string, empty where there is none.
pub open spec fn text_or_empty(s: Option<Seq<char>>) -> Seq<char> {
    match s {
        Some(s) => s,
        None => Seq::empty(),
    }
}

/// The error body that a reply holds: `code` and `errmsg` are required,
/// `codeName` defaults to the empty string, `errorLabels` is optional.
pub open spec fn command_error_body_of(fields: Fields) -> Option<CommandErrorBodyView> {
    match (
        i32_at(fields, "code"@),
        optional_text_at(fields, "codeName"@),
        text_at(fields, "errmsg"@),
        optional_texts_at(fields, "errorLabels"@),
    ) {
        (Some(code), Some(code_name), Some(message), Some(error_labels)) => Some(
            CommandErrorBodyView {
                error_labels,
                command_error: CommandErrorView {
                    code,
                    code_name: text_or_empty(code_name),
                    message,
                },
            },
        ),
        _ => None,
    }
}

fn or_empty(s: Option<String>) -> (r: String)
    ensures
        r@ == text_or_empty(optional_text(s)),
{
    match s {
        Some(s) => s,
        None => String::new(),
    }
}

impl CommandErrorBody {
    /// Reads the error body of a reply.
    pub fn from_document(d: &bson::Document) -> (r: Result<CommandErrorBody, Error>)
        ensures
            decoded_view(r) == command_error_body_of(doc_view(*d)),
            invalid_if_err(r),
    {
        match (
            i32_field(d, "code"),
            optional_text_field(d, "codeName"),
            text_field(d, "errmsg"),
            optional_texts_field(d, "errorLabels"),
        ) {
            (Some(code), Some(code_name), Some(message), Some(error_labels)) => Ok(
                CommandErrorBody {
                    error_labels,
                    command_error: CommandError {
                        code,
                        code_name: or_empty(code_name),
                        message: message.to_string(),
                    },
                },
            ),
            _ => Err(Error::invalid_response("reply lacks a well-formed command error")),
        }
    }

    /// The error that the body stands for: a command error with the labels
    /// of the reply.
    pub fn into_error(self) -> (e: Error)
        ensures
            e@.kind == ErrorKindView::Command(self@.command_error),
            e@.labels == distinct(optional_texts(self.error_labels)),
    {
        Error::new(ErrorKind::Command(self.command_error), self.error_labels)
    }
}

/// The write-concern error that an embedded document holds: `code` and
/// `errmsg` are required, `codeName` defaults to the empty string,
/// `errInfo` is optional.
pub open spec fn write_concern_error_of(fields: Fields) -> Option<WriteConcernErrorView> {
    match (
        i32_at(fields, "code"@),
        optional_text_at(fields, "codeName"@),
        text_at(fields, "errmsg"@),
        optional_document_at(fields, "errInfo"@),
    ) {
        (Some(code), Some(code_name), Some(message), Some(details)) => Some(
            WriteConcernErrorView { code, code_name: text_or_empty(code_name), message, details },
        ),
        _ => None,
    }
}

/// Reads a write-concern error; `None` where the document is malformed.
pub fn read_write_concern_error(d: &bson::Document) -> (r: Option<WriteConcernError>)
    ensures
        optional_write_concern_error(r) == write_concern_error_of(doc_view(*d)),
{
    match (
        i32_field(d, "code"),
        optional_text_field(d, "codeName"),
        text_field(d, "errmsg"),
        optional_document_field(d, "errInfo"),
    ) {
        (Some(code), Some(code_name), Some(message), Some(details)) => Some(
            WriteConcernError {
                code,
                code_name: or_empty(code_name),
                message: message.to_string(),
                details,
            },
        ),
        _ => None,
    }
}

/// The write-concern error of a reply: none where `writeConcernError` is
/// absent, the one it holds where it is a well-formed document. The outer
/// `None` says that the field is there and malformed.
pub open spec fn reported_write_concern_error(fields: Fields) -> Option<
    Option<WriteConcernErrorView>,
> {
    match lookup(fields, "writeConcernError"@) {
        None => Some(None),
        Some(Value::Document(d)) => match write_concern_error_of(d) {
            Some(e) => Some(Some(e)),
            None => None,
        },
        Some(_) => None,
    }
}

fn reported(d: &bson::Document) -> (r: Option<Option<WriteConcernError>>)
    ensures
        match r {
            Some(e) => reported_write_concern_error(doc_view(*d)) == Some(
                optional_write_concern_error(e),
            ),
            None => reported_write_concern_error(doc_view(*d)) is None,
        },
{
    match doc_get(d, "writeConcernError") {
        None => Some(None),
        Some(b) => match crate::document::bson_as_document(b) {
            Some(inner) => match read_write_concern_error(inner) {
                Some(e) => Some(Some(e)),
                None => None,
            },
            None => None,
        },
    }
}

/// The part of a write reply that can hold a write-concern error but no
/// per-item errors.
#[derive(Debug)]
pub struct WriteConcernOnlyBody {
    pub write_concern_error: Option<WriteConcernError>,
    pub labels: Option<Vec<String>>,
}

pub struct WriteConcernOnlyBodyView {
    pub write_concern_error: Option<WriteConcernErrorView>,
    pub labels: Option<Seq<Seq<char>>>,
}

impl View for WriteConcernOnlyBody {
    type V = WriteConcernOnlyBodyView;

    open spec fn view(&self) -> WriteConcernOnlyBodyView {
        WriteConcernOnlyBodyView {
            write_concern_error: optional_write_concern_error(self.write_concern_error),
            labels: optional_list(self.labels),
        }
    }
}

/// What a reply holds of a write-concern error and of labels.
pub open spec fn write_concern_only_body_of(fields: Fields) -> Option<WriteConcernOnlyBodyView> {
    match (reported_write_concern_error(fields), optional_texts_at(fields, "errorLabels"@)) {
        (Some(write_concern_error), Some(labels)) => Some(
            WriteConcernOnlyBodyView { write_concern_error, labels },
        ),
        _ => None,
    }
}

/// The labels of an optional list, none where the list is absent.
pub open spec fn labels_of(labels: Option<Seq<Seq<char>>>) -> Seq<Seq<char>> {
    match labels {
        Some(l) => l,
        None => Seq::empty(),
    }
}

fn duplicate_labels(labels: &Option<Vec<String>>) -> (r: Option<Vec<String>>)
    ensures
        optional_list(r) == optional_list(*labels),
        optional_texts(r) == optional_texts(*labels),
{
    match labels {
        Some(l) => Some(duplicate_strings(l)),
        None => None,
    }
}

impl WriteConcernOnlyBody {
    /// Reads the write-concern part of a reply.
    pub fn from_document(d: &bson::Document) -> (r: Result<WriteConcernOnlyBody, Error>)
        ensures
            decoded_view(r) == write_concern_only_body_of(doc_view(*d)),
            invalid_if_err(r),
    {
        match (reported(d), optional_texts_field(d, "errorLabels")) {
            (Some(write_concern_error), Some(labels)) => Ok(
                WriteConcernOnlyBody { write_concern_error, labels },
            ),
            _ => Err(Error::invalid_response("reply holds a malformed write-concern error")),
        }
    }

    /// Passes if the reply holds no write-concern error. Otherwise fails
    /// with one write failure that carries the error and the reply's labels.
    pub fn validate(&self) -> (r: Result<(), Error>)
        ensures
            match r {
                Ok(_) => self@.write_concern_error is None,
                Err(e) => self@.write_concern_error matches Some(error) && e@.kind
                    == ErrorKindView::Write(WriteFailureView::WriteConcernError(error))
                    && e@.labels == distinct(labels_of(self@.labels)),
            },
    {
        match &self.write_concern_error {
            Some(error) => Err(
                Error::new(
                    ErrorKind::Write(WriteFailure::WriteConcernError(error.duplicate())),
                    duplicate_labels(&self.labels),
                ),
            ),
            None => Ok(()),
        }
    }
}

/// The whole number of the field `key`, where it fits a `usize`.
pub open spec fn usize_at(fields: Fields, key: Seq<char>) -> Option<usize> {
    match u64_at(fields, key) {
        Some(n) => if n <= usize::MAX {
            Some(n as usize)
        } else {
            None
        },
        None => None,
    }
}

/// The per-item write error that an embedded document holds: `index`,
/// `code` and `errmsg` are required, `codeName` and `errInfo` are optional.
pub open spec fn bulk_write_error_of(fields: Fields) -> Option<BulkWriteErrorView> {
    match (
        usize_at(fields, "index"@),
        i32_at(fields, "code"@),
        optional_text_at(fields, "codeName"@),
        text_at(fields, "errmsg"@),
        optional_document_at(fields, "errInfo"@),
    ) {
        (Some(index), Some(code), Some(code_name), Some(message), Some(details)) => Some(
            BulkWriteErrorView { index, code, code_name, message, details },
        ),
        _ => None,
    }
}

/// The view of an optional per-item write error.
pub open spec fn optional_bulk_write_error(e: Option<BulkWriteError>) -> Option<
    BulkWriteErrorView,
> {
    match e {
        Some(e) => Some(e@),
        None => None,
    }
}

/// Reads a per-item write error; `None` where the document is malformed.
pub fn read_bulk_write_error(d: &bson::Document) -> (r: Option<BulkWriteError>)
    ensures
        optional_bulk_write_error(r) == bulk_write_error_of(doc_view(*d)),
{
    let index = match u64_field(d, "index") {
        Some(n) => if n <= usize::MAX as u64 {
            Some(n as usize)
        } else {
            None
        },
        None => None,
    };
    match (
        index,
        i32_field(d, "code"),
        optional_text_field(d, "codeName"),
        text_field(d, "errmsg"),
        optional_document_field(d, "errInfo"),
    ) {
        (Some(index), Some(code), Some(code_name), Some(message), Some(details)) => Some(
            BulkWriteError { index, code, code_name, message: message.to_string(), details },
        ),
        _ => None,
    }
}

/// Whether an element is a document that holds a per-item write error.
pub open spec fn is_write_error(v: Value) -> bool {
    v is Document && bulk_write_error_of(v->Document_0) is Some
}

/// The per-item write errors that the elements hold, where each element is
/// a well-formed one.
pub open spec fn all_write_errors(elements: Seq<Value>) -> Option<Seq<BulkWriteErrorView>> {
    if forall|i: int| 0 <= i < elements.len() ==> is_write_error(#[trigger] elements[i]) {
        Some(elements.map_values(|v: Value| bulk_write_error_of(v->Document_0)->Some_0))
    } else {
        None
    }
}

/// Reads a list of per-item write errors; `None` where an element is
/// malformed.
pub fn read_write_errors(elements: &Vec<bson::Bson>) -> (r: Option<Vec<BulkWriteError>>)
    ensures
        optional_write_errors(r) == all_write_errors(values_of(elements@)),
{
    let mut out: Vec<BulkWriteError> = Vec::new();
    let mut i: usize = 0;
    let ghost values = values_of(elements@);
    while i < elements.len()
        invariant
            i <= elements.len(),
            values == values_of(elements@),
            out@.len() == i,
            forall|j: int|
                0 <= j < i ==> is_write_error(#[trigger] values[j]) && bulk_write_error_of(
                    values[j]->Document_0,
                ) == Some(out@[j]@),
        decreases elements.len() - i,
    {
        assert(values[i as int] == bson_view(elements@[i as int]));
        let item = match crate::document::bson_as_document(&elements[i]) {
            Some(d) => read_bulk_write_error(d),
            None => None,
        };
        match item {
            Some(e) => {
                out.push(e);
            },
            None => {
                assert(!is_write_error(values[i as int]));
                return None;
            },
        }
        i += 1;
    }
    assert(values.map_values(|v: Value| bulk_write_error_of(v->Document_0)->Some_0)
        =~= write_errors_view(out@));
    Some(out)
}

/// The per-item write errors of a reply: none where `writeErrors` is
/// absent, those it lists where it is a well-formed array. The outer `None`
/// says that the field is there and malformed.
pub open spec fn reported_write_errors(fields: Fields) -> Option<Option<Seq<BulkWriteErrorView>>> {
    match lookup(fields, "writeErrors"@) {
        None => Some(None),
        Some(Value::Array(a)) => match all_write_errors(a) {
            Some(errors) => Some(Some(errors)),
            None => None,
        },
        Some(_) => None,
    }
}

fn listed(d: &bson::Document) -> (r: Option<Option<Vec<BulkWriteError>>>)
    ensures
        match r {
            Some(e) => reported_write_errors(doc_view(*d)) == Some(optional_write_errors(e)),
            None => reported_write_errors(doc_view(*d)) is None,
        },
{
    match doc_get(d, "writeErrors") {
        None => Some(None),
        Some(b) => match crate::document::bson_as_array(b) {
            Some(elements) => match read_write_errors(elements) {
                Some(e) => Some(Some(e)),
                None => None,
            },
            None => None,
        },
    }
}

/// The body of a reply to a write: the count of affected items, the
/// per-item errors if any, the write-concern error if any, the labels if
/// any, and the rest of the reply.
#[derive(Debug)]
pub struct WriteResponseBody {
    pub body: bson::Document,
    pub n: u64,
    pub write_errors: Option<Vec<BulkWriteError>>,
    pub write_concern_error: Option<WriteConcernError>,
    pub labels: Option<Vec<String>>,
}

pub struct WriteResponseBodyView {
    pub body: Fields,
    pub n: u64,
    pub write_errors: Option<Seq<BulkWriteErrorView>>,
    pub write_concern_error: Option<WriteConcernErrorView>,
    pub labels: Option<Seq<Seq<char>>>,
}

impl View for WriteResponseBody {
    type V = WriteResponseBodyView;

    open spec fn view(&self) -> WriteResponseBodyView {
        WriteResponseBodyView {
            body: doc_view(self.body),
            n: self.n,
            write_errors: optional_write_errors(self.write_errors),
            write_concern_error: optional_write_concern_error(self.write_concern_error),
            labels: optional_list(self.labels),
        }
    }
}

/// The write body that a reply holds: `n` is required, the rest is not.
pub open spec fn write_response_body_of(fields: Fields) -> Option<WriteResponseBodyView> {
    match (
        u64_at(fields, "n"@),
        reported_write_errors(fields),
        reported_write_concern_error(fields),
        optional_texts_at(fields, "errorLabels"@),
    ) {
        (Some(n), Some(write_errors), Some(write_concern_error), Some(labels)) => Some(
            WriteResponseBodyView { body: fields, n, write_errors, write_concern_error, labels },
        ),
        _ => None,
    }
}

impl WriteResponseBody {
    /// Whether the reply reports a failure: it lists at least one per-item
    /// error, or it holds a write-concern error. A list that is there and
    /// holds nothing reports none.
    pub open spec fn fails(&self) -> bool {
        (self@.write_errors matches Some(errors) && errors.len() > 0)
            || self@.write_concern_error is Some
    }

    /// The one failure that stands for all that the reply reports: the
    /// per-item errors, if any, together with the write-concern error, if
    /// any. The reply itself tells of no inserted ids.
    pub open spec fn failure(&self) -> ErrorKindView {
        ErrorKindView::BulkWrite(
            BulkWriteFailureView {
                write_errors: self@.write_errors,
                write_concern_error: self@.write_concern_error,
                inserted_ids: Map::empty(),
            },
        )
    }

    /// Reads the body of a reply to a write.
    pub fn from_document(d: &bson::Document) -> (r: Result<WriteResponseBody, Error>)
        ensures
            decoded_view(r) == write_response_body_of(doc_view(*d)),
            invalid_if_err(r),
    {
        match (u64_field(d, "n"), listed(d), reported(d), optional_texts_field(d, "errorLabels")) {
            (Some(n), Some(write_errors), Some(write_concern_error), Some(labels)) => Ok(
                WriteResponseBody {
                    body: doc_clone(d),
                    n,
                    write_errors,
                    write_concern_error,
                    labels,
                },
            ),
            _ => Err(Error::invalid_response("reply lacks a well-formed write result")),
        }
    }

    /// Passes if the reply lists no per-item error and holds no
    /// write-concern error. Otherwise fails with one bulk-write failure
    /// that carries whichever of the two the reply holds, and the reply's
    /// labels.
    pub fn validate(&self) -> (r: Result<(), Error>)
        ensures
            match r {
                Ok(_) => !self.fails(),
                Err(e) => self.fails() && e@.kind == self.failure() && e@.labels == distinct(
                    labels_of(self@.labels),
                ),
            },
    {
        let lists_errors = match &self.write_errors {
            Some(errors) => errors.len() > 0,
            None => false,
        };
        if !lists_errors && self.write_concern_error.is_none() {
            return Ok(());
        }
        let inserted_ids: HashMap<usize, bson::Bson> = HashMap::new();
        assert(ids_view(inserted_ids@) =~= Map::<usize, Value>::empty());
        let failure = BulkWriteFailure {
            write_errors: match &self.write_errors {
                Some(errors) => Some(duplicate_write_errors(errors)),
                None => None,
            },
            write_concern_error: match &self.write_concern_error {
                Some(error) => Some(error.duplicate()),
                None => None,
            },
            inserted_ids,
        };
        Err(Error::new(ErrorKind::BulkWrite(failure), duplicate_labels(&self.labels)))
    }

    /// The rest of the reply.
    pub fn body(&self) -> (r: &bson::Document)
        ensures
            *r == self.body,
    {
        &self.body
    }
}

/// What a reply tells of a cursor: its id (zero for a cursor that is
/// already exhausted), its namespace, its first batch, and the resume token
/// that follows the batch, if any.
#[derive(Debug)]
pub struct CursorInfo {
    pub id: i64,
    pub ns: Namespace,
    pub first_batch: VecDeque<bson::Document>,
    pub post_batch_resume_token: Option<bson::Document>,
}

pub struct CursorInfoView {
    pub id: i64,
    pub db: Seq<char>,
    pub coll: Seq<char>,
    pub first_batch: Seq<Fields>,
    pub post_batch_resume_token: Option<Fields>,
}

impl View for CursorInfo {
    type V = CursorInfoView;

    open spec fn view(&self) -> CursorInfoView {
        CursorInfoView {
            id: self.id,
            db: self.ns.db@,
            coll: self.ns.coll@,
            first_batch: fields_of(self.first_batch@),
            post_batch_resume_token: optional_fields(self.post_batch_resume_token),
        }
    }
}

/// The namespace of the string field `key`, where the field holds one.
pub open spec fn namespace_at(fields: Fields, key: Seq<char>) -> Option<(Seq<char>, Seq<char>)> {
    match text_at(fields, key) {
        Some(text) => crate::namespace::namespace_of(text),
        None => None,
    }
}

/// The documents of the array field `key`, where the field lists documents.
pub open spec fn documents_at(fields: Fields, key: Seq<char>) -> Option<Seq<Fields>> {
    match array_at(fields, key) {
        Some(elements) => all_documents(elements),
        None => None,
    }
}

/// The cursor that a `cursor` document holds: `id`, `ns` and `firstBatch`
/// are required, `postBatchResumeToken` is not.
pub open spec fn cursor_info_of(fields: Fields) -> Option<CursorInfoView> {
    match (
        i64_at(fields, "id"@),
        namespace_at(fields, "ns"@),
        documents_at(fields, "firstBatch"@),
        optional_document_at(fields, "postBatchResumeToken"@),
    ) {
        (Some(id), Some(names), Some(first_batch), Some(post_batch_resume_token)) => Some(
            CursorInfoView {
                id,
                db: names.0,
                coll: names.1,
                first_batch,
                post_batch_resume_token,
            },
        ),
        _ => None,
    }
}

/// The view of an optional cursor.
pub open spec fn optional_cursor_info(c: Option<CursorInfo>) -> Option<CursorInfoView> {
    match c {
        Some(c) => Some(c@),
        None => None,
    }
}

/// Copies of the documents that the elements are, queued in their order,
/// where every element is a document.
pub fn batch_in(elements: &Vec<bson::Bson>) -> (r: Option<VecDeque<bson::Document>>)
    ensures
        match r {
            Some(docs) => all_documents(values_of(elements@)) == Some(fields_of(docs@)),
            None => all_documents(values_of(elements@)) is None,
        },
{
    let mut out: VecDeque<bson::Document> = VecDeque::new();
    let mut i: usize = 0;
    let ghost values = values_of(elements@);
    while i < elements.len()
        invariant
            i <= elements.len(),
            values == values_of(elements@),
            out@.len() == i,
            forall|j: int| 0 <= j < i ==> (#[trigger] values[j]) == Value::Document(doc_view(out@[j])),
        decreases elements.len() - i,
    {
        assert(values[i as int] == bson_view(elements@[i as int]));
        match crate::document::bson_as_document(&elements[i]) {
            Some(d) => {
                out.push_back(doc_clone(d));
            },
            None => {
                assert(!(values[i as int] is Document));
                return None;
            },
        }
        i += 1;
    }
    assert(values.map_values(|v: Value| v->Document_0) =~= fields_of(out@));
    Some(out)
}

impl CursorInfo {
    /// Reads a `cursor` document; `None` where it is malformed.
    pub fn from_document(d: &bson::Document) -> (r: Option<CursorInfo>)
        ensures
            optional_cursor_info(r) == cursor_info_of(doc_view(*d)),
    {
        let ns = match text_field(d, "ns") {
            Some(text) => Namespace::parse(text),
            None => None,
        };
        let first_batch = match array_field(d, "firstBatch") {
            Some(elements) => batch_in(elements),
            None => None,
        };
        match (
            int_field(d, "id"),
            ns,
            first_batch,
            optional_document_field(d, "postBatchResumeToken"),
        ) {
            (Some(id), Some(ns), Some(first_batch), Some(post_batch_resume_token)) => Some(
                CursorInfo { id, ns, first_batch, post_batch_resume_token },
            ),
            _ => None,
        }
    }
}

/// The body of a reply that opens a cursor.
#[derive(Debug)]
pub struct CursorBody {
    pub cursor: CursorInfo,
    pub write_concern_info: WriteConcernOnlyBody,
}

pub struct CursorBodyView {
    pub cursor: CursorInfoView,
    pub write_concern_info: WriteConcernOnlyBodyView,
}

impl View for CursorBody {
    type V = CursorBodyView;

    open spec fn view(&self) -> CursorBodyView {
        CursorBodyView { cursor: self.cursor@, write_concern_info: self.write_concern_info@ }
    }
}

/// The cursor of the field `cursor`, where the field is a well-formed
/// cursor document.
pub open spec fn cursor_at(fields: Fields) -> Option<CursorInfoView> {
    match document_at(fields, "cursor"@) {
        Some(c) => cursor_info_of(c),
        None => None,
    }
}

/// The cursor body that a reply holds: `cursor` is required.
pub open spec fn cursor_body_of(fields: Fields) -> Option<CursorBodyView> {
    match (cursor_at(fields), write_concern_only_body_of(fields)) {
        (Some(cursor), Some(write_concern_info)) => Some(
            CursorBodyView { cursor, write_concern_info },
        ),
        _ => None,
    }
}

/// The read timestamp that a cursor reply tells: the timestamp under
/// `atClusterTime` of the document under `cursor`.
pub open spec fn at_cluster_time(fields: Fields) -> Option<Timestamp> {
    match document_at(fields, "cursor"@) {
        Some(c) => match timestamp_at(c, "atClusterTime"@) {
            Some(t) => Some(Timestamp { time: t.0, increment: t.1 }),
            None => None,
        },
        None => None,
    }
}

impl CursorBody {
    /// Reads the body of a reply that opens a cursor.
    pub fn from_document(d: &bson::Document) -> (r: Result<CursorBody, Error>)
        ensures
            decoded_view(r) == cursor_body_of(doc_view(*d)),
            invalid_if_err(r),
    {
        let cursor = match document_field(d, "cursor") {
            Some(c) => CursorInfo::from_document(c),
            None => None,
        };
        match (cursor, WriteConcernOnlyBody::from_document(d)) {
            (Some(cursor), Ok(write_concern_info)) => Ok(CursorBody { cursor, write_concern_info }),
            _ => Err(Error::invalid_response("reply lacks a well-formed cursor")),
        }
    }

    /// The read timestamp that a cursor reply tells, if it tells one.
    pub fn extract_at_cluster_time(response: &bson::Document) -> (r: Result<
        Option<Timestamp>,
        Error,
    >)
        ensures
            r == Ok::<Option<Timestamp>, Error>(at_cluster_time(doc_view(*response))),
    {
        Ok(
            match document_field(response, "cursor") {
                Some(c) => match timestamp_field(c, "atClusterTime") {
                    Some(t) => Some(Timestamp { time: t.0, increment: t.1 }),
                    None => None,
                },
                None => None,
            },
        )
    }
}

/// What the envelope of a reply says of the command.
pub enum ReplyVerdict {
    /// The command succeeded: `ok` is 1.
    Succeeded,
    /// The command failed, and the reply says how.
    Failed(CommandErrorBodyView),
    /// The reply has no well-formed envelope, or says that the command
    /// failed without saying how.
    Malformed,
}

/// What the envelope of a reply says of the command.
pub open spec fn verdict_of(reply: Fields) -> ReplyVerdict {
    match command_response_of(reply) {
        Some(envelope) => if integer_of(envelope.ok) == Some(1int) {
            ReplyVerdict::Succeeded
        } else {
            match command_error_body_of(reply) {
                Some(body) => ReplyVerdict::Failed(body),
                None => ReplyVerdict::Malformed,
            }
        },
        None => ReplyVerdict::Malformed,
    }
}

/// Tells a reply that reports success from one that reports a failure.
///
/// A reply with `ok` equal to 1 passes; what its body holds is for the
/// operation to read. A reply with any other `ok` is the command error
/// that it describes, with its labels. A reply without a well-formed
/// envelope, or one that fails without a well-formed error, is an invalid
/// response.
pub fn check_envelope(reply: &bson::Document) -> (r: Result<(), Error>)
    ensures
        match verdict_of(doc_view(*reply)) {
            ReplyVerdict::Succeeded => r is Ok,
            ReplyVerdict::Failed(body) => r matches Err(e) && e@.kind == ErrorKindView::Command(
                body.command_error,
            ) && e@.labels == distinct(labels_of(body.error_labels)),
            ReplyVerdict::Malformed => r matches Err(e) && e@.kind is InvalidResponse
                && e@.labels.len() == 0,
        },
{
    match CommandResponse::from_document(reply) {
        Ok(envelope) => {
            if envelope.is_success() {
                Ok(())
            } else {
                match CommandErrorBody::from_document(reply) {
                    Ok(body) => Err(body.into_error()),
                    Err(e) => Err(e),
                }
            }
        },
        Err(e) => Err(e),
    }
}

/// A reply without a `cursor` field holds no cursor body, whatever else
/// it holds; so does a reply whose `cursor` lacks its id.
pub proof fn lemma_cursor_required(reply: Fields)
    ensures
        lookup(reply, "cursor"@) is None ==> cursor_body_of(reply) is None,
        document_at(reply, "cursor"@) matches Some(c) && lookup(c, "id"@) is None
            ==> cursor_body_of(reply) is None,
{
}

/// A reply without an `n` field holds no write body, and one without
/// `ok` has no envelope.
pub proof fn lemma_required_fields(reply: Fields)
    ensures
        lookup(reply, "n"@) is None ==> write_response_body_of(reply) is None,
        lookup(reply, "ok"@) is None ==> command_response_of(reply) is None && verdict_of(reply)
            is Malformed,
{
}

} // verus!
