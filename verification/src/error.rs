//! Errors that operations report, and the labels that the server attaches
//! to them.

use vstd::prelude::*;
use std::collections::HashMap;
use crate::document::{bson_view, doc_clone, doc_view, Fields, Value};
use crate::text::str_eq;

verus! {

/// A failure that the server reported for a whole command.
#[derive(Debug)]
pub struct CommandError {
    pub code: i32,
    pub code_name: String,
    pub message: String,
}

pub struct CommandErrorView {
    pub code: i32,
    pub code_name: Seq<char>,
    pub message: Seq<char>,
}

impl View for CommandError {
    type V = CommandErrorView;

    open spec fn view(&self) -> CommandErrorView {
        CommandErrorView { code: self.code, code_name: self.code_name@, message: self.message@ }
    }
}

/// A failure to satisfy the write concern of an otherwise applied write.
#[derive(Debug)]
pub struct WriteConcernError {
    pub code: i32,
    pub code_name: String,
    pub message: String,
    pub details: Option<bson::Document>,
}

pub struct WriteConcernErrorView {
    pub code: i32,
    pub code_name: Seq<char>,
    pub message: Seq<char>,
    pub details: Option<Fields>,
}

/// The fields of an optional document.
pub open spec fn optional_fields(d: Option<bson::Document>) -> Option<Fields> {
    match d {
        Some(d) => Some(doc_view(d)),
        None => None,
    }
}

/// The characters of an optional string.
pub open spec fn optional_text(s: Option<String>) -> Option<Seq<char>> {
    match s {
        Some(s) => Some(s@),
        None => None,
    }
}

impl View for WriteConcernError {
    type V = WriteConcernErrorView;

    open spec fn view(&self) -> WriteConcernErrorView {
        WriteConcernErrorView {
            code: self.code,
            code_name: self.code_name@,
            message: self.message@,
            details: optional_fields(self.details),
        }
    }
}

/// A failure of one item of a write that carried several.
#[derive(Debug)]
pub struct BulkWriteError {
    /// Position of the failed item in the request.
    pub index: usize,
    pub code: i32,
    pub code_name: Option<String>,
    pub message: String,
    pub details: Option<bson::Document>,
}

pub struct BulkWriteErrorView {
    pub index: usize,
    pub code: i32,
    pub code_name: Option<Seq<char>>,
    pub message: Seq<char>,
    pub details: Option<Fields>,
}

impl View for BulkWriteError {
    type V = BulkWriteErrorView;

    open spec fn view(&self) -> BulkWriteErrorView {
        BulkWriteErrorView {
            index: self.index,
            code: self.code,
            code_name: optional_text(self.code_name),
            message: self.message@,
            details: optional_fields(self.details),
        }
    }
}

/// The views of a list of per-item write errors.
pub open spec fn write_errors_view(errors: Seq<BulkWriteError>) -> Seq<BulkWriteErrorView> {
    errors.map_values(|e: BulkWriteError| e@)
}

/// Everything that went wrong in one write command: the per-item errors, if
/// any, and the write-concern error, if any.
#[derive(Debug)]
pub struct BulkWriteFailure {
    pub write_errors: Option<Vec<BulkWriteError>>,
    pub write_concern_error: Option<WriteConcernError>,
    /// The ids of the documents that were inserted all the same, each
    /// under its position in the request.
    pub inserted_ids: HashMap<usize, bson::Bson>,
}

pub struct BulkWriteFailureView {
    pub write_errors: Option<Seq<BulkWriteErrorView>>,
    pub write_concern_error: Option<WriteConcernErrorView>,
    pub inserted_ids: Map<usize, Value>,
}

/// The values of the ids of inserted documents, each under its position.
pub open spec fn ids_view(ids: Map<usize, bson::Bson>) -> Map<usize, Value> {
    ids.map_values(|b: bson::Bson| bson_view(b))
}

/// The view of an optional list of per-item write errors.
pub open spec fn optional_write_errors(errors: Option<Vec<BulkWriteError>>) -> Option<
    Seq<BulkWriteErrorView>,
> {
    match errors {
        Some(errors) => Some(write_errors_view(errors@)),
        None => None,
    }
}

/// The view of an optional write-concern error.
pub open spec fn optional_write_concern_error(error: Option<WriteConcernError>) -> Option<
    WriteConcernErrorView,
> {
    match error {
        Some(error) => Some(error@),
        None => None,
    }
}

impl View for BulkWriteFailure {
    type V = BulkWriteFailureView;

    open spec fn view(&self) -> BulkWriteFailureView {
        BulkWriteFailureView {
            write_errors: optional_write_errors(self.write_errors),
            write_concern_error: optional_write_concern_error(self.write_concern_error),
            inserted_ids: ids_view(self.inserted_ids@),
        }
    }
}

/// What went wrong in a write that carried a single item.
#[derive(Debug)]
pub enum WriteFailure {
    WriteConcernError(WriteConcernError),
    WriteError(BulkWriteError),
}

pub enum WriteFailureView {
    WriteConcernError(WriteConcernErrorView),
    WriteError(BulkWriteErrorView),
}

impl View for WriteFailure {
    type V = WriteFailureView;

    open spec fn view(&self) -> WriteFailureView {
        match self {
            WriteFailure::WriteConcernError(e) => WriteFailureView::WriteConcernError(e@),
            WriteFailure::WriteError(e) => WriteFailureView::WriteError(e@),
        }
    }
}

/// The kinds of failure.
#[derive(Debug)]
pub enum ErrorKind {
    /// The caller asked for something that cannot be sent.
    InvalidArgument { message: String },
    /// The server answered a command with `ok` other than 1.
    Command(CommandError),
    /// A single write failed inside an otherwise successful reply.
    Write(WriteFailure),
    /// A write of several items failed, wholly or in part.
    BulkWrite(BulkWriteFailure),
    /// A reply lacked a required field or held it in the wrong shape.
    InvalidResponse { message: String },
    /// A local invariant was violated.
    Internal { message: String },
    /// The transport failed before a reply came.
    Io { message: String },
    /// The command could not be encoded.
    BsonSerialization { message: String },
}

pub enum ErrorKindView {
    InvalidArgument { message: Seq<char> },
    Command(CommandErrorView),
    Write(WriteFailureView),
    BulkWrite(BulkWriteFailureView),
    InvalidResponse { message: Seq<char> },
    Internal { message: Seq<char> },
    Io { message: Seq<char> },
    BsonSerialization { message: Seq<char> },
}

impl View for ErrorKind {
    type V = ErrorKindView;

    open spec fn view(&self) -> ErrorKindView {
        match self {
            ErrorKind::InvalidArgument { message } => ErrorKindView::InvalidArgument {
                message: message@,
            },
            ErrorKind::Command(e) => ErrorKindView::Command(e@),
            ErrorKind::Write(e) => ErrorKindView::Write(e@),
            ErrorKind::BulkWrite(e) => ErrorKindView::BulkWrite(e@),
            ErrorKind::InvalidResponse { message } => ErrorKindView::InvalidResponse {
                message: message@,
            },
            ErrorKind::Internal { message } => ErrorKindView::Internal { message: message@ },
            ErrorKind::Io { message } => ErrorKindView::Io { message: message@ },
            ErrorKind::BsonSerialization { message } => ErrorKindView::BsonSerialization {
                message: message@,
            },
        }
    }
}

/// The texts of a list of strings.
pub open spec fn texts(strings: Seq<String>) -> Seq<Seq<char>> {
    strings.map_values(|s: String| s@)
}

/// The texts of an optional list of strings; an absent list holds none.
pub open spec fn optional_texts(strings: Option<Vec<String>>) -> Seq<Seq<char>> {
    match strings {
        Some(strings) => texts(strings@),
        None => Seq::empty(),
    }
}

/// `labels` without repetitions: of equal labels the first stays, and the
/// order of what stays is kept.
pub open spec fn distinct(labels: Seq<Seq<char>>) -> Seq<Seq<char>>
    decreases labels.len(),
{
    if labels.len() == 0 {
        labels
    } else {
        let before = distinct(labels.drop_last());
        if before.contains(labels.last()) {
            before
        } else {
            before.push(labels.last())
        }
    }
}

/// A failure together with the labels that the server attached to it.
///
/// The labels are kept as the server sent them and are never interpreted
/// here; no label occurs twice.
#[derive(Debug)]
pub struct Error {
    kind: ErrorKind,
    labels: Vec<String>,
}

pub struct ErrorView {
    pub kind: ErrorKindView,
    pub labels: Seq<Seq<char>>,
}

impl View for Error {
    type V = ErrorView;

    closed spec fn view(&self) -> ErrorView {
        ErrorView { kind: self.kind@, labels: texts(self.labels@) }
    }
}

/// Whether `labels` holds `label`.
fn holds_label(labels: &Vec<String>, label: &str) -> (r: bool)
    ensures
        r == texts(labels@).contains(label@),
{
    let mut i: usize = 0;
    while i < labels.len()
        invariant
            i <= labels.len(),
            forall|j: int| 0 <= j < i ==> texts(labels@)[j] != label@,
        decreases labels.len() - i,
    {
        if str_eq(labels[i].as_str(), label) {
            assert(texts(labels@)[i as int] == label@);
            return true;
        }
        i += 1;
    }
    false
}

/// A copy of `labels` without repetitions.
fn distinct_labels(labels: &Vec<String>) -> (r: Vec<String>)
    ensures
        texts(r@) == distinct(texts(labels@)),
{
    let mut out: Vec<String> = Vec::new();
    let mut i: usize = 0;
    assert(texts(labels@).subrange(0, 0) =~= Seq::<Seq<char>>::empty());
    assert(texts(out@) =~= Seq::<Seq<char>>::empty());
    while i < labels.len()
        invariant
            i <= labels.len(),
            texts(out@) == distinct(texts(labels@).subrange(0, i as int)),
        decreases labels.len() - i,
    {
        let ghost upto = texts(labels@).subrange(0, i + 1);
        assert(upto.drop_last() =~= texts(labels@).subrange(0, i as int));
        assert(upto.last() == labels@[i as int]@);
        if !holds_label(&out, labels[i].as_str()) {
            let ghost before = texts(out@);
            out.push(labels[i].clone());
            assert(texts(out@) =~= before.push(labels@[i as int]@));
        }
        i += 1;
    }
    assert(texts(labels@).subrange(0, labels.len() as int) =~= texts(labels@));
    out
}

/// What `distinct` keeps holds no label twice, and holds exactly the labels
/// that it was given.
pub proof fn lemma_distinct(labels: Seq<Seq<char>>)
    ensures
        distinct(labels).no_duplicates(),
        forall|l: Seq<char>| distinct(labels).contains(l) <==> labels.contains(l),
    decreases labels.len(),
{
    if labels.len() > 0 {
        let front = labels.drop_last();
        let before = distinct(front);
        lemma_distinct(front);
        assert forall|l: Seq<char>| distinct(labels).contains(l) <==> labels.contains(l) by {
            if labels.contains(l) {
                let i = choose|i: int| 0 <= i < labels.len() && labels[i] == l;
                if i < front.len() {
                    assert(front[i] == l);
                    assert(front.contains(l));
                    assert(before.contains(l));
                    let j = choose|j: int| 0 <= j < before.len() && before[j] == l;
                    assert(distinct(labels)[j] == l);
                } else {
                    if !before.contains(l) {
                        assert(distinct(labels)[before.len() as int] == l);
                    }
                }
            }
            if distinct(labels).contains(l) {
                let j = choose|j: int| 0 <= j < distinct(labels).len() && distinct(labels)[j] == l;
                if j < before.len() {
                    assert(before[j] == l);
                    assert(before.contains(l));
                    assert(front.contains(l));
                    let i = choose|i: int| 0 <= i < front.len() && front[i] == l;
                    assert(labels[i] == l);
                } else {
                    assert(labels[labels.len() - 1] == l);
                }
            }
        }
    }
}

impl Error {
    #[verifier::type_invariant]
    spec fn labels_are_distinct(self) -> bool {
        texts(self.labels@).no_duplicates()
    }

    /// A failure of the given kind with the given labels, each label once.
    pub fn new(kind: ErrorKind, labels: Option<Vec<String>>) -> (e: Error)
        ensures
            e@.kind == kind@,
            e@.labels == distinct(optional_texts(labels)),
    {
        let labels = match labels {
            Some(labels) => {
                proof {
                    lemma_distinct(texts(labels@));
                }
                distinct_labels(&labels)
            },
            None => {
                let none: Vec<String> = Vec::new();
                assert(texts(none@) =~= Seq::<Seq<char>>::empty());
                none
            },
        };
        Error { kind, labels }
    }

    /// What kind of failure this is.
    pub fn kind(&self) -> (r: &ErrorKind)
        ensures
            r@ == self@.kind,
    {
        &self.kind
    }

    /// The kind of failure, taken out of the error.
    pub fn into_kind(self) -> (r: ErrorKind)
        ensures
            r@ == self@.kind,
    {
        self.kind
    }

    /// A failure that the caller's request itself is invalid.
    pub fn invalid_argument(message: &str) -> (e: Error)
        ensures
            e@.kind == (ErrorKindView::InvalidArgument { message: message@ }),
            e@.labels.len() == 0,
    {
        Error::new(ErrorKind::InvalidArgument { message: message.to_string() }, None)
    }

    /// A failure to find what a reply must hold.
    pub fn invalid_response(message: &str) -> (e: Error)
        ensures
            e@.kind == (ErrorKindView::InvalidResponse { message: message@ }),
            e@.labels.len() == 0,
    {
        Error::new(ErrorKind::InvalidResponse { message: message.to_string() }, None)
    }

    /// A failure of a local invariant.
    pub fn internal(message: &str) -> (e: Error)
        ensures
            e@.kind == (ErrorKindView::Internal { message: message@ }),
            e@.labels.len() == 0,
    {
        Error::new(ErrorKind::Internal { message: message.to_string() }, None)
    }

    /// The labels attached to this failure, in the order in which they came.
    pub fn labels(&self) -> (r: &Vec<String>)
        ensures
            texts(r@) == self@.labels,
            texts(r@).no_duplicates(),
    {
        proof {
            use_type_invariant(self);
        }
        &self.labels
    }

    /// Whether the failure carries `label`.
    pub fn contains_label(&self, label: &str) -> (r: bool)
        ensures
            r == self@.labels.contains(label@),
    {
        holds_label(&self.labels, label)
    }

    /// Whether the server reported that the namespace does not exist
    /// (command error 26).
    pub fn is_ns_not_found(&self) -> (r: bool)
        ensures
            r == (self@.kind matches ErrorKindView::Command(e) && e.code == 26),
    {
        match &self.kind {
            ErrorKind::Command(e) => e.code == 26,
            _ => false,
        }
    }
}

impl WriteConcernError {
    /// A copy of this error.
    pub fn duplicate(&self) -> (r: WriteConcernError)
        ensures
            r@ == self@,
    {
        WriteConcernError {
            code: self.code,
            code_name: self.code_name.clone(),
            message: self.message.clone(),
            details: match &self.details {
                Some(d) => Some(doc_clone(d)),
                None => None,
            },
        }
    }
}

impl BulkWriteError {
    /// A copy of this error.
    pub fn duplicate(&self) -> (r: BulkWriteError)
        ensures
            r@ == self@,
    {
        BulkWriteError {
            index: self.index,
            code: self.code,
            code_name: match &self.code_name {
                Some(name) => Some(name.clone()),
                None => None,
            },
            message: self.message.clone(),
            details: match &self.details {
                Some(d) => Some(doc_clone(d)),
                None => None,
            },
        }
    }
}

/// A copy of a list of per-item write errors.
pub fn duplicate_write_errors(errors: &Vec<BulkWriteError>) -> (r: Vec<BulkWriteError>)
    ensures
        write_errors_view(r@) == write_errors_view(errors@),
{
    let mut out: Vec<BulkWriteError> = Vec::new();
    let mut i: usize = 0;
    while i < errors.len()
        invariant
            i <= errors.len(),
            out@.len() == i,
            forall|j: int| 0 <= j < i ==> (#[trigger] out@[j])@ == errors@[j]@,
        decreases errors.len() - i,
    {
        out.push(errors[i].duplicate());
        i += 1;
    }
    assert(write_errors_view(out@) =~= write_errors_view(errors@));
    out
}

/// A copy of a list of strings.
pub fn duplicate_strings(strings: &Vec<String>) -> (r: Vec<String>)
    ensures
        texts(r@) == texts(strings@),
{
    let mut out: Vec<String> = Vec::new();
    let mut i: usize = 0;
    while i < strings.len()
        invariant
            i <= strings.len(),
            out@.len() == i,
            forall|j: int| 0 <= j < i ==> (#[trigger] out@[j])@ == strings@[j]@,
        decreases strings.len() - i,
    {
        out.push(strings[i].clone());
        i += 1;
    }
    assert(texts(out@) =~= texts(strings@));
    out
}

} // verus!
