//! Operations: how a request becomes a command and a reply becomes a result.
//!
//! Every kind of request implements [`Operation`]. It must say how its
//! command is built and how its reply is read; every other hook has a
//! default that an operation overrides only where it differs.

pub mod aggregate;
pub mod count;
pub mod create;
pub mod drop_database;
pub mod list_collections;
pub mod response;
pub mod run_command;

use vstd::prelude::*;
use crate::command::Command;
use crate::concern::WriteConcern;
use crate::document::{
    bson_as_document, bson_document, bson_view, doc_clone, doc_extend, doc_insert, doc_view,
    encoded, merged, upsert, Fields, Value,
};
use crate::operation::response::{
    labels_of, write_concern_only_body_of, WriteConcernOnlyBody, WriteConcernOnlyBodyView,
};
use crate::error::{distinct, WriteFailureView};
use crate::error::{Error, ErrorKindView};
use crate::operation::response::{RawCommandResponse, Timestamp};
use crate::selection_criteria::SelectionCriteria;
use crate::stream_description::StreamDescription;

verus! {

/// Whether, and as what, a failed attempt of an operation may be sent
/// again. The loop that retries is not in this crate; it reads this tag.
#[derive(Clone, Copy, Debug, PartialEq, Eq, Structural)]
pub enum Retryability {
    /// Retried once, if the failure is labelled retryable and the session
    /// can identify the retry.
    Write,
    /// Retried once, if the failure and the topology permit.
    Read,
    /// Never retried.
    Never,
}

/// The connection that a transaction is bound to.
#[derive(Clone, Copy, Debug, PartialEq, Eq, Structural)]
pub struct PinnedConnectionHandle {
    pub id: u32,
}

/// The fields of `doc` after options in their wire form are appended: the
/// fields of the options document are merged in, and options in any other
/// form leave `doc` as it is.
pub open spec fn with_options(doc: crate::document::Fields, options: Option<Value>)
    -> crate::document::Fields {
    match options {
        Some(Value::Document(fields)) => merged(doc, fields),
        _ => doc,
    }
}

/// Appends options in their wire form to a command body. The wire form of
/// options must be a document; for any other element the body is left
/// alone and an internal error says so.
pub fn append_options(doc: &mut bson::Document, options: Option<&bson::Bson>) -> (r: Result<
    (),
    Error,
>)
    ensures
        doc_view(*final(doc)) == with_options(
            doc_view(*old(doc)),
            match options {
                Some(b) => Some(bson_view(*b)),
                None => None,
            },
        ),
        match r {
            Ok(_) => options matches Some(b) ==> bson_view(*b) is Document,
            Err(e) => options matches Some(b) && !(bson_view(*b) is Document) && e@.kind
                == (ErrorKindView::Internal {
                message: "options did not serialize to a Document"@,
            }) && e@.labels.len() == 0,
        },
{
    match options {
        Some(b) => match bson_as_document(b) {
            Some(d) => {
                doc_extend(doc, doc_clone(d));
                Ok(())
            },
            None => Err(Error::internal("options did not serialize to a Document")),
        },
        None => Ok(()),
    }
}

/// The fields after a write concern is set under `writeConcern`, where
/// there is one. `None` where a part of the concern is out of the range of
/// the wire.
pub open spec fn with_write_concern(base: Fields, concern: Option<WriteConcern>) -> Option<Fields> {
    match concern {
        Some(w) => match w.fields() {
            Some(f) => Some(upsert(base, "writeConcern"@, Value::Document(f))),
            None => None,
        },
        None => Some(base),
    }
}

/// Sets the write concern, where there is one, under `writeConcern`; an
/// argument error, and no change, where a part of the concern is out of
/// the range of the wire.
pub fn add_write_concern(doc: &mut bson::Document, concern: Option<&WriteConcern>) -> (r: Result<
    (),
    Error,
>)
    ensures
        match r {
            Ok(_) => with_write_concern(
                doc_view(*old(doc)),
                match concern {
                    Some(w) => Some(*w),
                    None => None,
                },
            ) == Some(doc_view(*final(doc))),
            Err(e) => with_write_concern(
                doc_view(*old(doc)),
                match concern {
                    Some(w) => Some(*w),
                    None => None,
                },
            ) is None && e@.kind is InvalidArgument && *final(doc) == *old(doc),
        },
{
    match concern {
        Some(w) => match w.to_document() {
            Ok(d) => {
                doc_insert(doc, "writeConcern", bson_document(d));
                Ok(())
            },
            Err(e) => Err(e),
        },
        None => Ok(()),
    }
}

/// Whether `r` is what checking a write-concern body comes to: success
/// where the body holds no write-concern error, and else one write failure
/// that carries the error and the labels of the reply.
pub open spec fn checked(body: WriteConcernOnlyBodyView, r: Result<(), Error>) -> bool {
    match body.write_concern_error {
        None => r is Ok,
        Some(error) => r matches Err(e) && e@.kind == ErrorKindView::Write(
            WriteFailureView::WriteConcernError(error),
        ) && e@.labels == distinct(labels_of(body.labels)),
    }
}

/// Whether `r` is what a reply to a command that only acknowledges comes
/// to: an invalid response where the reply is malformed, and else what
/// checking its write-concern body comes to.
pub open spec fn acknowledged(reply: Option<Fields>, r: Result<(), Error>) -> bool {
    match reply {
        Some(fields) => match write_concern_only_body_of(fields) {
            Some(body) => checked(body, r),
            None => r matches Err(e) && e@.kind is InvalidResponse,
        },
        None => r matches Err(e) && e@.kind is InvalidResponse,
    }
}

/// Reads the reply to a command that only acknowledges.
pub fn handle_acknowledgment(reply: &bson::Document) -> (r: Result<(), Error>)
    ensures
        acknowledged(Some(doc_view(*reply)), r),
{
    match WriteConcernOnlyBody::from_document(reply) {
        Ok(body) => body.validate(),
        Err(e) => Err(e),
    }
}

/// What every kind of request can do.
pub trait Operation: Sized {
    /// What the operation gives when it succeeds.
    type O;

    /// The name of the server command that the operation runs.
    spec fn command_name(&self) -> Seq<char>;

    /// The database that the operation addresses, as given when it was made.
    spec fn target_db(&self) -> Seq<char>;

    /// The write concern that the operation asks for, if any.
    spec fn write_concern_spec(&self) -> Option<WriteConcern>;

    /// The command to send. It is always addressed to the database that the
    /// operation was made for, whatever the options are, and has a name.
    fn build(&mut self, description: &StreamDescription) -> (r: Result<Command, Error>)
        ensures
            final(self).target_db() == old(self).target_db(),
            r matches Ok(cmd) ==> cmd.target_db@ == old(self).target_db() && cmd.well_formed(),
    ;

    /// The bytes of a built command. Unless an operation frames its command
    /// in its own way, they are the encoding of the command's wire form.
    fn serialize_command(&mut self, cmd: Command) -> (r: Result<Vec<u8>, Error>)
        default_ensures
            *final(self) == *old(self),
            match r {
                Ok(bytes) => encoded(cmd.fields()) == Some(bytes@),
                Err(e) => encoded(cmd.fields()) is None && e@.kind is BsonSerialization,
            },
    {
        cmd.serialize()
    }

    /// The read timestamp that the reply tells, for operations that can be
    /// part of a snapshot read. Unless an operation knows where to look,
    /// there is none.
    fn extract_at_cluster_time(&self, response: &bson::Document) -> (r: Result<
        Option<Timestamp>,
        Error,
    >)
        default_ensures
            r == Ok::<Option<Timestamp>, Error>(None),
    {
        Ok(None)
    }

    /// The result that the reply stands for.
    fn handle_response(&self, response: &RawCommandResponse, description: &StreamDescription) -> (r:
        Result<Self::O, Error>)
    ;

    /// What a failed attempt amounts to. Unless an operation can recover,
    /// the error is handed on unchanged.
    fn handle_error(&self, error: Error) -> (r: Result<Self::O, Error>)
        default_ensures
            r == Err::<Self::O, Error>(error),
    {
        Err(error)
    }

    /// The servers that the operation may be sent to. Unless an operation
    /// says otherwise, there are no criteria, which means the primary.
    fn selection_criteria(&self) -> (r: Option<SelectionCriteria>)
        default_ensures
            r is None,
    {
        None
    }

    /// The write concern that the operation asks for, if any.
    fn write_concern(&self) -> (r: Option<&WriteConcern>)
        ensures
            match r {
                Some(w) => self.write_concern_spec() == Some(*w),
                None => self.write_concern_spec() is None,
            },
    ;

    /// Whether the server will acknowledge the operation: it will, unless
    /// the operation has a write concern that asks for no acknowledgment.
    fn is_acknowledged(&self) -> (r: bool)
        ensures
            r == (self.write_concern_spec() matches Some(w) ==> w.acknowledged()),
    {
        match self.write_concern() {
            Some(w) => w.is_acknowledged(),
            None => true,
        }
    }

    /// Whether the command takes a `readConcern` field. Unless an operation
    /// says otherwise, it does not.
    fn supports_read_concern(&self, description: &StreamDescription) -> (r: bool)
        default_ensures
            !r,
    {
        false
    }

    /// Whether the operation can run in a session. Unless an operation says
    /// otherwise, it can.
    fn supports_sessions(&self) -> (r: bool)
        default_ensures
            r,
    {
        true
    }

    /// Whether a failed attempt may be sent again. Unless an operation says
    /// otherwise, never.
    fn retryability(&self) -> (r: Retryability)
        default_ensures
            r == Retryability::Never,
    {
        Retryability::Never
    }

    /// Prepares the operation for being sent again; called once, before the
    /// command of the retry is built. Unless an operation has something to
    /// prepare, nothing changes.
    fn update_for_retry(&mut self)
        ensures
            final(self).target_db() == old(self).target_db(),
        default_ensures
            *final(self) == *old(self),
    {
    }

    /// The connection that the operation must use. Unless an operation is
    /// bound to one, there is none.
    fn pinned_connection(&self) -> (r: Option<PinnedConnectionHandle>)
        default_ensures
            r is None,
    {
        None
    }

    /// The name of the server command that the operation runs.
    fn name(&self) -> (r: &str)
        ensures
            r@ == self.command_name(),
    ;
}

} // verus!
