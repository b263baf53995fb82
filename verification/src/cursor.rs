//! What is known of a cursor when it is opened, and what one step through
//! its batches gives.

use vstd::prelude::*;
use std::collections::VecDeque;
use std::time::Duration;
use crate::change_stream::{optional_token, ResumeToken};
use crate::document::{doc_view, Fields, Value};
use crate::field::fields_of;
use crate::namespace::Namespace;
use crate::operation::response::{CursorInfo, CursorInfoView};
use crate::stream_description::ServerAddress;

verus! {

/// What identifies an open cursor and bounds its batches.
#[derive(Debug)]
pub struct CursorInformation {
    pub ns: Namespace,
    pub address: ServerAddress,
    pub id: i64,
    pub batch_size: Option<u32>,
    pub max_time: Option<Duration>,
}

/// All that is needed to iterate a cursor that a reply has opened.
#[derive(Debug)]
pub struct CursorSpecification {
    pub info: CursorInformation,
    pub initial_buffer: VecDeque<bson::Document>,
    pub post_batch_resume_token: Option<ResumeToken>,
}

pub struct CursorSpecificationView {
    pub db: Seq<char>,
    pub coll: Seq<char>,
    pub address: ServerAddress,
    pub id: i64,
    pub batch_size: Option<u32>,
    pub max_time: Option<Duration>,
    pub initial_buffer: Seq<Fields>,
    pub post_batch_resume_token: Option<Value>,
}

impl View for CursorSpecification {
    type V = CursorSpecificationView;

    open spec fn view(&self) -> CursorSpecificationView {
        CursorSpecificationView {
            db: self.info.ns.db@,
            coll: self.info.ns.coll@,
            address: self.info.address,
            id: self.info.id,
            batch_size: self.info.batch_size,
            max_time: self.info.max_time,
            initial_buffer: fields_of(self.initial_buffer@),
            post_batch_resume_token: optional_token(self.post_batch_resume_token),
        }
    }
}

/// The resume token that follows a batch: the document that the server
/// sent, as one value.
pub open spec fn batch_token(token: Option<Fields>) -> Option<Value> {
    match token {
        Some(fields) => Some(Value::Document(fields)),
        None => None,
    }
}

/// The specification of the cursor that a reply describes, on the server
/// at `address`, with the caller's bounds.
pub open spec fn specification_of(
    cursor: CursorInfoView,
    address: ServerAddress,
    batch_size: Option<u32>,
    max_time: Option<Duration>,
) -> CursorSpecificationView {
    CursorSpecificationView {
        db: cursor.db,
        coll: cursor.coll,
        address,
        id: cursor.id,
        batch_size,
        max_time,
        initial_buffer: cursor.first_batch,
        post_batch_resume_token: batch_token(cursor.post_batch_resume_token),
    }
}

impl CursorSpecification {
    /// The specification of the cursor that `info` describes.
    pub fn new(
        info: CursorInfo,
        address: ServerAddress,
        batch_size: Option<u32>,
        max_time: Option<Duration>,
    ) -> (r: CursorSpecification)
        ensures
            r@ == specification_of(info@, address, batch_size, max_time),
    {
        let token = match info.post_batch_resume_token {
            Some(d) => Some(ResumeToken::from_document(d)),
            None => None,
        };
        CursorSpecification {
            info: CursorInformation { ns: info.ns, address, id: info.id, batch_size, max_time },
            initial_buffer: info.first_batch,
            post_batch_resume_token: token,
        }
    }

    /// The address of the server that holds the cursor.
    pub fn address(&self) -> (r: &ServerAddress)
        ensures
            *r == self@.address,
    {
        &self.info.address
    }

    /// The id of the cursor; zero for a cursor that is already exhausted.
    pub fn id(&self) -> (r: i64)
        ensures
            r == self@.id,
    {
        self.info.id
    }

    /// Whether the server has already handed out all that the cursor
    /// holds: it says so by the id zero.
    pub fn is_exhausted(&self) -> (r: bool)
        ensures
            r == (self@.id == 0),
    {
        self.info.id == 0
    }

    /// The number of documents asked for in each batch, if bounded.
    pub fn batch_size(&self) -> (r: Option<u32>)
        ensures
            r == self@.batch_size,
    {
        self.info.batch_size
    }

    /// How long the server may wait for a batch, if bounded.
    pub fn max_time(&self) -> (r: Option<Duration>)
        ensures
            r == self@.max_time,
    {
        self.info.max_time
    }
}

/// What one step through a cursor's batches gives.
#[derive(Debug)]
pub enum BatchValue {
    /// The next document; `is_last` says that it ends its batch.
    Document { doc: bson::Document, is_last: bool },
    /// The batch that was fetched held nothing.
    Empty,
    /// The cursor has no more batches.
    Exhausted,
}

pub enum BatchView {
    Document { doc: Fields, is_last: bool },
    Empty,
    Exhausted,
}

impl View for BatchValue {
    type V = BatchView;

    open spec fn view(&self) -> BatchView {
        match self {
            BatchValue::Document { doc, is_last } => BatchView::Document {
                doc: doc_view(*doc),
                is_last: *is_last,
            },
            BatchValue::Empty => BatchView::Empty,
            BatchValue::Exhausted => BatchView::Exhausted,
        }
    }
}

} // verus!
