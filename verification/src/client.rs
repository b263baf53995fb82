//! The client: the root from which databases descend, and the defaults
//! that they inherit.

use vstd::prelude::*;
use std::sync::Arc;
use crate::concern::{ReadConcern, WriteConcern};
use crate::selection_criteria::SelectionCriteria;
use crate::shared::arc_clone;

verus! {

/// The defaults that a client hands down to its databases.
#[derive(Debug)]
pub struct ClientOptions {
    pub selection_criteria: Option<SelectionCriteria>,
    pub read_concern: Option<ReadConcern>,
    pub write_concern: Option<WriteConcern>,
}

/// A handle to a client. Handles are cheap to copy and share one client.
#[derive(Debug)]
pub struct Client {
    inner: Arc<ClientOptions>,
}

impl Clone for Client {
    fn clone(&self) -> (r: Self)
        ensures
            r == *self,
    {
        Client { inner: arc_clone(&self.inner) }
    }
}

impl Client {
    /// The defaults of the client.
    pub closed spec fn options(&self) -> ClientOptions {
        *self.inner
    }

    /// A client with these defaults.
    pub fn new(options: ClientOptions) -> (r: Client)
        ensures
            r.options() == options,
    {
        Client { inner: Arc::new(options) }
    }

    /// The default selection criteria of the client.
    pub fn selection_criteria(&self) -> (r: Option<&SelectionCriteria>)
        ensures
            match r {
                Some(c) => self.options().selection_criteria == Some(*c),
                None => self.options().selection_criteria is None,
            },
    {
        self.inner.selection_criteria.as_ref()
    }

    /// The default read concern of the client.
    pub fn read_concern(&self) -> (r: Option<&ReadConcern>)
        ensures
            match r {
                Some(c) => self.options().read_concern == Some(*c),
                None => self.options().read_concern is None,
            },
    {
        self.inner.read_concern.as_ref()
    }

    /// The default write concern of the client.
    pub fn write_concern(&self) -> (r: Option<&WriteConcern>)
        ensures
            match r {
                Some(c) => self.options().write_concern == Some(*c),
                None => self.options().write_concern is None,
            },
    {
        self.inner.write_concern.as_ref()
    }
}

} // verus!
