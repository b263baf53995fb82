//! What a command needs to know of the session it runs in: the state of
//! the session's transaction and the options it was started with.

use vstd::prelude::*;
use std::time::Duration;
use crate::concern::{ReadConcern, WriteConcern};
use crate::selection_criteria::SelectionCriteria;

verus! {

/// Where a session stands with its transaction.
#[derive(Clone, Copy, Debug, PartialEq, Eq, Structural)]
pub enum TransactionState {
    /// No transaction has been started.
    Idle,
    /// A transaction has been started and no command has run in it yet.
    Starting,
    /// A transaction is under way.
    InProgress,
    /// The last transaction was committed.
    Committed,
    /// The last transaction was aborted.
    Aborted,
}

/// The options that a transaction was started with.
#[derive(Debug)]
pub struct TransactionOptions {
    pub read_concern: Option<ReadConcern>,
    pub write_concern: Option<WriteConcern>,
    pub selection_criteria: Option<SelectionCriteria>,
    pub max_commit_time: Option<Duration>,
}

/// The transaction of a session.
#[derive(Debug)]
pub struct Transaction {
    pub state: TransactionState,
    pub options: Option<TransactionOptions>,
}

impl Transaction {
    /// Whether commands now run inside a transaction.
    pub open spec fn active(&self) -> bool {
        self.state == TransactionState::Starting || self.state == TransactionState::InProgress
    }

    /// The selection criteria that the transaction was started with.
    pub open spec fn criteria(&self) -> Option<SelectionCriteria> {
        match self.options {
            Some(o) => o.selection_criteria,
            None => None,
        }
    }

    /// The transaction of a session that has started none.
    pub fn new() -> (r: Transaction)
        ensures
            r.state == TransactionState::Idle,
            r.options is None,
    {
        Transaction { state: TransactionState::Idle, options: None }
    }

    /// Whether commands now run inside a transaction.
    pub fn is_active(&self) -> (r: bool)
        ensures
            r == self.active(),
    {
        match self.state {
            TransactionState::Starting | TransactionState::InProgress => true,
            _ => false,
        }
    }

    /// The selection criteria that the transaction was started with.
    pub fn selection_criteria(&self) -> (r: Option<SelectionCriteria>)
        ensures
            r == self.criteria(),
    {
        match &self.options {
            Some(o) => o.selection_criteria,
            None => None,
        }
    }
}

} // verus!
