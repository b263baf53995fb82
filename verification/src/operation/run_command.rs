//! Running a command that the caller wrote out in full.

use vstd::prelude::*;
use crate::command::Command;
use crate::concern::WriteConcern;
use crate::document::{decoded, doc_clone, doc_keys, doc_view, Fields};
use crate::error::Error;
use crate::field::{timestamp_at, timestamp_field};
use crate::operation::response::{invalid_if_err, RawCommandResponse, Timestamp};
use crate::operation::{Operation, PinnedConnectionHandle};
use crate::selection_criteria::SelectionCriteria;
use crate::stream_description::StreamDescription;
use crate::text::{lowercase, str_eq, to_lowercase};

verus! {

/// Whether a lower-case command name is one of those that cannot run in a
/// session.
pub open spec fn sessionless(lower: Seq<char>) -> bool {
    lower == "killcursors"@ || lower == "parallelcollectionscan"@
}

/// Whether a lower-case command name is one of those that cannot run in a
/// session.
pub fn is_sessionless_name(lower: &str) -> (r: bool)
    ensures
        r == sessionless(lower@),
{
    str_eq(lower, "killcursors") || str_eq(lower, "parallelcollectionscan")
}

/// The name of the command that a document spells out: its first key.
pub open spec fn spelled_name(command: Fields) -> Option<Seq<char>> {
    if command.len() > 0 {
        Some(command[0].0)
    } else {
        None
    }
}

/// A command that the caller wrote out in full.
#[derive(Debug)]
pub struct RunCommand {
    pub db: String,
    pub command: bson::Document,
    pub selection_criteria: Option<SelectionCriteria>,
    pub pinned_connection: Option<PinnedConnectionHandle>,
}

impl RunCommand {
    /// The command `command`, to be run against `db`.
    pub fn new(
        db: String,
        command: bson::Document,
        selection_criteria: Option<SelectionCriteria>,
        pinned_connection: Option<PinnedConnectionHandle>,
    ) -> (r: RunCommand)
        ensures
            r.db == db,
            r.command == command,
            r.selection_criteria == selection_criteria,
            r.pinned_connection == pinned_connection,
    {
        RunCommand { db, command, selection_criteria, pinned_connection }
    }

    /// The name of the command: the first key of the document, if it has
    /// any.
    pub fn spelled(&self) -> (r: Option<String>)
        ensures
            crate::error::optional_text(r) == spelled_name(doc_view(self.command)),
    {
        let mut keys = doc_keys(&self.command);
        if keys.len() == 0 {
            None
        } else {
            Some(keys.swap_remove(0))
        }
    }

    /// Whether a command of this name, if the document spells one, can run
    /// in a session.
    pub fn name_supports_sessions(lower_name: Option<&str>) -> (r: bool)
        ensures
            r == match lower_name {
                Some(n) => !sessionless(n@),
                None => false,
            },
    {
        match lower_name {
            Some(n) => !is_sessionless_name(n),
            None => false,
        }
    }
}

impl Operation for RunCommand {
    type O = bson::Document;

    open spec fn command_name(&self) -> Seq<char> {
        "$genericRunCommand"@
    }

    open spec fn target_db(&self) -> Seq<char> {
        self.db@
    }

    open spec fn write_concern_spec(&self) -> Option<WriteConcern> {
        None
    }

    /// The caller's document as the body of a command named by its first
    /// key. A document without fields, or one whose first key is empty,
    /// names no command: that is an argument error.
    fn build(&mut self, description: &StreamDescription) -> (r: Result<Command, Error>)
        ensures
            *final(self) == *old(self),
            match r {
                Ok(cmd) => spelled_name(doc_view(old(self).command)) == Some(cmd.name@)
                    && cmd.name@.len() > 0 && cmd.body == old(self).command
                    && cmd.read_concern is None,
                Err(e) => (spelled_name(doc_view(old(self).command)) matches Some(n) ==> n.len()
                    == 0) && e@.kind is InvalidArgument,
            },
    {
        match self.spelled() {
            Some(name) => {
                if name.as_str().unicode_len() == 0 {
                    Err(Error::invalid_argument("a command must have a name"))
                } else {
                    Ok(Command::new(name, self.db.clone(), doc_clone(&self.command)))
                }
            },
            None => Err(
                Error::invalid_argument(
                    "an empty document cannot be passed to a run_command operation",
                ),
            ),
        }
    }

    /// The read timestamp of the reply: the timestamp under
    /// `atClusterTime`, if there is one.
    fn extract_at_cluster_time(&self, response: &bson::Document) -> (r: Result<
        Option<Timestamp>,
        Error,
    >)
        ensures
            r == Ok::<Option<Timestamp>, Error>(
                match timestamp_at(doc_view(*response), "atClusterTime"@) {
                    Some(t) => Some(Timestamp { time: t.0, increment: t.1 }),
                    None => None,
                },
            ),
    {
        Ok(
            match timestamp_field(response, "atClusterTime") {
                Some(t) => Some(Timestamp { time: t.0, increment: t.1 }),
                None => None,
            },
        )
    }

    /// The reply itself. A reply that cannot be decoded is an invalid
    /// response.
    fn handle_response(&self, response: &RawCommandResponse, description: &StreamDescription) -> (r:
        Result<bson::Document, Error>)
        ensures
            match r {
                Ok(reply) => decoded(response.raw@) == Some(doc_view(reply)),
                Err(e) => decoded(response.raw@) is None,
            },
            invalid_if_err(r),
    {
        response.body()
    }

    fn selection_criteria(&self) -> (r: Option<SelectionCriteria>)
        ensures
            r == self.selection_criteria,
    {
        self.selection_criteria
    }

    fn write_concern(&self) -> (r: Option<&WriteConcern>) {
        None
    }

    /// Whether the command can run in a session: it can, unless it spells
    /// no name or its lower-cased name is one of the few that cannot.
    fn supports_sessions(&self) -> (r: bool)
        ensures
            r == match spelled_name(doc_view(self.command)) {
                Some(n) => !sessionless(lowercase(n)),
                None => false,
            },
    {
        match self.spelled() {
            Some(name) => {
                let lower = to_lowercase(name.as_str());
                RunCommand::name_supports_sessions(Some(lower.as_str()))
            },
            None => RunCommand::name_supports_sessions(None),
        }
    }

    fn pinned_connection(&self) -> (r: Option<PinnedConnectionHandle>)
        ensures
            r == self.pinned_connection,
    {
        self.pinned_connection
    }

    fn name(&self) -> (r: &str) {
        "$genericRunCommand"
    }
}

} // verus!
