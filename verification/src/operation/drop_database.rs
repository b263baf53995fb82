//! Dropping a database.

use vstd::prelude::*;
use crate::command::Command;
use crate::concern::{remove_empty_write_concern, WriteConcern};
use crate::document::{
    bson_document, bson_int32, bson_view, decoded, doc_new, doc_single, doc_view, merged, Fields,
    Value,
};
use crate::error::Error;
use crate::operation::response::RawCommandResponse;
use crate::operation::{
    acknowledged, add_write_concern, append_options, handle_acknowledgment, with_write_concern,
    Operation,
};
use crate::stream_description::StreamDescription;

verus! {

/// What the caller may ask of dropping a database.
#[derive(Debug)]
pub struct DropDatabaseOptions {
    /// The acknowledgment asked of the drop.
    pub write_concern: Option<WriteConcern>,
}

impl DropDatabaseOptions {
    /// The fields that the options add to the command body: the write
    /// concern, where one is set.
    pub open spec fn fields(&self) -> Option<Fields> {
        with_write_concern(Fields::empty(), self.write_concern)
    }

    /// The wire form of the options; an argument error where the write
    /// concern is out of the range of the wire.
    pub fn to_bson(&self) -> (r: Result<bson::Bson, Error>)
        ensures
            match r {
                Ok(b) => self.fields() matches Some(f) && bson_view(b) == Value::Document(f),
                Err(e) => self.fields() is None && e@.kind is InvalidArgument,
            },
    {
        let mut d = doc_new();
        match add_write_concern(&mut d, self.write_concern.as_ref()) {
            Ok(_) => Ok(bson_document(d)),
            Err(e) => Err(e),
        }
    }
}

/// The options with an empty write concern dropped.
pub open spec fn normalized(options: Option<DropDatabaseOptions>) -> Option<DropDatabaseOptions> {
    match options {
        Some(o) => Some(
            DropDatabaseOptions {
                write_concern: match o.write_concern {
                    Some(w) => if w.empty() {
                        None
                    } else {
                        Some(w)
                    },
                    None => None,
                },
            },
        ),
        None => None,
    }
}

/// The drop of a database.
#[derive(Debug)]
pub struct DropDatabase {
    pub target_db: String,
    pub options: Option<DropDatabaseOptions>,
}

impl DropDatabase {
    /// The body of the command: the command itself, with the options
    /// merged in. `None` where an option is out of the range of the wire.
    pub open spec fn body(&self) -> Option<Fields> {
        let base = seq![("dropDatabase"@, Value::Int32(1))];
        match normalized(self.options) {
            Some(o) => match o.fields() {
                Some(f) => Some(merged(base, f)),
                None => None,
            },
            None => Some(base),
        }
    }

    /// The drop of the database `target_db`.
    pub fn new(target_db: String, options: Option<DropDatabaseOptions>) -> (r: DropDatabase)
        ensures
            r.target_db == target_db,
            r.options == options,
    {
        DropDatabase { target_db, options }
    }
}

impl Operation for DropDatabase {
    type O = ();

    open spec fn command_name(&self) -> Seq<char> {
        "dropDatabase"@
    }

    open spec fn target_db(&self) -> Seq<char> {
        self.target_db@
    }

    open spec fn write_concern_spec(&self) -> Option<WriteConcern> {
        match self.options {
            Some(o) => o.write_concern,
            None => None,
        }
    }

    /// The drop command with the options merged in. An empty write concern
    /// is dropped from the options first. Building fails only where the
    /// write concern is out of the range of the wire.
    fn build(&mut self, description: &StreamDescription) -> (r: Result<Command, Error>)
        ensures
            final(self).target_db == old(self).target_db,
            final(self).options == normalized(old(self).options),
            match r {
                Ok(cmd) => old(self).body() == Some(doc_view(cmd.body)) && cmd.name@
                    == "dropDatabase"@ && cmd.read_concern is None,
                Err(e) => old(self).body() is None && e@.kind is InvalidArgument,
            },
    {
        let mut body = doc_single("dropDatabase", bson_int32(1));
        assert(doc_view(body) =~= seq![("dropDatabase"@, Value::Int32(1))]);
        let options = match self.options.take() {
            Some(o) => Some(
                DropDatabaseOptions { write_concern: remove_empty_write_concern(o.write_concern) },
            ),
            None => None,
        };
        self.options = options;
        if let Some(options) = &self.options {
            match options.to_bson() {
                Ok(b) => match append_options(&mut body, Some(&b)) {
                    Ok(_) => {},
                    Err(e) => {
                        return Err(e);
                    },
                },
                Err(e) => {
                    return Err(e);
                },
            }
        }
        proof {
            reveal_strlit("dropDatabase");
            assert("dropDatabase"@.len() == 12);
        }
        Ok(Command::new("dropDatabase".to_string(), self.target_db.clone(), body))
    }

    /// Succeeds unless the reply is malformed or holds a write-concern
    /// error.
    fn handle_response(&self, response: &RawCommandResponse, description: &StreamDescription) -> (r:
        Result<(), Error>)
        ensures
            acknowledged(decoded(response.raw@), r),
    {
        match response.body() {
            Ok(reply) => handle_acknowledgment(&reply),
            Err(e) => Err(e),
        }
    }

    fn write_concern(&self) -> (r: Option<&WriteConcern>) {
        match &self.options {
            Some(o) => o.write_concern.as_ref(),
            None => None,
        }
    }

    fn name(&self) -> (r: &str) {
        "dropDatabase"
    }
}

} // verus!
