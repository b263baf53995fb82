//! Listing the collections of a database.

use vstd::prelude::*;
use crate::command::Command;
use crate::concern::WriteConcern;
use crate::cursor::{specification_of, CursorSpecification};
use crate::document::{
    bson_bool, bson_document, bson_int32, bson_view, decoded, doc_clone, doc_insert, doc_keys,
    doc_single, doc_view, lemma_absent, merged, Fields, Value,
};
use crate::error::Error;
use crate::operation::response::{cursor_body_of, invalid_if_err, CursorBody, RawCommandResponse};
use crate::operation::{append_options, Operation, Retryability};
use crate::selection_criteria::{ReadPreference, SelectionCriteria};
use crate::stream_description::StreamDescription;
use crate::text::str_eq;

verus! {

/// What the caller may ask of a listing of collections.
#[derive(Debug)]
pub struct ListCollectionsOptions {
    /// The number of collections asked for in each batch.
    pub batch_size: Option<u32>,
}

impl ListCollectionsOptions {
    /// The fields that the options add to the command body: the batch size
    /// under `batchSize` of a `cursor` document, where one is set. `None`
    /// where the size is out of the range of a 32-bit signed integer.
    pub open spec fn fields(&self) -> Option<Fields> {
        match self.batch_size {
            Some(n) => if n <= i32::MAX {
                Some(
                    seq![("cursor"@, Value::Document(seq![("batchSize"@, Value::Int32(n as i32))]))],
                )
            } else {
                None
            },
            None => Some(Fields::empty()),
        }
    }

    /// Options with nothing set.
    pub fn new() -> (r: ListCollectionsOptions)
        ensures
            r.batch_size is None,
    {
        ListCollectionsOptions { batch_size: None }
    }

    /// The wire form of the options; an argument error where the batch size
    /// is out of the range of a 32-bit signed integer.
    pub fn to_bson(&self) -> (r: Result<bson::Bson, Error>)
        ensures
            match r {
                Ok(b) => self.fields() matches Some(f) && bson_view(b) == Value::Document(f),
                Err(e) => self.fields() is None && e@.kind is InvalidArgument,
            },
    {
        match self.batch_size {
            Some(n) => {
                if n <= 0x7fff_ffff {
                    let size = doc_single("batchSize", bson_int32(n as i32));
                    Ok(bson_document(doc_single("cursor", bson_document(size))))
                } else {
                    Err(
                        Error::invalid_argument(
                            "batch size must be able to fit into a signed 32-bit integer",
                        ),
                    )
                }
            },
            None => Ok(bson_document(crate::document::doc_new())),
        }
    }
}

/// Whether a filter selects by anything but the collection's name.
pub open spec fn filters_beyond_name(filter: Fields) -> bool {
    exists|i: int| 0 <= i < filter.len() && (#[trigger] filter[i]).0 != "name"@
}

/// Whether a filter selects by anything but the collection's name.
pub fn selects_beyond_name(filter: &bson::Document) -> (r: bool)
    ensures
        r == filters_beyond_name(doc_view(*filter)),
{
    let keys = doc_keys(filter);
    let mut i: usize = 0;
    while i < keys.len()
        invariant
            i <= keys.len(),
            keys@.len() == doc_view(*filter).len(),
            forall|j: int| 0 <= j < keys@.len() ==> (#[trigger] keys@[j])@ == doc_view(*filter)[j].0,
            forall|j: int| 0 <= j < i ==> (#[trigger] doc_view(*filter)[j]).0 == "name"@,
        decreases keys.len() - i,
    {
        if !str_eq(keys[i].as_str(), "name") {
            assert(doc_view(*filter)[i as int].0 != "name"@);
            return true;
        }
        i += 1;
    }
    false
}

/// The names of the fields of the command are pairwise different.
proof fn lemma_names_differ()
    ensures
        "listCollections"@ != "filter"@,
        "listCollections"@ != "nameOnly"@,
        "filter"@ != "nameOnly"@,
        "listCollections"@.len() > 0,
{
    reveal_strlit("listCollections");
    reveal_strlit("filter");
    reveal_strlit("nameOnly");
    assert("listCollections"@.len() == 15);
    assert("filter"@.len() == 6);
    assert("nameOnly"@.len() == 8);
}

/// A listing of the collections of a database.
#[derive(Debug)]
pub struct ListCollections {
    pub db: String,
    pub filter: Option<bson::Document>,
    pub name_only: bool,
    pub options: Option<ListCollectionsOptions>,
}

impl ListCollections {
    /// Whether the server is asked for names only: the caller asked so,
    /// and the filter, if any, needs nothing but the name.
    pub open spec fn names_only(&self) -> bool {
        self.name_only && !(self.filter matches Some(f) && filters_beyond_name(doc_view(f)))
    }

    /// The command body without options: the command, the filter if any,
    /// and whether names suffice.
    pub open spec fn base(&self) -> Fields {
        let command = seq![("listCollections"@, Value::Int32(1))];
        let filtered = match self.filter {
            Some(f) => command.push(("filter"@, Value::Document(doc_view(f)))),
            None => command,
        };
        filtered.push(("nameOnly"@, Value::Boolean(self.names_only())))
    }

    /// The fields that the options add to the command body.
    pub open spec fn option_fields(&self) -> Option<Fields> {
        match self.options {
            Some(o) => o.fields(),
            None => Some(Fields::empty()),
        }
    }

    /// The body of the command: the base command with the options merged
    /// in. `None` where an option is out of the range of the wire.
    pub open spec fn body(&self) -> Option<Fields> {
        match self.option_fields() {
            Some(f) => Some(merged(self.base(), f)),
            None => None,
        }
    }

    /// The batch size that the caller asked for, if any.
    pub open spec fn batch_size(&self) -> Option<u32> {
        match self.options {
            Some(o) => o.batch_size,
            None => None,
        }
    }

    /// The listing of the collections of `db` that pass `filter`.
    pub fn new(
        db: String,
        filter: Option<bson::Document>,
        name_only: bool,
        options: Option<ListCollectionsOptions>,
    ) -> (r: ListCollections)
        ensures
            r.db == db,
            r.filter == filter,
            r.name_only == name_only,
            r.options == options,
            r.target_db() == db@,
    {
        ListCollections { db, filter, name_only, options }
    }

    /// A listing of nothing in particular, for trials.
    pub fn empty() -> (r: ListCollections)
        ensures
            r.db@.len() == 0,
            r.filter is None,
            !r.name_only,
            r.options is None,
    {
        ListCollections { db: String::new(), filter: None, name_only: false, options: None }
    }

    fn build_base(&self) -> (d: bson::Document)
        ensures
            doc_view(d) == self.base(),
    {
        proof {
            lemma_names_differ();
        }
        let mut body = doc_single("listCollections", bson_int32(1));
        let mut name_only = self.name_only;
        if let Some(filter) = &self.filter {
            proof {
                lemma_absent(doc_view(body), "filter"@, Value::Document(doc_view(*filter)));
            }
            doc_insert(&mut body, "filter", bson_document(doc_clone(filter)));
            if name_only && selects_beyond_name(filter) {
                name_only = false;
            }
        }
        proof {
            lemma_absent(doc_view(body), "nameOnly"@, Value::Boolean(name_only));
        }
        doc_insert(&mut body, "nameOnly", bson_bool(name_only));
        body
    }

    /// The cursor that a decoded reply opens; an invalid response where it
    /// opens none.
    pub fn handle_body(&self, reply: &bson::Document, description: &StreamDescription) -> (r:
        Result<CursorSpecification, Error>)
        ensures
            match r {
                Ok(spec) => cursor_body_of(doc_view(*reply)) matches Some(body) && spec@
                    == specification_of(
                    body.cursor,
                    description.server_address,
                    self.batch_size(),
                    None,
                ),
                Err(e) => cursor_body_of(doc_view(*reply)) is None,
            },
            invalid_if_err(r),
    {
        match CursorBody::from_document(reply) {
            Ok(body) => {
                let batch_size = match &self.options {
                    Some(o) => o.batch_size,
                    None => None,
                };
                Ok(
                    CursorSpecification::new(
                        body.cursor,
                        description.server_address.clone(),
                        batch_size,
                        None,
                    ),
                )
            },
            Err(e) => Err(e),
        }
    }
}

impl Operation for ListCollections {
    type O = CursorSpecification;

    open spec fn command_name(&self) -> Seq<char> {
        "listCollections"@
    }

    open spec fn target_db(&self) -> Seq<char> {
        self.db@
    }

    open spec fn write_concern_spec(&self) -> Option<WriteConcern> {
        None
    }

    /// The listing command: the filter if any, names only where the caller
    /// asked so and the filter allows it, and the options merged in.
    /// Building fails only where an option is out of the range of the wire.
    fn build(&mut self, description: &StreamDescription) -> (r: Result<Command, Error>)
        ensures
            *final(self) == *old(self),
            match r {
                Ok(cmd) => old(self).body() == Some(doc_view(cmd.body)) && cmd.name@
                    == "listCollections"@ && cmd.read_concern is None,
                Err(e) => old(self).body() is None && e@.kind is InvalidArgument,
            },
    {
        let mut body = self.build_base();
        if let Some(options) = &self.options {
            match options.to_bson() {
                Ok(b) => match append_options(&mut body, Some(&b)) {
                    Ok(_) => {},
                    Err(e) => {
                        return Err(e);
                    },
                },
                Err(e) => {
                    return Err(e);
                },
            }
        }
        proof {
            lemma_names_differ();
        }
        Ok(Command::new("listCollections".to_string(), self.db.clone(), body))
    }

    /// The cursor that the reply opens, on the server that the reply came
    /// from, with the caller's batch size. A reply that cannot be decoded,
    /// or that holds no well-formed cursor, is an invalid response.
    fn handle_response(&self, response: &RawCommandResponse, description: &StreamDescription) -> (r:
        Result<CursorSpecification, Error>)
        ensures
            match r {
                Ok(spec) => decoded(response.raw@) matches Some(reply) && cursor_body_of(reply)
                    matches Some(body) && spec@ == specification_of(
                    body.cursor,
                    description.server_address,
                    self.batch_size(),
                    None,
                ),
                Err(e) => !(decoded(response.raw@) matches Some(reply) && cursor_body_of(reply)
                    is Some),
            },
            invalid_if_err(r),
    {
        match response.body() {
            Ok(reply) => self.handle_body(&reply, description),
            Err(e) => Err(e),
        }
    }

    /// Collections are listed on the primary.
    fn selection_criteria(&self) -> (r: Option<SelectionCriteria>)
        ensures
            r == Some(SelectionCriteria::ReadPreference(ReadPreference::Primary)),
    {
        Some(SelectionCriteria::ReadPreference(ReadPreference::Primary))
    }

    fn write_concern(&self) -> (r: Option<&WriteConcern>) {
        None
    }

    fn retryability(&self) -> (r: Retryability)
        ensures
            r == Retryability::Read,
    {
        Retryability::Read
    }

    fn name(&self) -> (r: &str) {
        "listCollections"
    }
}

/// A listing without filter and options goes out as its minimal command:
/// the command itself and whether names suffice.
pub proof fn lemma_minimal_listing(listing: ListCollections)
    requires
        listing.filter is None,
        listing.options is None,
    ensures
        listing.body() == Some(
            seq![
                ("listCollections"@, Value::Int32(1)),
                ("nameOnly"@, Value::Boolean(listing.name_only)),
            ],
        ),
{
    assert(listing.base() =~= seq![
        ("listCollections"@, Value::Int32(1)),
        ("nameOnly"@, Value::Boolean(listing.name_only)),
    ]);
}

} // verus!
