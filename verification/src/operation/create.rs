//! Creating a collection.

use vstd::prelude::*;
use crate::command::Command;
use crate::concern::{remove_empty_write_concern, WriteConcern};
use crate::document::{
    bson_bool, bson_document, bson_int64, bson_string, bson_view, decoded, doc_insert, doc_new,
    doc_single, doc_view, merged, upsert, Fields, Value,
};
use crate::error::Error;
use crate::namespace::Namespace;
use crate::operation::response::RawCommandResponse;
use crate::operation::{
    acknowledged, add_write_concern, append_options, handle_acknowledgment, with_write_concern,
    Operation,
};
use crate::stream_description::StreamDescription;

verus! {

/// What the caller may ask of a new collection.
#[derive(Debug)]
pub struct CreateCollectionOptions {
    /// Whether the collection is capped.
    pub capped: Option<bool>,
    /// The greatest size of a capped collection, in bytes.
    pub size: Option<u64>,
    /// The greatest number of documents of a capped collection.
    pub max: Option<u64>,
    /// The acknowledgment asked of the creation.
    pub write_concern: Option<WriteConcern>,
}

/// The fields after an optional boolean is set under `key`.
pub open spec fn with_flag(base: Fields, key: Seq<char>, flag: Option<bool>) -> Fields {
    match flag {
        Some(b) => upsert(base, key, Value::Boolean(b)),
        None => base,
    }
}

/// The fields after an optional unsigned number is set under `key` as a
/// 64-bit signed integer. `None` where the number does not fit one.
pub open spec fn with_number(base: Fields, key: Seq<char>, number: Option<u64>) -> Option<Fields> {
    match number {
        Some(n) => if n <= i64::MAX {
            Some(upsert(base, key, Value::Int64(n as i64)))
        } else {
            None
        },
        None => Some(base),
    }
}

/// Sets an optional unsigned number under `key` as a 64-bit signed
/// integer; an argument error, and no change, where it does not fit one.
pub fn add_number(doc: &mut bson::Document, key: &str, number: Option<u64>) -> (r: Result<
    (),
    Error,
>)
    ensures
        match r {
            Ok(_) => with_number(doc_view(*old(doc)), key@, number) == Some(doc_view(*final(doc))),
            Err(e) => with_number(doc_view(*old(doc)), key@, number) is None && e@.kind
                is InvalidArgument && *final(doc) == *old(doc),
        },
{
    match number {
        Some(n) => {
            if n <= 0x7fff_ffff_ffff_ffff {
                doc_insert(doc, key, bson_int64(n as i64));
                Ok(())
            } else {
                Err(Error::invalid_argument("number exceeds the range of a 64-bit integer"))
            }
        },
        None => Ok(()),
    }
}

impl CreateCollectionOptions {
    /// The fields that the options add to the command body: `capped`,
    /// `size`, `max` and `writeConcern`, each only where it is set. `None`
    /// where a part is out of the range of the wire.
    pub open spec fn fields(&self) -> Option<Fields> {
        let capped = with_flag(Fields::empty(), "capped"@, self.capped);
        match with_number(capped, "size"@, self.size) {
            Some(sized) => match with_number(sized, "max"@, self.max) {
                Some(bounded) => with_write_concern(bounded, self.write_concern),
                None => None,
            },
            None => None,
        }
    }

    /// Options with nothing set.
    pub fn new() -> (r: CreateCollectionOptions)
        ensures
            r.capped is None,
            r.size is None,
            r.max is None,
            r.write_concern is None,
    {
        CreateCollectionOptions { capped: None, size: None, max: None, write_concern: None }
    }

    /// The wire form of the options; an argument error where a part is out
    /// of the range of the wire.
    pub fn to_bson(&self) -> (r: Result<bson::Bson, Error>)
        ensures
            match r {
                Ok(b) => self.fields() matches Some(f) && bson_view(b) == Value::Document(f),
                Err(e) => self.fields() is None && e@.kind is InvalidArgument,
            },
    {
        let mut d = doc_new();
        if let Some(capped) = self.capped {
            doc_insert(&mut d, "capped", bson_bool(capped));
        }
        match add_number(&mut d, "size", self.size) {
            Ok(_) => {},
            Err(e) => {
                return Err(e);
            },
        }
        match add_number(&mut d, "max", self.max) {
            Ok(_) => {},
            Err(e) => {
                return Err(e);
            },
        }
        match add_write_concern(&mut d, self.write_concern.as_ref()) {
            Ok(_) => Ok(bson_document(d)),
            Err(e) => Err(e),
        }
    }
}

/// The options with an empty write concern dropped.
pub open spec fn normalized(options: Option<CreateCollectionOptions>) -> Option<
    CreateCollectionOptions,
> {
    match options {
        Some(o) => Some(
            CreateCollectionOptions {
                capped: o.capped,
                size: o.size,
                max: o.max,
                write_concern: match o.write_concern {
                    Some(w) => if w.empty() {
                        None
                    } else {
                        Some(w)
                    },
                    None => None,
                },
            },
        ),
        None => None,
    }
}

/// The creation of a collection.
#[derive(Debug)]
pub struct Create {
    pub ns: Namespace,
    pub options: Option<CreateCollectionOptions>,
}

impl Create {
    /// The body of the command: the collection under `create`, with the
    /// options merged in. `None` where an option is out of the range of the
    /// wire.
    pub open spec fn body(&self) -> Option<Fields> {
        let base = seq![("create"@, Value::String(self.ns.coll@))];
        match normalized(self.options) {
            Some(o) => match o.fields() {
                Some(f) => Some(merged(base, f)),
                None => None,
            },
            None => Some(base),
        }
    }

    /// The creation of the collection `ns`.
    pub fn new(ns: Namespace, options: Option<CreateCollectionOptions>) -> (r: Create)
        ensures
            r.ns == ns,
            r.options == options,
    {
        Create { ns, options }
    }
}

impl Operation for Create {
    type O = ();

    open spec fn command_name(&self) -> Seq<char> {
        "create"@
    }

    open spec fn target_db(&self) -> Seq<char> {
        self.ns.db@
    }

    open spec fn write_concern_spec(&self) -> Option<WriteConcern> {
        match self.options {
            Some(o) => o.write_concern,
            None => None,
        }
    }

    /// The create command with the options merged in. An empty write
    /// concern is dropped from the options first. Building fails only where
    /// an option is out of the range of the wire.
    fn build(&mut self, description: &StreamDescription) -> (r: Result<Command, Error>)
        ensures
            final(self).ns == old(self).ns,
            final(self).options == normalized(old(self).options),
            match r {
                Ok(cmd) => old(self).body() == Some(doc_view(cmd.body)) && cmd.name@ == "create"@
                    && cmd.read_concern is None,
                Err(e) => old(self).body() is None && e@.kind is InvalidArgument,
            },
    {
        let mut body = doc_single("create", bson_string(self.ns.coll.as_str()));
        assert(doc_view(body) =~= seq![("create"@, Value::String(self.ns.coll@))]);
        let options = match self.options.take() {
            Some(o) => Some(
                CreateCollectionOptions {
                    capped: o.capped,
                    size: o.size,
                    max: o.max,
                    write_concern: remove_empty_write_concern(o.write_concern),
                },
            ),
            None => None,
        };
        self.options = options;
        if let Some(options) = &self.options {
            match options.to_bson() {
                Ok(b) => match append_options(&mut body, Some(&b)) {
                    Ok(_) => {},
                    Err(e) => {
                        return Err(e);
                    },
                },
                Err(e) => {
                    return Err(e);
                },
            }
        }
        proof {
            reveal_strlit("create");
            assert("create"@.len() == 6);
        }
        Ok(Command::new("create".to_string(), self.ns.db.clone(), body))
    }

    /// Succeeds unless the reply is malformed or holds a write-concern
    /// error.
    fn handle_response(&self, response: &RawCommandResponse, description: &StreamDescription) -> (r:
        Result<(), Error>)
        ensures
            acknowledged(decoded(response.raw@), r),
    {
        match response.body() {
            Ok(reply) => handle_acknowledgment(&reply),
            Err(e) => Err(e),
        }
    }

    fn write_concern(&self) -> (r: Option<&WriteConcern>) {
        match &self.options {
            Some(o) => o.write_concern.as_ref(),
            None => None,
        }
    }

    fn name(&self) -> (r: &str) {
        "create"
    }
}

} // verus!
