//! The command envelope: what is sent to the server for one operation.

use vstd::prelude::*;
use crate::concern::ReadConcern;
use crate::document::{
    bson_document, bson_string, doc_clone, doc_get, doc_insert, doc_keys, doc_view, encode,
    encoded, has_key, upsert, Fields, Value,
};
use crate::error::{Error, ErrorKind, ErrorKindView};
use crate::text::{lowercase, str_eq, to_lowercase};

verus! {

/// Whether a lower-case command name is one of those whose payload may hold
/// credentials.
pub open spec fn is_sensitive(lower: Seq<char>) -> bool {
    ||| lower == "authenticate"@
    ||| lower == "saslstart"@
    ||| lower == "saslcontinue"@
    ||| lower == "getnonce"@
    ||| lower == "createuser"@
    ||| lower == "updateuser"@
    ||| lower == "copydbgetnonce"@
    ||| lower == "copydbsaslstart"@
    ||| lower == "copydb"@
}

/// Whether a lower-case command name is one of the handshake family.
pub open spec fn is_handshake(lower: Seq<char>) -> bool {
    lower == "hello"@ || lower == "ismaster"@
}

/// Whether a body is that of a handshake that authenticates speculatively:
/// its first field, lower-cased, names a handshake command, and it holds a
/// field `speculativeAuthenticate`.
pub open spec fn body_redacted(body: Fields) -> bool {
    &&& body.len() > 0
    &&& is_handshake(lowercase(body[0].0))
    &&& has_key(body, "speculativeAuthenticate"@)
}

/// Whether a command of this name and body is kept out of diagnostics.
pub open spec fn redacted(name: Seq<char>, body: Fields) -> bool {
    is_sensitive(lowercase(name)) || body_redacted(body)
}

/// Whether a command of this name and body may be compressed on the wire:
/// it is neither redacted nor a handshake.
pub open spec fn compressible(name: Seq<char>, body: Fields) -> bool {
    !redacted(name, body) && !is_handshake(lowercase(name))
}

/// Whether a lower-case command name is one of those whose payload may hold
/// credentials.
pub fn is_sensitive_name(lower: &str) -> (r: bool)
    ensures
        r == is_sensitive(lower@),
{
    str_eq(lower, "authenticate") || str_eq(lower, "saslstart") || str_eq(lower, "saslcontinue")
        || str_eq(lower, "getnonce") || str_eq(lower, "createuser") || str_eq(
        lower,
        "updateuser",
    ) || str_eq(lower, "copydbgetnonce") || str_eq(lower, "copydbsaslstart") || str_eq(
        lower,
        "copydb",
    )
}

/// Whether a lower-case command name is one of the handshake family.
pub fn is_handshake_name(lower: &str) -> (r: bool)
    ensures
        r == is_handshake(lower@),
{
    str_eq(lower, "hello") || str_eq(lower, "ismaster")
}

/// Whether a body with this first key in lower case, and with or without a
/// speculative-authentication field, is that of a redacted handshake.
pub fn handshake_body_redacted(lower_first_key: Option<&str>, speculative: bool) -> (r: bool)
    ensures
        r == match lower_first_key {
            Some(key) => is_handshake(key@) && speculative,
            None => false,
        },
{
    match lower_first_key {
        Some(key) => is_handshake_name(key) && speculative,
        None => false,
    }
}

/// Whether a command body is kept out of diagnostics on its own account.
pub fn body_should_redact(body: &bson::Document) -> (r: bool)
    ensures
        r == body_redacted(doc_view(*body)),
{
    let keys = doc_keys(body);
    let speculative = doc_get(body, "speculativeAuthenticate").is_some();
    if keys.len() == 0 {
        handshake_body_redacted(None, speculative)
    } else {
        let lower = to_lowercase(keys[0].as_str());
        handshake_body_redacted(Some(lower.as_str()), speculative)
    }
}

/// A command as it goes to the server: its name, the database it is run
/// against, and its body.
///
/// The read concern, where one is set, travels beside the body.
#[derive(Debug)]
pub struct Command {
    pub name: String,
    pub target_db: String,
    pub body: bson::Document,
    pub read_concern: Option<ReadConcern>,
}

/// The wire form of a command: the body, then the database under `$db`,
/// then the read concern, if any, under `readConcern`.
pub open spec fn wire_fields(body: Fields, target_db: Seq<char>, read_concern: Option<ReadConcern>)
    -> Fields {
    let tagged = upsert(body, "$db"@, Value::String(target_db));
    match read_concern {
        Some(rc) => upsert(tagged, "readConcern"@, Value::Document(rc.fields())),
        None => tagged,
    }
}

impl Command {
    /// The wire form of the command.
    pub open spec fn fields(&self) -> Fields {
        wire_fields(doc_view(self.body), self.target_db@, self.read_concern)
    }

    /// Whether the command has a name.
    pub open spec fn well_formed(&self) -> bool {
        self.name@.len() > 0
    }

    /// A command without a read concern.
    pub fn new(name: String, target_db: String, body: bson::Document) -> (r: Command)
        ensures
            r.name == name,
            r.target_db == target_db,
            r.body == body,
            r.read_concern is None,
    {
        Command { name, target_db, body, read_concern: None }
    }

    /// A command that reads, with the read concern to apply, if any.
    pub fn new_read(
        name: String,
        target_db: String,
        read_concern: Option<ReadConcern>,
        body: bson::Document,
    ) -> (r: Command)
        ensures
            r.name == name,
            r.target_db == target_db,
            r.body == body,
            r.read_concern == read_concern,
    {
        Command { name, target_db, body, read_concern }
    }

    /// The document that is sent: the wire form of the command.
    pub fn to_document(&self) -> (d: bson::Document)
        ensures
            doc_view(d) == self.fields(),
    {
        let mut d = doc_clone(&self.body);
        doc_insert(&mut d, "$db", bson_string(self.target_db.as_str()));
        if let Some(rc) = &self.read_concern {
            doc_insert(&mut d, "readConcern", bson_document(rc.to_document()));
        }
        d
    }

    /// The bytes that are sent: the encoding of the wire form. The encoder
    /// decides whether the command can be encoded; where it cannot, the
    /// error says so.
    pub fn serialize(&self) -> (r: Result<Vec<u8>, Error>)
        ensures
            match r {
                Ok(bytes) => encoded(self.fields()) == Some(bytes@),
                Err(e) => encoded(self.fields()) is None && e@.kind is BsonSerialization
                    && e@.labels.len() == 0,
            },
    {
        let d = self.to_document();
        finish_serialization(encode(&d))
    }

    /// Whether the command is kept out of diagnostics: its lower-cased name
    /// is sensitive, or its body is a handshake that authenticates
    /// speculatively.
    pub fn should_redact(&self) -> (r: bool)
        ensures
            r == redacted(self.name@, doc_view(self.body)),
    {
        let name = to_lowercase(self.name.as_str());
        is_sensitive_name(name.as_str()) || body_should_redact(&self.body)
    }

    /// Whether the command may be compressed on the wire.
    pub fn should_compress(&self) -> (r: bool)
        ensures
            r == compressible(self.name@, doc_view(self.body)),
    {
        let name = to_lowercase(self.name.as_str());
        !is_sensitive_name(name.as_str()) && !body_should_redact(&self.body) && !is_handshake_name(
            name.as_str(),
        )
    }
}

/// What serializing gives for each outcome of the encoder: its bytes, or a
/// serialization error with its message.
pub fn finish_serialization(outcome: Result<Vec<u8>, String>) -> (r: Result<Vec<u8>, Error>)
    ensures
        match outcome {
            Ok(bytes) => r == Ok::<Vec<u8>, Error>(bytes),
            Err(message) => r matches Err(e) && e@.kind == (ErrorKindView::BsonSerialization {
                message: message@,
            }) && e@.labels.len() == 0,
        },
{
    match outcome {
        Ok(bytes) => Ok(bytes),
        Err(message) => Err(Error::new(ErrorKind::BsonSerialization { message }, None)),
    }
}

/// A command whose lower-cased name is sensitive is redacted whatever its
/// body holds, and is never compressed.
pub proof fn lemma_sensitive_name_redacted(name: Seq<char>, body: Fields)
    requires
        is_sensitive(lowercase(name)),
    ensures
        redacted(name, body),
        !compressible(name, body),
{
}

/// No handshake name is a sensitive name.
pub proof fn lemma_handshake_not_sensitive(lower: Seq<char>)
    requires
        is_handshake(lower),
    ensures
        !is_sensitive(lower),
{
    reveal_strlit("hello");
    reveal_strlit("ismaster");
    reveal_strlit("authenticate");
    reveal_strlit("saslstart");
    reveal_strlit("saslcontinue");
    reveal_strlit("getnonce");
    reveal_strlit("createuser");
    reveal_strlit("updateuser");
    reveal_strlit("copydbgetnonce");
    reveal_strlit("copydbsaslstart");
    reveal_strlit("copydb");
    assert("hello"@.len() == 5);
    assert("ismaster"@.len() == 8);
    assert("ismaster"@[0] == 'i');
    assert("authenticate"@.len() == 12);
    assert("saslstart"@.len() == 9);
    assert("saslcontinue"@.len() == 12);
    assert("getnonce"@.len() == 8);
    assert("getnonce"@[0] == 'g');
    assert("createuser"@.len() == 10);
    assert("updateuser"@.len() == 10);
    assert("copydbgetnonce"@.len() == 14);
    assert("copydbsaslstart"@.len() == 15);
    assert("copydb"@.len() == 6);
}

/// A handshake command is redacted exactly when its body holds a
/// speculative-authentication field.
pub proof fn lemma_handshake_redaction(name: Seq<char>, body: Fields)
    requires
        body.len() > 0,
        is_handshake(lowercase(body[0].0)),
        is_handshake(lowercase(name)),
    ensures
        redacted(name, body) <==> has_key(body, "speculativeAuthenticate"@),
{
    lemma_handshake_not_sensitive(lowercase(name));
}

/// A handshake is never compressed, redacted or not.
pub proof fn lemma_handshake_uncompressed(name: Seq<char>, body: Fields)
    requires
        is_handshake(lowercase(name)),
    ensures
        !compressible(name, body),
{
}

} // verus!
