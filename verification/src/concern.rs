//! Read and write concerns: the consistency asked of reads and the
//! acknowledgment asked of writes.

use vstd::prelude::*;
use std::time::Duration;
use crate::document::{
    bson_bool, bson_int32, bson_string, bson_view, doc_insert, doc_new, doc_view, upsert, Fields,
    Value,
};
use crate::error::Error;
use crate::time::{duration_element, millis, millis_value};

verus! {

/// The isolation level of a read.
#[derive(Debug)]
pub enum ReadConcernLevel {
    Local,
    Majority,
    Linearizable,
    Available,
    Snapshot,
    /// A level that this crate has no name for, under its wire name.
    Custom(String),
}

impl ReadConcernLevel {
    /// The wire name of the level.
    pub open spec fn name(&self) -> Seq<char> {
        match self {
            ReadConcernLevel::Local => "local"@,
            ReadConcernLevel::Majority => "majority"@,
            ReadConcernLevel::Linearizable => "linearizable"@,
            ReadConcernLevel::Available => "available"@,
            ReadConcernLevel::Snapshot => "snapshot"@,
            ReadConcernLevel::Custom(s) => s@,
        }
    }

    /// The wire name of the level.
    pub fn as_str(&self) -> (r: &str)
        ensures
            r@ == self.name(),
    {
        match self {
            ReadConcernLevel::Local => "local",
            ReadConcernLevel::Majority => "majority",
            ReadConcernLevel::Linearizable => "linearizable",
            ReadConcernLevel::Available => "available",
            ReadConcernLevel::Snapshot => "snapshot",
            ReadConcernLevel::Custom(s) => s.as_str(),
        }
    }
}

impl Clone for ReadConcernLevel {
    fn clone(&self) -> (r: Self)
        ensures
            r == *self,
    {
        match self {
            ReadConcernLevel::Local => ReadConcernLevel::Local,
            ReadConcernLevel::Majority => ReadConcernLevel::Majority,
            ReadConcernLevel::Linearizable => ReadConcernLevel::Linearizable,
            ReadConcernLevel::Available => ReadConcernLevel::Available,
            ReadConcernLevel::Snapshot => ReadConcernLevel::Snapshot,
            ReadConcernLevel::Custom(s) => ReadConcernLevel::Custom(s.clone()),
        }
    }
}

/// The consistency and isolation asked of a read.
#[derive(Debug)]
pub struct ReadConcern {
    pub level: ReadConcernLevel,
}

impl Clone for ReadConcern {
    fn clone(&self) -> (r: Self)
        ensures
            r == *self,
    {
        ReadConcern { level: self.level.clone() }
    }
}

impl ReadConcern {
    /// The fields under which the concern travels: its level alone.
    pub open spec fn fields(&self) -> Fields {
        seq![("level"@, Value::String(self.level.name()))]
    }

    /// A read concern of the given level.
    pub fn new(level: ReadConcernLevel) -> (r: ReadConcern)
        ensures
            r.level == level,
    {
        ReadConcern { level }
    }

    /// The document under which the concern travels.
    pub fn to_document(&self) -> (d: bson::Document)
        ensures
            doc_view(d) == self.fields(),
    {
        let mut d = doc_new();
        doc_insert(&mut d, "level", bson_string(self.level.as_str()));
        d
    }
}

/// How many servers must acknowledge a write.
#[derive(Debug)]
pub enum Acknowledgment {
    /// This number of servers; zero asks for no acknowledgment at all.
    Nodes(u32),
    /// Most of the voting members.
    Majority,
    /// The members that a named server-side rule selects.
    Custom(String),
}

impl Clone for Acknowledgment {
    fn clone(&self) -> (r: Self)
        ensures
            r == *self,
    {
        match self {
            Acknowledgment::Nodes(n) => Acknowledgment::Nodes(*n),
            Acknowledgment::Majority => Acknowledgment::Majority,
            Acknowledgment::Custom(s) => Acknowledgment::Custom(s.clone()),
        }
    }
}

impl Acknowledgment {
    /// The element under which the acknowledgment travels, where it has one:
    /// a node count must fit a 32-bit signed integer.
    pub open spec fn value(&self) -> Option<Value> {
        match self {
            Acknowledgment::Nodes(n) => if *n <= i32::MAX {
                Some(Value::Int32(*n as i32))
            } else {
                None
            },
            Acknowledgment::Majority => Some(Value::String("majority"@)),
            Acknowledgment::Custom(s) => Some(Value::String(s@)),
        }
    }

    /// The element under which the acknowledgment travels; an argument error
    /// for a node count beyond the range of a 32-bit signed integer.
    pub fn to_bson(&self) -> (r: Result<bson::Bson, Error>)
        ensures
            match r {
                Ok(b) => self.value() == Some(bson_view(b)),
                Err(e) => self.value() is None && e@.kind is InvalidArgument,
            },
    {
        match self {
            Acknowledgment::Nodes(n) => {
                if *n <= 0x7fff_ffff {
                    Ok(bson_int32(*n as i32))
                } else {
                    Err(Error::invalid_argument("node count exceeds the range of a 32-bit integer"))
                }
            },
            Acknowledgment::Majority => Ok(bson_string("majority")),
            Acknowledgment::Custom(s) => Ok(bson_string(s.as_str())),
        }
    }
}

/// The acknowledgment asked of a write.
#[derive(Debug)]
pub struct WriteConcern {
    /// How many servers must acknowledge.
    pub w: Option<Acknowledgment>,
    /// How long the server may wait for them.
    pub w_timeout: Option<Duration>,
    /// Whether the write must reach the on-disk journal first.
    pub journal: Option<bool>,
}

impl Clone for WriteConcern {
    fn clone(&self) -> (r: Self)
        ensures
            r == *self,
    {
        WriteConcern {
            w: match &self.w {
                Some(w) => Some(w.clone()),
                None => None,
            },
            w_timeout: self.w_timeout,
            journal: self.journal,
        }
    }
}

impl WriteConcern {
    /// Whether the server is asked to acknowledge at all: it is, unless zero
    /// nodes are asked for and no journaling is required.
    pub open spec fn acknowledged(&self) -> bool {
        self.w != Some(Acknowledgment::Nodes(0)) || self.journal == Some(true)
    }

    /// Whether no part of the concern is set.
    pub open spec fn empty(&self) -> bool {
        self.w is None && self.w_timeout is None && self.journal is None
    }

    /// The fields after the acknowledgment is written, where it can be.
    pub open spec fn with_w(&self, base: Fields) -> Option<Fields> {
        match self.w {
            Some(w) => match w.value() {
                Some(v) => Some(upsert(base, "w"@, v)),
                None => None,
            },
            None => Some(base),
        }
    }

    /// The fields after the timeout is written, where it can be.
    pub open spec fn with_timeout(&self, base: Fields) -> Option<Fields> {
        match self.w_timeout {
            Some(t) => match millis_value(millis(t)) {
                Some(v) => Some(upsert(base, "wtimeout"@, v)),
                None => None,
            },
            None => Some(base),
        }
    }

    /// The fields after the journaling flag is written.
    pub open spec fn with_journal(&self, base: Fields) -> Fields {
        match self.journal {
            Some(j) => upsert(base, "j"@, Value::Boolean(j)),
            None => base,
        }
    }

    /// The fields under which the concern travels: `w`, `wtimeout` in
    /// milliseconds and `j`, each only where it is set. `None` where a part
    /// is out of the range of the wire.
    pub open spec fn fields(&self) -> Option<Fields> {
        match self.with_w(Fields::empty()) {
            Some(a) => match self.with_timeout(a) {
                Some(b) => Some(self.with_journal(b)),
                None => None,
            },
            None => None,
        }
    }

    /// Whether the server is asked to acknowledge the write.
    pub fn is_acknowledged(&self) -> (r: bool)
        ensures
            r == self.acknowledged(),
    {
        let unacknowledged = match &self.w {
            Some(Acknowledgment::Nodes(n)) => *n == 0,
            _ => false,
        };
        let journaled = match self.journal {
            Some(j) => j,
            None => false,
        };
        !unacknowledged || journaled
    }

    /// Whether no part of the concern is set.
    pub fn is_empty(&self) -> (r: bool)
        ensures
            r == self.empty(),
    {
        self.w.is_none() && self.w_timeout.is_none() && self.journal.is_none()
    }

    /// The document under which the concern travels; an argument error where
    /// a part is out of the range of the wire.
    pub fn to_document(&self) -> (r: Result<bson::Document, Error>)
        ensures
            match r {
                Ok(d) => self.fields() == Some(doc_view(d)),
                Err(e) => self.fields() is None && e@.kind is InvalidArgument,
            },
    {
        let mut d = doc_new();
        if let Some(w) = &self.w {
            match w.to_bson() {
                Ok(b) => doc_insert(&mut d, "w", b),
                Err(e) => {
                    return Err(e);
                },
            }
        }
        if let Some(t) = &self.w_timeout {
            match duration_element(t) {
                Ok(b) => doc_insert(&mut d, "wtimeout", b),
                Err(e) => {
                    return Err(e);
                },
            }
        }
        if let Some(j) = self.journal {
            doc_insert(&mut d, "j", bson_bool(j));
        }
        Ok(d)
    }
}

/// A write concern with nothing set says nothing: it is dropped.
pub fn remove_empty_write_concern(concern: Option<WriteConcern>) -> (r: Option<WriteConcern>)
    ensures
        r == match concern {
            Some(c) => if c.empty() {
                None
            } else {
                Some(c)
            },
            None => None,
        },
{
    match concern {
        Some(c) => if c.is_empty() {
            None
        } else {
            Some(c)
        },
        None => None,
    }
}

} // verus!
