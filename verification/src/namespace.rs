//! Namespaces: a database name and a collection name.

use vstd::prelude::*;
use vstd::string::StringExecFns;
use crate::text::split_at_first_dot;

verus! {

/// The database and the collection that an operation addresses.
#[derive(Debug)]
pub struct Namespace {
    pub db: String,
    pub coll: String,
}

impl Clone for Namespace {
    fn clone(&self) -> (r: Self)
        ensures
            r == *self,
    {
        Namespace { db: self.db.clone(), coll: self.coll.clone() }
    }
}

/// Whether `text` is `db`, a dot and `coll`, the dot being the first in `text`.
pub open spec fn splits(text: Seq<char>, db: Seq<char>, coll: Seq<char>) -> bool {
    text == db + seq!['.'] + coll && !db.contains('.')
}

/// A text splits at its first dot in one way only.
pub proof fn lemma_splits_unique(
    text: Seq<char>,
    db1: Seq<char>,
    coll1: Seq<char>,
    db2: Seq<char>,
    coll2: Seq<char>,
)
    requires
        splits(text, db1, coll1),
        splits(text, db2, coll2),
    ensures
        db1 == db2,
        coll1 == coll2,
{
    let a = db1.len() as int;
    let b = db2.len() as int;
    assert(text[a] == '.');
    assert(text[b] == '.');
    if a < b {
        assert(db2[a] == text[a]);
        assert(db2.contains('.'));
    }
    if b < a {
        assert(db1[b] == text[b]);
        assert(db1.contains('.'));
    }
    assert(db1 =~= text.subrange(0, a));
    assert(db2 =~= text.subrange(0, b));
    assert(coll1 =~= text.subrange(a + 1, text.len() as int));
    assert(coll2 =~= text.subrange(b + 1, text.len() as int));
}

/// The database and collection names that a full name holds: what stands
/// before its first dot and what follows it. A text without a dot, or with
/// nothing after its first dot, holds none.
pub open spec fn namespace_of(text: Seq<char>) -> Option<(Seq<char>, Seq<char>)> {
    if exists|names: (Seq<char>, Seq<char>)| #[trigger]
        splits(text, names.0, names.1) && names.1.len() > 0 {
        Some(
            choose|names: (Seq<char>, Seq<char>)| #[trigger]
                splits(text, names.0, names.1) && names.1.len() > 0,
        )
    } else {
        None
    }
}

/// A text that splits into a database and a non-empty collection holds
/// exactly those two names.
pub proof fn lemma_namespace_of(text: Seq<char>, db: Seq<char>, coll: Seq<char>)
    requires
        splits(text, db, coll),
        coll.len() > 0,
    ensures
        namespace_of(text) == Some((db, coll)),
{
    assert(splits(text, (db, coll).0, (db, coll).1));
    let names = choose|names: (Seq<char>, Seq<char>)| #[trigger]
        splits(text, names.0, names.1) && names.1.len() > 0;
    lemma_splits_unique(text, db, coll, names.0, names.1);
}

/// The two names of an optional namespace.
pub open spec fn optional_names(ns: Option<Namespace>) -> Option<(Seq<char>, Seq<char>)> {
    match ns {
        Some(ns) => Some((ns.db@, ns.coll@)),
        None => None,
    }
}

impl Namespace {
    /// The full name: database, dot, collection.
    pub open spec fn full_name(&self) -> Seq<char> {
        self.db@ + seq!['.'] + self.coll@
    }

    /// The namespace of a collection in a database.
    pub fn new(db: &str, coll: &str) -> (r: Namespace)
        ensures
            r.db@ == db@,
            r.coll@ == coll@,
    {
        Namespace { db: db.to_string(), coll: coll.to_string() }
    }

    /// A namespace with both names empty.
    pub fn empty() -> (r: Namespace)
        ensures
            r.db@.len() == 0,
            r.coll@.len() == 0,
    {
        Namespace { db: String::new(), coll: String::new() }
    }

    /// Reads a full name: the database is what stands before the first dot,
    /// the collection all that follows it. A name without a dot, or with
    /// nothing after its first dot, is no namespace.
    pub fn parse(text: &str) -> (r: Option<Namespace>)
        ensures
            optional_names(r) == namespace_of(text@),
            match r {
                Some(ns) => splits(text@, ns.db@, ns.coll@) && ns.coll@.len() > 0,
                None => forall|db: Seq<char>, coll: Seq<char>| #[trigger]
                    splits(text@, db, coll) ==> coll.len() == 0,
            },
    {
        match split_at_first_dot(text) {
            Some((db, coll)) => {
                if coll.unicode_len() == 0 {
                    assert forall|d: Seq<char>, c: Seq<char>| #[trigger]
                        splits(text@, d, c) implies c.len() == 0 by {
                        lemma_splits_unique(text@, d, c, db@, coll@);
                    }
                    None
                } else {
                    proof {
                        lemma_namespace_of(text@, db@, coll@);
                    }
                    Some(Namespace { db: db.to_string(), coll: coll.to_string() })
                }
            },
            None => {
                assert forall|d: Seq<char>, c: Seq<char>| #[trigger]
                    splits(text@, d, c) implies c.len() == 0 by {
                    assert(text@[d.len() as int] == '.');
                    assert(text@.contains('.'));
                }
                None
            },
        }
    }

    /// The full name: database, dot, collection.
    pub fn to_full_name(&self) -> (r: String)
        ensures
            r@ == self.full_name(),
    {
        let name = self.db.clone().concat(".").concat(self.coll.as_str());
        proof {
            reveal_strlit(".");
            assert("."@ =~= seq!['.']);
        }
        name
    }
}

} // verus!
