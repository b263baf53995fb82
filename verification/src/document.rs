//! BSON documents as the rest of the crate sees them.
//!
//! Documents and values stay `bson::Document` and `bson::Bson`. Verus cannot
//! look inside them, so this module gives each a mathematical value
//! ([`doc_view`], [`bson_view`]) and wraps every `bson` function the crate
//! calls in a small function whose contract is stated over those values.
//! The contracts of the wrappers in this module are trusted, not proved.

use vstd::prelude::*;

verus! {

/// Makes `bson::Document` known to the verifier, as a type that it cannot
/// look into.
#[verifier::external_type_specification]
#[verifier::external_body]
pub struct ExDocument(bson::Document);

/// Makes `bson::Bson` known to the verifier, as a type that it cannot look
/// into.
#[verifier::external_type_specification]
#[verifier::external_body]
pub struct ExBson(bson::Bson);

/// The mathematical value of one BSON element, one variant for each kind of
/// element that `bson::Bson` has.
///
/// A double is held by its IEEE-754 bit pattern, so that no floating-point
/// arithmetic is needed to speak of it. Binary-like payloads are held as
/// their bytes.
#[verifier::ext_equal]
pub enum Value {
    Double(u64),
    String(Seq<char>),
    Array(Seq<Value>),
    Document(Seq<(Seq<char>, Value)>),
    Boolean(bool),
    Null,
    RegularExpression { pattern: Seq<char>, options: Seq<char> },
    JavaScriptCode(Seq<char>),
    JavaScriptCodeWithScope { code: Seq<char>, scope: Seq<(Seq<char>, Value)> },
    Int32(i32),
    Int64(i64),
    Timestamp { time: u32, increment: u32 },
    Binary { subtype: u8, bytes: Seq<u8> },
    ObjectId(Seq<u8>),
    DateTime(i64),
    Symbol(Seq<char>),
    Decimal128(Seq<u8>),
    Undefined,
    MaxKey,
    MinKey,
    DbPointer { namespace: Seq<char>, id: Seq<u8> },
}

/// The fields of a document, in the order in which the document iterates.
pub type Fields = Seq<(Seq<char>, Value)>;

/// What a `bson::Document` holds: its keys and values, in iteration order.
pub uninterp spec fn doc_view(d: bson::Document) -> Fields;

/// What a `bson::Bson` holds.
pub uninterp spec fn bson_view(b: bson::Bson) -> Value;

/// The bytes that `bson::to_vec` gives for a document with these fields, or
/// `None` where it reports an error.
pub uninterp spec fn encoded(fields: Seq<(Seq<char>, Value)>) -> Option<Seq<u8>>;

/// The fields of the document that `bson::from_slice` reads from these
/// bytes, or `None` where it reports an error.
pub uninterp spec fn decoded(bytes: Seq<u8>) -> Option<Seq<(Seq<char>, Value)>>;

/// Position of the first field named `key`, or `fields.len()` if there is none.
pub open spec fn index_of(fields: Fields, key: Seq<char>) -> int
    decreases fields.len(),
{
    if fields.len() == 0 {
        0
    } else if fields[0].0 == key {
        0
    } else {
        1 + index_of(fields.subrange(1, fields.len() as int), key)
    }
}

/// Whether some field is named `key`.
pub open spec fn has_key(fields: Fields, key: Seq<char>) -> bool {
    index_of(fields, key) < fields.len()
}

/// The value of the first field named `key`.
pub open spec fn lookup(fields: Fields, key: Seq<char>) -> Option<Value> {
    if has_key(fields, key) {
        Some(fields[index_of(fields, key)].1)
    } else {
        None
    }
}

/// The fields after `key` is set to `value`: an existing field keeps its
/// position and gets the new value, a new field goes to the end.
pub open spec fn upsert(fields: Fields, key: Seq<char>, value: Value) -> Fields {
    if has_key(fields, key) {
        fields.update(index_of(fields, key), (key, value))
    } else {
        fields.push((key, value))
    }
}

/// The fields of `base` after each field of `extra` is set in turn.
pub open spec fn merged(base: Fields, extra: Fields) -> Fields
    decreases extra.len(),
{
    if extra.len() == 0 {
        base
    } else {
        upsert(merged(base, extra.drop_last()), extra.last().0, extra.last().1)
    }
}

/// The values of a sequence of elements.
pub open spec fn values_of(elements: Seq<bson::Bson>) -> Seq<Value> {
    elements.map_values(|b: bson::Bson| bson_view(b))
}

/// The values of a sequence of documents, each as a document element.
pub open spec fn documents_of(docs: Seq<bson::Document>) -> Seq<Value> {
    docs.map_values(|d: bson::Document| Value::Document(doc_view(d)))
}

/// `Document::new`: a document without fields.
#[verifier::external_body]
pub(crate) fn doc_new() -> (d: bson::Document)
    ensures
        doc_view(d) == Fields::empty(),
{
    bson::Document::new()
}

/// `Document::insert`: sets `key` to `value`. A key that is already present
/// keeps its place in the document; a new key is appended.
#[verifier::external_body]
pub(crate) fn doc_insert(d: &mut bson::Document, key: &str, value: bson::Bson)
    ensures
        doc_view(*final(d)) == upsert(doc_view(*old(d)), key@, bson_view(value)),
{
    d.insert(key, value);
}

/// `Document::extend` with the fields of another document: each field of
/// `extra` is set in `d` in turn, as `Document::insert` sets it.
#[verifier::external_body]
pub(crate) fn doc_extend(d: &mut bson::Document, extra: bson::Document)
    ensures
        doc_view(*final(d)) == merged(doc_view(*old(d)), doc_view(extra)),
{
    d.extend(extra);
}

/// `Document::get`: the value of the field named `key`, if there is one.
#[verifier::external_body]
pub(crate) fn doc_get<'a>(d: &'a bson::Document, key: &str) -> (r: Option<&'a bson::Bson>)
    ensures
        match r {
            Some(b) => lookup(doc_view(*d), key@) == Some(bson_view(*b)),
            None => lookup(doc_view(*d), key@) is None,
        },
{
    d.get(key)
}

/// `Document::keys`: the keys in iteration order, each copied into a `String`.
#[verifier::external_body]
pub(crate) fn doc_keys(d: &bson::Document) -> (r: Vec<String>)
    ensures
        r@.len() == doc_view(*d).len(),
        forall|i: int| 0 <= i < r@.len() ==> (#[trigger] r@[i])@ == doc_view(*d)[i].0,
{
    d.keys().cloned().collect()
}

/// `Document::clone`: a copy that holds the same fields.
#[verifier::external_body]
pub(crate) fn doc_clone(d: &bson::Document) -> (r: bson::Document)
    ensures
        r == *d,
{
    d.clone()
}

/// `Bson::clone`: a copy that holds the same value.
#[verifier::external_body]
pub(crate) fn bson_clone(b: &bson::Bson) -> (r: bson::Bson)
    ensures
        r == *b,
{
    b.clone()
}

/// `Bson::from(&str)`: a string element.
#[verifier::external_body]
pub(crate) fn bson_string(s: &str) -> (b: bson::Bson)
    ensures
        bson_view(b) == Value::String(s@),
{
    bson::Bson::from(s)
}

/// `Bson::from(i32)`: a 32-bit integer element.
#[verifier::external_body]
pub(crate) fn bson_int32(n: i32) -> (b: bson::Bson)
    ensures
        bson_view(b) == Value::Int32(n),
{
    bson::Bson::from(n)
}

/// `Bson::from(i64)`: a 64-bit integer element.
#[verifier::external_body]
pub(crate) fn bson_int64(n: i64) -> (b: bson::Bson)
    ensures
        bson_view(b) == Value::Int64(n),
{
    bson::Bson::from(n)
}

/// `Bson::from(bool)`: a boolean element.
#[verifier::external_body]
pub(crate) fn bson_bool(flag: bool) -> (b: bson::Bson)
    ensures
        bson_view(b) == Value::Boolean(flag),
{
    bson::Bson::from(flag)
}

/// `Bson::from(Document)`: an embedded document.
#[verifier::external_body]
pub(crate) fn bson_document(d: bson::Document) -> (b: bson::Bson)
    ensures
        bson_view(b) == Value::Document(doc_view(d)),
{
    bson::Bson::from(d)
}

/// `Bson::from(Vec<Bson>)`: an array of the given elements, in order.
#[verifier::external_body]
pub(crate) fn bson_array(elements: Vec<bson::Bson>) -> (b: bson::Bson)
    ensures
        bson_view(b) == Value::Array(values_of(elements@)),
{
    bson::Bson::from(elements)
}

/// `Bson::from(Timestamp)`: a timestamp element of these two numbers,
/// seconds first.
#[verifier::external_body]
pub(crate) fn bson_timestamp(time: u32, increment: u32) -> (b: bson::Bson)
    ensures
        bson_view(b) == (Value::Timestamp { time, increment }),
{
    bson::Bson::from(bson::Timestamp { time, increment })
}

/// `Bson::as_str`: the text of a string element, `None` for any other kind.
#[verifier::external_body]
pub(crate) fn bson_as_str<'a>(b: &'a bson::Bson) -> (r: Option<&'a str>)
    ensures
        match r {
            Some(s) => bson_view(*b) == Value::String(s@),
            None => !(bson_view(*b) is String),
        },
{
    b.as_str()
}

/// `Bson::as_i32`: the number of a 32-bit integer element, `None` for any
/// other kind.
#[verifier::external_body]
pub(crate) fn bson_as_i32(b: &bson::Bson) -> (r: Option<i32>)
    ensures
        match r {
            Some(n) => bson_view(*b) == Value::Int32(n),
            None => !(bson_view(*b) is Int32),
        },
{
    b.as_i32()
}

/// `Bson::as_i64`: the number of a 64-bit integer element, `None` for any
/// other kind.
#[verifier::external_body]
pub(crate) fn bson_as_i64(b: &bson::Bson) -> (r: Option<i64>)
    ensures
        match r {
            Some(n) => bson_view(*b) == Value::Int64(n),
            None => !(bson_view(*b) is Int64),
        },
{
    b.as_i64()
}

/// `Bson::as_f64`, with the double handed out as its bit pattern: `None` for
/// any kind of element but a double.
#[verifier::external_body]
pub(crate) fn bson_as_double_bits(b: &bson::Bson) -> (r: Option<u64>)
    ensures
        match r {
            Some(bits) => bson_view(*b) == Value::Double(bits),
            None => !(bson_view(*b) is Double),
        },
{
    match b.as_f64() {
        Some(x) => Some(x.to_bits()),
        None => None,
    }
}

/// `Bson::as_document`: the embedded document, `None` for any other kind.
#[verifier::external_body]
pub(crate) fn bson_as_document<'a>(b: &'a bson::Bson) -> (r: Option<&'a bson::Document>)
    ensures
        match r {
            Some(d) => bson_view(*b) == Value::Document(doc_view(*d)),
            None => !(bson_view(*b) is Document),
        },
{
    b.as_document()
}

/// `Bson::as_array`: the elements of an array, `None` for any other kind.
#[verifier::external_body]
pub(crate) fn bson_as_array<'a>(b: &'a bson::Bson) -> (r: Option<&'a Vec<bson::Bson>>)
    ensures
        match r {
            Some(elements) => bson_view(*b) == Value::Array(values_of(elements@)),
            None => !(bson_view(*b) is Array),
        },
{
    b.as_array()
}

/// `Bson::as_timestamp`: the two numbers of a timestamp element, seconds
/// first, `None` for any other kind.
#[verifier::external_body]
pub(crate) fn bson_as_timestamp(b: &bson::Bson) -> (r: Option<(u32, u32)>)
    ensures
        match r {
            Some(t) => bson_view(*b) == (Value::Timestamp { time: t.0, increment: t.1 }),
            None => !(bson_view(*b) is Timestamp),
        },
{
    match b.as_timestamp() {
        Some(t) => Some((t.time, t.increment)),
        None => None,
    }
}

/// `bson::to_vec` on a document: the bytes of its wire form, or the text
/// of the error that the encoder reports.
#[verifier::external_body]
pub(crate) fn encode(d: &bson::Document) -> (r: Result<Vec<u8>, String>)
    ensures
        match r {
            Ok(bytes) => encoded(doc_view(*d)) == Some(bytes@),
            Err(_) => encoded(doc_view(*d)) is None,
        },
{
    match bson::to_vec(d) {
        Ok(bytes) => Ok(bytes),
        Err(e) => Err(e.to_string()),
    }
}

/// `bson::from_slice` into a document: the document that the bytes hold, or
/// the text of the error that the decoder reports.
#[verifier::external_body]
pub(crate) fn decode(bytes: &[u8]) -> (r: Result<bson::Document, String>)
    ensures
        match r {
            Ok(d) => decoded(bytes@) == Some(doc_view(d)),
            Err(_) => decoded(bytes@) is None,
        },
{
    match bson::from_slice(bytes) {
        Ok(d) => Ok(d),
        Err(e) => Err(e.to_string()),
    }
}

/// Whether no field is named `key`.
pub open spec fn absent(fields: Fields, key: Seq<char>) -> bool {
    forall|i: int| 0 <= i < fields.len() ==> (#[trigger] fields[i]).0 != key
}

/// Where no field has the key, looking it up finds nothing and setting it
/// appends a field.
pub proof fn lemma_absent(fields: Fields, key: Seq<char>, value: Value)
    requires
        absent(fields, key),
    ensures
        index_of(fields, key) == fields.len(),
        !has_key(fields, key),
        lookup(fields, key) is None,
        upsert(fields, key, value) == fields.push((key, value)),
    decreases fields.len(),
{
    if fields.len() > 0 {
        let rest = fields.subrange(1, fields.len() as int);
        assert(fields[0].0 != key);
        assert forall|i: int| 0 <= i < rest.len() implies (#[trigger] rest[i]).0 != key by {
            assert(rest[i] == fields[i + 1]);
        }
        lemma_absent(rest, key, value);
    }
}

/// Merging a single field is setting it; merging nothing changes nothing.
pub proof fn lemma_merged_one(base: Fields, key: Seq<char>, value: Value)
    ensures
        merged(base, Fields::empty()) == base,
        merged(base, seq![(key, value)]) == upsert(base, key, value),
{
    let one: Fields = seq![(key, value)];
    assert(one.drop_last() =~= Fields::empty());
    assert(one.last() == (key, value));
    assert(merged(base, one.drop_last()) == base);
}

/// A document with one field.
pub fn doc_single(key: &str, value: bson::Bson) -> (d: bson::Document)
    ensures
        doc_view(d) == seq![(key@, bson_view(value))],
{
    let mut d = doc_new();
    proof {
        lemma_absent(Fields::empty(), key@, bson_view(value));
    }
    doc_insert(&mut d, key, value);
    assert(doc_view(d) =~= seq![(key@, bson_view(value))]);
    d
}

} // verus!
