//! Typed access to the fields of a decoded document.

use vstd::prelude::*;
use crate::document::{
    bson_as_array, bson_as_document, bson_as_str, bson_as_timestamp, bson_view, doc_clone, doc_get,
    doc_view, lookup, values_of, Fields, Value,
};
use crate::number::{get_int, get_u64, integer_of};

verus! {

/// The text of the field `key`, where the field is a string.
pub open spec fn text_at(fields: Fields, key: Seq<char>) -> Option<Seq<char>> {
    match lookup(fields, key) {
        Some(Value::String(s)) => Some(s),
        _ => None,
    }
}

/// The whole number that the field `key` stands for, where it stands for
/// one.
pub open spec fn integer_at(fields: Fields, key: Seq<char>) -> Option<int> {
    match lookup(fields, key) {
        Some(v) => integer_of(v),
        None => None,
    }
}

/// The fields of the field `key`, where the field is a document.
pub open spec fn document_at(fields: Fields, key: Seq<char>) -> Option<Fields> {
    match lookup(fields, key) {
        Some(Value::Document(d)) => Some(d),
        _ => None,
    }
}

/// The elements of the field `key`, where the field is an array.
pub open spec fn array_at(fields: Fields, key: Seq<char>) -> Option<Seq<Value>> {
    match lookup(fields, key) {
        Some(Value::Array(a)) => Some(a),
        _ => None,
    }
}

/// The two numbers of the field `key`, where the field is a timestamp.
pub open spec fn timestamp_at(fields: Fields, key: Seq<char>) -> Option<(u32, u32)> {
    match lookup(fields, key) {
        Some(Value::Timestamp { time, increment }) => Some((time, increment)),
        _ => None,
    }
}

/// The whole number of the field `key`, where it fits 32 signed bits.
pub open spec fn i32_at(fields: Fields, key: Seq<char>) -> Option<i32> {
    match integer_at(fields, key) {
        Some(n) => if i32::MIN <= n <= i32::MAX {
            Some(n as i32)
        } else {
            None
        },
        None => None,
    }
}

/// The whole number of the field `key`, where it fits 64 signed bits.
pub open spec fn i64_at(fields: Fields, key: Seq<char>) -> Option<i64> {
    match integer_at(fields, key) {
        Some(n) => if i64::MIN <= n <= i64::MAX {
            Some(n as i64)
        } else {
            None
        },
        None => None,
    }
}

/// The whole number of the field `key`, where it fits 64 unsigned bits.
pub open spec fn u64_at(fields: Fields, key: Seq<char>) -> Option<u64> {
    match integer_at(fields, key) {
        Some(n) => if 0 <= n <= u64::MAX {
            Some(n as u64)
        } else {
            None
        },
        None => None,
    }
}

/// An optional string field: absent, or a string. `None` where the field
/// is there and is no string.
pub open spec fn optional_text_at(fields: Fields, key: Seq<char>) -> Option<Option<Seq<char>>> {
    match lookup(fields, key) {
        None => Some(None),
        Some(Value::String(s)) => Some(Some(s)),
        Some(_) => None,
    }
}

/// An optional document field: absent, or a document. `None` where the
/// field is there and is no document.
pub open spec fn optional_document_at(fields: Fields, key: Seq<char>) -> Option<Option<Fields>> {
    match lookup(fields, key) {
        None => Some(None),
        Some(Value::Document(d)) => Some(Some(d)),
        Some(_) => None,
    }
}

/// An optional field that lists strings: absent, or an array of strings.
/// `None` where the field is there and is anything else.
pub open spec fn optional_texts_at(fields: Fields, key: Seq<char>) -> Option<
    Option<Seq<Seq<char>>>,
> {
    match lookup(fields, key) {
        None => Some(None),
        Some(Value::Array(a)) => match all_texts(a) {
            Some(texts) => Some(Some(texts)),
            None => None,
        },
        Some(_) => None,
    }
}

/// The fields of each element, where every element is a document.
pub open spec fn all_documents(elements: Seq<Value>) -> Option<Seq<Fields>> {
    if forall|i: int| 0 <= i < elements.len() ==> (#[trigger] elements[i]) is Document {
        Some(elements.map_values(|v: Value| v->Document_0))
    } else {
        None
    }
}

/// The text of each element, where every element is a string.
pub open spec fn all_texts(elements: Seq<Value>) -> Option<Seq<Seq<char>>> {
    if forall|i: int| 0 <= i < elements.len() ==> (#[trigger] elements[i]) is String {
        Some(elements.map_values(|v: Value| v->String_0))
    } else {
        None
    }
}

/// The fields of each document of a list.
pub open spec fn fields_of(docs: Seq<bson::Document>) -> Seq<Fields> {
    docs.map_values(|d: bson::Document| doc_view(d))
}

/// The text of the field `key`, where the field is a string.
pub fn text_field<'a>(d: &'a bson::Document, key: &str) -> (r: Option<&'a str>)
    ensures
        match r {
            Some(s) => text_at(doc_view(*d), key@) == Some(s@),
            None => text_at(doc_view(*d), key@) is None,
        },
{
    match doc_get(d, key) {
        Some(b) => bson_as_str(b),
        None => None,
    }
}

/// The whole number of the field `key`, where it fits 64 signed bits.
pub fn int_field(d: &bson::Document, key: &str) -> (r: Option<i64>)
    ensures
        r == match integer_at(doc_view(*d), key@) {
            Some(n) => if i64::MIN <= n <= i64::MAX {
                Some(n as i64)
            } else {
                None
            },
            None => None,
        },
{
    match doc_get(d, key) {
        Some(b) => get_int(b),
        None => None,
    }
}

/// The whole number of the field `key`, where it fits 64 unsigned bits.
pub fn u64_field(d: &bson::Document, key: &str) -> (r: Option<u64>)
    ensures
        r == match integer_at(doc_view(*d), key@) {
            Some(n) => if 0 <= n <= u64::MAX {
                Some(n as u64)
            } else {
                None
            },
            None => None,
        },
{
    match doc_get(d, key) {
        Some(b) => get_u64(b),
        None => None,
    }
}

/// The whole number of the field `key`, where it fits 32 signed bits.
pub fn i32_field(d: &bson::Document, key: &str) -> (r: Option<i32>)
    ensures
        r == match integer_at(doc_view(*d), key@) {
            Some(n) => if i32::MIN <= n <= i32::MAX {
                Some(n as i32)
            } else {
                None
            },
            None => None,
        },
{
    match int_field(d, key) {
        Some(n) => if -0x8000_0000 <= n && n <= 0x7fff_ffff {
            Some(n as i32)
        } else {
            None
        },
        None => None,
    }
}

/// An optional string field, copied: absent, or a string; `None` where the
/// field is there and is no string.
pub fn optional_text_field(d: &bson::Document, key: &str) -> (r: Option<Option<String>>)
    ensures
        match r {
            Some(s) => optional_text_at(doc_view(*d), key@) == Some(crate::error::optional_text(s)),
            None => optional_text_at(doc_view(*d), key@) is None,
        },
{
    match doc_get(d, key) {
        None => Some(None),
        Some(b) => match bson_as_str(b) {
            Some(s) => Some(Some(s.to_string())),
            None => None,
        },
    }
}

/// An optional document field, copied: absent, or a document; `None` where
/// the field is there and is no document.
pub fn optional_document_field(d: &bson::Document, key: &str) -> (r: Option<
    Option<bson::Document>,
>)
    ensures
        match r {
            Some(inner) => optional_document_at(doc_view(*d), key@) == Some(
                crate::error::optional_fields(inner),
            ),
            None => optional_document_at(doc_view(*d), key@) is None,
        },
{
    match doc_get(d, key) {
        None => Some(None),
        Some(b) => match bson_as_document(b) {
            Some(inner) => Some(Some(doc_clone(inner))),
            None => None,
        },
    }
}

/// An optional field that lists strings, copied: absent, or an array of
/// strings; `None` where the field is there and is anything else.
pub fn optional_texts_field(d: &bson::Document, key: &str) -> (r: Option<Option<Vec<String>>>)
    ensures
        match r {
            Some(Some(v)) => optional_texts_at(doc_view(*d), key@) == Some(
                Some(crate::error::texts(v@)),
            ),
            Some(None) => optional_texts_at(doc_view(*d), key@) == Some(
                None::<Seq<Seq<char>>>,
            ),
            None => optional_texts_at(doc_view(*d), key@) is None,
        },
{
    match doc_get(d, key) {
        None => Some(None),
        Some(b) => match bson_as_array(b) {
            Some(elements) => match texts_in(elements) {
                Some(v) => Some(Some(v)),
                None => None,
            },
            None => None,
        },
    }
}

/// The document of the field `key`, where the field is one.
pub fn document_field<'a>(d: &'a bson::Document, key: &str) -> (r: Option<&'a bson::Document>)
    ensures
        match r {
            Some(inner) => document_at(doc_view(*d), key@) == Some(doc_view(*inner)),
            None => document_at(doc_view(*d), key@) is None,
        },
{
    match doc_get(d, key) {
        Some(b) => bson_as_document(b),
        None => None,
    }
}

/// The elements of the field `key`, where the field is an array.
pub fn array_field<'a>(d: &'a bson::Document, key: &str) -> (r: Option<&'a Vec<bson::Bson>>)
    ensures
        match r {
            Some(elements) => array_at(doc_view(*d), key@) == Some(values_of(elements@)),
            None => array_at(doc_view(*d), key@) is None,
        },
{
    match doc_get(d, key) {
        Some(b) => bson_as_array(b),
        None => None,
    }
}

/// The two numbers of the field `key`, where the field is a timestamp.
pub fn timestamp_field(d: &bson::Document, key: &str) -> (r: Option<(u32, u32)>)
    ensures
        r == timestamp_at(doc_view(*d), key@),
{
    match doc_get(d, key) {
        Some(b) => bson_as_timestamp(b),
        None => None,
    }
}

/// Whether the document has a field `key`.
pub fn has_field(d: &bson::Document, key: &str) -> (r: bool)
    ensures
        r == (lookup(doc_view(*d), key@) is Some),
{
    doc_get(d, key).is_some()
}

/// Copies of the strings that the elements are, where every element is a
/// string.
pub fn texts_in(elements: &Vec<bson::Bson>) -> (r: Option<Vec<String>>)
    ensures
        match r {
            Some(strings) => all_texts(values_of(elements@)) == Some(
                crate::error::texts(strings@),
            ),
            None => all_texts(values_of(elements@)) is None,
        },
{
    let mut out: Vec<String> = Vec::new();
    let mut i: usize = 0;
    let ghost values = values_of(elements@);
    while i < elements.len()
        invariant
            i <= elements.len(),
            values == values_of(elements@),
            out@.len() == i,
            forall|j: int| 0 <= j < i ==> (#[trigger] values[j]) == Value::String(out@[j]@),
        decreases elements.len() - i,
    {
        match bson_as_str(&elements[i]) {
            Some(s) => {
                assert(values[i as int] == bson_view(elements@[i as int]));
                out.push(s.to_string());
            },
            None => {
                assert(values[i as int] == bson_view(elements@[i as int]));
                assert(!(values[i as int] is String));
                return None;
            },
        }
        i += 1;
    }
    assert(values.map_values(|v: Value| v->String_0) =~= crate::error::texts(out@));
    Some(out)
}

} // verus!
