//! Durations as whole milliseconds.

use vstd::prelude::*;
use std::time::Duration;
use crate::document::{bson_int32, bson_int64, bson_view, Value};
use crate::error::Error;

verus! {

/// The whole milliseconds that `Duration::as_millis` gives for `d`.
pub uninterp spec fn millis(d: Duration) -> nat;

/// `Duration::as_millis`: the duration in whole milliseconds.
#[verifier::external_body]
pub(crate) fn duration_as_millis(d: &Duration) -> (r: u128)
    ensures
        r == millis(*d),
{
    d.as_millis()
}

/// The element that carries a number of milliseconds on the wire: a 32-bit
/// integer where it fits, else a 64-bit integer, and nothing where the
/// number exceeds both.
pub open spec fn millis_value(ms: nat) -> Option<Value> {
    if ms <= i32::MAX {
        Some(Value::Int32(ms as i32))
    } else if ms <= i64::MAX {
        Some(Value::Int64(ms as i64))
    } else {
        None
    }
}

/// The wire element for a number of milliseconds; an argument error where
/// the number fits no wire integer.
pub fn millis_element(ms: u128) -> (r: Result<bson::Bson, Error>)
    ensures
        match r {
            Ok(b) => millis_value(ms as nat) == Some(bson_view(b)),
            Err(e) => millis_value(ms as nat) is None && e@.kind is InvalidArgument,
        },
{
    if ms <= 0x7fff_ffff {
        Ok(bson_int32(ms as i32))
    } else if ms <= 0x7fff_ffff_ffff_ffff {
        Ok(bson_int64(ms as i64))
    } else {
        Err(Error::invalid_argument("duration exceeds the range of a 64-bit integer"))
    }
}

/// The wire element for a duration, in whole milliseconds.
pub fn duration_element(d: &Duration) -> (r: Result<bson::Bson, Error>)
    ensures
        match r {
            Ok(b) => millis_value(millis(*d)) == Some(bson_view(b)),
            Err(e) => millis_value(millis(*d)) is None && e@.kind is InvalidArgument,
        },
{
    millis_element(duration_as_millis(d))
}

} // verus!
