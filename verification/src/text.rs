//! Text helpers from `std` that Verus has no specification for.
//!
//! Each wrapper holds one `std` call; its contract is trusted, not proved.

use vstd::prelude::*;

verus! {

/// The text that `str::to_lowercase` gives for `s`.
pub uninterp spec fn lowercase(s: Seq<char>) -> Seq<char>;

/// `str::to_lowercase`: the lower-case form of `s`.
#[verifier::external_body]
pub(crate) fn to_lowercase(s: &str) -> (r: String)
    ensures
        r@ == lowercase(s@),
{
    s.to_lowercase()
}

/// `str::eq`: whether two strings hold the same characters.
#[verifier::external_body]
pub(crate) fn str_eq(a: &str, b: &str) -> (r: bool)
    ensures
        r == (a@ == b@),
{
    a == b
}

/// `str::split_once` at a dot: the text before the first dot and the text
/// after it, or `None` where `s` holds no dot.
#[verifier::external_body]
pub(crate) fn split_at_first_dot<'a>(s: &'a str) -> (r: Option<(&'a str, &'a str)>)
    ensures
        match r {
            Some((before, after)) => s@ == before@ + seq!['.'] + after@ && !before@.contains('.'),
            None => !s@.contains('.'),
        },
{
    s.split_once('.')
}

} // verus!
