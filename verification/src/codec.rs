//! The JSON codec, as far as this library uses it: the encoding of a
//! partition key as an array of one element.
use vstd::prelude::*;

verus! {

/// `serde_json::Error`, carried through as an opaque value.
#[verifier::external_type_specification]
#[verifier::external_body]
pub struct ExJsonError(serde_json::Error);

/// The partition key could not be encoded.
#[derive(Debug)]
pub struct SerializationError {
    /// What the codec reported.
    pub source: serde_json::Error,
}

/// Text that opens with `[` and closes with `]`, as every JSON array does.
pub open spec fn is_bracketed(text: Seq<char>) -> bool {
    text.len() >= 2 && text.first() == '[' && text.last() == ']'
}

/// Calls `serde_json::to_string` on the array whose one element is `key`.
///
/// Trusted, from the source of `serde_json`: where the call succeeds, the
/// text is what the compact formatter wrote for a sequence, an opening
/// bracket, then whatever the key's own encoding wrote, then a closing
/// bracket. Whether it succeeds, and what stands between the brackets, is
/// up to the key's type, so nothing is said of either.
#[verifier::external_body]
pub(crate) fn to_json_array<T: serde::Serialize>(key: T) -> (r: Result<String, serde_json::Error>)
    ensures
        r matches Ok(text) ==> is_bracketed(text@),
{
    serde_json::to_string(&[key])
}

} // verus!
