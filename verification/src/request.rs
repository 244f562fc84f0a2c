//! The request builder of the `http` crate, as far as this library uses it:
//! a model of what a builder holds, the calls that take a header away and
//! append one, and the setting of a header that is made of the two.
use http::request::Builder;
use vstd::prelude::*;
use vstd::utf8::encode_utf8;

use crate::headers::is_plain_header_name;

verus! {

/// `http::request::Builder`, carried through as an opaque value.
#[verifier::external_type_specification]
#[verifier::external_body]
pub struct ExBuilder(http::request::Builder);

/// The headers that a builder holds: each name that has a value, in lower
/// case, with the bytes of its values in the order in which they were
/// appended.
pub uninterp spec fn builder_headers(builder: Builder) -> Map<Seq<char>, Seq<Seq<u8>>>;

/// Whether a builder has recorded an error. Such a builder has no headers to
/// look at, and building the request from it fails.
pub uninterp spec fn builder_failed(builder: Builder) -> bool;

/// The rest of the request that a builder describes: its method, its URI
/// and its protocol version, each as text.
pub uninterp spec fn builder_target(builder: Builder) -> (Seq<char>, Seq<char>, Seq<char>);

/// A byte that may stand in a header value: a tab, or anything from the space
/// upwards but the delete character.
pub open spec fn is_header_value_byte(b: u8) -> bool {
    (b >= 32 && b != 127) || b == 9
}

/// Bytes that a request takes as a header value.
pub open spec fn is_header_value(bytes: Seq<u8>) -> bool {
    forall|i: int| 0 <= i < bytes.len() ==> is_header_value_byte(#[trigger] bytes[i])
}

/// The number of distinct header names below which a builder never refuses
/// a header for want of room.
pub const ROOMY_HEADER_NAMES: usize = 6554;

/// Headers with room for one more, whatever its name.
pub open spec fn has_room(headers: Map<Seq<char>, Seq<Seq<u8>>>) -> bool {
    headers.dom().finite() && headers.dom().len() < ROOMY_HEADER_NAMES
}

/// The values of one header, oldest first; empty where the header is absent.
pub open spec fn values_of(headers: Map<Seq<char>, Seq<Seq<u8>>>, name: Seq<char>) -> Seq<Seq<u8>> {
    if headers.dom().contains(name) {
        headers[name]
    } else {
        Seq::empty()
    }
}

/// What a lookup of a header by its name yields: its oldest value.
pub open spec fn header_value(headers: Map<Seq<char>, Seq<Seq<u8>>>, name: Seq<char>) -> Option<
    Seq<u8>,
> {
    if values_of(headers, name).len() > 0 {
        Some(values_of(headers, name).first())
    } else {
        None
    }
}

/// The headers after one more value was appended to the header `name`.
pub open spec fn with_value(
    headers: Map<Seq<char>, Seq<Seq<u8>>>,
    name: Seq<char>,
    value: Seq<u8>,
) -> Map<Seq<char>, Seq<Seq<u8>>> {
    headers.insert(name, values_of(headers, name).push(value))
}

/// How a builder stands to the one it was made from by appending `value` to
/// the header `name`.
///
/// An error that the first builder held stays, and a value with a byte that
/// no header value may hold makes one. A builder that came out without error
/// holds the old headers and the new value behind the header's older ones,
/// and describes the same request otherwise. Where the first builder was
/// sound, the value is well formed and there was room, no error is made.
pub open spec fn header_appended(
    before: Builder,
    name: Seq<char>,
    value: Seq<u8>,
    after: Builder,
) -> bool {
    &&& builder_failed(before) ==> builder_failed(after)
    &&& !is_header_value(value) ==> builder_failed(after)
    &&& !builder_failed(after) ==> builder_headers(after) == with_value(
        builder_headers(before),
        name,
        value,
    )
    &&& !builder_failed(after) ==> builder_target(after) == builder_target(before)
    &&& (!builder_failed(before) && is_header_value(value) && has_room(builder_headers(before)))
        ==> !builder_failed(after)
}

/// How a builder stands to the one it was made from by setting the header
/// `name` to `value`.
///
/// An error that the first builder held stays, and a value with a byte that
/// no header value may hold makes one. A builder that came out without error
/// holds `value` as the header's only value, whatever the header held
/// before, every other header as it was, and describes the same request
/// otherwise. Where the first builder was sound, the value is well formed
/// and the other headers left room, no error is made.
pub open spec fn header_set(before: Builder, name: Seq<char>, value: Seq<u8>, after: Builder) -> bool {
    &&& builder_failed(before) ==> builder_failed(after)
    &&& !is_header_value(value) ==> builder_failed(after)
    &&& !builder_failed(after) ==> builder_headers(after) == builder_headers(before).insert(
        name,
        seq![value],
    )
    &&& !builder_failed(after) ==> builder_target(after) == builder_target(before)
    &&& (!builder_failed(before) && is_header_value(value) && has_room(
        builder_headers(before).remove(name),
    )) ==> !builder_failed(after)
}

/// Calls `http::request::Builder::header` with a name and a value given as
/// text.
///
/// Trusted, from the source of `http`: the call keeps an earlier error,
/// refuses a value that holds a control byte other than the tab, and
/// otherwise hands the pair to `HeaderMap::try_append`, which puts the value
/// behind those that the name already has and touches nothing but the
/// headers. A name of 1 to 64 lower-case letters, digits and hyphens is
/// always accepted and stored as it is. The map refuses an entry only when
/// its table, at most 32768 slots, would have to double, which it does at
/// one fifth load at the earliest: with fewer than 6554 names it accepts.
#[verifier::external_body]
pub(crate) fn append_header(builder: Builder, name: &str, value: &str) -> (r: Builder)
    requires
        is_plain_header_name(name@),
    ensures
        header_appended(builder, name@, encode_utf8(value@), r),
{
    builder.header(name, value)
}

/// Calls `http::request::Builder::headers_mut` and, on the map that it
/// yields, `http::HeaderMap::remove` with the name given as text.
///
/// Trusted, from the source of `http`: a builder that holds an error yields
/// no map and comes back as it is. On the map of a sound builder the call
/// takes away the name with all its values and leaves every other header,
/// and the rest of the builder, alone; it makes no error.
#[verifier::external_body]
pub(crate) fn without_header(builder: Builder, name: &str) -> (r: Builder)
    requires
        is_plain_header_name(name@),
    ensures
        builder_failed(r) == builder_failed(builder),
        !builder_failed(r) ==> builder_headers(r) == builder_headers(builder).remove(name@),
        !builder_failed(r) ==> builder_target(r) == builder_target(builder),
{
    let mut builder = builder;
    if let Some(headers) = builder.headers_mut() {
        headers.remove(name);
    }
    builder
}

/// Sets the header `name` to `value`: whatever the header held is taken
/// away, then the value is appended.
pub(crate) fn set_header(builder: Builder, name: &str, value: &str) -> (r: Builder)
    requires
        is_plain_header_name(name@),
    ensures
        header_set(builder, name@, encode_utf8(value@), r),
{
    let cleared = without_header(builder, name);
    let r = append_header(cleared, name, value);
    proof {
        let old_headers = builder_headers(builder);
        let bytes = encode_utf8(value@);
        if !builder_failed(r) {
            assert(values_of(old_headers.remove(name@), name@).push(bytes) =~= seq![bytes]);
            assert(builder_headers(r) =~= old_headers.insert(name@, seq![bytes]));
        }
    }
    r
}

} // verus!
