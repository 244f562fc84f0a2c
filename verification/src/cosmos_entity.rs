//! Records with a partition key, and the header that carries it.
use http::request::Builder;
use vstd::prelude::*;
use vstd::utf8::encode_utf8;

use crate::codec::{is_bracketed, to_json_array, SerializationError};
use crate::headers::{
    lemma_partition_key_header_is_plain, partition_key_header, HEADER_DOCUMENTDB_PARTITIONKEY,
};
use crate::request::{
    builder_failed, builder_headers, builder_target, has_room, header_set, header_value,
    is_header_value, set_header, values_of,
};

verus! {

/// A record of the store. Every record type implements it, by handing out
/// the value by which the store partitions its records. The functions that
/// encode the key ask that its type can be serialized.
pub trait CosmosEntity<'a, T: 'a> {
    /// The record's partition key.
    fn partition_key(&'a self) -> T;
}

/// How a builder stands to the one it was made from by setting the
/// partition key header to `value`.
pub open spec fn partition_key_set(before: Builder, value: Seq<u8>, after: Builder) -> bool {
    header_set(before, partition_key_header(), value, after)
}

/// Sets the partition key header to `partition_key_serialized` as it is, in
/// place of whatever the header held. The text is not looked at: that it is
/// a JSON array of one element is up to the caller.
pub fn add_as_partition_key_header_serialized(
    partition_key_serialized: &str,
    builder: Builder,
) -> (r: Builder)
    ensures
        partition_key_set(builder, encode_utf8(partition_key_serialized@), r),
{
    proof {
        lemma_partition_key_header_is_plain();
    }
    set_header(builder, HEADER_DOCUMENTDB_PARTITIONKEY, partition_key_serialized)
}

/// Carries the outcome of encoding a partition key on to the request: the
/// text becomes the partition key header as it is, the codec's error comes
/// back as the library's own.
pub fn add_serialization_outcome(
    outcome: Result<String, serde_json::Error>,
    builder: Builder,
) -> (r: Result<Builder, SerializationError>)
    ensures
        match outcome {
            Ok(text) => r is Ok && partition_key_set(builder, encode_utf8(text@), r->Ok_0),
            Err(e) => r is Err && r->Err_0.source == e,
        },
{
    match outcome {
        Ok(text) => Ok(add_as_partition_key_header_serialized(text.as_str(), builder)),
        Err(e) => Err(SerializationError { source: e }),
    }
}

/// A builder that came of `before` by setting the partition key header to
/// some text in brackets.
pub open spec fn carries_key_array(before: Builder, text: Seq<char>, after: Builder) -> bool {
    is_bracketed(text) && partition_key_set(before, encode_utf8(text), after)
}

/// Encodes the record's partition key as a JSON array of one element and
/// sets the partition key header to that text.
///
/// Whether the key can be encoded is up to its type. Where it can, the
/// builder that comes back carries a text in brackets; where it cannot, the
/// codec's error comes back and no builder.
pub fn add_as_partition_key_header<'a, T: serde::Serialize + 'a, P: CosmosEntity<'a, T> + 'a>(
    pk: &'a P,
    builder: Builder,
) -> (r: Result<Builder, SerializationError>)
    ensures
        r matches Ok(after) ==> exists|text: Seq<char>| #[trigger]
            carries_key_array(builder, text, after),
{
    // The store reads the key from an array, though it takes one key only.
    let outcome = to_json_array(pk.partition_key());
    let ghost encoded = outcome;
    let r = add_serialization_outcome(outcome, builder);
    proof {
        if let Ok(text) = encoded {
            assert(carries_key_array(builder, text@, r->Ok_0));
        }
    }
    r
}

/// A text that was set without error is the partition key header, byte for
/// byte: it is the header's only value and what a lookup of the header
/// yields, whatever the header held before. No other header is touched, and
/// the method, the URI and the version of the request stay.
pub proof fn lemma_set_text_is_kept(before: Builder, text: Seq<char>, after: Builder)
    requires
        partition_key_set(before, encode_utf8(text), after),
        !builder_failed(after),
    ensures
        values_of(builder_headers(after), partition_key_header()) == seq![encode_utf8(text)],
        header_value(builder_headers(after), partition_key_header()) == Some(encode_utf8(text)),
        forall|other: Seq<char>|
            other != partition_key_header() ==> #[trigger] values_of(builder_headers(after), other)
                == values_of(builder_headers(before), other),
        builder_target(after) == builder_target(before),
{
}

/// Setting the same text a second time changes nothing: the headers and the
/// rest of the request are as the first call left them. The last write
/// wins, and nothing piles up.
pub proof fn lemma_second_call_changes_nothing(
    before: Builder,
    text: Seq<char>,
    once: Builder,
    twice: Builder,
)
    requires
        partition_key_set(before, encode_utf8(text), once),
        partition_key_set(once, encode_utf8(text), twice),
        !builder_failed(twice),
    ensures
        !builder_failed(once),
        builder_headers(twice) == builder_headers(once),
        builder_target(twice) == builder_target(once),
{
    assert(builder_headers(twice) =~= builder_headers(once));
}

/// Where one call is owed success, so is the next with the same text: a
/// sound builder, a well-formed text and room beside the partition key
/// header are all that either call needs.
pub proof fn lemma_second_call_succeeds(
    before: Builder,
    text: Seq<char>,
    once: Builder,
    twice: Builder,
)
    requires
        partition_key_set(before, encode_utf8(text), once),
        partition_key_set(once, encode_utf8(text), twice),
        !builder_failed(before),
        is_header_value(encode_utf8(text)),
        has_room(builder_headers(before).remove(partition_key_header())),
    ensures
        !builder_failed(once),
        !builder_failed(twice),
        builder_headers(twice) == builder_headers(once),
{
    assert(builder_headers(once).remove(partition_key_header()) =~= builder_headers(before).remove(
        partition_key_header(),
    ));
    assert(builder_headers(twice) =~= builder_headers(once));
}

/// A later text takes the place of an earlier one: after two calls the
/// headers are what the second call alone would have left.
pub proof fn lemma_last_write_wins(
    before: Builder,
    first: Seq<char>,
    second: Seq<char>,
    once: Builder,
    twice: Builder,
)
    requires
        partition_key_set(before, encode_utf8(first), once),
        partition_key_set(once, encode_utf8(second), twice),
        !builder_failed(twice),
    ensures
        builder_headers(twice) == builder_headers(before).insert(
            partition_key_header(),
            seq![encode_utf8(second)],
        ),
        builder_target(twice) == builder_target(before),
{
    assert(builder_headers(twice) =~= builder_headers(before).insert(
        partition_key_header(),
        seq![encode_utf8(second)],
    ));
}

} // verus!
