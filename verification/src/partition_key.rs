//! The partition key capability under its second name.
use http::request::Builder;
use vstd::prelude::*;

use crate::codec::SerializationError;
use crate::cosmos_entity::{add_as_partition_key_header, carries_key_array};
pub use crate::cosmos_entity::CosmosEntity;

verus! {

/// Encodes the record's partition key as a JSON array of one element and
/// sets the partition key header of `builder` to that text: the same as
/// `add_as_partition_key_header`.
pub fn add_as_header_to_builder<'a, T: serde::Serialize + 'a, P: CosmosEntity<'a, T> + 'a>(
    pk: &'a P,
    builder: Builder,
) -> (r: Result<Builder, SerializationError>)
    ensures
        r matches Ok(after) ==> exists|text: Seq<char>| #[trigger]
            carries_key_array(builder, text, after),
{
    add_as_partition_key_header(pk, builder)
}

} // verus!
