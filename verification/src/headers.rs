//! Header names of the store's wire protocol.
use vstd::prelude::*;

verus! {

/// The header that carries a request's partition key.
pub const HEADER_DOCUMENTDB_PARTITIONKEY: &'static str = "x-ms-documentdb-partitionkey";

/// The name of the partition key header, as a sequence of characters.
pub open spec fn partition_key_header() -> Seq<char> {
    "x-ms-documentdb-partitionkey"@
}

/// The characters that the library's header names are made of: lower-case
/// letters, digits and the hyphen.
pub open spec fn is_plain_name_char(c: char) -> bool {
    ('a' <= c && c <= 'z') || ('0' <= c && c <= '9') || c == '-'
}

/// A header name that a request takes letter for letter: between 1 and 64
/// plain characters.
pub open spec fn is_plain_header_name(name: Seq<char>) -> bool {
    &&& 1 <= name.len() <= 64
    &&& forall|i: int| 0 <= i < name.len() ==> is_plain_name_char(#[trigger] name[i])
}

/// The partition key header's name is a plain header name.
pub proof fn lemma_partition_key_header_is_plain()
    ensures
        is_plain_header_name(partition_key_header()),
{
    reveal_strlit("x-ms-documentdb-partitionkey");
}

} // verus!
