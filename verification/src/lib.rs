//! Partition keys for records kept in a partitioned document store.
//!
//! A record type says what its partition key is through [`cosmos_entity::CosmosEntity`].
//! The functions of [`cosmos_entity`] put that key, encoded as a JSON array of
//! one element, on an outgoing request as the header that the store reads
//! it from.
pub mod codec;
pub mod cosmos_entity;
pub mod headers;
pub mod partition_key;
pub mod request;
