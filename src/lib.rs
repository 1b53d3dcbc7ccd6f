//! Decoding of ECMA-335 physical metadata (the tables and heaps of a managed PE image) from a
//! borrowed byte buffer.

pub mod bytes;
pub mod headers;
pub mod strings;
pub mod blobs;
pub mod guids;
pub mod user_strings;
pub mod schema;
pub mod errors;
pub mod table;
pub mod tables;
pub mod streams;
pub mod metadata;
pub mod pe;
