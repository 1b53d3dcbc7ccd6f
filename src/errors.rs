//! Structural validation failures, which carry what went wrong.

use crate::headers::MetadataStreamHeader;
use vstd::prelude::*;

verus! {

/// A failure to read the metadata root.
#[derive(Clone, Copy, Debug)]
pub enum MetadataReadError {
    /// The bytes are too few for the root header.
    NotEnough,
    /// The signature was not `0x424A5342`; holds the value found.
    BadSignature(u32),
}

/// A failure to read one metadata stream.
#[derive(Clone, Copy, Debug)]
pub enum MetadataStreamReadError<'a> {
    /// The stream is too short for its own header or for the rows it declares.
    NotEnough,
    /// The directory entry points outside the metadata; holds that entry.
    MissingData {
        header: MetadataStreamHeader<'a>,
    },
}

} // verus!
