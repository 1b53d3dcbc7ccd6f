//! The metadata root: its header, checked signature, and the stream directory after it.

use crate::bytes::le_u32;
use crate::errors::MetadataReadError;
use crate::headers::{root_header_fits, root_version_end, MetadataHeader, METADATA_MAGIC};
use crate::streams::MetadataStreamIter;
use vstd::prelude::*;

verus! {

/// A reader of the metadata root held in a borrowed buffer.
#[derive(Clone, Copy, Debug)]
pub struct MetadataReader<'a> {
    bytes: &'a [u8],
    header: MetadataHeader<'a>,
    streams: usize,
}

impl<'a> MetadataReader<'a> {
    /// The whole metadata root.
    pub closed spec fn spec_bytes(self) -> Seq<u8> {
        self.bytes@
    }

    /// The decoded root header.
    pub closed spec fn spec_header(self) -> MetadataHeader<'a> {
        self.header
    }

    /// Offset of the first stream-directory entry.
    pub closed spec fn directory_offset(self) -> int {
        self.streams as int
    }

    /// Decodes the root header at the start of `bytes` and checks its signature. Fails with
    /// `NotEnough` when the bytes are too few for the header, and with `BadSignature` holding the
    /// value found when the signature is not `0x424A5342`.
    pub fn from_bytes(bytes: &'a [u8]) -> (r: Result<MetadataReader<'a>, MetadataReadError>)
        ensures
            !root_header_fits(bytes@, 0) <==> r matches Err(MetadataReadError::NotEnough),
            root_header_fits(bytes@, 0) && le_u32(bytes@, 0) != METADATA_MAGIC as int
                <==> r matches Err(MetadataReadError::BadSignature(_)),
            r matches Err(MetadataReadError::BadSignature(v)) ==> v as int == le_u32(bytes@, 0),
            r is Ok <==> root_header_fits(bytes@, 0) && le_u32(bytes@, 0) == METADATA_MAGIC as int,
            r is Ok ==> {
                &&& r->Ok_0.spec_bytes() == bytes@
                &&& r->Ok_0.spec_header().decoded_from(bytes@, 0)
                &&& r->Ok_0.directory_offset() == root_version_end(bytes@, 0) + 4
            },
    {
        let mut offset: usize = 0;
        let header = match MetadataHeader::from_bytes(bytes, &mut offset) {
            Some(h) => h,
            None => {
                return Err(MetadataReadError::NotEnough);
            },
        };
        if header.signature != METADATA_MAGIC {
            return Err(MetadataReadError::BadSignature(header.signature));
        }
        Ok(MetadataReader { bytes, header, streams: offset })
    }

    /// The decoded root header.
    pub fn header(&self) -> (r: &MetadataHeader<'a>)
        ensures
            *r == self.spec_header(),
    {
        &self.header
    }

    /// A walk over the stream directory, from its first entry.
    pub fn streams(&self) -> (r: MetadataStreamIter<'a>)
        ensures
            r.len == self.spec_header().streams,
            r.offset == self.directory_offset(),
            r.bytes@ == self.spec_bytes(),
    {
        MetadataStreamIter::new(self.header.streams as usize, self.streams, self.bytes)
    }
}

} // verus!
