//! The `#Blob` heap: byte spans prefixed by a compressed length, addressed by byte offset.

use crate::bytes::{compressed_at, fits, read_bytes, CompressedLength};
use crate::headers::{heap_id_width, read_uint, uint_at, HeapSizes, WIDE_BLOB_HEAP};
use vstd::prelude::*;

verus! {

/// Start and length of the compressed-length-prefixed span at `off`, when both its prefix and
/// its payload lie inside `s`.
pub open spec fn prefixed_span(s: Seq<u8>, off: int) -> Option<(int, int)> {
    match compressed_at(s, off) {
        Some((len, w)) => if fits(s, off + w, len) {
            Some((off + w, len))
        } else {
            None
        },
        None => None,
    }
}

/// Reads the compressed-length-prefixed span at `off` of `heap`.
pub fn read_prefixed<'a>(heap: &'a [u8], off: usize) -> (r: Option<&'a [u8]>)
    ensures
        r is Some <==> prefixed_span(heap@, off as int) is Some,
        r is Some ==> {
            let (beg, len) = prefixed_span(heap@, off as int)->0;
            r->0@ == heap@.subrange(beg, beg + len)
        },
{
    let mut offset = off;
    let len = CompressedLength::read(heap, &mut offset)?;
    read_bytes(heap, &mut offset, len)
}

/// A byte offset into the `#Blob` heap.
#[derive(Debug, Clone, Copy, PartialEq, Eq, PartialOrd, Ord, Hash)]
pub struct BlobId(pub usize);

impl BlobId {
    /// Width of a blob id: four bytes when the wide-blobs flag is set, else two.
    pub fn byte_size(heap_sizes: HeapSizes) -> (r: usize)
        ensures
            r as int == heap_id_width(heap_sizes.bits, WIDE_BLOB_HEAP),
    {
        if heap_sizes.contains(WIDE_BLOB_HEAP) {
            4
        } else {
            2
        }
    }

    /// Decodes a blob id of the width that `heap_sizes` selects.
    pub fn from_bytes(buf: &[u8], offset: &mut usize, heap_sizes: HeapSizes) -> (r: Option<BlobId>)
        ensures
            ({
                let w = heap_id_width(heap_sizes.bits, WIDE_BLOB_HEAP);
                &&& r is Some <==> fits(buf@, *old(offset) as int, w)
                &&& r is Some ==> r == Some(BlobId(uint_at(buf@, *old(offset) as int, w) as usize))
                    && *final(offset) == *old(offset) + w
            }),
    {
        match read_uint(buf, offset, heap_sizes.contains(WIDE_BLOB_HEAP)) {
            Some(v) => Some(BlobId(v)),
            None => None,
        }
    }
}

/// The `#Blob` heap.
#[derive(Clone, Copy, Debug)]
pub struct BlobsHeap<'a>(pub &'a [u8]);

impl<'a> BlobsHeap<'a> {
    /// The blob at `id`. Absent when its length prefix or its payload runs past the heap.
    pub fn get(&self, id: BlobId) -> (r: Option<&'a [u8]>)
        ensures
            r is Some <==> prefixed_span(self.0@, id.0 as int) is Some,
            id.0 >= self.0@.len() ==> r is None,
            r is Some ==> {
                let (beg, len) = prefixed_span(self.0@, id.0 as int)->0;
                r->0@ == self.0@.subrange(beg, beg + len)
            },
    {
        read_prefixed(self.0, id.0)
    }
}

} // verus!
