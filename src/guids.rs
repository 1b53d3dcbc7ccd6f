//! The `#GUID` heap: 16-byte GUIDs addressed by byte offset.

use crate::bytes::{fits, read_array};
use crate::headers::{heap_id_width, read_uint, uint_at, HeapSizes, WIDE_GUID_HEAP};
use vstd::prelude::*;

verus! {

/// A byte offset into the `#GUID` heap.
#[derive(Debug, Clone, Copy, PartialEq, Eq, PartialOrd, Ord, Hash)]
pub struct GuidId(pub usize);

impl GuidId {
    /// Width of a GUID id: four bytes when the wide-GUIDs flag is set, else two.
    pub fn byte_size(heap_sizes: HeapSizes) -> (r: usize)
        ensures
            r as int == heap_id_width(heap_sizes.bits, WIDE_GUID_HEAP),
    {
        if heap_sizes.contains(WIDE_GUID_HEAP) {
            4
        } else {
            2
        }
    }

    /// Decodes a GUID id of the width that `heap_sizes` selects.
    pub fn from_bytes(buf: &[u8], offset: &mut usize, heap_sizes: HeapSizes) -> (r: Option<GuidId>)
        ensures
            ({
                let w = heap_id_width(heap_sizes.bits, WIDE_GUID_HEAP);
                &&& r is Some <==> fits(buf@, *old(offset) as int, w)
                &&& r is Some ==> r == Some(GuidId(uint_at(buf@, *old(offset) as int, w) as usize))
                    && *final(offset) == *old(offset) + w
            }),
    {
        match read_uint(buf, offset, heap_sizes.contains(WIDE_GUID_HEAP)) {
            Some(v) => Some(GuidId(v)),
            None => None,
        }
    }
}

/// The `#GUID` heap. It may hold bytes that no id reaches.
#[derive(Clone, Copy, Debug)]
pub struct GuidsHeap<'a>(pub &'a [u8]);

impl<'a> GuidsHeap<'a> {
    /// The 16 bytes at `[id, id + 16)`. Absent when they do not all lie inside the heap.
    pub fn get(&self, id: GuidId) -> (r: Option<[u8; 16]>)
        ensures
            r is Some <==> fits(self.0@, id.0 as int, 16),
            id.0 >= self.0@.len() ==> r is None,
            r is Some ==> r->0@ == self.0@.subrange(id.0 as int, id.0 + 16),
    {
        let mut offset = id.0;
        read_array(self.0, &mut offset)
    }
}

} // verus!
