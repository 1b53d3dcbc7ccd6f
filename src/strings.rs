//! The `#Strings` heap: nul-terminated strings addressed by byte offset.

use crate::bytes::{fits, has_nul, nul_at, NulStr, NulTerminated};
use crate::headers::{heap_id_width, read_uint, uint_at, HeapSizes, WIDE_STRING_HEAP};
use vstd::prelude::*;

verus! {

/// A byte offset into the `#Strings` heap.
#[derive(Debug, Clone, Copy, PartialEq, Eq, PartialOrd, Ord, Hash)]
pub struct StringId(pub usize);

impl StringId {
    /// Width of a string id: four bytes when the wide-strings flag is set, else two.
    pub fn byte_size(heap_sizes: HeapSizes) -> (r: usize)
        ensures
            r as int == heap_id_width(heap_sizes.bits, WIDE_STRING_HEAP),
    {
        if heap_sizes.contains(WIDE_STRING_HEAP) {
            4
        } else {
            2
        }
    }

    /// Decodes a string id of the width that `heap_sizes` selects.
    pub fn from_bytes(
        buf: &[u8],
        offset: &mut usize,
        heap_sizes: HeapSizes,
    ) -> (r: Option<StringId>)
        ensures
            ({
                let w = heap_id_width(heap_sizes.bits, WIDE_STRING_HEAP);
                &&& r is Some <==> fits(buf@, *old(offset) as int, w)
                &&& r is Some ==> r == Some(
                    StringId(uint_at(buf@, *old(offset) as int, w) as usize),
                )
                    && *final(offset) == *old(offset) + w
            }),
    {
        match read_uint(buf, offset, heap_sizes.contains(WIDE_STRING_HEAP)) {
            Some(v) => Some(StringId(v)),
            None => None,
        }
    }
}

/// The `#Strings` heap. It may hold bytes that no id reaches; only requested offsets are read.
#[derive(Clone, Copy, Debug)]
pub struct StringsHeap<'a>(pub &'a [u8]);

impl<'a> StringsHeap<'a> {
    /// The string at `id`: the bytes from `id` up to the first nul. Absent when `id` is out of
    /// bounds or no nul follows it inside the heap.
    pub fn get(&self, id: StringId) -> (r: Option<NulStr<'a>>)
        ensures
            r is Some <==> has_nul(self.0@, id.0 as int),
            id.0 >= self.0@.len() ==> r is None,
            r is Some ==> exists|k: int|
                nul_at(self.0@, id.0 as int, k) && r->0@ == self.0@.subrange(id.0 as int, k)
                    && r->0.with_nul() == self.0@.subrange(id.0 as int, k + 1),
    {
        let mut offset = id.0;
        let r = NulTerminated::read(self.0, &mut offset);
        proof {
            if r is Some {
                assert(nul_at(self.0@, id.0 as int, offset - 1));
            }
        }
        r
    }

    /// A forward walk over the consecutive strings from offset zero. The heap may hold
    /// unreachable bytes, so what it yields is a diagnostic aid, not the set of strings in use.
    pub fn iter(&self) -> (r: StringsHeapIter<'a>)
        ensures
            r.data == self.0,
            r.index == 0,
    {
        StringsHeapIter { data: self.0, index: 0 }
    }
}

/// Walks the consecutive nul-terminated strings of a `#Strings` heap.
#[derive(Clone, Copy, Debug)]
pub struct StringsHeapIter<'a> {
    pub data: &'a [u8],
    pub index: usize,
}

impl<'a> StringsHeapIter<'a> {
    /// The string at the current position, then moves past its nul. Ends where no nul follows.
    pub fn next(&mut self) -> (r: Option<NulStr<'a>>)
        ensures
            final(self).data == old(self).data,
            r is Some <==> has_nul(old(self).data@, old(self).index as int),
            r is Some ==> {
                &&& nul_at(old(self).data@, old(self).index as int, final(self).index - 1)
                &&& r->0@ == old(self).data@.subrange(old(self).index as int, final(self).index - 1)
            },
            r is None ==> final(self).index == old(self).index,
    {
        NulTerminated::read(self.data, &mut self.index)
    }
}

} // verus!
