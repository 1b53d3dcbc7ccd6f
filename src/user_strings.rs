//! The `#US` heap: UTF-16 strings prefixed by a compressed length, addressed by byte offset.

use crate::blobs::{prefixed_span, read_prefixed};
use vstd::prelude::*;

verus! {

/// A byte offset into the `#US` heap.
#[derive(Debug, Clone, Copy, PartialEq, Eq, PartialOrd, Ord, Hash)]
pub struct UserStringId(pub usize);

/// The `#US` heap.
#[derive(Clone, Copy, Debug)]
pub struct UserStringsHeap<'a>(pub &'a [u8]);

impl<'a> UserStringsHeap<'a> {
    /// The UTF-16 encoded bytes of the string at `id`. Absent when its length prefix or its
    /// payload runs past the heap.
    pub fn get(&self, id: UserStringId) -> (r: Option<&'a [u8]>)
        ensures
            r is Some <==> prefixed_span(self.0@, id.0 as int) is Some,
            id.0 >= self.0@.len() ==> r is None,
            r is Some ==> {
                let (beg, len) = prefixed_span(self.0@, id.0 as int)->0;
                r->0@ == self.0@.subrange(beg, beg + len)
            },
    {
        read_prefixed(self.0, id.0)
    }
}

} // verus!
