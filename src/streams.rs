//! The stream directory: its entries, and the dispatch of each stream by name.

use crate::blobs::BlobsHeap;
use crate::bytes::fits;
use crate::errors::MetadataStreamReadError;
use crate::guids::GuidsHeap;
use crate::headers::{stream_header_end, MetadataStreamHeader};
use crate::strings::StringsHeap;
use crate::tables::{tables_stream_fits, TablesStream};
use crate::user_strings::UserStringsHeap;
use vstd::prelude::*;

verus! {

/// `#~`
pub open spec fn tables_name() -> Seq<u8> {
    seq![0x23u8, 0x7Eu8]
}

/// `#US`
pub open spec fn user_strings_name() -> Seq<u8> {
    seq![0x23u8, 0x55u8, 0x53u8]
}

/// `#Blob`
pub open spec fn blobs_name() -> Seq<u8> {
    seq![0x23u8, 0x42u8, 0x6Cu8, 0x6Fu8, 0x62u8]
}

/// `#GUID`
pub open spec fn guids_name() -> Seq<u8> {
    seq![0x23u8, 0x47u8, 0x55u8, 0x49u8, 0x44u8]
}

/// `#Strings`
pub open spec fn strings_name() -> Seq<u8> {
    seq![0x23u8, 0x53u8, 0x74u8, 0x72u8, 0x69u8, 0x6Eu8, 0x67u8, 0x73u8]
}

/// Whether `name` is exactly the bytes of `lit`.
fn name_is<const N: usize>(name: &[u8], lit: [u8; N]) -> (r: bool)
    ensures
        r == (name@ == lit@),
{
    if name.len() != N {
        return false;
    }
    let mut i: usize = 0;
    while i < N
        invariant
            name@.len() == N,
            lit@.len() == N,
            i <= N,
            forall|j: int| 0 <= j < i ==> name@[j] == lit@[j],
        decreases N - i,
    {
        if name[i] != lit[i] {
            return false;
        }
        i = i + 1;
    }
    assert(name@ =~= lit@);
    true
}

/// One stream of the metadata, by kind.
#[derive(Debug)]
pub enum MetadataStream<'a> {
    /// The `#Blob` heap.
    Blobs(BlobsHeap<'a>),
    /// The `#GUID` heap.
    Guids(GuidsHeap<'a>),
    /// The `#~` tables stream.
    Tables(TablesStream<'a>),
    /// The `#Strings` heap.
    Strings(StringsHeap<'a>),
    /// The `#US` heap.
    UserStrings(UserStringsHeap<'a>),
    /// A stream whose name is none of the above, kept as its entry and its bytes.
    Unrecognized { header: MetadataStreamHeader<'a>, data: &'a [u8] },
}

/// `r` is what the directory entry `h` of the metadata `s` yields: an error when its region
/// leaves `s`; otherwise the stream its name selects over that region, or the entry and its
/// bytes for an unknown name.
pub open spec fn stream_result<'a>(
    s: Seq<u8>,
    h: MetadataStreamHeader<'a>,
    r: Result<MetadataStream<'a>, MetadataStreamReadError<'a>>,
) -> bool {
    if !fits(s, h.offset as int, h.size as int) {
        r == Err::<MetadataStream<'a>, MetadataStreamReadError<'a>>(
            MetadataStreamReadError::MissingData { header: h },
        )
    } else {
        let data = s.subrange(h.offset as int, h.offset + h.size);
        if h.name@ == tables_name() {
            if tables_stream_fits(data) {
                r matches Ok(MetadataStream::Tables(t)) && t.parsed_from(data)
            } else {
                r matches Err(MetadataStreamReadError::NotEnough)
            }
        } else if h.name@ == user_strings_name() {
            r matches Ok(MetadataStream::UserStrings(u)) && u.0@ == data
        } else if h.name@ == blobs_name() {
            r matches Ok(MetadataStream::Blobs(b)) && b.0@ == data
        } else if h.name@ == guids_name() {
            r matches Ok(MetadataStream::Guids(g)) && g.0@ == data
        } else if h.name@ == strings_name() {
            r matches Ok(MetadataStream::Strings(t)) && t.0@ == data
        } else {
            r matches Ok(MetadataStream::Unrecognized { header, data: d }) && header == h && d@
                == data
        }
    }
}

impl<'a> MetadataStream<'a> {
    /// The `#Blob` heap, if this is it.
    pub fn as_blobs(&self) -> (r: Option<BlobsHeap<'a>>)
        ensures
            r matches Some(b) ==> *self == MetadataStream::Blobs(b),
            r is None ==> !(*self is Blobs),
    {
        match self {
            MetadataStream::Blobs(b) => Some(*b),
            _ => None,
        }
    }

    /// The `#GUID` heap, if this is it.
    pub fn as_guids(&self) -> (r: Option<GuidsHeap<'a>>)
        ensures
            r matches Some(g) ==> *self == MetadataStream::Guids(g),
            r is None ==> !(*self is Guids),
    {
        match self {
            MetadataStream::Guids(g) => Some(*g),
            _ => None,
        }
    }

    /// The `#Strings` heap, if this is it.
    pub fn as_strings(&self) -> (r: Option<StringsHeap<'a>>)
        ensures
            r matches Some(s) ==> *self == MetadataStream::Strings(s),
            r is None ==> !(*self is Strings),
    {
        match self {
            MetadataStream::Strings(s) => Some(*s),
            _ => None,
        }
    }

    /// The `#~` stream, if this is it.
    pub fn as_tables(&self) -> (r: Option<&TablesStream<'a>>)
        ensures
            r matches Some(t) ==> *self == MetadataStream::Tables(*t),
            r is None ==> !(*self is Tables),
    {
        match self {
            MetadataStream::Tables(t) => Some(t),
            _ => None,
        }
    }

    /// The `#US` heap, if this is it.
    pub fn as_user_strings(&self) -> (r: Option<UserStringsHeap<'a>>)
        ensures
            r matches Some(u) ==> *self == MetadataStream::UserStrings(u),
            r is None ==> !(*self is UserStrings),
    {
        match self {
            MetadataStream::UserStrings(u) => Some(*u),
            _ => None,
        }
    }
}

/// Walks the stream directory, decoding each entry only when it is reached.
#[derive(Clone, Copy, Debug)]
pub struct MetadataStreamIter<'a> {
    /// Entries left.
    pub len: usize,
    /// The whole metadata root.
    pub bytes: &'a [u8],
    /// Offset of the next entry in `bytes`.
    pub offset: usize,
}

impl<'a> MetadataStreamIter<'a> {
    /// A walk over `len` entries of `bytes`, the first at `offset`.
    pub fn new(len: usize, offset: usize, bytes: &'a [u8]) -> (r: MetadataStreamIter<'a>)
        ensures
            r.len == len,
            r.offset == offset,
            r.bytes == bytes,
    {
        MetadataStreamIter { len, bytes, offset }
    }

    /// The next entry's stream. An entry whose region leaves the metadata yields an error and
    /// the walk goes on with the entries after it. Ends when no entries are left or an entry
    /// itself cannot be decoded.
    pub fn next(&mut self) -> (r: Option<Result<MetadataStream<'a>, MetadataStreamReadError<'a>>>)
        ensures
            final(self).bytes == old(self).bytes,
            old(self).len == 0 ==> r is None && *final(self) == *old(self),
            old(self).len > 0 ==> final(self).len == old(self).len - 1,
            old(self).len > 0 && !(fits(old(self).bytes@, old(self).offset as int, 8)
                && crate::bytes::has_nul(old(self).bytes@, old(self).offset + 8)) ==> r is None,
            old(self).len > 0 && fits(old(self).bytes@, old(self).offset as int, 8)
                && crate::bytes::has_nul(old(self).bytes@, old(self).offset + 8) ==> exists|
                h: MetadataStreamHeader<'a>,
                k: int,
            |
                #[trigger] h.decoded_from(old(self).bytes@, old(self).offset as int, k)
                    && final(self).offset == stream_header_end(
                    old(self).bytes@,
                    old(self).offset as int,
                    k,
                ) && r is Some && stream_result(old(self).bytes@, h, r->0),
    {
        if self.len == 0 {
            return None;
        }
        self.len = self.len - 1;
        let mut offset = self.offset;
        let header = MetadataStreamHeader::from_bytes(self.bytes, &mut offset);
        self.offset = offset;
        let header = match header {
            Some(h) => h,
            None => {
                return None;
            },
        };
        let data = match header.data(self.bytes) {
            Some(d) => d,
            None => {
                return Some(Err(MetadataStreamReadError::MissingData { header }));
            },
        };
        let name = header.name.to_bytes();
        let r = if name_is(name, [0x23u8, 0x7Eu8]) {
            match TablesStream::from_bytes(data) {
                Ok(t) => Ok(MetadataStream::Tables(t)),
                Err(e) => Err(e),
            }
        } else if name_is(name, [0x23u8, 0x55u8, 0x53u8]) {
            Ok(MetadataStream::UserStrings(UserStringsHeap(data)))
        } else if name_is(name, [0x23u8, 0x42u8, 0x6Cu8, 0x6Fu8, 0x62u8]) {
            Ok(MetadataStream::Blobs(BlobsHeap(data)))
        } else if name_is(name, [0x23u8, 0x47u8, 0x55u8, 0x49u8, 0x44u8]) {
            Ok(MetadataStream::Guids(GuidsHeap(data)))
        } else if name_is(name, [0x23u8, 0x53u8, 0x74u8, 0x72u8, 0x69u8, 0x6Eu8, 0x67u8, 0x73u8]) {
            Ok(MetadataStream::Strings(StringsHeap(data)))
        } else {
            Ok(MetadataStream::Unrecognized { header, data })
        };
        Some(r)
    }
}

} // verus!
