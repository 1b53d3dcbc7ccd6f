//! The tables-stream header: heap-size flags, the presence bitmap and the row counts.

use crate::bytes::{
    fits, has_nul, le_u16, le_u32, le_u64, nul_at, pad4, read_u16, read_u32, read_u64, read_u8,
    sat_add,
    FourByteBoundaryPadded, LengthPrefixed, NulStr,
};
use vstd::prelude::*;

verus! {

/// The magic signature of the metadata root.
pub const METADATA_MAGIC: u32 = 0x424A5342;

/// Heap-size flag: `#Strings` ids are four bytes wide.
pub const WIDE_STRING_HEAP: u8 = 0x01;

/// Heap-size flag: `#GUID` ids are four bytes wide.
pub const WIDE_GUID_HEAP: u8 = 0x02;

/// Heap-size flag: `#Blob` ids are four bytes wide.
pub const WIDE_BLOB_HEAP: u8 = 0x04;

/// The heap-size flags of a tables header; only the three defined bits are kept.
#[derive(Clone, Copy, Debug)]
pub struct HeapSizes {
    pub bits: u8,
}

/// `flag` is set in `bits`.
pub open spec fn has_flag(bits: u8, flag: u8) -> bool {
    bits & flag == flag
}

/// Width in bytes of an id into a heap whose flag is `flag`.
pub open spec fn heap_id_width(bits: u8, flag: u8) -> int {
    if has_flag(bits, flag) {
        4
    } else {
        2
    }
}

impl HeapSizes {
    /// Keeps the defined bits of `bits` and drops the others.
    pub fn from_bits_truncate(bits: u8) -> (r: HeapSizes)
        ensures
            r.bits == bits & 0x07,
    {
        HeapSizes { bits: bits & 0x07 }
    }

    /// Whether every bit of `flag` is set.
    pub fn contains(&self, flag: u8) -> (r: bool)
        ensures
            r == has_flag(self.bits, flag),
    {
        self.bits & flag == flag
    }
}

/// The unsigned little-endian integer of `w` bytes (two or four) at `off`.
pub open spec fn uint_at(s: Seq<u8>, off: int, w: int) -> int {
    if w == 4 {
        le_u32(s, off)
    } else {
        le_u16(s, off)
    }
}

/// Reads the two- or four-byte unsigned integer at the cursor.
pub fn read_uint(buf: &[u8], offset: &mut usize, wide: bool) -> (r: Option<usize>)
    ensures
        ({
            let w = if wide { 4int } else { 2int };
            &&& r is Some <==> fits(buf@, *old(offset) as int, w)
            &&& r is Some ==> r->0 as int == uint_at(buf@, *old(offset) as int, w)
                && *final(offset) == *old(offset) + w
            &&& r is None ==> *final(offset) == *old(offset)
        }),
{
    if wide {
        match read_u32(buf, offset) {
            Some(v) => Some(v as usize),
            None => None,
        }
    } else {
        match read_u16(buf, offset) {
            Some(v) => Some(v as usize),
            None => None,
        }
    }
}

/// Each heap's id width follows its own flag bit alone: for every combination of the three
/// bits, a string, GUID or blob id is four bytes wide when its bit is set and two bytes wide
/// when it is clear, whatever the other two bits are.
pub proof fn lemma_heap_id_widths(bits: u8)
    ensures
        heap_id_width(bits, WIDE_STRING_HEAP) == if bits & 1 == 1 { 4int } else { 2int },
        heap_id_width(bits, WIDE_GUID_HEAP) == if (bits >> 1u8) & 1 == 1 { 4int } else { 2int },
        heap_id_width(bits, WIDE_BLOB_HEAP) == if (bits >> 2u8) & 1 == 1 { 4int } else { 2int },
{
    assert(has_flag(bits, 0x01) <==> bits & 1 == 1) by (bit_vector);
    assert(has_flag(bits, 0x02) <==> (bits >> 1u8) & 1 == 1) by (bit_vector);
    assert(has_flag(bits, 0x04) <==> (bits >> 2u8) & 1 == 1) by (bit_vector);
}

/// Bit `i` of `v` is set.
pub open spec fn bit(v: u64, i: int) -> bool {
    (v >> (i as u64)) & 1u64 == 1u64
}

/// Number of set bits of `v` below bit `n`.
pub open spec fn count_below(v: u64, n: int) -> int
    decreases n,
{
    if n <= 0 {
        0
    } else {
        count_below(v, n - 1) + if bit(v, n - 1) {
            1int
        } else {
            0int
        }
    }
}

/// Counting set bits is monotone and never exceeds the number of bits looked at.
pub proof fn lemma_count_below(v: u64, n: int, m: int)
    requires
        0 <= n <= m,
    ensures
        0 <= count_below(v, n) <= count_below(v, m),
        count_below(v, m) - count_below(v, n) <= m - n,
    decreases m - n,
{
    if n < m {
        lemma_count_below(v, n, m - 1);
    } else {
        lemma_count_below_nonneg(v, n);
    }
}

proof fn lemma_count_below_nonneg(v: u64, n: int)
    ensures
        count_below(v, n) >= 0,
    decreases n,
{
    if n > 0 {
        lemma_count_below_nonneg(v, n - 1);
    }
}

/// Byte length of the fixed part of a tables header.
pub const TABLES_HEADER_FIXED: usize = 24;

/// Byte length of a tables header with presence bitmap `valid`.
pub open spec fn tables_header_len(valid: u64) -> int {
    24 + 4 * count_below(valid, 64)
}

/// The presence bitmap of the tables header at `off`.
pub open spec fn valid_at(s: Seq<u8>, off: int) -> u64 {
    le_u64(s, off + 8) as u64
}

/// Row count of table `i` in the tables header at `off`: the stored count where the table
/// is present, zero where it is not.
pub open spec fn row_count_at(s: Seq<u8>, off: int, i: int) -> u32 {
    let valid = valid_at(s, off);
    if bit(valid, i) {
        le_u32(s, off + 24 + 4 * count_below(valid, i)) as u32
    } else {
        0
    }
}

/// The row counts of all 64 tables in the tables header at `off`.
pub open spec fn rows_at(s: Seq<u8>, off: int) -> Seq<u32> {
    Seq::new(64, |i: int| row_count_at(s, off, i))
}

/// A tables header decodes at `off`.
pub open spec fn tables_header_fits(s: Seq<u8>, off: int) -> bool {
    fits(s, off, 24) && fits(s, off, tables_header_len(valid_at(s, off)))
}

/// The header of the `#~` stream.
#[derive(Clone, Copy, Debug)]
pub struct MetadataTablesHeader {
    /// Reserved, always 0.
    pub _reserved_0: u32,
    /// Major version of the table schemata; shall be 2.
    pub major_version: u8,
    /// Minor version of the table schemata; shall be 0.
    pub minor_version: u8,
    /// Widths of heap ids.
    pub heap_sizes: HeapSizes,
    /// Reserved, always 1.
    pub _reserved_1: u8,
    /// Bit vector of present tables.
    pub valid: u64,
    /// Bit vector of sorted tables.
    pub sorted: u64,
    /// Number of rows of each table, indexed by table id.
    pub rows: [u32; 64],
}

impl MetadataTablesHeader {
    /// The header is exactly what the bytes at `off` encode.
    pub open spec fn decoded_from(self, s: Seq<u8>, off: int) -> bool {
        &&& self._reserved_0 as int == le_u32(s, off)
        &&& self.major_version == s[off + 4]
        &&& self.minor_version == s[off + 5]
        &&& self.heap_sizes.bits == s[off + 6] & 0x07
        &&& self._reserved_1 == s[off + 7]
        &&& self.valid == valid_at(s, off)
        &&& self.sorted as int == le_u64(s, off + 16)
        &&& forall|i: int| 0 <= i < 64 ==> self.rows@[i] == row_count_at(s, off, i)
        &&& self.rows@ == rows_at(s, off)
    }

    /// Decodes the header at the cursor: the fixed fields, then one `u32` row count for each
    /// set bit of `valid`, in ascending table order.
    pub fn from_bytes(buf: &[u8], offset: &mut usize) -> (r: Option<MetadataTablesHeader>)
        ensures
            r is Some <==> tables_header_fits(buf@, *old(offset) as int),
            r is Some ==> r->0.decoded_from(buf@, *old(offset) as int)
                && *final(offset) == *old(offset) + tables_header_len(r->0.valid),
    {
        let start = *offset;
        if !(start <= buf.len() && buf.len() - start >= TABLES_HEADER_FIXED) {
            return None;
        }
        let _reserved_0 = read_u32(buf, offset).unwrap();
        let major_version = read_u8(buf, offset).unwrap();
        let minor_version = read_u8(buf, offset).unwrap();
        let heap_bits = read_u8(buf, offset).unwrap();
        let heap_sizes = HeapSizes::from_bits_truncate(heap_bits);
        let _reserved_1 = read_u8(buf, offset).unwrap();
        let valid = read_u64(buf, offset).unwrap();
        let sorted = read_u64(buf, offset).unwrap();
        assert(valid == valid_at(buf@, start as int));
        let mut rows = [0u32; 64];
        let mut i: u64 = 0;
        while i < 64
            invariant
                i <= 64,
                start == *old(offset),
                start + 24 <= buf@.len(),
                valid == valid_at(buf@, start as int),
                *offset as int == start + 24 + 4 * count_below(valid, i as int),
                *offset <= buf@.len(),
                forall|j: int| 0 <= j < i ==> rows@[j] == row_count_at(buf@, start as int, j),
                forall|j: int| i <= j < 64 ==> rows@[j] == 0,
            decreases 64 - i,
        {
            proof {
                lemma_count_below(valid, i as int, i as int + 1);
                lemma_count_below(valid, i as int + 1, 64);
            }
            if (valid >> i) & 1 == 1 {
                match read_u32(buf, offset) {
                    Some(n) => {
                        rows[i as usize] = n;
                    },
                    None => {
                        assert(bit(valid, i as int));
                        assert(count_below(valid, i as int + 1) == count_below(valid, i as int)
                            + 1);
                        assert(!fits(buf@, start as int, tables_header_len(valid)));
                        return None;
                    },
                }
            }
            i = i + 1;
        }
        proof {
            lemma_count_below(valid, 0, 64);
            assert(rows@ =~= rows_at(buf@, start as int));
        }
        Some(
            MetadataTablesHeader {
                _reserved_0,
                major_version,
                minor_version,
                heap_sizes,
                _reserved_1,
                valid,
                sorted,
                rows,
            },
        )
    }
}

/// Where the version text of the metadata root at `off` ends, as its length field says.
pub open spec fn root_version_end(s: Seq<u8>, off: int) -> int {
    sat_add(off + 16, le_u32(s, off + 12))
}

/// A metadata root header decodes at `off`.
pub open spec fn root_header_fits(s: Seq<u8>, off: int) -> bool {
    &&& fits(s, off, 16)
    &&& has_nul(s, off + 16)
    &&& fits(s, root_version_end(s, off), 4)
}

/// The header at the start of the metadata root.
#[derive(Clone, Copy, Debug)]
pub struct MetadataHeader<'a> {
    /// The magic signature; `0x424A5342` in a valid root.
    pub signature: u32,
    /// Major version, 1.
    pub major_version: u16,
    /// Minor version, 1.
    pub minor_version: u16,
    /// Reserved, 0.
    pub reserved: u32,
    /// The version text.
    pub version: NulStr<'a>,
    /// Flags, 0.
    pub flags: u16,
    /// Number of entries of the stream directory.
    pub streams: u16,
}

impl<'a> MetadataHeader<'a> {
    /// The header is exactly what the bytes at `off` encode.
    pub open spec fn decoded_from(self, s: Seq<u8>, off: int) -> bool {
        let vend = root_version_end(s, off);
        &&& self.signature as int == le_u32(s, off)
        &&& self.major_version as int == le_u16(s, off + 4)
        &&& self.minor_version as int == le_u16(s, off + 6)
        &&& self.reserved as int == le_u32(s, off + 8)
        &&& self.version.wf()
        &&& exists|k: int|
            #[trigger] nul_at(s, off + 16, k) && self.version@ == s.subrange(off + 16, k)
                && self.version.with_nul() == s.subrange(off + 16, k + 1)
        &&& self.flags as int == le_u16(s, vend)
        &&& self.streams as int == le_u16(s, vend + 2)
    }

    /// Decodes the root header: signature, versions, reserved word, length-prefixed version
    /// text, flags and stream count. The signature is not checked here.
    pub fn from_bytes(buf: &'a [u8], offset: &mut usize) -> (r: Option<MetadataHeader<'a>>)
        ensures
            r is Some <==> root_header_fits(buf@, *old(offset) as int),
            r is Some ==> r->0.decoded_from(buf@, *old(offset) as int) && *final(offset)
                == root_version_end(buf@, *old(offset) as int) + 4,
    {
        let start = *offset;
        if !(start <= buf.len() && buf.len() - start >= 16) {
            return None;
        }
        let signature = read_u32(buf, offset).unwrap();
        let major_version = read_u16(buf, offset).unwrap();
        let minor_version = read_u16(buf, offset).unwrap();
        let reserved = read_u32(buf, offset).unwrap();
        let version = LengthPrefixed::read(buf, offset)?;
        let flags = read_u16(buf, offset)?;
        let streams = read_u16(buf, offset)?;
        Some(
            MetadataHeader {
                signature,
                major_version,
                minor_version,
                reserved,
                version,
                flags,
                streams,
            },
        )
    }
}

/// Where the stream header at `off` ends: after its two words, its name with terminator, and
/// the padding of the name to a four-byte boundary.
pub open spec fn stream_header_end(s: Seq<u8>, off: int, k: int) -> int {
    sat_add(k + 1, pad4(k + 1 - (off + 8)))
}

/// One entry of the stream directory.
#[derive(Clone, Copy, Debug)]
pub struct MetadataStreamHeader<'a> {
    /// Offset of the stream from the start of the metadata root.
    pub offset: u32,
    /// Size of the stream in bytes.
    pub size: u32,
    /// Name of the stream.
    pub name: NulStr<'a>,
}

impl<'a> MetadataStreamHeader<'a> {
    /// The header is exactly what the bytes at `off` encode, its name ending at `k`.
    pub open spec fn decoded_from(self, s: Seq<u8>, off: int, k: int) -> bool {
        &&& self.offset as int == le_u32(s, off)
        &&& self.size as int == le_u32(s, off + 4)
        &&& nul_at(s, off + 8, k)
        &&& self.name.wf()
        &&& self.name@ == s.subrange(off + 8, k)
        &&& self.name.with_nul() == s.subrange(off + 8, k + 1)
    }

    /// Decodes a directory entry: offset, size, then the name padded to four bytes.
    pub fn from_bytes(buf: &'a [u8], offset: &mut usize) -> (r: Option<MetadataStreamHeader<'a>>)
        ensures
            r is Some <==> fits(buf@, *old(offset) as int, 8) && has_nul(buf@, *old(offset) + 8),
            r is Some ==> exists|k: int|
                r->0.decoded_from(buf@, *old(offset) as int, k) && *final(offset)
                    == stream_header_end(buf@, *old(offset) as int, k),
    {
        let start = *offset;
        if !(start <= buf.len() && buf.len() - start >= 8) {
            return None;
        }
        let off = read_u32(buf, offset).unwrap();
        let size = read_u32(buf, offset).unwrap();
        let name = FourByteBoundaryPadded::read(buf, offset)?;
        let ghost k = start + 8 + name.with_nul().len() - 1;
        let header = MetadataStreamHeader { offset: off, size, name };
        assert(header.decoded_from(buf@, start as int, k));
        assert(*offset == stream_header_end(buf@, start as int, k));
        Some(header)
    }

    /// The stream's bytes, `metadata[offset .. offset + size]`. Absent when that range does not
    /// lie inside `metadata`.
    pub fn data(&self, metadata: &'a [u8]) -> (r: Option<&'a [u8]>)
        ensures
            r is Some <==> fits(metadata@, self.offset as int, self.size as int),
            r is Some ==> r->0@ == metadata@.subrange(
                self.offset as int,
                self.offset + self.size,
            ),
    {
        let beg = self.offset as usize;
        assert(metadata@.len() == metadata.len());
        match beg.checked_add(self.size as usize) {
            Some(end) => {
                if end <= metadata.len() {
                    Some(&metadata[beg..end])
                } else {
                    None
                }
            },
            None => None,
        }
    }
}

} // verus!
