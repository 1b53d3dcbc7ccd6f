//! Decoding primitives over a byte buffer and a cursor.
//!
//! Every reader takes the buffer and a cursor (`offset`). On success it returns the value and
//! moves the cursor past it; on failure it returns `None` and leaves the cursor where it was.

use vstd::prelude::*;

verus! {

/// `n` bytes starting at `off` lie inside `s`.
pub open spec fn fits(s: Seq<u8>, off: int, n: int) -> bool {
    0 <= off && 0 <= n && off + n <= s.len()
}

/// Little-endian value of the two bytes at `i`.
pub open spec fn le_u16(s: Seq<u8>, i: int) -> int {
    s[i] as int + 256 * (s[i + 1] as int)
}

/// Little-endian value of the four bytes at `i`.
pub open spec fn le_u32(s: Seq<u8>, i: int) -> int {
    le_u16(s, i) + 65536 * le_u16(s, i + 2)
}

/// Little-endian value of the eight bytes at `i`.
pub open spec fn le_u64(s: Seq<u8>, i: int) -> int {
    le_u32(s, i) + 4294967296 * le_u32(s, i + 4)
}

/// `a + b`, saturated at `usize::MAX`.
pub open spec fn sat_add(a: int, b: int) -> int {
    if a + b > usize::MAX {
        usize::MAX as int
    } else {
        a + b
    }
}

/// Reads a `u8` at the cursor.
pub fn read_u8(buf: &[u8], offset: &mut usize) -> (r: Option<u8>)
    ensures
        fits(buf@, *old(offset) as int, 1) ==> r == Some(buf@[*old(offset) as int])
            && *final(offset) == *old(offset) + 1,
        !fits(buf@, *old(offset) as int, 1) ==> r is None && *final(offset) == *old(offset),
{
    if *offset < buf.len() {
        let v = buf[*offset];
        *offset = *offset + 1;
        Some(v)
    } else {
        None
    }
}

/// Reads a little-endian `u16` at the cursor.
pub fn read_u16(buf: &[u8], offset: &mut usize) -> (r: Option<u16>)
    ensures
        fits(buf@, *old(offset) as int, 2) ==> r is Some && r->0 as int == le_u16(
            buf@,
            *old(offset) as int,
        ) && *final(offset) == *old(offset) + 2,
        !fits(buf@, *old(offset) as int, 2) ==> r is None && *final(offset) == *old(offset),
{
    if *offset < buf.len() && buf.len() - *offset >= 2 {
        let i = *offset;
        let v = buf[i] as u16 + 256 * (buf[i + 1] as u16);
        *offset = i + 2;
        Some(v)
    } else {
        None
    }
}

/// Reads a little-endian `u32` at the cursor.
pub fn read_u32(buf: &[u8], offset: &mut usize) -> (r: Option<u32>)
    ensures
        fits(buf@, *old(offset) as int, 4) ==> r is Some && r->0 as int == le_u32(
            buf@,
            *old(offset) as int,
        ) && *final(offset) == *old(offset) + 4,
        !fits(buf@, *old(offset) as int, 4) ==> r is None && *final(offset) == *old(offset),
{
    if *offset < buf.len() && buf.len() - *offset >= 4 {
        let i = *offset;
        let lo = buf[i] as u32 + 256 * (buf[i + 1] as u32);
        let hi = buf[i + 2] as u32 + 256 * (buf[i + 3] as u32);
        *offset = i + 4;
        Some(lo + 65536 * hi)
    } else {
        None
    }
}

/// Reads a little-endian `u64` at the cursor.
pub fn read_u64(buf: &[u8], offset: &mut usize) -> (r: Option<u64>)
    ensures
        fits(buf@, *old(offset) as int, 8) ==> r is Some && r->0 as int == le_u64(
            buf@,
            *old(offset) as int,
        ) && *final(offset) == *old(offset) + 8,
        !fits(buf@, *old(offset) as int, 8) ==> r is None && *final(offset) == *old(offset),
{
    if *offset < buf.len() && buf.len() - *offset >= 8 {
        let start = *offset;
        let lo = read_u32(buf, offset).unwrap();
        let hi = read_u32(buf, offset).unwrap();
        assert(*offset == start + 8);
        Some(lo as u64 + 4294967296 * (hi as u64))
    } else {
        None
    }
}

/// Decodes the little-endian `u32` at `offset` without moving any cursor: the result depends on
/// `buf` and `offset` alone, so peeking twice gives the same value.
pub fn peek_u32(buf: &[u8], offset: &usize) -> (r: Option<u32>)
    ensures
        fits(buf@, *offset as int, 4) ==> r is Some && r->0 as int == le_u32(buf@, *offset as int),
        !fits(buf@, *offset as int, 4) ==> r is None,
{
    let mut cursor = *offset;
    read_u32(buf, &mut cursor)
}

/// Reads the `len` bytes at the cursor as a sub-slice of `buf`.
pub fn read_bytes<'a>(buf: &'a [u8], offset: &mut usize, len: usize) -> (r: Option<&'a [u8]>)
    ensures
        fits(buf@, *old(offset) as int, len as int) ==> r is Some && r->0@ == buf@.subrange(
            *old(offset) as int,
            *old(offset) + len,
        ) && *final(offset) == *old(offset) + len,
        !fits(buf@, *old(offset) as int, len as int) ==> r is None
            && *final(offset) == *old(offset),
{
    if *offset <= buf.len() && buf.len() - *offset >= len {
        let beg = *offset;
        let end = beg + len;
        *offset = end;
        Some(&buf[beg..end])
    } else {
        None
    }
}

/// Reads the `N` bytes at the cursor as an array.
pub fn read_array<const N: usize>(buf: &[u8], offset: &mut usize) -> (r: Option<[u8; N]>)
    ensures
        fits(buf@, *old(offset) as int, N as int) ==> r is Some && r->0@ == buf@.subrange(
            *old(offset) as int,
            *old(offset) + N,
        ) && *final(offset) == *old(offset) + N,
        !fits(buf@, *old(offset) as int, N as int) ==> r is None && *final(offset) == *old(offset),
{
    if *offset <= buf.len() && buf.len() - *offset >= N {
        let beg = *offset;
        let mut arr = [0u8; N];
        let mut i: usize = 0;
        while i < N
            invariant
                0 <= i <= N,
                arr@.len() == N,
                beg + N <= buf.len(),
                forall|j: int| 0 <= j < i ==> arr@[j] == buf@[beg + j],
            decreases N - i,
        {
            arr[i] = buf[beg + i];
            i = i + 1;
        }
        assert(arr@ =~= buf@.subrange(beg as int, beg + N));
        *offset = beg + N;
        Some(arr)
    } else {
        None
    }
}

/// `k` is the position of the first nul byte of `s` at or after `from`.
pub open spec fn nul_at(s: Seq<u8>, from: int, k: int) -> bool {
    &&& 0 <= from <= k < s.len()
    &&& s[k] == 0
    &&& forall|j: int| from <= j < k ==> s[j] != 0
}

/// A nul byte occurs in `s` at or after `from`.
pub open spec fn has_nul(s: Seq<u8>, from: int) -> bool {
    exists|k: int| nul_at(s, from, k)
}

/// A borrowed, nul-terminated run of bytes: the bytes before the first nul, then that nul.
#[derive(Clone, Copy, Debug)]
pub struct NulStr<'a> {
    bytes: &'a [u8],
}

impl<'a> View for NulStr<'a> {
    type V = Seq<u8>;

    /// The text, without its terminator.
    closed spec fn view(&self) -> Seq<u8> {
        let b = self.bytes@;
        if b.len() == 0 {
            b
        } else {
            b.drop_last()
        }
    }
}

impl<'a> NulStr<'a> {
    /// The bytes of the text followed by its terminator.
    pub closed spec fn with_nul(self) -> Seq<u8> {
        self.bytes@
    }

    /// A single nul ends the bytes and no other byte is nul.
    pub closed spec fn wf(self) -> bool {
        &&& self.bytes@.len() >= 1
        &&& nul_at(self.bytes@, 0, self.bytes@.len() - 1)
    }

    /// The bytes of the text, without the terminator.
    pub fn to_bytes(&self) -> (r: &'a [u8])
        ensures
            r@ == self@,
    {
        if self.bytes.len() == 0 {
            self.bytes
        } else {
            &self.bytes[0..self.bytes.len() - 1]
        }
    }

    /// The bytes of the text, with the terminator.
    pub fn to_bytes_with_nul(&self) -> (r: &'a [u8])
        ensures
            r@ == self.with_nul(),
    {
        self.bytes
    }
}

/// Decoding of a bare nul-terminated string.
#[derive(Clone, Copy)]
pub struct NulTerminated;

impl NulTerminated {
    /// Reads the bytes from the cursor up to and including the first nul.
    ///
    /// Fails when no nul byte lies between the cursor and the end of `buf`.
    pub fn read<'a>(buf: &'a [u8], offset: &mut usize) -> (r: Option<NulStr<'a>>)
        ensures
            r is Some <==> has_nul(buf@, *old(offset) as int),
            r is Some ==> {
                &&& nul_at(buf@, *old(offset) as int, *final(offset) - 1)
                &&& r->0.wf()
                &&& r->0.with_nul() == buf@.subrange(*old(offset) as int, *final(offset) as int)
                &&& r->0@ == buf@.subrange(*old(offset) as int, *final(offset) - 1)
            },
            r is None ==> *final(offset) == *old(offset),
    {
        let start = *offset;
        let mut i = start;
        while i < buf.len()
            invariant
                start <= i,
                start == *old(offset),
                *offset == start,
                forall|j: int| start <= j < i ==> buf@[j] != 0,
            decreases buf.len() - i,
        {
            if buf[i] == 0 {
                *offset = i + 1;
                let bytes = &buf[start..i + 1];
                let r = NulStr { bytes };
                assert(nul_at(buf@, start as int, i as int));
                assert(nul_at(bytes@, 0, bytes@.len() - 1));
                assert(r@ =~= buf@.subrange(start as int, i as int));
                return Some(r);
            }
            i = i + 1;
        }
        assert(!has_nul(buf@, start as int)) by {
            if has_nul(buf@, start as int) {
                let k = choose|k: int| nul_at(buf@, start as int, k);
                assert(buf@[k] != 0);
            }
        }
        None
    }
}

/// Decoding of a nul-terminated string that follows a `u32` byte length; the cursor ends
/// `length` bytes after the length field, wherever the nul lies.
#[derive(Clone, Copy)]
pub struct LengthPrefixed;

impl LengthPrefixed {
    /// Reads the length, then the string that begins right after it.
    pub fn read<'a>(buf: &'a [u8], offset: &mut usize) -> (r: Option<NulStr<'a>>)
        ensures
            r is Some <==> fits(buf@, *old(offset) as int, 4) && has_nul(
                buf@,
                *old(offset) + 4,
            ),
            r is Some ==> {
                let beg = *old(offset) + 4;
                &&& r->0.wf()
                &&& exists|k: int|
                    nul_at(buf@, beg, k) && r->0.with_nul() == buf@.subrange(beg, k + 1)
                        && r->0@ == buf@.subrange(beg, k)
                &&& *final(offset) == sat_add(beg, le_u32(buf@, *old(offset) as int))
            },
    {
        let len = read_u32(buf, offset)?;
        let beg = *offset;
        let val = NulTerminated::read(buf, offset)?;
        *offset = beg.saturating_add(len as usize);
        Some(val)
    }
}

/// Number of bytes to add to `n` to reach a multiple of four.
pub open spec fn pad4(n: int) -> int {
    (4 - n % 4) % 4
}

/// Decoding of a nul-terminated string followed by nul padding up to a four-byte boundary,
/// counted from the start of the string.
#[derive(Clone, Copy)]
pub struct FourByteBoundaryPadded;

impl FourByteBoundaryPadded {
    /// Reads the string and moves the cursor past its padding.
    pub fn read<'a>(buf: &'a [u8], offset: &mut usize) -> (r: Option<NulStr<'a>>)
        ensures
            r is Some <==> has_nul(buf@, *old(offset) as int),
            r is Some ==> {
                let end = *old(offset) + r->0.with_nul().len();
                &&& r->0.wf()
                &&& nul_at(buf@, *old(offset) as int, end - 1)
                &&& r->0.with_nul() == buf@.subrange(*old(offset) as int, end)
                &&& r->0@ == buf@.subrange(*old(offset) as int, end - 1)
                &&& *final(offset) == sat_add(end, pad4(r->0.with_nul().len() as int))
            },
    {
        let val = NulTerminated::read(buf, offset)?;
        let len = val.to_bytes_with_nul().len();
        let pad = (4 - len % 4) % 4;
        *offset = offset.saturating_add(pad);
        Some(val)
    }
}

/// The value and the width in bytes of the compressed unsigned integer at `i`, if it is
/// well-formed and lies inside `s`.
pub open spec fn compressed_at(s: Seq<u8>, i: int) -> Option<(int, int)> {
    if !(0 <= i < s.len()) {
        None
    } else {
        let b0 = s[i] as int;
        if b0 < 0x80 {
            Some((b0, 1))
        } else if b0 < 0xC0 {
            if i + 2 <= s.len() {
                Some(((b0 - 0x80) * 0x100 + s[i + 1] as int, 2))
            } else {
                None
            }
        } else if b0 < 0xE0 {
            if i + 4 <= s.len() {
                Some(
                    (
                        (b0 - 0xC0) * 0x1000000 + (s[i + 1] as int) * 0x10000 + (s[i + 2] as int)
                            * 0x100 + s[i + 3] as int,
                        4,
                    ),
                )
            } else {
                None
            }
        } else {
            None
        }
    }
}

/// The value of the compressed unsigned integer at `i`, if there is one.
pub open spec fn compressed_value(s: Seq<u8>, i: int) -> int {
    let (v, w) = compressed_at(s, i)->0;
    v
}

/// Decoding of the variable-length unsigned integer that prefixes blobs and user strings.
#[derive(Clone, Copy)]
pub struct CompressedLength;

impl CompressedLength {
    /// Reads a compressed unsigned integer: one byte `0xxxxxxx`, two bytes `10xxxxxx ...`, or
    /// four bytes `110xxxxx ...`; a first byte `111xxxxx` is rejected.
    pub fn read(buf: &[u8], offset: &mut usize) -> (r: Option<usize>)
        ensures
            r is Some <==> compressed_at(buf@, *old(offset) as int) is Some,
            r is Some ==> {
                let (v, w) = compressed_at(buf@, *old(offset) as int)->0;
                r->0 as int == v && *final(offset) == *old(offset) + w
            },
            r is None ==> *final(offset) == *old(offset),
    {
        let i = *offset;
        if i >= buf.len() {
            return None;
        }
        let b0 = buf[i];
        if b0 < 0x80 {
            *offset = i + 1;
            Some(b0 as usize)
        } else if b0 < 0xC0 {
            if buf.len() - i < 2 {
                return None;
            }
            let v = (b0 - 0x80) as u32 * 0x100 + buf[i + 1] as u32;
            *offset = i + 2;
            Some(v as usize)
        } else if b0 < 0xE0 {
            if buf.len() - i < 4 {
                return None;
            }
            let v = (b0 - 0xC0) as u32 * 0x1000000 + buf[i + 1] as u32 * 0x10000 + buf[i + 2] as u32
                * 0x100 + buf[i + 3] as u32;
            *offset = i + 4;
            Some(v as usize)
        } else {
            None
        }
    }
}

impl CompressedLength {
    /// Decodes the compressed unsigned integer at `offset` without moving any cursor: the
    /// result depends on `buf` and `offset` alone, so peeking twice gives the same value.
    pub fn peek(buf: &[u8], offset: &usize) -> (r: Option<usize>)
        ensures
            r is Some <==> compressed_at(buf@, *offset as int) is Some,
            r is Some ==> r->0 as int == compressed_value(buf@, *offset as int),
    {
        let mut cursor = *offset;
        CompressedLength::read(buf, &mut cursor)
    }
}

} // verus!
