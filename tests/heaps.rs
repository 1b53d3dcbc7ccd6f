use ecma335::blobs::{BlobId, BlobsHeap};
use ecma335::guids::{GuidId, GuidsHeap};
use ecma335::headers::HeapSizes;
use ecma335::strings::{StringId, StringsHeap};
use ecma335::user_strings::{UserStringId, UserStringsHeap};

#[test]
fn strings_by_offset() {
    let heap = StringsHeap(&b"\0Foo\0Bar\0xyz"[..]);
    assert_eq!(heap.get(StringId(0)).unwrap().to_bytes(), b"");
    assert_eq!(heap.get(StringId(1)).unwrap().to_bytes(), b"Foo");
    assert_eq!(heap.get(StringId(2)).unwrap().to_bytes(), b"oo");
    assert_eq!(heap.get(StringId(5)).unwrap().to_bytes(), b"Bar");
    assert!(heap.get(StringId(9)).is_none());
    assert!(heap.get(StringId(12)).is_none());
    assert!(heap.get(StringId(usize::MAX)).is_none());
}

#[test]
fn strings_walk_from_the_start() {
    let heap = StringsHeap(&b"\0Foo\0Bar\0xyz"[..]);
    let mut it = heap.iter();
    assert_eq!(it.next().unwrap().to_bytes(), b"");
    assert_eq!(it.next().unwrap().to_bytes(), b"Foo");
    assert_eq!(it.next().unwrap().to_bytes(), b"Bar");
    assert!(it.next().is_none());
    assert!(it.next().is_none());
}

#[test]
fn blobs_by_offset() {
    let data = [0u8, 3, 1, 2, 3, 0x81, 0x00, 9];
    let heap = BlobsHeap(&data);
    assert_eq!(heap.get(BlobId(0)), Some(&data[1..1]));
    assert_eq!(heap.get(BlobId(1)), Some(&data[2..5]));
    assert!(heap.get(BlobId(5)).is_none());
    assert!(heap.get(BlobId(8)).is_none());
    assert!(heap.get(BlobId(100)).is_none());
}

#[test]
fn user_strings_by_offset() {
    let data = [0u8, 5, b'h', 0, b'i', 0, 1, 9];
    let heap = UserStringsHeap(&data);
    assert_eq!(heap.get(UserStringId(1)), Some(&data[2..7]));
    assert!(heap.get(UserStringId(7)).is_none());
    assert!(heap.get(UserStringId(8)).is_none());
}

#[test]
fn guids_by_offset() {
    let mut data = [0u8; 20];
    for (i, b) in data.iter_mut().enumerate() {
        *b = i as u8;
    }
    let heap = GuidsHeap(&data);
    let g = heap.get(GuidId(2)).unwrap();
    assert_eq!(g[0], 2);
    assert_eq!(g[15], 17);
    assert!(heap.get(GuidId(4)).is_some());
    assert!(heap.get(GuidId(5)).is_none());
    assert!(heap.get(GuidId(20)).is_none());
    assert!(heap.get(GuidId(usize::MAX)).is_none());
}

#[test]
fn heap_id_widths_for_every_flag_combination() {
    let buf = [0x01u8, 0x02, 0x03, 0x04];
    for bits in 0u8..8 {
        let hs = HeapSizes::from_bits_truncate(bits);
        let s = if bits & 1 != 0 { 4 } else { 2 };
        let g = if bits & 2 != 0 { 4 } else { 2 };
        let b = if bits & 4 != 0 { 4 } else { 2 };
        assert_eq!(StringId::byte_size(hs), s);
        assert_eq!(GuidId::byte_size(hs), g);
        assert_eq!(BlobId::byte_size(hs), b);

        let mut offset = 0;
        let id = StringId::from_bytes(&buf, &mut offset, hs).unwrap();
        assert_eq!(offset, s);
        assert_eq!(id, StringId(if s == 4 { 0x04030201 } else { 0x0201 }));
        let mut offset = 0;
        GuidId::from_bytes(&buf, &mut offset, hs).unwrap();
        assert_eq!(offset, g);
        let mut offset = 0;
        BlobId::from_bytes(&buf, &mut offset, hs).unwrap();
        assert_eq!(offset, b);
    }
    assert_eq!(HeapSizes::from_bits_truncate(0xFF).bits, 0x07);
}
