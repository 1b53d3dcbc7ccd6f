use ecma335::bytes::{
    peek_u32, read_bytes, read_u16, read_u32, read_u64, CompressedLength, FourByteBoundaryPadded,
    LengthPrefixed, NulTerminated,
};

#[test]
fn test_read_u64() {
    let offset = &mut 0;
    let expected = 0xdeadbeefdeadbeefu64;
    let actual = read_u64(&expected.to_le_bytes()[..], offset).unwrap();

    assert_eq!(expected, actual);
    assert_eq!(8, *offset);
}

#[test]
fn test_read_cstr_nul_terminated() {
    let offset = &mut 0;
    let expected = &b"hello world\0"[..];
    let actual = NulTerminated::read(expected, offset).unwrap();

    assert_eq!(expected, actual.to_bytes_with_nul());
    assert_eq!(expected.len(), *offset);
}

#[test]
fn nul_terminated_text_and_missing_nul() {
    let buf = &b"ab\0cd"[..];
    let mut offset = 0;
    let s = NulTerminated::read(buf, &mut offset).unwrap();
    assert_eq!(s.to_bytes(), b"ab");
    assert_eq!(offset, 3);
    assert!(NulTerminated::read(buf, &mut offset).is_none());
    assert_eq!(offset, 3);
    let mut past = 9;
    assert!(NulTerminated::read(buf, &mut past).is_none());
}

#[test]
fn little_endian_integers() {
    let buf = [0x34u8, 0x12, 0x78, 0x56, 0xff];
    let mut offset = 0;
    assert_eq!(read_u16(&buf, &mut offset), Some(0x1234));
    assert_eq!(offset, 2);
    let mut offset = 0;
    assert_eq!(read_u32(&buf, &mut offset), Some(0x56781234));
    assert_eq!(offset, 4);
    assert_eq!(read_u32(&buf, &mut offset), None);
    assert_eq!(offset, 4);
}

#[test]
fn byte_span_and_saturating_length() {
    let buf = [1u8, 2, 3, 4];
    let mut offset = 1;
    assert_eq!(read_bytes(&buf, &mut offset, 2), Some(&buf[1..3]));
    assert_eq!(offset, 3);
    assert_eq!(read_bytes(&buf, &mut offset, usize::MAX), None);
    assert_eq!(offset, 3);
}

#[test]
fn compressed_length_scenarios() {
    let mut offset = 0;
    assert_eq!(CompressedLength::read(&[0x05], &mut offset), Some(5));
    assert_eq!(offset, 1);

    let mut offset = 0;
    assert_eq!(CompressedLength::read(&[0x81, 0x02], &mut offset), Some(0x0102));
    assert_eq!(offset, 2);

    let mut offset = 0;
    assert_eq!(CompressedLength::read(&[0xC0, 0x00, 0x00, 0x01], &mut offset), Some(1));
    assert_eq!(offset, 4);

    let mut offset = 0;
    assert_eq!(CompressedLength::read(&[0xE0], &mut offset), None);
}

#[test]
fn compressed_length_largest_and_truncated() {
    let mut offset = 0;
    assert_eq!(CompressedLength::read(&[0xDF, 0xFF, 0xFF, 0xFF], &mut offset), Some(0x1FFF_FFFF));
    assert_eq!(offset, 4);
    let mut offset = 0;
    assert_eq!(CompressedLength::read(&[0xBF, 0xFF], &mut offset), Some(0x3FFF));
    let mut offset = 0;
    assert_eq!(CompressedLength::read(&[0x81], &mut offset), None);
    assert_eq!(offset, 0);
    let mut offset = 0;
    assert_eq!(CompressedLength::read(&[0xC0, 0x00, 0x01], &mut offset), None);
}

#[test]
fn peeking_twice_agrees_and_keeps_the_cursor() {
    let buf = [0x81u8, 0x02, 0x03, 0x04, 0x05];
    let offset = 1;
    let a = peek_u32(&buf, &offset);
    let b = peek_u32(&buf, &offset);
    assert_eq!(a, Some(0x05040302));
    assert_eq!(a, b);
    assert_eq!(offset, 1);
    let at = 0;
    assert_eq!(CompressedLength::peek(&buf, &at), Some(0x0102));
    assert_eq!(CompressedLength::peek(&buf, &at), Some(0x0102));
    assert_eq!(at, 0);
}

#[test]
fn padded_names_end_on_four_byte_boundaries() {
    let buf = &b"#~\0\0#Strings\0\0\0\0X"[..];
    let mut offset = 0;
    let a = FourByteBoundaryPadded::read(buf, &mut offset).unwrap();
    assert_eq!(a.to_bytes(), b"#~");
    assert_eq!(offset, 4);
    let b = FourByteBoundaryPadded::read(buf, &mut offset).unwrap();
    assert_eq!(b.to_bytes(), b"#Strings");
    assert_eq!(offset, 16);
}

#[test]
fn length_prefixed_text_skips_its_declared_length() {
    let buf = [8u8, 0, 0, 0, b'v', b'1', b'.', b'0', 0, 0, 0, 0, 0xAA];
    let mut offset = 0;
    let v = LengthPrefixed::read(&buf, &mut offset).unwrap();
    assert_eq!(v.to_bytes(), b"v1.0");
    assert_eq!(offset, 12);
}

#[test]
fn fixed_size_arrays() {
    let buf = [9u8, 8, 7, 6, 5];
    let mut offset = 1;
    assert_eq!(ecma335::bytes::read_array::<3>(&buf, &mut offset), Some([8, 7, 6]));
    assert_eq!(offset, 4);
    assert_eq!(ecma335::bytes::read_array::<2>(&buf, &mut offset), None);
    assert_eq!(offset, 4);
}
