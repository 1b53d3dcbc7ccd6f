use ecma335::errors::{MetadataReadError, MetadataStreamReadError};
use ecma335::headers::MetadataHeader;
use ecma335::metadata::MetadataReader;
use ecma335::pe::{CliHeader, ManagedPeFile, ReadManagedPeError};
use ecma335::streams::MetadataStream;
use ecma335::strings::StringId;

const BIG_ENDIAN_SIGNATURE_ROOT: [u8; 27] = [
    0x53, 0x42, 0x4A, 0x42, 0x01, 0x00, 0x01, 0x00, 0x00, 0x00, 0x00, 0x00, 0x04, 0x00, 0x00,
    0x00, 0x76, 0x31, 0x2E, 0x30, 0x00, 0x00, 0x00, 0x00, 0x00, 0x01, 0x00,
];

fn entry(offset: u32, size: u32, name: &[u8]) -> Vec<u8> {
    let mut v = Vec::new();
    v.extend_from_slice(&offset.to_le_bytes());
    v.extend_from_slice(&size.to_le_bytes());
    v.extend_from_slice(name);
    v.push(0);
    while (v.len() - 8) % 4 != 0 {
        v.push(0);
    }
    v
}

fn root(streams: u16) -> Vec<u8> {
    let mut v = Vec::new();
    v.extend_from_slice(&0x424A5342u32.to_le_bytes());
    v.extend_from_slice(&1u16.to_le_bytes());
    v.extend_from_slice(&1u16.to_le_bytes());
    v.extend_from_slice(&0u32.to_le_bytes());
    v.extend_from_slice(&8u32.to_le_bytes());
    v.extend_from_slice(b"v1.0\0\0\0\0");
    v.extend_from_slice(&0u16.to_le_bytes());
    v.extend_from_slice(&streams.to_le_bytes());
    v
}

fn sample_metadata() -> Vec<u8> {
    let mut v = root(3);
    v.extend(entry(80, 4, b"#Pdb"));
    v.extend(entry(1000, 4, b"#Blob"));
    v.extend(entry(84, 8, b"#Strings"));
    assert_eq!(v.len(), 80);
    v.extend_from_slice(&[1, 2, 3, 4]);
    v.extend_from_slice(b"\0Foo\0Ba\0");
    v
}

#[test]
fn root_header_bytes_in_written_order() {
    // The signature bytes are in big-endian order here, so the little-endian field reads
    // 0x424A4253; the version length 4 ends the text before its nul.
    let mut offset = 0;
    let h = MetadataHeader::from_bytes(&BIG_ENDIAN_SIGNATURE_ROOT, &mut offset).unwrap();
    assert_eq!(h.signature, 0x424A4253);
    assert_eq!(h.major_version, 1);
    assert_eq!(h.minor_version, 1);
    assert_eq!(h.version.to_bytes(), b"v1.0");
    assert_eq!(offset, 24);
    assert!(matches!(
        MetadataReader::from_bytes(&BIG_ENDIAN_SIGNATURE_ROOT),
        Err(MetadataReadError::BadSignature(0x424A4253))
    ));
}

#[test]
fn root_header_with_padded_version() {
    assert_eq!(&root(1)[..4], &[0x42, 0x53, 0x4A, 0x42]);
    let bytes = root(1);
    let mut offset = 0;
    let h = MetadataHeader::from_bytes(&bytes, &mut offset).unwrap();
    assert_eq!(h.signature, 0x424A5342);
    assert_eq!(h.major_version, 1);
    assert_eq!(h.minor_version, 1);
    assert_eq!(h.version.to_bytes(), b"v1.0");
    assert_eq!(h.flags, 0);
    assert_eq!(h.streams, 1);
    assert_eq!(offset, 28);
}

#[test]
fn root_errors() {
    let mut bytes = root(0);
    bytes[0] = 0x54;
    assert!(matches!(MetadataReader::from_bytes(&bytes), Err(MetadataReadError::BadSignature(0x424A5354))));
    assert!(matches!(MetadataReader::from_bytes(&root(0)[..27]), Err(MetadataReadError::NotEnough)));
    assert!(matches!(MetadataReader::from_bytes(&[]), Err(MetadataReadError::NotEnough)));
    assert!(MetadataReader::from_bytes(&root(0)).is_ok());
}

#[test]
fn unknown_stream_does_not_stop_the_directory() {
    let bytes = sample_metadata();
    let md = MetadataReader::from_bytes(&bytes).ok().unwrap();
    assert_eq!(md.header().streams, 3);
    let mut streams = md.streams();

    match streams.next() {
        Some(Ok(MetadataStream::Unrecognized { header, data })) => {
            assert_eq!(header.name.to_bytes(), b"#Pdb");
            assert_eq!(header.offset, 80);
            assert_eq!(data, &[1, 2, 3, 4]);
        }
        _ => panic!("expected the #Pdb stream"),
    }
    match streams.next() {
        Some(Err(MetadataStreamReadError::MissingData { header })) => {
            assert_eq!(header.name.to_bytes(), b"#Blob");
            assert_eq!(header.offset, 1000);
        }
        _ => panic!("expected an out-of-bounds entry"),
    }
    let strings = match streams.next() {
        Some(Ok(s)) => s.as_strings().unwrap(),
        _ => panic!("expected the #Strings stream"),
    };
    assert_eq!(strings.get(StringId(1)).unwrap().to_bytes(), b"Foo");
    assert!(streams.next().is_none());
    assert!(streams.next().is_none());
}

fn cli_header_bytes() -> Vec<u8> {
    let mut v = Vec::new();
    v.extend_from_slice(&72u32.to_le_bytes());
    v.extend_from_slice(&2u16.to_le_bytes());
    v.extend_from_slice(&5u16.to_le_bytes());
    v.extend_from_slice(&0x2000u32.to_le_bytes());
    v.extend_from_slice(&92u32.to_le_bytes());
    v.extend_from_slice(&1u32.to_le_bytes());
    v.extend_from_slice(&0x0600_0001u32.to_le_bytes());
    v.extend_from_slice(&[0u8; 48]);
    v
}

#[test]
fn cli_header_and_metadata() {
    let bytes = cli_header_bytes();
    let mut offset = 0;
    let h = CliHeader::from_bytes(&bytes, &mut offset).unwrap();
    assert_eq!(offset, 72);
    assert_eq!(h.cb, 72);
    assert_eq!(h.minor_runtime_version, 5);
    assert_eq!(h.metadata.virtual_address, 0x2000);
    assert_eq!(h.metadata.size, 92);
    assert_eq!(h.entry_point_token, 0x0600_0001);

    let pe = ManagedPeFile::from_pe(Some(&bytes)).unwrap();
    assert_eq!(pe.header, h);
    assert_eq!(ManagedPeFile::from_pe(None), Err(ReadManagedPeError::MissingCliHeader));
    assert_eq!(ManagedPeFile::from_pe(Some(&bytes[..71])), Err(ReadManagedPeError::MissingCliHeader));
    assert_eq!(ManagedPeFile::from_data(false, Some(&bytes)), Err(ReadManagedPeError::InvalidPeFile));
    assert_eq!(ManagedPeFile::from_data(true, Some(&bytes)), Ok(pe));

    let mut image = sample_metadata();
    image.extend_from_slice(&[0xEE; 8]);
    let md = pe.metadata(Some(&image)).ok().unwrap();
    assert_eq!(md.header().streams, 3);
    assert!(matches!(pe.metadata(None), Err(MetadataReadError::NotEnough)));
    assert!(matches!(pe.metadata(Some(&image[..91])), Err(MetadataReadError::NotEnough)));
}

#[test]
fn directory_dispatches_by_name() {
    let mut v = root(6);
    let names: [&[u8]; 6] = [b"#~", b"#US", b"#Blob", b"#GUID", b"#Strings", b"#~"];
    let sizes = [24u32, 4, 4, 16, 4, 10];
    let mut dir_len = 0;
    for n in names.iter() {
        dir_len += entry(0, 0, n).len();
    }
    let mut at = (v.len() + dir_len) as u32;
    for (n, size) in names.iter().zip(sizes.iter()) {
        v.extend(entry(at, *size, n));
        at += size;
    }
    // An empty tables stream: header only, no table present.
    let mut tables = vec![0u8; 24];
    tables[4] = 2;
    tables[7] = 1;
    v.extend_from_slice(&tables);
    v.extend_from_slice(&[0, 2, b'a', 0]);
    v.extend_from_slice(&[0, 2, 7, 8]);
    v.extend_from_slice(&[0xAB; 16]);
    v.extend_from_slice(b"\0ab\0");
    v.extend_from_slice(&[0u8; 10]);

    let md = MetadataReader::from_bytes(&v).ok().unwrap();
    let mut it = md.streams();
    let t = it.next().unwrap().ok().unwrap();
    assert_eq!(t.as_tables().unwrap().bytes().len(), 24);
    assert!(t.as_strings().is_none());
    let us = it.next().unwrap().ok().unwrap().as_user_strings().unwrap();
    assert_eq!(us.get(ecma335::user_strings::UserStringId(1)), Some(&[b'a', 0u8][..]));
    let blobs = it.next().unwrap().ok().unwrap().as_blobs().unwrap();
    assert_eq!(blobs.get(ecma335::blobs::BlobId(1)), Some(&[7u8, 8][..]));
    let guids = it.next().unwrap().ok().unwrap().as_guids().unwrap();
    assert_eq!(guids.get(ecma335::guids::GuidId(0)), Some([0xAB; 16]));
    let strings = it.next().unwrap().ok().unwrap().as_strings().unwrap();
    assert_eq!(strings.get(StringId(1)).unwrap().to_bytes(), b"ab");
    assert!(matches!(it.next(), Some(Err(MetadataStreamReadError::NotEnough))));
    assert!(it.next().is_none());
}
