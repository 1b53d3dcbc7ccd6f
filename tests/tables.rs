use ecma335::errors::MetadataStreamReadError;
use ecma335::headers::MetadataTablesHeader;
use ecma335::schema::{
    read_field, row_size, CodedIndexKind, FieldKind, FieldValue, RowId, EVENT_MAP, FIELD,
    INTERFACE_IMPL, MEMBER_REF, METHOD_DEF, MODULE, TYPE_DEF, TYPE_REF,
};
use ecma335::blobs::BlobId;
use ecma335::guids::GuidId;
use ecma335::strings::StringId;
use ecma335::tables::TablesStream;

fn tables_header(heap_sizes: u8, counts: &[(usize, u32)]) -> Vec<u8> {
    let mut valid = 0u64;
    for (t, _) in counts {
        valid |= 1 << t;
    }
    let mut v = Vec::new();
    v.extend_from_slice(&0u32.to_le_bytes());
    v.push(2);
    v.push(0);
    v.push(heap_sizes);
    v.push(1);
    v.extend_from_slice(&valid.to_le_bytes());
    v.extend_from_slice(&0u64.to_le_bytes());
    let mut sorted: Vec<(usize, u32)> = counts.to_vec();
    sorted.sort();
    for (_, n) in sorted {
        v.extend_from_slice(&n.to_le_bytes());
    }
    v
}

fn header_of(bytes: &[u8]) -> MetadataTablesHeader {
    let mut offset = 0;
    MetadataTablesHeader::from_bytes(bytes, &mut offset).unwrap()
}

fn sample_stream() -> Vec<u8> {
    let mut v = tables_header(0, &[(MODULE, 1), (TYPE_DEF, 2)]);
    // Module: generation, name, mvid, enc id, enc base id.
    for x in [0u16, 3, 1, 0, 0] {
        v.extend_from_slice(&x.to_le_bytes());
    }
    // TypeDef 0: flags, name, namespace, extends (TypeRef 1), field list, method list.
    v.extend_from_slice(&0x0010_0000u32.to_le_bytes());
    for x in [5u16, 0, (1 << 2) | 1, 1, 1] {
        v.extend_from_slice(&x.to_le_bytes());
    }
    // TypeDef 1: extends TypeDef 0.
    v.extend_from_slice(&1u32.to_le_bytes());
    for x in [9u16, 0, 0, 1, 2] {
        v.extend_from_slice(&x.to_le_bytes());
    }
    v
}

#[test]
fn tables_header_row_counts_follow_the_presence_bits() {
    let bytes = tables_header(0x05, &[(MODULE, 1), (TYPE_DEF, 7), (0x2C, 3)]);
    let mut offset = 0;
    let h = MetadataTablesHeader::from_bytes(&bytes, &mut offset).unwrap();
    assert_eq!(offset, 24 + 12);
    assert_eq!(h.rows[MODULE], 1);
    assert_eq!(h.rows[TYPE_REF], 0);
    assert_eq!(h.rows[TYPE_DEF], 7);
    assert_eq!(h.rows[0x2C], 3);
    assert_eq!(h.heap_sizes.bits, 0x05);
    assert_eq!(h.major_version, 2);
    let mut offset = 0;
    assert!(MetadataTablesHeader::from_bytes(&bytes[..bytes.len() - 1], &mut offset).is_none());
}

#[test]
fn coded_index_width_threshold() {
    let narrow = header_of(&tables_header(0, &[(TYPE_DEF, 16383)]));
    let wide = header_of(&tables_header(0, &[(TYPE_DEF, 16384)]));
    assert_eq!(CodedIndexKind::TypeDefOrRef.byte_size(&narrow), 2);
    assert_eq!(CodedIndexKind::TypeDefOrRef.byte_size(&wide), 4);
    assert_eq!(CodedIndexKind::HasFieldMarshal.byte_size(&wide), 2);

    let below = header_of(&tables_header(0, &[(0x2B, 2047)]));
    let at = header_of(&tables_header(0, &[(0x2B, 2048)]));
    assert_eq!(CodedIndexKind::HasCustomAttribute.byte_size(&below), 2);
    assert_eq!(CodedIndexKind::HasCustomAttribute.byte_size(&at), 4);
    assert_eq!(CodedIndexKind::MethodDefOrRef.byte_size(&at), 2);
}

#[test]
fn coded_index_tags() {
    assert_eq!(
        CodedIndexKind::HasCustomAttribute.from_tag((5 << 5) | 3),
        Some(RowId::new(TYPE_DEF, 5))
    );
    assert_eq!(
        CodedIndexKind::CustomAttributeType.from_tag((7 << 3) | 3),
        Some(RowId::new(MEMBER_REF, 7))
    );
    assert_eq!(CodedIndexKind::CustomAttributeType.from_tag((7 << 3) | 0), None);
    assert_eq!(CodedIndexKind::CustomAttributeType.from_tag(4), None);
    assert_eq!(CodedIndexKind::TypeDefOrRef.from_tag(3), None);
    let h = header_of(&tables_header(0, &[]));
    let mut offset = 0;
    assert_eq!(
        read_field(&[0x07, 0x00], &mut offset, FieldKind::Coded(CodedIndexKind::ResolutionScope), &h),
        Some(FieldValue::Row(RowId::new(TYPE_REF, 1)))
    );
    let mut offset = 0;
    assert_eq!(
        read_field(&[0x01, 0x00], &mut offset, FieldKind::Coded(CodedIndexKind::CustomAttributeType), &h),
        None
    );
}

#[test]
fn row_id_width_follows_the_target_table() {
    let h = header_of(&tables_header(0, &[(TYPE_DEF, 70000), (FIELD, 10)]));
    assert_eq!(RowId::byte_size(TYPE_DEF, &h), 4);
    assert_eq!(RowId::byte_size(FIELD, &h), 2);
    assert_eq!(RowId::byte_size(METHOD_DEF, &h), 2);
    assert_eq!(row_size(EVENT_MAP, &h), 6);
    assert_eq!(row_size(INTERFACE_IMPL, &h), 8);
    let mut offset = 0;
    let id = RowId::from_bytes(&[1, 0, 1, 0], &mut offset, TYPE_DEF, &h).unwrap();
    assert_eq!(id, RowId::new(TYPE_DEF, 0x0001_0001));
    assert_eq!(offset, 4);
}

#[test]
fn row_widths_follow_heap_flags() {
    let narrow = header_of(&tables_header(0, &[]));
    let wide = header_of(&tables_header(0x07, &[]));
    assert_eq!(row_size(MODULE, &narrow), 10);
    assert_eq!(row_size(MODULE, &wide), 18);
    assert_eq!(row_size(TYPE_DEF, &narrow), 14);
    assert_eq!(row_size(0x03, &narrow), 0);
    let mut offset = 0;
    assert_eq!(
        read_field(&[1, 2, 3, 4], &mut offset, FieldKind::Blob, &wide),
        Some(FieldValue::Blob(BlobId(0x04030201)))
    );
    let mut offset = 0;
    assert_eq!(
        read_field(&[1, 2, 3, 4], &mut offset, FieldKind::Guid, &narrow),
        Some(FieldValue::Guid(GuidId(0x0201)))
    );
}

#[test]
fn tables_stream_rows() {
    let bytes = sample_stream();
    let tables = TablesStream::from_bytes(&bytes).ok().unwrap();
    assert_eq!(tables.bytes().len(), bytes.len());

    let modules = tables.modules();
    let m = modules.get(RowId::new(MODULE, 0)).unwrap();
    assert_eq!(m.fields[1], FieldValue::Str(StringId(3)));
    assert_eq!(m.fields[2], FieldValue::Guid(GuidId(1)));

    let type_defs = tables.type_defs();
    let t0 = type_defs.get(RowId::new(TYPE_DEF, 0)).unwrap();
    assert_eq!(
        t0.fields,
        vec![
            FieldValue::Int(0x0010_0000),
            FieldValue::Str(StringId(5)),
            FieldValue::Str(StringId(0)),
            FieldValue::Row(RowId::new(TYPE_REF, 1)),
            FieldValue::Row(RowId::new(FIELD, 1)),
            FieldValue::Row(RowId::new(METHOD_DEF, 1)),
        ]
    );
    let t1 = type_defs.get(RowId::new(TYPE_DEF, 0).next()).unwrap();
    assert_eq!(t1.fields[3], FieldValue::Row(RowId::new(TYPE_DEF, 0)));
    assert_eq!(t1.fields[5], FieldValue::Row(RowId::new(METHOD_DEF, 2)));
    assert!(type_defs.get(RowId::new(TYPE_DEF, 2)).is_none());
    assert!(type_defs.get(RowId::new(FIELD, 0)).is_none());
    assert!(tables.fields().get(RowId::new(FIELD, 0)).is_none());
    assert!(tables.type_refs().get(RowId::new(TYPE_REF, 0)).is_none());
}

#[test]
fn table_iteration_yields_each_row_once() {
    let bytes = sample_stream();
    let tables = TablesStream::from_bytes(&bytes).ok().unwrap();
    let mut it = tables.type_defs().iter();
    assert_eq!(it.next().unwrap().id, RowId::new(TYPE_DEF, 0));
    assert_eq!(it.next().unwrap().id, RowId::new(TYPE_DEF, 1));
    assert!(it.next().is_none());
    let mut again = tables.type_defs().iter();
    assert_eq!(again.next().unwrap().id.index(), 0);
    assert!(tables.params().iter().next().is_none());
}

#[test]
fn tables_stream_too_short() {
    let bytes = sample_stream();
    let short = &bytes[..bytes.len() - 1];
    assert!(matches!(TablesStream::from_bytes(short), Err(MetadataStreamReadError::NotEnough)));
    assert!(matches!(TablesStream::from_bytes(&bytes[..20]), Err(MetadataStreamReadError::NotEnough)));
}

#[test]
fn row_id_next_saturates() {
    assert_eq!(RowId::new(FIELD, 4).next(), RowId::new(FIELD, 5));
    assert_eq!(RowId::new(FIELD, usize::MAX).next(), RowId::new(FIELD, usize::MAX));
}
