//! The row schema engine: table ids, coded-index families, field kinds and their widths, and
//! the generic decoding of a row from its table's schema.

use crate::blobs::BlobId;
use crate::bytes::{fits, le_u16, le_u32, read_u16, read_u32, read_u8};
use crate::guids::GuidId;
use crate::headers::{
    heap_id_width, read_uint, uint_at, MetadataTablesHeader, WIDE_BLOB_HEAP, WIDE_GUID_HEAP,
    WIDE_STRING_HEAP,
};
use crate::strings::StringId;
use vstd::arithmetic::power2::{lemma2_to64, pow2};
use vstd::prelude::*;

verus! {

/// Table id of the Module table.
pub const MODULE: usize = 0x00;

/// Table id of the TypeRef table.
pub const TYPE_REF: usize = 0x01;

/// Table id of the TypeDef table.
pub const TYPE_DEF: usize = 0x02;

/// Table id of the Field table.
pub const FIELD: usize = 0x04;

/// Table id of the MethodDef table.
pub const METHOD_DEF: usize = 0x06;

/// Table id of the Param table.
pub const PARAM: usize = 0x08;

/// Table id of the InterfaceImpl table.
pub const INTERFACE_IMPL: usize = 0x09;

/// Table id of the MemberRef table.
pub const MEMBER_REF: usize = 0x0A;

/// Table id of the Constant table.
pub const CONSTANT: usize = 0x0B;

/// Table id of the CustomAttribute table.
pub const CUSTOM_ATTRIBUTE: usize = 0x0C;

/// Table id of the FieldMarshal table.
pub const FIELD_MARSHAL: usize = 0x0D;

/// Table id of the DeclSecurity table.
pub const DECL_SECURITY: usize = 0x0E;

/// Table id of the ClassLayout table.
pub const CLASS_LAYOUT: usize = 0x0F;

/// Table id of the FieldLayout table.
pub const FIELD_LAYOUT: usize = 0x10;

/// Table id of the StandAloneSig table.
pub const STAND_ALONE_SIG: usize = 0x11;

/// Table id of the EventMap table.
pub const EVENT_MAP: usize = 0x12;

/// Table id of the Event table.
pub const EVENT: usize = 0x14;

/// Table id of the PropertyMap table.
pub const PROPERTY_MAP: usize = 0x15;

/// Table id of the Property table.
pub const PROPERTY: usize = 0x17;

/// Table id of the MethodSemantics table.
pub const METHOD_SEMANTICS: usize = 0x18;

/// Table id of the MethodImpl table.
pub const METHOD_IMPL: usize = 0x19;

/// Table id of the ModuleRef table.
pub const MODULE_REF: usize = 0x1A;

/// Table id of the TypeSpec table.
pub const TYPE_SPEC: usize = 0x1B;

/// Table id of the ImplMap table.
pub const IMPL_MAP: usize = 0x1C;

/// Table id of the FieldRva table.
pub const FIELD_RVA: usize = 0x1D;

/// Table id of the Assembly table.
pub const ASSEMBLY: usize = 0x20;

/// Table id of the AssemblyProcessor table.
pub const ASSEMBLY_PROCESSOR: usize = 0x21;

/// Table id of the AssemblyOs table.
pub const ASSEMBLY_OS: usize = 0x22;

/// Table id of the AssemblyRef table.
pub const ASSEMBLY_REF: usize = 0x23;

/// Table id of the AssemblyRefProcessor table.
pub const ASSEMBLY_REF_PROCESSOR: usize = 0x24;

/// Table id of the AssemblyRefOs table.
pub const ASSEMBLY_REF_OS: usize = 0x25;

/// Table id of the File table.
pub const FILE: usize = 0x26;

/// Table id of the ExportedType table.
pub const EXPORTED_TYPE: usize = 0x27;

/// Table id of the ManifestResource table.
pub const MANIFEST_RESOURCE: usize = 0x28;

/// Table id of the NestedClass table.
pub const NESTED_CLASS: usize = 0x29;

/// Table id of the GenericParam table.
pub const GENERIC_PARAM: usize = 0x2A;

/// Table id of the MethodSpec table.
pub const METHOD_SPEC: usize = 0x2B;

/// Table id of the GenericParamConstraint table.
pub const GENERIC_PARAM_CONSTRAINT: usize = 0x2C;

/// A reference to a row of a table: the table's id and the row's ordinal.
#[derive(Debug, Clone, Copy, PartialEq, Eq)]
pub struct RowId {
    pub table: usize,
    pub index: usize,
}

/// Width of a reference to a row of table `t`: two bytes while the table has fewer than
/// 65536 rows, four bytes from then on.
pub open spec fn row_id_width(rows: Seq<u32>, t: int) -> int {
    if rows[t] < 65536 {
        2
    } else {
        4
    }
}

impl RowId {
    /// The reference to row `index` of table `table`.
    pub fn new(table: usize, index: usize) -> (r: RowId)
        ensures
            r == (RowId { table, index }),
    {
        RowId { table, index }
    }

    /// The ordinal of the row.
    pub fn index(self) -> (r: usize)
        ensures
            r == self.index,
    {
        self.index
    }

    /// The following row of the same table; the ordinal saturates at `usize::MAX`.
    pub fn next(self) -> (r: RowId)
        ensures
            r.table == self.table,
            r.index as int == crate::bytes::sat_add(self.index as int, 1),
    {
        RowId { table: self.table, index: self.index.saturating_add(1) }
    }

    /// Width of a reference to a row of `table`, from that table's row count.
    pub fn byte_size(table: usize, header: &MetadataTablesHeader) -> (r: usize)
        requires
            table < 64,
        ensures
            r as int == row_id_width(header.rows@, table as int),
    {
        if header.rows[table] < 65536 {
            2
        } else {
            4
        }
    }

    /// Decodes a reference to a row of `table`.
    pub fn from_bytes(
        buf: &[u8],
        offset: &mut usize,
        table: usize,
        header: &MetadataTablesHeader,
    ) -> (r: Option<RowId>)
        requires
            table < 64,
        ensures
            ({
                let w = row_id_width(header.rows@, table as int);
                &&& r is Some <==> fits(buf@, *old(offset) as int, w)
                &&& r is Some ==> r == Some(
                    RowId { table, index: uint_at(buf@, *old(offset) as int, w) as usize },
                )
                    && *final(offset) == *old(offset) + w
            }),
    {
        let w = RowId::byte_size(table, header);
        match read_uint(buf, offset, w == 4) {
            Some(index) => Some(RowId { table, index }),
            None => None,
        }
    }
}

/// A coded-index family: a row reference into one of several tables, with the table chosen
/// by a tag in the low bits of the stored value.
#[derive(Debug, Clone, Copy, PartialEq, Eq)]
pub enum CodedIndexKind {
    TypeDefOrRef,
    HasConstant,
    HasCustomAttribute,
    HasFieldMarshal,
    HasDeclSecurity,
    MemberRefParent,
    HasSemantics,
    MethodDefOrRef,
    MemberForwarded,
    Implementation,
    CustomAttributeType,
    ResolutionScope,
    TypeOrMethodDef,
}

/// Number of tag bits of family `k`.
pub open spec fn tag_bits(k: CodedIndexKind) -> nat {
    match k {
        CodedIndexKind::TypeDefOrRef => 2,
        CodedIndexKind::HasConstant => 2,
        CodedIndexKind::HasCustomAttribute => 5,
        CodedIndexKind::HasFieldMarshal => 1,
        CodedIndexKind::HasDeclSecurity => 2,
        CodedIndexKind::MemberRefParent => 3,
        CodedIndexKind::HasSemantics => 1,
        CodedIndexKind::MethodDefOrRef => 1,
        CodedIndexKind::MemberForwarded => 1,
        CodedIndexKind::Implementation => 2,
        CodedIndexKind::CustomAttributeType => 3,
        CodedIndexKind::ResolutionScope => 2,
        CodedIndexKind::TypeOrMethodDef => 1,
    }
}

/// Number of tag values of family `k`: two to the number of tag bits.
pub open spec fn tag_count(k: CodedIndexKind) -> u32 {
    match k {
        CodedIndexKind::TypeDefOrRef => 4,
        CodedIndexKind::HasConstant => 4,
        CodedIndexKind::HasCustomAttribute => 32,
        CodedIndexKind::HasFieldMarshal => 2,
        CodedIndexKind::HasDeclSecurity => 4,
        CodedIndexKind::MemberRefParent => 8,
        CodedIndexKind::HasSemantics => 2,
        CodedIndexKind::MethodDefOrRef => 2,
        CodedIndexKind::MemberForwarded => 2,
        CodedIndexKind::Implementation => 4,
        CodedIndexKind::CustomAttributeType => 8,
        CodedIndexKind::ResolutionScope => 4,
        CodedIndexKind::TypeOrMethodDef => 2,
    }
}

/// The table that tag `tag` of family `k` selects; `None` for an unused tag.
pub open spec fn tag_table(k: CodedIndexKind, tag: u32) -> Option<usize> {
    match k {
        CodedIndexKind::TypeDefOrRef => match tag {
            0 => Some(TYPE_DEF),
            1 => Some(TYPE_REF),
            2 => Some(TYPE_SPEC),
            _ => None,
        },
        CodedIndexKind::HasConstant => match tag {
            0 => Some(FIELD),
            1 => Some(PARAM),
            2 => Some(PROPERTY),
            _ => None,
        },
        CodedIndexKind::HasCustomAttribute => match tag {
            0 => Some(METHOD_DEF),
            1 => Some(FIELD),
            2 => Some(TYPE_REF),
            3 => Some(TYPE_DEF),
            4 => Some(PARAM),
            5 => Some(INTERFACE_IMPL),
            6 => Some(MEMBER_REF),
            7 => Some(MODULE),
            8 => Some(DECL_SECURITY),
            9 => Some(PROPERTY),
            10 => Some(EVENT),
            11 => Some(STAND_ALONE_SIG),
            12 => Some(MODULE_REF),
            13 => Some(TYPE_SPEC),
            14 => Some(ASSEMBLY),
            15 => Some(ASSEMBLY_REF),
            16 => Some(FILE),
            17 => Some(EXPORTED_TYPE),
            18 => Some(MANIFEST_RESOURCE),
            19 => Some(GENERIC_PARAM),
            20 => Some(GENERIC_PARAM_CONSTRAINT),
            21 => Some(METHOD_SPEC),
            _ => None,
        },
        CodedIndexKind::HasFieldMarshal => match tag {
            0 => Some(FIELD),
            1 => Some(PARAM),
            _ => None,
        },
        CodedIndexKind::HasDeclSecurity => match tag {
            0 => Some(TYPE_DEF),
            1 => Some(METHOD_DEF),
            2 => Some(ASSEMBLY),
            _ => None,
        },
        CodedIndexKind::MemberRefParent => match tag {
            0 => Some(TYPE_DEF),
            1 => Some(TYPE_REF),
            2 => Some(MODULE_REF),
            3 => Some(METHOD_DEF),
            4 => Some(TYPE_SPEC),
            _ => None,
        },
        CodedIndexKind::HasSemantics => match tag {
            0 => Some(EVENT),
            1 => Some(PROPERTY),
            _ => None,
        },
        CodedIndexKind::MethodDefOrRef => match tag {
            0 => Some(METHOD_DEF),
            1 => Some(MEMBER_REF),
            _ => None,
        },
        CodedIndexKind::MemberForwarded => match tag {
            0 => Some(FIELD),
            1 => Some(METHOD_DEF),
            _ => None,
        },
        CodedIndexKind::Implementation => match tag {
            0 => Some(FILE),
            1 => Some(ASSEMBLY_REF),
            2 => Some(EXPORTED_TYPE),
            _ => None,
        },
        CodedIndexKind::CustomAttributeType => match tag {
            2 => Some(METHOD_DEF),
            3 => Some(MEMBER_REF),
            _ => None,
        },
        CodedIndexKind::ResolutionScope => match tag {
            0 => Some(MODULE),
            1 => Some(MODULE_REF),
            2 => Some(ASSEMBLY_REF),
            3 => Some(TYPE_REF),
            _ => None,
        },
        CodedIndexKind::TypeOrMethodDef => match tag {
            0 => Some(TYPE_DEF),
            1 => Some(METHOD_DEF),
            _ => None,
        },
    }
}

/// Row count from which a candidate table makes a field of family `k` four bytes wide.
pub open spec fn coded_limit(k: CodedIndexKind) -> int {
    65536int / (tag_count(k) as int)
}

/// The table behind tag `tag` of family `k` has reached the limit of the narrow form.
pub open spec fn coded_reaches(k: CodedIndexKind, rows: Seq<u32>, tag: u32) -> bool {
    match tag_table(k, tag) {
        Some(t) => rows[t as int] >= coded_limit(k),
        None => false,
    }
}

/// Some candidate table of family `k` has reached the limit of the narrow form.
pub open spec fn coded_wide(k: CodedIndexKind, rows: Seq<u32>) -> bool {
    exists|tag: u32| tag < tag_count(k) && coded_reaches(k, rows, tag)
}

/// Width of a field of family `k`.
pub open spec fn coded_width(k: CodedIndexKind, rows: Seq<u32>) -> int {
    if coded_wide(k, rows) {
        4
    } else {
        2
    }
}

/// The row that the stored value `raw` of family `k` designates: the tag is the low bits,
/// the ordinal the remaining ones. `None` for an unused tag.
pub open spec fn coded_value(k: CodedIndexKind, raw: int) -> Option<RowId> {
    let n = tag_count(k) as int;
    match tag_table(k, (raw % n) as u32) {
        Some(t) => Some(RowId { table: t, index: (raw / n) as usize }),
        None => None,
    }
}

impl CodedIndexKind {
    /// Number of tag values of the family.
    pub fn tag_count(self) -> (r: u32)
        ensures
            r == tag_count(self),
            r as int == pow2(tag_bits(self)),
            2 <= r <= 32,
    {
        proof {
            lemma2_to64();
        }
        match self {
        CodedIndexKind::TypeDefOrRef => 4,
        CodedIndexKind::HasConstant => 4,
        CodedIndexKind::HasCustomAttribute => 32,
        CodedIndexKind::HasFieldMarshal => 2,
        CodedIndexKind::HasDeclSecurity => 4,
        CodedIndexKind::MemberRefParent => 8,
        CodedIndexKind::HasSemantics => 2,
        CodedIndexKind::MethodDefOrRef => 2,
        CodedIndexKind::MemberForwarded => 2,
        CodedIndexKind::Implementation => 4,
        CodedIndexKind::CustomAttributeType => 8,
        CodedIndexKind::ResolutionScope => 4,
        CodedIndexKind::TypeOrMethodDef => 2,
        }
    }

    /// The table that `tag` selects; `None` for an unused tag.
    pub fn tag_table(self, tag: u32) -> (r: Option<usize>)
        ensures
            r == tag_table(self, tag),
            r matches Some(t) ==> t < 64,
    {
        let k = self;
        match k {
            CodedIndexKind::TypeDefOrRef => match tag {
                0 => Some(TYPE_DEF),
                1 => Some(TYPE_REF),
                2 => Some(TYPE_SPEC),
                _ => None,
            },
            CodedIndexKind::HasConstant => match tag {
                0 => Some(FIELD),
                1 => Some(PARAM),
                2 => Some(PROPERTY),
                _ => None,
            },
            CodedIndexKind::HasCustomAttribute => match tag {
                0 => Some(METHOD_DEF),
                1 => Some(FIELD),
                2 => Some(TYPE_REF),
                3 => Some(TYPE_DEF),
                4 => Some(PARAM),
                5 => Some(INTERFACE_IMPL),
                6 => Some(MEMBER_REF),
                7 => Some(MODULE),
                8 => Some(DECL_SECURITY),
                9 => Some(PROPERTY),
                10 => Some(EVENT),
                11 => Some(STAND_ALONE_SIG),
                12 => Some(MODULE_REF),
                13 => Some(TYPE_SPEC),
                14 => Some(ASSEMBLY),
                15 => Some(ASSEMBLY_REF),
                16 => Some(FILE),
                17 => Some(EXPORTED_TYPE),
                18 => Some(MANIFEST_RESOURCE),
                19 => Some(GENERIC_PARAM),
                20 => Some(GENERIC_PARAM_CONSTRAINT),
                21 => Some(METHOD_SPEC),
                _ => None,
            },
            CodedIndexKind::HasFieldMarshal => match tag {
                0 => Some(FIELD),
                1 => Some(PARAM),
                _ => None,
            },
            CodedIndexKind::HasDeclSecurity => match tag {
                0 => Some(TYPE_DEF),
                1 => Some(METHOD_DEF),
                2 => Some(ASSEMBLY),
                _ => None,
            },
            CodedIndexKind::MemberRefParent => match tag {
                0 => Some(TYPE_DEF),
                1 => Some(TYPE_REF),
                2 => Some(MODULE_REF),
                3 => Some(METHOD_DEF),
                4 => Some(TYPE_SPEC),
                _ => None,
            },
            CodedIndexKind::HasSemantics => match tag {
                0 => Some(EVENT),
                1 => Some(PROPERTY),
                _ => None,
            },
            CodedIndexKind::MethodDefOrRef => match tag {
                0 => Some(METHOD_DEF),
                1 => Some(MEMBER_REF),
                _ => None,
            },
            CodedIndexKind::MemberForwarded => match tag {
                0 => Some(FIELD),
                1 => Some(METHOD_DEF),
                _ => None,
            },
            CodedIndexKind::Implementation => match tag {
                0 => Some(FILE),
                1 => Some(ASSEMBLY_REF),
                2 => Some(EXPORTED_TYPE),
                _ => None,
            },
            CodedIndexKind::CustomAttributeType => match tag {
                2 => Some(METHOD_DEF),
                3 => Some(MEMBER_REF),
                _ => None,
            },
            CodedIndexKind::ResolutionScope => match tag {
                0 => Some(MODULE),
                1 => Some(MODULE_REF),
                2 => Some(ASSEMBLY_REF),
                3 => Some(TYPE_REF),
                _ => None,
            },
            CodedIndexKind::TypeOrMethodDef => match tag {
                0 => Some(TYPE_DEF),
                1 => Some(METHOD_DEF),
                _ => None,
            },
        }
    }

    /// Width of a field of this family: four bytes when some candidate table has at least
    /// `2^(16 - tag bits)` rows, else two.
    pub fn byte_size(self, header: &MetadataTablesHeader) -> (r: usize)
        ensures
            r as int == coded_width(self, header.rows@),
    {
        let count = self.tag_count();
        let limit = 65536 / count;
        let mut tag: u32 = 0;
        while tag < count
            invariant
                count == tag_count(self),
                limit as int == coded_limit(self),
                tag <= count,
                forall|u: u32| u < tag ==> !coded_reaches(self, header.rows@, u),
            decreases count - tag,
        {
            match self.tag_table(tag) {
                Some(t) => {
                    if header.rows[t] >= limit {
                        assert(coded_reaches(self, header.rows@, tag));
                        return 4;
                    }
                },
                None => {},
            }
            tag = tag + 1;
        }
        2
    }

    /// The row that the stored value `val` designates; `None` for an unused tag.
    pub fn from_tag(self, val: usize) -> (r: Option<RowId>)
        ensures
            r == coded_value(self, val as int),
    {
        let count = self.tag_count() as usize;
        let tag = (val % count) as u32;
        match self.tag_table(tag) {
            Some(table) => Some(RowId { table, index: val / count }),
            None => None,
        }
    }

    /// Decodes a field of this family. Fails when the bytes run out or the tag is unused.
    pub fn from_bytes(
        self,
        buf: &[u8],
        offset: &mut usize,
        header: &MetadataTablesHeader,
    ) -> (r: Option<RowId>)
        ensures
            ({
                let w = coded_width(self, header.rows@);
                &&& r is Some <==> fits(buf@, *old(offset) as int, w)
                    && coded_value(self, uint_at(buf@, *old(offset) as int, w)) is Some
                &&& r is Some ==> r == coded_value(self, uint_at(buf@, *old(offset) as int, w))
                    && *final(offset) == *old(offset) + w
            }),
    {
        let w = self.byte_size(header);
        let raw = read_uint(buf, offset, w == 4)?;
        self.from_tag(raw)
    }
}

/// A candidate of family `k`, by tag, has at least `2^(16 - T)` rows, `T` being the family's
/// tag width.
pub open spec fn candidate_reaches(k: CodedIndexKind, rows: Seq<u32>, tag: u32) -> bool {
    &&& tag < pow2(tag_bits(k))
    &&& tag_table(k, tag) is Some
    &&& rows[tag_table(k, tag)->0 as int] >= pow2((16 - tag_bits(k)) as nat)
}

/// A coded-index field is two bytes wide exactly when every candidate table of its family
/// has fewer than `2^(16 - T)` rows, `T` being the family's tag width; it is four bytes wide
/// as soon as one candidate reaches that count.
pub proof fn lemma_coded_width(k: CodedIndexKind, rows: Seq<u32>)
    ensures
        coded_width(k, rows) == 2 <==> forall|tag: u32| !#[trigger] candidate_reaches(k, rows, tag),
        coded_width(k, rows) == 4 <==> exists|tag: u32| #[trigger] candidate_reaches(k, rows, tag),
{
    assert(coded_limit(k) == pow2((16 - tag_bits(k)) as nat) && tag_count(k) as int == pow2(
        tag_bits(k),
    )) by {
        lemma2_to64();
        match k {
            CodedIndexKind::TypeDefOrRef => {},
            CodedIndexKind::HasConstant => {},
            CodedIndexKind::HasCustomAttribute => {},
            CodedIndexKind::HasFieldMarshal => {},
            CodedIndexKind::HasDeclSecurity => {},
            CodedIndexKind::MemberRefParent => {},
            CodedIndexKind::HasSemantics => {},
            CodedIndexKind::MethodDefOrRef => {},
            CodedIndexKind::MemberForwarded => {},
            CodedIndexKind::Implementation => {},
            CodedIndexKind::CustomAttributeType => {},
            CodedIndexKind::ResolutionScope => {},
            CodedIndexKind::TypeOrMethodDef => {},
        }
    }
    assert forall|tag: u32| candidate_reaches(k, rows, tag) <==> (tag < tag_count(k)
        && coded_reaches(k, rows, tag)) by {}
    if coded_wide(k, rows) {
        let tag = choose|tag: u32| tag < tag_count(k) && coded_reaches(k, rows, tag);
        assert(candidate_reaches(k, rows, tag));
    }
    if exists|tag: u32| #[trigger] candidate_reaches(k, rows, tag) {
        let tag = choose|tag: u32| #[trigger] candidate_reaches(k, rows, tag);
        assert(tag < tag_count(k) && coded_reaches(k, rows, tag));
    }
}

/// The type of one field of a row.
#[derive(Debug, Clone, Copy, PartialEq, Eq)]
pub enum FieldKind {
    U8,
    U16,
    U32,
    /// An id into the `#Strings` heap.
    Str,
    /// An id into the `#GUID` heap.
    Guid,
    /// An id into the `#Blob` heap.
    Blob,
    /// A reference to a row of the given table.
    Rid(usize),
    /// A coded index of the given family.
    Coded(CodedIndexKind),
}

/// A row reference names one of the 64 table slots.
pub open spec fn kind_wf(k: FieldKind) -> bool {
    match k {
        FieldKind::Rid(t) => t < 64,
        _ => true,
    }
}

/// A decoded field.
#[derive(Debug, Clone, Copy, PartialEq, Eq)]
pub enum FieldValue {
    Int(u32),
    Str(StringId),
    Guid(GuidId),
    Blob(BlobId),
    Row(RowId),
}

/// Width in bytes of a field of kind `k`, given the heap-size flags and the row counts.
pub open spec fn field_width(k: FieldKind, bits: u8, rows: Seq<u32>) -> int {
    match k {
        FieldKind::U8 => 1,
        FieldKind::U16 => 2,
        FieldKind::U32 => 4,
        FieldKind::Str => heap_id_width(bits, WIDE_STRING_HEAP),
        FieldKind::Guid => heap_id_width(bits, WIDE_GUID_HEAP),
        FieldKind::Blob => heap_id_width(bits, WIDE_BLOB_HEAP),
        FieldKind::Rid(t) => row_id_width(rows, t as int),
        FieldKind::Coded(c) => coded_width(c, rows),
    }
}

/// The field of kind `k` at `off`, if it lies inside `s` and (for a coded index) its tag
/// is used.
pub open spec fn field_at(
    s: Seq<u8>,
    off: int,
    k: FieldKind,
    bits: u8,
    rows: Seq<u32>,
) -> Option<FieldValue> {
    let w = field_width(k, bits, rows);
    if !fits(s, off, w) {
        None
    } else {
        match k {
            FieldKind::U8 => Some(FieldValue::Int(s[off] as u32)),
            FieldKind::U16 => Some(FieldValue::Int(le_u16(s, off) as u32)),
            FieldKind::U32 => Some(FieldValue::Int(le_u32(s, off) as u32)),
            FieldKind::Str => Some(FieldValue::Str(StringId(uint_at(s, off, w) as usize))),
            FieldKind::Guid => Some(FieldValue::Guid(GuidId(uint_at(s, off, w) as usize))),
            FieldKind::Blob => Some(FieldValue::Blob(BlobId(uint_at(s, off, w) as usize))),
            FieldKind::Rid(t) => Some(
                FieldValue::Row(RowId { table: t, index: uint_at(s, off, w) as usize }),
            ),
            FieldKind::Coded(c) => match coded_value(c, uint_at(s, off, w)) {
                Some(id) => Some(FieldValue::Row(id)),
                None => None,
            },
        }
    }
}

/// Every field is one to four bytes wide.
pub proof fn lemma_field_width(k: FieldKind, bits: u8, rows: Seq<u32>)
    ensures
        1 <= field_width(k, bits, rows) <= 4,
{
}

/// Decodes one field of kind `k` at the cursor.
pub fn read_field(
    buf: &[u8],
    offset: &mut usize,
    k: FieldKind,
    header: &MetadataTablesHeader,
) -> (r: Option<FieldValue>)
    requires
        kind_wf(k),
    ensures
        r == field_at(buf@, *old(offset) as int, k, header.heap_sizes.bits, header.rows@),
        r is Some ==> *final(offset) == *old(offset) + field_width(
            k,
            header.heap_sizes.bits,
            header.rows@,
        ),
{
    match k {
        FieldKind::U8 => match read_u8(buf, offset) {
            Some(v) => Some(FieldValue::Int(v as u32)),
            None => None,
        },
        FieldKind::U16 => match read_u16(buf, offset) {
            Some(v) => Some(FieldValue::Int(v as u32)),
            None => None,
        },
        FieldKind::U32 => match read_u32(buf, offset) {
            Some(v) => Some(FieldValue::Int(v)),
            None => None,
        },
        FieldKind::Str => match StringId::from_bytes(buf, offset, header.heap_sizes) {
            Some(v) => Some(FieldValue::Str(v)),
            None => None,
        },
        FieldKind::Guid => match GuidId::from_bytes(buf, offset, header.heap_sizes) {
            Some(v) => Some(FieldValue::Guid(v)),
            None => None,
        },
        FieldKind::Blob => match BlobId::from_bytes(buf, offset, header.heap_sizes) {
            Some(v) => Some(FieldValue::Blob(v)),
            None => None,
        },
        FieldKind::Rid(t) => match RowId::from_bytes(buf, offset, t, header) {
            Some(v) => Some(FieldValue::Row(v)),
            None => None,
        },
        FieldKind::Coded(c) => match c.from_bytes(buf, offset, header) {
            Some(v) => Some(FieldValue::Row(v)),
            None => None,
        },
    }
}

/// The ordered field kinds of the rows of table `t`; empty for an id that names no table.
pub open spec fn table_schema(t: usize) -> Seq<FieldKind> {
    if t == MODULE {
        seq![FieldKind::U16, FieldKind::Str, FieldKind::Guid, FieldKind::Guid, FieldKind::Guid]
    } else if t == TYPE_REF {
        seq![FieldKind::Coded(CodedIndexKind::ResolutionScope), FieldKind::Str, FieldKind::Str]
    } else if t == TYPE_DEF {
        seq![
            FieldKind::U32,
            FieldKind::Str,
            FieldKind::Str,
            FieldKind::Coded(CodedIndexKind::TypeDefOrRef),
            FieldKind::Rid(FIELD),
            FieldKind::Rid(METHOD_DEF),
        ]
    } else if t == FIELD {
        seq![FieldKind::U16, FieldKind::Str, FieldKind::Blob]
    } else if t == METHOD_DEF {
        seq![
            FieldKind::U32,
            FieldKind::U16,
            FieldKind::U16,
            FieldKind::Str,
            FieldKind::Blob,
            FieldKind::Rid(PARAM),
        ]
    } else if t == PARAM {
        seq![FieldKind::U16, FieldKind::U16, FieldKind::Str]
    } else if t == INTERFACE_IMPL {
        seq![FieldKind::Rid(TYPE_DEF), FieldKind::Coded(CodedIndexKind::TypeDefOrRef)]
    } else if t == MEMBER_REF {
        seq![FieldKind::Coded(CodedIndexKind::MemberRefParent), FieldKind::Str, FieldKind::Blob]
    } else if t == CONSTANT {
        seq![
            FieldKind::U8,
            FieldKind::U8,
            FieldKind::Coded(CodedIndexKind::HasConstant),
            FieldKind::Blob,
        ]
    } else if t == CUSTOM_ATTRIBUTE {
        seq![
            FieldKind::Coded(CodedIndexKind::HasCustomAttribute),
            FieldKind::Coded(CodedIndexKind::CustomAttributeType),
            FieldKind::Blob,
        ]
    } else if t == FIELD_MARSHAL {
        seq![FieldKind::Coded(CodedIndexKind::HasFieldMarshal), FieldKind::Blob]
    } else if t == DECL_SECURITY {
        seq![FieldKind::U16, FieldKind::Coded(CodedIndexKind::HasDeclSecurity), FieldKind::Blob]
    } else if t == CLASS_LAYOUT {
        seq![FieldKind::U16, FieldKind::U32, FieldKind::Rid(TYPE_DEF)]
    } else if t == FIELD_LAYOUT {
        seq![FieldKind::U32, FieldKind::Rid(FIELD)]
    } else if t == STAND_ALONE_SIG {
        seq![FieldKind::Blob]
    } else if t == EVENT_MAP {
        seq![FieldKind::Rid(TYPE_DEF), FieldKind::Rid(EVENT)]
    } else if t == EVENT {
        seq![FieldKind::U16, FieldKind::Str, FieldKind::Coded(CodedIndexKind::TypeDefOrRef)]
    } else if t == PROPERTY_MAP {
        seq![FieldKind::Rid(TYPE_DEF), FieldKind::Rid(PROPERTY)]
    } else if t == PROPERTY {
        seq![FieldKind::U16, FieldKind::Str, FieldKind::Blob]
    } else if t == METHOD_SEMANTICS {
        seq![
            FieldKind::U16,
            FieldKind::Rid(METHOD_DEF),
            FieldKind::Coded(CodedIndexKind::HasSemantics),
        ]
    } else if t == METHOD_IMPL {
        seq![
            FieldKind::Rid(TYPE_DEF),
            FieldKind::Coded(CodedIndexKind::MethodDefOrRef),
            FieldKind::Coded(CodedIndexKind::MethodDefOrRef),
        ]
    } else if t == MODULE_REF {
        seq![FieldKind::Str]
    } else if t == TYPE_SPEC {
        seq![FieldKind::Blob]
    } else if t == IMPL_MAP {
        seq![
            FieldKind::U16,
            FieldKind::Coded(CodedIndexKind::MemberForwarded),
            FieldKind::Str,
            FieldKind::Rid(MODULE_REF),
        ]
    } else if t == FIELD_RVA {
        seq![FieldKind::U32, FieldKind::Rid(FIELD)]
    } else if t == ASSEMBLY {
        seq![
            FieldKind::U32,
            FieldKind::U16,
            FieldKind::U16,
            FieldKind::U16,
            FieldKind::U16,
            FieldKind::U32,
            FieldKind::Blob,
            FieldKind::Str,
            FieldKind::Str,
        ]
    } else if t == ASSEMBLY_PROCESSOR {
        seq![FieldKind::U32]
    } else if t == ASSEMBLY_OS {
        seq![FieldKind::U32, FieldKind::U32, FieldKind::U32]
    } else if t == ASSEMBLY_REF {
        seq![
            FieldKind::U16,
            FieldKind::U16,
            FieldKind::U16,
            FieldKind::U16,
            FieldKind::U32,
            FieldKind::Blob,
            FieldKind::Str,
            FieldKind::Str,
            FieldKind::Blob,
        ]
    } else if t == ASSEMBLY_REF_PROCESSOR {
        seq![FieldKind::U32, FieldKind::Rid(ASSEMBLY_REF)]
    } else if t == ASSEMBLY_REF_OS {
        seq![FieldKind::U32, FieldKind::U32, FieldKind::U32, FieldKind::Rid(ASSEMBLY_REF)]
    } else if t == FILE {
        seq![FieldKind::U32, FieldKind::Str, FieldKind::Blob]
    } else if t == EXPORTED_TYPE {
        seq![
            FieldKind::U32,
            FieldKind::U32,
            FieldKind::Str,
            FieldKind::Str,
            FieldKind::Coded(CodedIndexKind::Implementation),
        ]
    } else if t == MANIFEST_RESOURCE {
        seq![
            FieldKind::U32,
            FieldKind::U32,
            FieldKind::Str,
            FieldKind::Coded(CodedIndexKind::Implementation),
        ]
    } else if t == NESTED_CLASS {
        seq![FieldKind::Rid(TYPE_DEF), FieldKind::Rid(TYPE_DEF)]
    } else if t == GENERIC_PARAM {
        seq![
            FieldKind::U16,
            FieldKind::U16,
            FieldKind::Coded(CodedIndexKind::TypeOrMethodDef),
            FieldKind::Str,
        ]
    } else if t == METHOD_SPEC {
        seq![FieldKind::Coded(CodedIndexKind::MethodDefOrRef), FieldKind::Blob]
    } else if t == GENERIC_PARAM_CONSTRAINT {
        seq![FieldKind::Rid(GENERIC_PARAM), FieldKind::Coded(CodedIndexKind::TypeDefOrRef)]
    } else {
        seq![]
    }
}

/// Table `t` is one of the 38 tables with a known schema.
pub open spec fn has_schema(t: usize) -> bool {
    table_schema(t).len() > 0
}

/// The schemas name tables inside the 64 slots and have at most nine fields.
pub proof fn lemma_schema_wf(t: usize)
    ensures
        table_schema(t).len() <= 9,
        forall|i: int| 0 <= i < table_schema(t).len() ==> kind_wf(#[trigger] table_schema(t)[i]),
        has_schema(t) ==> t < 64,
{
}

/// The ordered field kinds of the rows of table `t`.
pub fn schema(t: usize) -> (r: Vec<FieldKind>)
    ensures
        r@ == table_schema(t),
{
    let r = if t == MODULE {
        vec![FieldKind::U16, FieldKind::Str, FieldKind::Guid, FieldKind::Guid, FieldKind::Guid]
    } else if t == TYPE_REF {
        vec![FieldKind::Coded(CodedIndexKind::ResolutionScope), FieldKind::Str, FieldKind::Str]
    } else if t == TYPE_DEF {
        vec![
            FieldKind::U32,
            FieldKind::Str,
            FieldKind::Str,
            FieldKind::Coded(CodedIndexKind::TypeDefOrRef),
            FieldKind::Rid(FIELD),
            FieldKind::Rid(METHOD_DEF),
        ]
    } else if t == FIELD {
        vec![FieldKind::U16, FieldKind::Str, FieldKind::Blob]
    } else if t == METHOD_DEF {
        vec![
            FieldKind::U32,
            FieldKind::U16,
            FieldKind::U16,
            FieldKind::Str,
            FieldKind::Blob,
            FieldKind::Rid(PARAM),
        ]
    } else if t == PARAM {
        vec![FieldKind::U16, FieldKind::U16, FieldKind::Str]
    } else if t == INTERFACE_IMPL {
        vec![FieldKind::Rid(TYPE_DEF), FieldKind::Coded(CodedIndexKind::TypeDefOrRef)]
    } else if t == MEMBER_REF {
        vec![FieldKind::Coded(CodedIndexKind::MemberRefParent), FieldKind::Str, FieldKind::Blob]
    } else if t == CONSTANT {
        vec![
            FieldKind::U8,
            FieldKind::U8,
            FieldKind::Coded(CodedIndexKind::HasConstant),
            FieldKind::Blob,
        ]
    } else if t == CUSTOM_ATTRIBUTE {
        vec![
            FieldKind::Coded(CodedIndexKind::HasCustomAttribute),
            FieldKind::Coded(CodedIndexKind::CustomAttributeType),
            FieldKind::Blob,
        ]
    } else if t == FIELD_MARSHAL {
        vec![FieldKind::Coded(CodedIndexKind::HasFieldMarshal), FieldKind::Blob]
    } else if t == DECL_SECURITY {
        vec![FieldKind::U16, FieldKind::Coded(CodedIndexKind::HasDeclSecurity), FieldKind::Blob]
    } else if t == CLASS_LAYOUT {
        vec![FieldKind::U16, FieldKind::U32, FieldKind::Rid(TYPE_DEF)]
    } else if t == FIELD_LAYOUT {
        vec![FieldKind::U32, FieldKind::Rid(FIELD)]
    } else if t == STAND_ALONE_SIG {
        vec![FieldKind::Blob]
    } else if t == EVENT_MAP {
        vec![FieldKind::Rid(TYPE_DEF), FieldKind::Rid(EVENT)]
    } else if t == EVENT {
        vec![FieldKind::U16, FieldKind::Str, FieldKind::Coded(CodedIndexKind::TypeDefOrRef)]
    } else if t == PROPERTY_MAP {
        vec![FieldKind::Rid(TYPE_DEF), FieldKind::Rid(PROPERTY)]
    } else if t == PROPERTY {
        vec![FieldKind::U16, FieldKind::Str, FieldKind::Blob]
    } else if t == METHOD_SEMANTICS {
        vec![
            FieldKind::U16,
            FieldKind::Rid(METHOD_DEF),
            FieldKind::Coded(CodedIndexKind::HasSemantics),
        ]
    } else if t == METHOD_IMPL {
        vec![
            FieldKind::Rid(TYPE_DEF),
            FieldKind::Coded(CodedIndexKind::MethodDefOrRef),
            FieldKind::Coded(CodedIndexKind::MethodDefOrRef),
        ]
    } else if t == MODULE_REF {
        vec![FieldKind::Str]
    } else if t == TYPE_SPEC {
        vec![FieldKind::Blob]
    } else if t == IMPL_MAP {
        vec![
            FieldKind::U16,
            FieldKind::Coded(CodedIndexKind::MemberForwarded),
            FieldKind::Str,
            FieldKind::Rid(MODULE_REF),
        ]
    } else if t == FIELD_RVA {
        vec![FieldKind::U32, FieldKind::Rid(FIELD)]
    } else if t == ASSEMBLY {
        vec![
            FieldKind::U32,
            FieldKind::U16,
            FieldKind::U16,
            FieldKind::U16,
            FieldKind::U16,
            FieldKind::U32,
            FieldKind::Blob,
            FieldKind::Str,
            FieldKind::Str,
        ]
    } else if t == ASSEMBLY_PROCESSOR {
        vec![FieldKind::U32]
    } else if t == ASSEMBLY_OS {
        vec![FieldKind::U32, FieldKind::U32, FieldKind::U32]
    } else if t == ASSEMBLY_REF {
        vec![
            FieldKind::U16,
            FieldKind::U16,
            FieldKind::U16,
            FieldKind::U16,
            FieldKind::U32,
            FieldKind::Blob,
            FieldKind::Str,
            FieldKind::Str,
            FieldKind::Blob,
        ]
    } else if t == ASSEMBLY_REF_PROCESSOR {
        vec![FieldKind::U32, FieldKind::Rid(ASSEMBLY_REF)]
    } else if t == ASSEMBLY_REF_OS {
        vec![FieldKind::U32, FieldKind::U32, FieldKind::U32, FieldKind::Rid(ASSEMBLY_REF)]
    } else if t == FILE {
        vec![FieldKind::U32, FieldKind::Str, FieldKind::Blob]
    } else if t == EXPORTED_TYPE {
        vec![
            FieldKind::U32,
            FieldKind::U32,
            FieldKind::Str,
            FieldKind::Str,
            FieldKind::Coded(CodedIndexKind::Implementation),
        ]
    } else if t == MANIFEST_RESOURCE {
        vec![
            FieldKind::U32,
            FieldKind::U32,
            FieldKind::Str,
            FieldKind::Coded(CodedIndexKind::Implementation),
        ]
    } else if t == NESTED_CLASS {
        vec![FieldKind::Rid(TYPE_DEF), FieldKind::Rid(TYPE_DEF)]
    } else if t == GENERIC_PARAM {
        vec![
            FieldKind::U16,
            FieldKind::U16,
            FieldKind::Coded(CodedIndexKind::TypeOrMethodDef),
            FieldKind::Str,
        ]
    } else if t == METHOD_SPEC {
        vec![FieldKind::Coded(CodedIndexKind::MethodDefOrRef), FieldKind::Blob]
    } else if t == GENERIC_PARAM_CONSTRAINT {
        vec![FieldKind::Rid(GENERIC_PARAM), FieldKind::Coded(CodedIndexKind::TypeDefOrRef)]
    } else {
        vec![]
    };
    assert(r@ =~= table_schema(t));
    r
}

/// Total width of the first `n` fields of `ks`.
pub open spec fn fields_width(ks: Seq<FieldKind>, bits: u8, rows: Seq<u32>, n: int) -> int
    decreases n,
{
    if n <= 0 {
        0
    } else {
        fields_width(ks, bits, rows, n - 1) + field_width(ks[n - 1], bits, rows)
    }
}

/// The first `n` fields of kinds `ks`, laid out one after the other from `off`.
pub open spec fn fields_at(
    s: Seq<u8>,
    off: int,
    ks: Seq<FieldKind>,
    bits: u8,
    rows: Seq<u32>,
    n: int,
) -> Option<Seq<FieldValue>>
    decreases n,
{
    if n <= 0 {
        Some(Seq::empty())
    } else {
        match fields_at(s, off, ks, bits, rows, n - 1) {
            Some(p) => match field_at(
                s,
                off + fields_width(ks, bits, rows, n - 1),
                ks[n - 1],
                bits,
                rows,
            ) {
                Some(v) => Some(p.push(v)),
                None => None,
            },
            None => None,
        }
    }
}

/// Byte width of a row of table `t`, the sum of its fields' widths.
pub open spec fn row_width(t: usize, bits: u8, rows: Seq<u32>) -> int {
    fields_width(table_schema(t), bits, rows, table_schema(t).len() as int)
}

/// Each field adds one to four bytes.
pub proof fn lemma_fields_width(ks: Seq<FieldKind>, bits: u8, rows: Seq<u32>, n: int)
    requires
        0 <= n,
    ensures
        n <= fields_width(ks, bits, rows, n) <= 4 * n,
    decreases n,
{
    if n > 0 {
        lemma_fields_width(ks, bits, rows, n - 1);
        lemma_field_width(ks[n - 1], bits, rows);
    }
}

/// A row of a table with a schema is one to 36 bytes wide; one with no schema has width 0.
pub proof fn lemma_row_width(t: usize, bits: u8, rows: Seq<u32>)
    ensures
        has_schema(t) ==> 1 <= row_width(t, bits, rows) <= 36,
        !has_schema(t) ==> row_width(t, bits, rows) == 0,
{
    lemma_schema_wf(t);
    lemma_fields_width(table_schema(t), bits, rows, table_schema(t).len() as int);
}

/// Once a field fails to decode, no longer prefix decodes.
proof fn lemma_fields_at_none(
    s: Seq<u8>,
    off: int,
    ks: Seq<FieldKind>,
    bits: u8,
    rows: Seq<u32>,
    n: int,
    m: int,
)
    requires
        0 <= n <= m,
        fields_at(s, off, ks, bits, rows, n) is None,
    ensures
        fields_at(s, off, ks, bits, rows, m) is None,
    decreases m - n,
{
    if n < m {
        lemma_fields_at_none(s, off, ks, bits, rows, n, m - 1);
    }
}

/// Byte width of a row of `table` under `header`.
pub fn row_size(table: usize, header: &MetadataTablesHeader) -> (r: usize)
    ensures
        r as int == row_width(table, header.heap_sizes.bits, header.rows@),
        has_schema(table) ==> 1 <= r <= 36,
{
    let ks = schema(table);
    proof {
        lemma_schema_wf(table);
        lemma_row_width(table, header.heap_sizes.bits, header.rows@);
    }
    let mut size: usize = 0;
    let mut i: usize = 0;
    while i < ks.len()
        invariant
            ks@ == table_schema(table),
            ks.len() <= 9,
            forall|j: int| 0 <= j < ks.len() ==> kind_wf(#[trigger] ks@[j]),
            i <= ks.len(),
            size as int == fields_width(ks@, header.heap_sizes.bits, header.rows@, i as int),
            size <= 4 * i,
        decreases ks.len() - i,
    {
        proof {
            lemma_field_width(ks@[i as int], header.heap_sizes.bits, header.rows@);
        }
        let w = match ks[i] {
            FieldKind::U8 => 1,
            FieldKind::U16 => 2,
            FieldKind::U32 => 4,
            FieldKind::Str => StringId::byte_size(header.heap_sizes),
            FieldKind::Guid => GuidId::byte_size(header.heap_sizes),
            FieldKind::Blob => BlobId::byte_size(header.heap_sizes),
            FieldKind::Rid(t) => RowId::byte_size(t, header),
            FieldKind::Coded(c) => c.byte_size(header),
        };
        size = size + w;
        i = i + 1;
    }
    size
}

/// Decodes the fields of kinds `ks` one after the other from the cursor.
pub fn read_fields(
    buf: &[u8],
    offset: &mut usize,
    ks: &Vec<FieldKind>,
    header: &MetadataTablesHeader,
) -> (r: Option<Vec<FieldValue>>)
    requires
        forall|j: int| 0 <= j < ks@.len() ==> kind_wf(#[trigger] ks@[j]),
    ensures
        ({
            let (bits, rows) = (header.heap_sizes.bits, header.rows@);
            let expected = fields_at(buf@, *old(offset) as int, ks@, bits, rows, ks@.len() as int);
            &&& r is Some <==> expected is Some
            &&& r is Some ==> r->0@ == expected->0 && *final(offset) == *old(offset)
                + fields_width(ks@, bits, rows, ks@.len() as int)
        }),
{
    let start = *offset;
    let ghost bits = header.heap_sizes.bits;
    let ghost rows = header.rows@;
    let mut out: Vec<FieldValue> = Vec::new();
    let mut i: usize = 0;
    while i < ks.len()
        invariant
            start == *old(offset),
            forall|j: int| 0 <= j < ks@.len() ==> kind_wf(#[trigger] ks@[j]),
            i <= ks.len(),
            bits == header.heap_sizes.bits,
            rows == header.rows@,
            fields_at(buf@, start as int, ks@, bits, rows, i as int) == Some(out@),
            *offset as int == start + fields_width(ks@, bits, rows, i as int),
        decreases ks.len() - i,
    {
        match read_field(buf, offset, ks[i], header) {
            Some(v) => {
                out.push(v);
            },
            None => {
                proof {
                    let n = ks@.len() as int;
                    lemma_fields_at_none(buf@, start as int, ks@, bits, rows, i as int + 1, n);
                }
                return None;
            },
        }
        i = i + 1;
    }
    Some(out)
}

} // verus!
