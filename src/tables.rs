//! The `#~` stream: its header, then the rows of each present table, packed one table after
//! another in ascending table-id order.

use crate::errors::MetadataStreamReadError;
use crate::headers::{
    rows_at, tables_header_fits, tables_header_len, valid_at, MetadataTablesHeader,
};
use crate::schema::{
    lemma_row_width, ASSEMBLY, ASSEMBLY_OS, ASSEMBLY_PROCESSOR, ASSEMBLY_REF, ASSEMBLY_REF_OS,
    ASSEMBLY_REF_PROCESSOR, CLASS_LAYOUT, CONSTANT, CUSTOM_ATTRIBUTE, DECL_SECURITY, EVENT,
    EVENT_MAP, EXPORTED_TYPE, FIELD, FIELD_LAYOUT, FIELD_MARSHAL, FIELD_RVA, FILE, GENERIC_PARAM,
    GENERIC_PARAM_CONSTRAINT, IMPL_MAP, INTERFACE_IMPL, MANIFEST_RESOURCE, MEMBER_REF, METHOD_DEF,
    METHOD_IMPL, METHOD_SEMANTICS, METHOD_SPEC, MODULE, MODULE_REF, NESTED_CLASS, PARAM, PROPERTY,
    PROPERTY_MAP, STAND_ALONE_SIG, TYPE_DEF, TYPE_REF, TYPE_SPEC,
};
use crate::table::{table_size, TableBytes, TableReader};
use vstd::prelude::*;

verus! {

/// Offset in the stream at which the region of table `t` starts: the header, then the regions
/// of all lower table ids.
pub open spec fn region_start(bits: u8, rows: Seq<u32>, valid: u64, t: int) -> int
    decreases t,
{
    if t <= 0 {
        tables_header_len(valid)
    } else {
        region_start(bits, rows, valid, t - 1) + table_size((t - 1) as usize, bits, rows)
    }
}

/// Regions never start before earlier ones.
pub proof fn lemma_region_start_monotone(bits: u8, rows: Seq<u32>, valid: u64, n: int, m: int)
    requires
        0 <= n <= m <= 64,
    ensures
        region_start(bits, rows, valid, n) <= region_start(bits, rows, valid, m),
    decreases m - n,
{
    if n < m {
        lemma_region_start_monotone(bits, rows, valid, n, m - 1);
        let t = (m - 1) as usize;
        lemma_row_width(t, bits, rows);
        let a = rows[t as int] as int;
        let b = crate::schema::row_width(t, bits, rows);
        assert(a * b >= 0) by (nonlinear_arith)
            requires
                a >= 0,
                b >= 0,
        ;
    }
}

/// The bytes `s` hold a whole tables stream: its header and the regions of all tables.
pub open spec fn tables_stream_fits(s: Seq<u8>) -> bool {
    &&& tables_header_fits(s, 0)
    &&& region_start(s[6] & 0x07, rows_at(s, 0), valid_at(s, 0), 64) <= s.len()
}

/// The `#~` stream: the tables header, decoded once, and the byte region of each table.
#[derive(Debug)]
pub struct TablesStream<'a> {
    bytes: &'a [u8],
    header: MetadataTablesHeader,
    tables: Vec<TableBytes<'a>>,
}

impl<'a> TablesStream<'a> {
    #[verifier::type_invariant]
    spec fn inv(self) -> bool {
        &&& self.tables@.len() == 64
        &&& forall|t: int|
            0 <= t < 64 ==> {
                &&& (#[trigger] self.tables@[t]).table == t
                &&& self.tables@[t].bytes@.len() == table_size(
                    t as usize,
                    self.header.heap_sizes.bits,
                    self.header.rows@,
                )
            }
    }

    /// The bytes of the whole stream.
    pub closed spec fn spec_bytes(self) -> Seq<u8> {
        self.bytes@
    }

    /// The decoded tables header.
    pub closed spec fn header(self) -> MetadataTablesHeader {
        self.header
    }

    /// The bytes of the region of table `t`.
    pub closed spec fn region(self, t: int) -> Seq<u8> {
        self.tables@[t].bytes@
    }

    /// The stream is what the bytes `s` encode: its header is the one at their start, and the
    /// region of each table is the slice that follows those of all lower table ids.
    pub open spec fn parsed_from(self, s: Seq<u8>) -> bool {
        let h = self.header();
        &&& self.spec_bytes() == s
        &&& h.decoded_from(s, 0)
        &&& forall|t: int|
            0 <= t < 64 ==> #[trigger] self.region(t) == s.subrange(
                region_start(h.heap_sizes.bits, h.rows@, h.valid, t),
                region_start(h.heap_sizes.bits, h.rows@, h.valid, t) + table_size(
                    t as usize,
                    h.heap_sizes.bits,
                    h.rows@,
                ),
            )
    }

    /// Decodes the tables header, then slices the region of every table in ascending id order.
    /// Fails with `NotEnough` when the bytes are too few for the header or for the declared rows.
    pub fn from_bytes(bytes: &'a [u8]) -> (r: Result<TablesStream<'a>, MetadataStreamReadError<'a>>)
        ensures
            r is Ok <==> tables_stream_fits(bytes@),
            r is Ok ==> r->Ok_0.parsed_from(bytes@),
            r is Err ==> r matches Err(MetadataStreamReadError::NotEnough),
    {
        let mut offset: usize = 0;
        let header = match MetadataTablesHeader::from_bytes(bytes, &mut offset) {
            Some(h) => h,
            None => {
                return Err(MetadataStreamReadError::NotEnough);
            },
        };
        let ghost bits = header.heap_sizes.bits;
        let ghost rows = header.rows@;
        let ghost valid = header.valid;
        let mut tables: Vec<TableBytes<'a>> = Vec::new();
        let mut t: usize = 0;
        while t < 64
            invariant
                t <= 64,
                tables@.len() == t,
                header.decoded_from(bytes@, 0),
                tables_header_fits(bytes@, 0),
                bits == header.heap_sizes.bits,
                rows == header.rows@,
                valid == header.valid,
                offset as int == region_start(bits, rows, valid, t as int),
                offset <= bytes@.len(),
                forall|u: int|
                    0 <= u < t ==> {
                        &&& (#[trigger] tables@[u]).table == u
                        &&& tables@[u].bytes@.len() == table_size(u as usize, bits, rows)
                        &&& tables@[u].bytes@ == bytes@.subrange(
                            region_start(bits, rows, valid, u),
                            region_start(bits, rows, valid, u) + table_size(u as usize, bits, rows),
                        )
                    },
            decreases 64 - t,
        {
            match TableBytes::from_bytes(bytes, &mut offset, t, &header) {
                Ok(tb) => {
                    tables.push(tb);
                },
                Err(e) => {
                    proof {
                        assert(region_start(bits, rows, valid, t as int + 1) == region_start(
                            bits,
                            rows,
                            valid,
                            t as int,
                        ) + table_size(t, bits, rows));
                        lemma_region_start_monotone(bits, rows, valid, t as int + 1, 64);
                        lemma_region_start_monotone(bits, rows, valid, t as int, t as int + 1);
                        assert(bits == bytes@[6] & 0x07);
                        assert(rows == rows_at(bytes@, 0));
                        assert(valid == valid_at(bytes@, 0));
                        assert(region_start(bits, rows, valid, 64) > bytes@.len());
                    }
                    return Err(e);
                },
            }
            t = t + 1;
        }
        Ok(TablesStream { bytes, header, tables })
    }

    /// The bytes of the whole stream.
    pub fn bytes(&self) -> (r: &'a [u8])
        ensures
            r@ == self.spec_bytes(),
    {
        self.bytes
    }

    /// A reader of table `t`.
    fn table(&self, t: usize) -> (r: TableReader<'a, '_>)
        requires
            t < 64,
        ensures
            r.table == t,
            r.bytes@ == self.region(t as int),
            *r.header == self.header(),
            r.wf(),
    {
        proof {
            use_type_invariant(self);
        }
        self.tables[t].reader(&self.header)
    }

    /// A reader of the Assembly table.
    pub fn assemblies(&self) -> (r: TableReader<'a, '_>)
        ensures
            r.table == ASSEMBLY,
            r.bytes@ == self.region(ASSEMBLY as int),
            *r.header == self.header(),
            r.wf(),
    {
        self.table(ASSEMBLY)
    }

    /// A reader of the AssemblyOs table.
    pub fn assembly_oses(&self) -> (r: TableReader<'a, '_>)
        ensures
            r.table == ASSEMBLY_OS,
            r.bytes@ == self.region(ASSEMBLY_OS as int),
            *r.header == self.header(),
            r.wf(),
    {
        self.table(ASSEMBLY_OS)
    }

    /// A reader of the AssemblyProcessor table.
    pub fn assembly_processors(&self) -> (r: TableReader<'a, '_>)
        ensures
            r.table == ASSEMBLY_PROCESSOR,
            r.bytes@ == self.region(ASSEMBLY_PROCESSOR as int),
            *r.header == self.header(),
            r.wf(),
    {
        self.table(ASSEMBLY_PROCESSOR)
    }

    /// A reader of the AssemblyRef table.
    pub fn assembly_refs(&self) -> (r: TableReader<'a, '_>)
        ensures
            r.table == ASSEMBLY_REF,
            r.bytes@ == self.region(ASSEMBLY_REF as int),
            *r.header == self.header(),
            r.wf(),
    {
        self.table(ASSEMBLY_REF)
    }

    /// A reader of the AssemblyRefOs table.
    pub fn assembly_ref_oses(&self) -> (r: TableReader<'a, '_>)
        ensures
            r.table == ASSEMBLY_REF_OS,
            r.bytes@ == self.region(ASSEMBLY_REF_OS as int),
            *r.header == self.header(),
            r.wf(),
    {
        self.table(ASSEMBLY_REF_OS)
    }

    /// A reader of the AssemblyRefProcessor table.
    pub fn assembly_ref_processors(&self) -> (r: TableReader<'a, '_>)
        ensures
            r.table == ASSEMBLY_REF_PROCESSOR,
            r.bytes@ == self.region(ASSEMBLY_REF_PROCESSOR as int),
            *r.header == self.header(),
            r.wf(),
    {
        self.table(ASSEMBLY_REF_PROCESSOR)
    }

    /// A reader of the ClassLayout table.
    pub fn class_layouts(&self) -> (r: TableReader<'a, '_>)
        ensures
            r.table == CLASS_LAYOUT,
            r.bytes@ == self.region(CLASS_LAYOUT as int),
            *r.header == self.header(),
            r.wf(),
    {
        self.table(CLASS_LAYOUT)
    }

    /// A reader of the Constant table.
    pub fn constants(&self) -> (r: TableReader<'a, '_>)
        ensures
            r.table == CONSTANT,
            r.bytes@ == self.region(CONSTANT as int),
            *r.header == self.header(),
            r.wf(),
    {
        self.table(CONSTANT)
    }

    /// A reader of the CustomAttribute table.
    pub fn custom_attributes(&self) -> (r: TableReader<'a, '_>)
        ensures
            r.table == CUSTOM_ATTRIBUTE,
            r.bytes@ == self.region(CUSTOM_ATTRIBUTE as int),
            *r.header == self.header(),
            r.wf(),
    {
        self.table(CUSTOM_ATTRIBUTE)
    }

    /// A reader of the DeclSecurity table.
    pub fn decl_securities(&self) -> (r: TableReader<'a, '_>)
        ensures
            r.table == DECL_SECURITY,
            r.bytes@ == self.region(DECL_SECURITY as int),
            *r.header == self.header(),
            r.wf(),
    {
        self.table(DECL_SECURITY)
    }

    /// A reader of the Event table.
    pub fn events(&self) -> (r: TableReader<'a, '_>)
        ensures
            r.table == EVENT,
            r.bytes@ == self.region(EVENT as int),
            *r.header == self.header(),
            r.wf(),
    {
        self.table(EVENT)
    }

    /// A reader of the EventMap table.
    pub fn event_maps(&self) -> (r: TableReader<'a, '_>)
        ensures
            r.table == EVENT_MAP,
            r.bytes@ == self.region(EVENT_MAP as int),
            *r.header == self.header(),
            r.wf(),
    {
        self.table(EVENT_MAP)
    }

    /// A reader of the ExportedType table.
    pub fn exported_types(&self) -> (r: TableReader<'a, '_>)
        ensures
            r.table == EXPORTED_TYPE,
            r.bytes@ == self.region(EXPORTED_TYPE as int),
            *r.header == self.header(),
            r.wf(),
    {
        self.table(EXPORTED_TYPE)
    }

    /// A reader of the Field table.
    pub fn fields(&self) -> (r: TableReader<'a, '_>)
        ensures
            r.table == FIELD,
            r.bytes@ == self.region(FIELD as int),
            *r.header == self.header(),
            r.wf(),
    {
        self.table(FIELD)
    }

    /// A reader of the FieldLayout table.
    pub fn field_layouts(&self) -> (r: TableReader<'a, '_>)
        ensures
            r.table == FIELD_LAYOUT,
            r.bytes@ == self.region(FIELD_LAYOUT as int),
            *r.header == self.header(),
            r.wf(),
    {
        self.table(FIELD_LAYOUT)
    }

    /// A reader of the FieldMarshal table.
    pub fn field_marshals(&self) -> (r: TableReader<'a, '_>)
        ensures
            r.table == FIELD_MARSHAL,
            r.bytes@ == self.region(FIELD_MARSHAL as int),
            *r.header == self.header(),
            r.wf(),
    {
        self.table(FIELD_MARSHAL)
    }

    /// A reader of the FieldRva table.
    pub fn field_rvas(&self) -> (r: TableReader<'a, '_>)
        ensures
            r.table == FIELD_RVA,
            r.bytes@ == self.region(FIELD_RVA as int),
            *r.header == self.header(),
            r.wf(),
    {
        self.table(FIELD_RVA)
    }

    /// A reader of the File table.
    pub fn files(&self) -> (r: TableReader<'a, '_>)
        ensures
            r.table == FILE,
            r.bytes@ == self.region(FILE as int),
            *r.header == self.header(),
            r.wf(),
    {
        self.table(FILE)
    }

    /// A reader of the GenericParam table.
    pub fn generic_params(&self) -> (r: TableReader<'a, '_>)
        ensures
            r.table == GENERIC_PARAM,
            r.bytes@ == self.region(GENERIC_PARAM as int),
            *r.header == self.header(),
            r.wf(),
    {
        self.table(GENERIC_PARAM)
    }

    /// A reader of the GenericParamConstraint table.
    pub fn generic_param_constraints(&self) -> (r: TableReader<'a, '_>)
        ensures
            r.table == GENERIC_PARAM_CONSTRAINT,
            r.bytes@ == self.region(GENERIC_PARAM_CONSTRAINT as int),
            *r.header == self.header(),
            r.wf(),
    {
        self.table(GENERIC_PARAM_CONSTRAINT)
    }

    /// A reader of the ImplMap table.
    pub fn impl_maps(&self) -> (r: TableReader<'a, '_>)
        ensures
            r.table == IMPL_MAP,
            r.bytes@ == self.region(IMPL_MAP as int),
            *r.header == self.header(),
            r.wf(),
    {
        self.table(IMPL_MAP)
    }

    /// A reader of the InterfaceImpl table.
    pub fn interface_impls(&self) -> (r: TableReader<'a, '_>)
        ensures
            r.table == INTERFACE_IMPL,
            r.bytes@ == self.region(INTERFACE_IMPL as int),
            *r.header == self.header(),
            r.wf(),
    {
        self.table(INTERFACE_IMPL)
    }

    /// A reader of the ManifestResource table.
    pub fn manifest_resources(&self) -> (r: TableReader<'a, '_>)
        ensures
            r.table == MANIFEST_RESOURCE,
            r.bytes@ == self.region(MANIFEST_RESOURCE as int),
            *r.header == self.header(),
            r.wf(),
    {
        self.table(MANIFEST_RESOURCE)
    }

    /// A reader of the MemberRef table.
    pub fn member_refs(&self) -> (r: TableReader<'a, '_>)
        ensures
            r.table == MEMBER_REF,
            r.bytes@ == self.region(MEMBER_REF as int),
            *r.header == self.header(),
            r.wf(),
    {
        self.table(MEMBER_REF)
    }

    /// A reader of the MethodDef table.
    pub fn method_defs(&self) -> (r: TableReader<'a, '_>)
        ensures
            r.table == METHOD_DEF,
            r.bytes@ == self.region(METHOD_DEF as int),
            *r.header == self.header(),
            r.wf(),
    {
        self.table(METHOD_DEF)
    }

    /// A reader of the MethodImpl table.
    pub fn method_impls(&self) -> (r: TableReader<'a, '_>)
        ensures
            r.table == METHOD_IMPL,
            r.bytes@ == self.region(METHOD_IMPL as int),
            *r.header == self.header(),
            r.wf(),
    {
        self.table(METHOD_IMPL)
    }

    /// A reader of the MethodSemantics table.
    pub fn method_semantics(&self) -> (r: TableReader<'a, '_>)
        ensures
            r.table == METHOD_SEMANTICS,
            r.bytes@ == self.region(METHOD_SEMANTICS as int),
            *r.header == self.header(),
            r.wf(),
    {
        self.table(METHOD_SEMANTICS)
    }

    /// A reader of the MethodSpec table.
    pub fn method_specs(&self) -> (r: TableReader<'a, '_>)
        ensures
            r.table == METHOD_SPEC,
            r.bytes@ == self.region(METHOD_SPEC as int),
            *r.header == self.header(),
            r.wf(),
    {
        self.table(METHOD_SPEC)
    }

    /// A reader of the Module table.
    pub fn modules(&self) -> (r: TableReader<'a, '_>)
        ensures
            r.table == MODULE,
            r.bytes@ == self.region(MODULE as int),
            *r.header == self.header(),
            r.wf(),
    {
        self.table(MODULE)
    }

    /// A reader of the ModuleRef table.
    pub fn module_refs(&self) -> (r: TableReader<'a, '_>)
        ensures
            r.table == MODULE_REF,
            r.bytes@ == self.region(MODULE_REF as int),
            *r.header == self.header(),
            r.wf(),
    {
        self.table(MODULE_REF)
    }

    /// A reader of the NestedClass table.
    pub fn nested_classes(&self) -> (r: TableReader<'a, '_>)
        ensures
            r.table == NESTED_CLASS,
            r.bytes@ == self.region(NESTED_CLASS as int),
            *r.header == self.header(),
            r.wf(),
    {
        self.table(NESTED_CLASS)
    }

    /// A reader of the Param table.
    pub fn params(&self) -> (r: TableReader<'a, '_>)
        ensures
            r.table == PARAM,
            r.bytes@ == self.region(PARAM as int),
            *r.header == self.header(),
            r.wf(),
    {
        self.table(PARAM)
    }

    /// A reader of the Property table.
    pub fn properties(&self) -> (r: TableReader<'a, '_>)
        ensures
            r.table == PROPERTY,
            r.bytes@ == self.region(PROPERTY as int),
            *r.header == self.header(),
            r.wf(),
    {
        self.table(PROPERTY)
    }

    /// A reader of the PropertyMap table.
    pub fn property_maps(&self) -> (r: TableReader<'a, '_>)
        ensures
            r.table == PROPERTY_MAP,
            r.bytes@ == self.region(PROPERTY_MAP as int),
            *r.header == self.header(),
            r.wf(),
    {
        self.table(PROPERTY_MAP)
    }

    /// A reader of the StandAloneSig table.
    pub fn stand_alone_sigs(&self) -> (r: TableReader<'a, '_>)
        ensures
            r.table == STAND_ALONE_SIG,
            r.bytes@ == self.region(STAND_ALONE_SIG as int),
            *r.header == self.header(),
            r.wf(),
    {
        self.table(STAND_ALONE_SIG)
    }

    /// A reader of the TypeDef table.
    pub fn type_defs(&self) -> (r: TableReader<'a, '_>)
        ensures
            r.table == TYPE_DEF,
            r.bytes@ == self.region(TYPE_DEF as int),
            *r.header == self.header(),
            r.wf(),
    {
        self.table(TYPE_DEF)
    }

    /// A reader of the TypeRef table.
    pub fn type_refs(&self) -> (r: TableReader<'a, '_>)
        ensures
            r.table == TYPE_REF,
            r.bytes@ == self.region(TYPE_REF as int),
            *r.header == self.header(),
            r.wf(),
    {
        self.table(TYPE_REF)
    }

    /// A reader of the TypeSpec table.
    pub fn type_specs(&self) -> (r: TableReader<'a, '_>)
        ensures
            r.table == TYPE_SPEC,
            r.bytes@ == self.region(TYPE_SPEC as int),
            *r.header == self.header(),
            r.wf(),
    {
        self.table(TYPE_SPEC)
    }
}

} // verus!
