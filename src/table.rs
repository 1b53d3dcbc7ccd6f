//! Per-table byte regions, and random access to and iteration over their rows.

use crate::bytes::fits;
use crate::errors::MetadataStreamReadError;
use crate::headers::MetadataTablesHeader;
use crate::schema::{
    fields_at, has_schema, lemma_row_width, lemma_schema_wf, read_fields, row_size, row_width,
    schema,
    table_schema, FieldValue, RowId,
};
use vstd::prelude::*;

verus! {

/// A decoded row: its id and its fields, in the order of its table's schema.
#[derive(Debug)]
pub struct Row {
    pub id: RowId,
    pub fields: Vec<FieldValue>,
}

/// The fields of a row of table `t` laid out from `off`.
pub open spec fn row_fields_at(
    s: Seq<u8>,
    off: int,
    t: usize,
    bits: u8,
    rows: Seq<u32>,
) -> Option<Seq<FieldValue>> {
    fields_at(s, off, table_schema(t), bits, rows, table_schema(t).len() as int)
}

/// Decodes, at the cursor, the row `id` with the schema of its table.
pub fn read_row(
    buf: &[u8],
    offset: &mut usize,
    id: RowId,
    header: &MetadataTablesHeader,
) -> (r: Option<Row>)
    ensures
        ({
            let (bits, rows) = (header.heap_sizes.bits, header.rows@);
            let expected = row_fields_at(buf@, *old(offset) as int, id.table, bits, rows);
            &&& r is Some <==> expected is Some
            &&& r is Some ==> {
                &&& r->0.id == id
                &&& r->0.fields@ == expected->0
                &&& *final(offset) == *old(offset) + row_width(id.table, bits, rows)
            }
        }),
{
    let ks = schema(id.table);
    proof {
        lemma_schema_wf(id.table);
    }
    let fields = read_fields(buf, offset, &ks, header)?;
    Some(Row { id, fields })
}

/// Byte size of the region of table `t`: its row count times its row width.
pub open spec fn table_size(t: usize, bits: u8, rows: Seq<u32>) -> int {
    rows[t as int] as int * row_width(t, bits, rows)
}

/// The bytes of one table's rows inside the `#~` stream.
#[derive(Clone, Copy, Debug)]
pub struct TableBytes<'a> {
    pub table: usize,
    pub bytes: &'a [u8],
}

impl<'a> TableBytes<'a> {
    /// Slices the region of `table` that starts at the cursor, its size computed from the
    /// header, and moves the cursor past it. Fails when the region runs past `bytes`.
    pub fn from_bytes(
        bytes: &'a [u8],
        offset: &mut usize,
        table: usize,
        header: &MetadataTablesHeader,
    ) -> (r: Result<TableBytes<'a>, MetadataStreamReadError<'a>>)
        requires
            table < 64,
        ensures
            ({
                let size = table_size(table, header.heap_sizes.bits, header.rows@);
                &&& r is Ok <==> fits(bytes@, *old(offset) as int, size)
                &&& r is Ok ==> r->Ok_0.table == table && r->Ok_0.bytes@ == bytes@.subrange(
                    *old(offset) as int,
                    *old(offset) + size,
                ) && *final(offset) == *old(offset) + size
                &&& r is Err ==> r matches Err(MetadataStreamReadError::NotEnough)
            }),
    {
        let len = header.rows[table] as usize;
        let size = row_size(table, header);
        proof {
            lemma_row_width(table, header.heap_sizes.bits, header.rows@);
        }
        assert(bytes@.len() == bytes.len());
        let total = match len.checked_mul(size) {
            Some(t) => t,
            None => {
                return Err(MetadataStreamReadError::NotEnough);
            },
        };
        let beg = *offset;
        let end = match beg.checked_add(total) {
            Some(e) => e,
            None => {
                return Err(MetadataStreamReadError::NotEnough);
            },
        };
        if end > bytes.len() {
            return Err(MetadataStreamReadError::NotEnough);
        }
        *offset = end;
        Ok(TableBytes { table, bytes: &bytes[beg..end] })
    }

    /// A reader of this table's rows under `header`.
    pub fn reader<'h>(&self, header: &'h MetadataTablesHeader) -> (r: TableReader<'a, 'h>)
        ensures
            r.table == self.table,
            r.bytes == self.bytes,
            *r.header == *header,
    {
        TableReader { table: self.table, bytes: self.bytes, header }
    }
}

/// The fields of row `index` of table `t` in the region `s`: absent when the row does not
/// lie inside the region or a coded index in it has an unused tag.
pub open spec fn row_in(
    s: Seq<u8>,
    t: usize,
    index: int,
    bits: u8,
    rows: Seq<u32>,
) -> Option<Seq<FieldValue>> {
    let w = row_width(t, bits, rows);
    if fits(s, index * w, w) {
        row_fields_at(s, index * w, t, bits, rows)
    } else {
        None
    }
}

/// Random access to the rows of one table.
#[derive(Clone, Copy, Debug)]
pub struct TableReader<'a, 'h> {
    pub table: usize,
    pub bytes: &'a [u8],
    pub header: &'h MetadataTablesHeader,
}

impl<'a, 'h> TableReader<'a, 'h> {
    /// The region holds exactly the declared rows of the table.
    pub open spec fn wf(self) -> bool {
        &&& self.table < 64
        &&& self.bytes@.len() == table_size(
            self.table,
            self.header.heap_sizes.bits,
            self.header.rows@,
        )
    }

    /// The row `id`. Absent when `id` names another table, when the row lies outside the
    /// region (its ordinal is at least the declared row count), or when a coded index in it has
    /// an unused tag.
    pub fn get(&self, id: RowId) -> (r: Option<Row>)
        ensures
            r is Some <==> id.table == self.table && has_schema(self.table) && row_in(
                self.bytes@,
                self.table,
                id.index as int,
                self.header.heap_sizes.bits,
                self.header.rows@,
            ) is Some,
            r is Some ==> r->0.id == id && r->0.fields@ == row_in(
                self.bytes@,
                self.table,
                id.index as int,
                self.header.heap_sizes.bits,
                self.header.rows@,
            )->0,
            self.wf() && id.index >= self.header.rows@[self.table as int] ==> r is None,
    {
        if id.table != self.table {
            return None;
        }
        let size = row_size(self.table, self.header);
        if size == 0 {
            return None;
        }
        let ghost w = row_width(self.table, self.header.heap_sizes.bits, self.header.rows@);
        let ghost count = self.header.rows@[self.table as int] as int;
        proof {
            lemma_row_width(self.table, self.header.heap_sizes.bits, self.header.rows@);
            if self.wf() && id.index >= count {
                assert(id.index * w + w > count * w) by (nonlinear_arith)
                    requires
                        id.index >= count,
                        w >= 1,
                ;
            }
        }
        assert(self.bytes@.len() == self.bytes.len());
        let off = match id.index.checked_mul(size) {
            Some(o) => o,
            None => {
                return None;
            },
        };
        if off > self.bytes.len() || self.bytes.len() - off < size {
            return None;
        }
        let mut offset = off;
        read_row(self.bytes, &mut offset, id, self.header)
    }

    /// A walk over the rows in ascending ordinal order, from the first.
    pub fn iter(&self) -> (r: TableReaderIter<'a, 'h>)
        ensures
            r.reader == *self,
            r.next_index == 0,
    {
        TableReaderIter { reader: *self, next_index: 0 }
    }
}

/// Walks the rows of one table in ascending ordinal order.
#[derive(Clone, Copy, Debug)]
pub struct TableReaderIter<'a, 'h> {
    pub reader: TableReader<'a, 'h>,
    pub next_index: usize,
}

impl<'a, 'h> TableReaderIter<'a, 'h> {
    /// The next row, and moves past it. Ends at the first ordinal for which
    /// [`TableReader::get`] is absent.
    pub fn next(&mut self) -> (r: Option<Row>)
        ensures
            final(self).reader == old(self).reader,
            r is Some <==> has_schema(old(self).reader.table) && row_in(
                old(self).reader.bytes@,
                old(self).reader.table,
                old(self).next_index as int,
                old(self).reader.header.heap_sizes.bits,
                old(self).reader.header.rows@,
            ) is Some,
            r is Some ==> {
                &&& r->0.id == (RowId {
                    table: old(self).reader.table,
                    index: old(self).next_index,
                })
                &&& r->0.fields@ == row_in(
                    old(self).reader.bytes@,
                    old(self).reader.table,
                    old(self).next_index as int,
                    old(self).reader.header.heap_sizes.bits,
                    old(self).reader.header.rows@,
                )->0
                &&& final(self).next_index == old(self).next_index + 1
            },
            r is None ==> final(self).next_index == old(self).next_index,
            old(self).reader.wf()
                && old(self).next_index >= old(self).reader.header.rows@[old(self).reader.table as int]
                ==> r is None,
    {
        let id = RowId { table: self.reader.table, index: self.next_index };
        let row = self.reader.get(id)?;
        proof {
            lemma_row_width(id.table, self.reader.header.heap_sizes.bits, self.reader.header.rows@);
            if self.next_index == usize::MAX {
                assert(self.reader.bytes@.len() == self.reader.bytes.len());
                let h = *self.reader.header;
                let w = row_width(id.table, h.heap_sizes.bits, h.rows@);
                assert(id.index * w + w > usize::MAX) by (nonlinear_arith)
                    requires
                        id.index == usize::MAX,
                        w >= 1,
                ;
            }
        }
        self.next_index = self.next_index + 1;
        Some(row)
    }
}

} // verus!
