use vstd::prelude::*;

use crate::value::{float_is_finite, is_finite_bits, Value};

verus! {

/// The cells of one column, by declared type. A column of a type that the
/// library does not materialize carries no cells.
#[derive(Clone, Debug)]
pub enum ColumnData {
    Text(Vec<String>),
    Int32(Vec<i32>),
    Float64(Vec<u64>),
    Boolean(Vec<bool>),
    Unsupported,
}

/// One column of a block: a null indicator per row, and the typed cells.
#[derive(Clone, Debug)]
pub struct Column {
    pub nulls: Vec<bool>,
    pub data: ColumnData,
}

/// A column-major chunk of query output. `fields[c]` names `columns[c]`.
#[derive(Clone, Debug)]
pub struct DataBlock {
    pub fields: Vec<String>,
    pub columns: Vec<Column>,
    pub num_rows: usize,
}

/// A materialized row: field names with their values, in schema order.
pub type Row = Vec<(String, Value)>;

impl Column {
    /// Every row has a null indicator and, for a materialized type, a cell.
    pub open spec fn wf(&self, num_rows: int) -> bool {
        &&& self.nulls@.len() == num_rows
        &&& match self.data {
            ColumnData::Text(v) => v@.len() == num_rows,
            ColumnData::Int32(v) => v@.len() == num_rows,
            ColumnData::Float64(v) => v@.len() == num_rows,
            ColumnData::Boolean(v) => v@.len() == num_rows,
            ColumnData::Unsupported => true,
        }
    }
}

impl DataBlock {
    /// One name per column, and every column spans all rows.
    pub open spec fn wf(&self) -> bool {
        &&& self.fields@.len() == self.columns@.len()
        &&& forall|c: int| 0 <= c < self.columns@.len() ==> #[trigger] self.columns@[c].wf(
            self.num_rows as int,
        )
    }
}

/// The value of row `r` of a column: the null indicator wins over the
/// declared type, non-finite floats become null, and a column of a type that
/// is not materialized yields null.
pub open spec fn cell_value(col: Column, r: int) -> Value {
    if col.nulls@[r] {
        Value::Null
    } else {
        match col.data {
            ColumnData::Text(v) => Value::Text(v@[r]),
            ColumnData::Int32(v) => Value::Int32(v@[r]),
            ColumnData::Float64(v) => if is_finite_bits(v@[r]) {
                Value::Float64(v@[r])
            } else {
                Value::Null
            },
            ColumnData::Boolean(v) => Value::Boolean(v@[r]),
            ColumnData::Unsupported => Value::Null,
        }
    }
}

/// Row `r` of a block: each field name paired with its cell, in schema order.
pub open spec fn block_row(b: DataBlock, r: int) -> Seq<(String, Value)> {
    Seq::new(b.fields@.len(), |c: int| (b.fields@[c], cell_value(b.columns@[c], r)))
}

/// All rows of a block, in row order.
pub open spec fn block_rows(b: DataBlock) -> Seq<Seq<(String, Value)>> {
    Seq::new(b.num_rows as nat, |r: int| block_row(b, r))
}

/// All rows of a sequence of blocks: the blocks in order, each block's rows
/// in order.
pub open spec fn result_rows(bs: Seq<DataBlock>) -> Seq<Seq<(String, Value)>>
    decreases bs.len(),
{
    if bs.len() == 0 {
        Seq::empty()
    } else {
        result_rows(bs.drop_last()) + block_rows(bs.last())
    }
}

/// The rows held by materialized output.
pub open spec fn rows_view(rows: Seq<Row>) -> Seq<Seq<(String, Value)>> {
    rows.map_values(|row: Row| row@)
}

impl Column {
    /// Tells whether the column spans exactly `num_rows` rows.
    pub fn spans(&self, num_rows: usize) -> (r: bool)
        ensures
            r == self.wf(num_rows as int),
    {
        let n = num_rows;
        self.nulls.len() == n && match &self.data {
            ColumnData::Text(v) => v.len() == n,
            ColumnData::Int32(v) => v.len() == n,
            ColumnData::Float64(v) => v.len() == n,
            ColumnData::Boolean(v) => v.len() == n,
            ColumnData::Unsupported => true,
        }
    }
}

impl DataBlock {
    /// Tells whether the block is well formed: one name per column, and
    /// every column spans all rows.
    pub fn is_well_formed(&self) -> (r: bool)
        ensures
            r == self.wf(),
    {
        if self.fields.len() != self.columns.len() {
            return false;
        }
        let mut c: usize = 0;
        while c < self.columns.len()
            invariant
                c <= self.columns@.len(),
                forall|k: int| 0 <= k < c ==> #[trigger] self.columns@[k].wf(self.num_rows as int),
            decreases self.columns@.len() - c,
        {
            if !self.columns[c].spans(self.num_rows) {
                return false;
            }
            c += 1;
        }
        true
    }
}

/// Converts the cell at (`column`, `row`) of a block into a value.
pub fn to_value(block: &DataBlock, column: usize, row: usize) -> (v: Value)
    requires
        block.wf(),
        column < block.columns@.len(),
        row < block.num_rows,
    ensures
        v == cell_value(block.columns@[column as int], row as int),
{
    let col = &block.columns[column];
    assert(col.wf(block.num_rows as int));
    if col.nulls[row] {
        return Value::Null;
    }
    match &col.data {
        ColumnData::Text(v) => Value::Text(v[row].clone()),
        ColumnData::Int32(v) => Value::Int32(v[row]),
        ColumnData::Float64(v) => {
            if float_is_finite(v[row]) {
                Value::Float64(v[row])
            } else {
                Value::Null
            }
        },
        ColumnData::Boolean(v) => Value::Boolean(v[row]),
        ColumnData::Unsupported => Value::Null,
    }
}

/// Converts one block into rows, appending them to `rows`.
pub fn push_block_rows(block: &DataBlock, rows: &mut Vec<Row>)
    requires
        block.wf(),
    ensures
        rows_view(final(rows)@) == rows_view(old(rows)@) + block_rows(*block),
{
    let ghost start = rows@;
    let ncols = block.columns.len();
    let mut r: usize = 0;
    while r < block.num_rows
        invariant
            block.wf(),
            ncols == block.columns@.len(),
            r <= block.num_rows,
            rows_view(rows@) == rows_view(start) + block_rows(*block).take(r as int),
        decreases block.num_rows - r,
    {
        let mut row: Row = Vec::new();
        let mut c: usize = 0;
        while c < ncols
            invariant
                block.wf(),
                ncols == block.columns@.len(),
                r < block.num_rows,
                c <= ncols,
                row@ == block_row(*block, r as int).take(c as int),
            decreases ncols - c,
        {
            let value = to_value(block, c, r);
            row.push((block.fields[c].clone(), value));
            assert(row@ =~= block_row(*block, r as int).take(c + 1));
            c += 1;
        }
        assert(row@ =~= block_row(*block, r as int));
        let ghost before = rows@;
        rows.push(row);
        assert(rows_view(rows@) =~= rows_view(before).push(block_rows(*block)[r as int]));
        assert(rows_view(rows@) =~= rows_view(start) + block_rows(*block).take(r + 1));
        r += 1;
    }
    assert(block_rows(*block).take(r as int) =~= block_rows(*block));
}

/// Converts blocks into rows: the blocks in the order given, within a block
/// its rows in order, and within a row its fields in schema order.
pub fn materialize(blocks: &Vec<DataBlock>) -> (rows: Vec<Row>)
    requires
        forall|i: int| 0 <= i < blocks@.len() ==> #[trigger] blocks@[i].wf(),
    ensures
        rows_view(rows@) == result_rows(blocks@),
{
    let mut rows: Vec<Row> = Vec::new();
    let mut i: usize = 0;
    while i < blocks.len()
        invariant
            forall|k: int| 0 <= k < blocks@.len() ==> #[trigger] blocks@[k].wf(),
            i <= blocks@.len(),
            rows_view(rows@) == result_rows(blocks@.take(i as int)),
        decreases blocks@.len() - i,
    {
        push_block_rows(&blocks[i], &mut rows);
        assert(blocks@.take(i + 1).drop_last() =~= blocks@.take(i as int));
        i += 1;
    }
    assert(blocks@.take(i as int) =~= blocks@);
    rows
}

/// A cell whose null indicator is set materializes as null, whatever the
/// column's declared type.
pub proof fn lemma_null_indicator_wins(b: DataBlock, c: int, r: int)
    requires
        b.wf(),
        0 <= c < b.columns@.len(),
        0 <= r < b.num_rows,
        b.columns@[c].nulls@[r],
    ensures
        cell_value(b.columns@[c], r) == Value::Null,
{
}

/// A non-null cell of a materialized type becomes the value of the matching
/// kind: text, 32-bit integer, finite 64-bit float (a non-finite one becomes
/// null), boolean.
pub proof fn lemma_supported_kinds(b: DataBlock, c: int, r: int)
    requires
        b.wf(),
        0 <= c < b.columns@.len(),
        0 <= r < b.num_rows,
        !b.columns@[c].nulls@[r],
    ensures
        match b.columns@[c].data {
            ColumnData::Text(v) => cell_value(b.columns@[c], r) == Value::Text(v@[r]),
            ColumnData::Int32(v) => cell_value(b.columns@[c], r) == Value::Int32(v@[r]),
            ColumnData::Float64(v) => cell_value(b.columns@[c], r) == (if is_finite_bits(v@[r]) {
                Value::Float64(v@[r])
            } else {
                Value::Null
            }),
            ColumnData::Boolean(v) => cell_value(b.columns@[c], r) == Value::Boolean(v@[r]),
            ColumnData::Unsupported => true,
        },
{
}

/// Every cell of a column whose declared type is not materialized becomes
/// null; the conversion never fails.
pub proof fn lemma_unsupported_is_null(b: DataBlock, c: int, r: int)
    requires
        b.wf(),
        0 <= c < b.columns@.len(),
        0 <= r < b.num_rows,
        b.columns@[c].data is Unsupported,
    ensures
        cell_value(b.columns@[c], r) == Value::Null,
{
}

/// The field names of a row, in order.
pub open spec fn row_keys(row: Seq<(String, Value)>) -> Seq<String> {
    row.map_values(|e: (String, Value)| e.0)
}

/// When all blocks share one schema, the keys of every materialized row are
/// the schema's field names, in schema order.
pub proof fn lemma_key_order_is_schema_order(bs: Seq<DataBlock>, schema: Seq<String>)
    requires
        forall|i: int| 0 <= i < bs.len() ==> #[trigger] bs[i].wf(),
        forall|i: int| 0 <= i < bs.len() ==> #[trigger] bs[i].fields@ == schema,
    ensures
        forall|k: int|
            0 <= k < result_rows(bs).len() ==> #[trigger] row_keys(result_rows(bs)[k]) == schema,
    decreases bs.len(),
{
    if bs.len() > 0 {
        let init = bs.drop_last();
        assert forall|i: int| 0 <= i < init.len() implies #[trigger] init[i].wf() && init[i].fields@
            == schema by {
            assert(init[i] == bs[i]);
        }
        lemma_key_order_is_schema_order(init, schema);
        let last = bs.last();
        assert(last == bs[bs.len() - 1]);
        assert forall|k: int| 0 <= k < result_rows(bs).len() implies #[trigger] row_keys(
            result_rows(bs)[k],
        ) == schema by {
            let n = result_rows(init).len() as int;
            if k >= n {
                assert(result_rows(bs)[k] == block_rows(last)[k - n]);
                assert(row_keys(block_row(last, k - n)) =~= schema);
            } else {
                assert(result_rows(bs)[k] == result_rows(init)[k]);
            }
        }
    }
}

/// The number of materialized rows is the sum of the blocks' row counts.
pub open spec fn total_rows(bs: Seq<DataBlock>) -> nat
    decreases bs.len(),
{
    if bs.len() == 0 {
        0
    } else {
        total_rows(bs.drop_last()) + bs.last().num_rows as nat
    }
}

/// Materialization yields exactly as many rows as the blocks hold.
pub proof fn lemma_row_count(bs: Seq<DataBlock>)
    ensures
        result_rows(bs).len() == total_rows(bs),
    decreases bs.len(),
{
    if bs.len() > 0 {
        lemma_row_count(bs.drop_last());
    }
}

} // verus!
