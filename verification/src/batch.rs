//! The value model of columnar batches.
//!
//! A batch is a fixed-size, column-oriented chunk of query results.  Cells
//! carry the primitive values this library converts between the columnar
//! engine's representation and the row engine's value representation.

use vstd::prelude::*;

verus! {

/// A column's value type in the columnar schema.
#[derive(Clone, Copy, PartialEq, Eq, Structural, Debug)]
pub enum ColType {
    Bool,
    Int16,
    Int32,
    Int64,
    Utf8,
    Date32,
    TimestampMicros,
    /// A fixed-point decimal; the scale is part of the type.
    Decimal(u32),
}

/// The row engine's declared attribute type.
#[derive(Clone, Copy, PartialEq, Eq, Structural, Debug)]
pub enum PgType {
    Bool,
    Int2,
    Int4,
    Int8,
    Text,
    Date,
    Timestamp,
    /// A numeric attribute; the type modifier gives the scale, or is
    /// negative when unconstrained.
    Numeric(i32),
}

/// One value of a column: a primitive, or null.
#[derive(Clone, PartialEq, Debug)]
pub enum Cell {
    Null,
    Bool(bool),
    I16(i16),
    I32(i32),
    I64(i64),
    Text(String),
    /// Days since the epoch.
    Date(i32),
    /// Microseconds since the epoch.
    Timestamp(i64),
    /// An integer mantissa at the given scale.
    Decimal(i64, u32),
}

/// Whether a cell can appear in a column of the given type; null fits every
/// column.
pub open spec fn spec_cell_fits(c: Cell, t: ColType) -> bool {
    match c {
        Cell::Null => true,
        Cell::Bool(_) => t == ColType::Bool,
        Cell::I16(_) => t == ColType::Int16,
        Cell::I32(_) => t == ColType::Int32,
        Cell::I64(_) => t == ColType::Int64,
        Cell::Text(_) => t == ColType::Utf8,
        Cell::Date(_) => t == ColType::Date32,
        Cell::Timestamp(_) => t == ColType::TimestampMicros,
        Cell::Decimal(_, s) => t == ColType::Decimal(s),
    }
}

/// An exact copy of a cell.
pub fn cell_copy(c: &Cell) -> (r: Cell)
    ensures
        r == c,
{
    match c {
        Cell::Null => Cell::Null,
        Cell::Bool(b) => Cell::Bool(*b),
        Cell::I16(v) => Cell::I16(*v),
        Cell::I32(v) => Cell::I32(*v),
        Cell::I64(v) => Cell::I64(*v),
        Cell::Text(s) => Cell::Text(s.clone()),
        Cell::Date(d) => Cell::Date(*d),
        Cell::Timestamp(t) => Cell::Timestamp(*t),
        Cell::Decimal(v, s) => Cell::Decimal(*v, *s),
    }
}

/// An exact copy of a row of cells.
pub fn row_copy(row: &Vec<Cell>) -> (r: Vec<Cell>)
    ensures
        r@ == row@,
{
    let n = row.len();
    let mut out: Vec<Cell> = Vec::new();
    let mut i: usize = 0;
    while i < n
        invariant
            n == row@.len(),
            0 <= i <= n,
            out@ == row@.take(i as int),
        decreases n - i,
    {
        out.push(cell_copy(&row[i]));
        proof {
            assert(out@ =~= row@.take(i + 1 as int));
        }
        i = i + 1;
    }
    proof {
        assert(row@.take(n as int) =~= row@);
    }
    out
}

/// A named, typed column of a batch.
pub struct BatchColumn {
    pub name: String,
    pub col_type: ColType,
    pub values: Vec<Cell>,
}

/// A column-oriented chunk of rows.
pub struct Batch {
    pub columns: Vec<BatchColumn>,
    pub num_rows: usize,
}

impl Batch {
    /// Every column holds one value per row, of the column's type.
    pub open spec fn wf(self) -> bool {
        forall|j: int|
            0 <= j < self.columns@.len() ==> (#[trigger] self.columns@[j]).values@.len()
                == self.num_rows && forall|i: int|
                0 <= i < self.num_rows ==> spec_cell_fits(
                    self.columns@[j].values@[i],
                    self.columns@[j].col_type,
                )
    }

    /// The row at an index: one cell from each column, in column order.
    pub open spec fn spec_row(self, i: int) -> Seq<Cell> {
        Seq::new(self.columns@.len(), |j: int| self.columns@[j].values@[i])
    }

    /// All rows of the batch, in order.
    pub open spec fn spec_rows(self) -> Seq<Seq<Cell>> {
        Seq::new(self.num_rows as nat, |i: int| self.spec_row(i))
    }

    pub fn row_count(&self) -> (r: usize)
        ensures
            r == self.num_rows,
    {
        self.num_rows
    }

    /// Extract the row at an index.
    pub fn row_at(&self, i: usize) -> (r: Vec<Cell>)
        requires
            self.wf(),
            i < self.num_rows,
        ensures
            r@ == self.spec_row(i as int),
    {
        let n = self.columns.len();
        let mut out: Vec<Cell> = Vec::new();
        let mut j: usize = 0;
        while j < n
            invariant
                n == self.columns@.len(),
                0 <= j <= n,
                self.wf(),
                i < self.num_rows,
                out@ == self.spec_row(i as int).take(j as int),
            decreases n - j,
        {
            out.push(cell_copy(&self.columns[j].values[i]));
            proof {
                assert(out@ =~= self.spec_row(i as int).take(j + 1 as int));
            }
            j = j + 1;
        }
        proof {
            assert(self.spec_row(i as int).take(n as int) =~= self.spec_row(i as int));
        }
        out
    }
}

/// The sequence of rows across a sequence of batches, in batch order.
pub open spec fn spec_all_rows(batches: Seq<Batch>) -> Seq<Seq<Cell>>
    decreases batches.len(),
{
    if batches.len() == 0 {
        Seq::empty()
    } else {
        batches.first().spec_rows() + spec_all_rows(batches.drop_first())
    }
}

/// A column description: name and value type.
pub struct Field {
    pub name: String,
    pub col_type: ColType,
}

/// Whether a row matches a schema: one cell per field, each fitting its
/// field's type.
pub open spec fn spec_row_matches(row: Seq<Cell>, schema: Seq<Field>) -> bool {
    row.len() == schema.len() && forall|j: int|
        0 <= j < row.len() ==> spec_cell_fits(#[trigger] row[j], schema[j].col_type)
}

/// Build a column-oriented batch from rows.  The batch holds exactly the
/// given rows, in order.
pub fn batch_from_rows(schema: &Vec<Field>, rows: &Vec<Vec<Cell>>) -> (r: Batch)
    requires
        forall|i: int| 0 <= i < rows@.len() ==> spec_row_matches(#[trigger] rows@[i]@, schema@),
    ensures
        r.wf(),
        r.num_rows == rows@.len(),
        r.columns@.len() == schema@.len(),
        forall|j: int|
            0 <= j < schema@.len() ==> (#[trigger] r.columns@[j]).name@ == schema@[j].name@
                && r.columns@[j].col_type == schema@[j].col_type,
        r.spec_rows() =~= rows@.map_values(|row: Vec<Cell>| row@),
{
    let ncols = schema.len();
    let nrows = rows.len();
    let mut columns: Vec<BatchColumn> = Vec::new();
    let mut j: usize = 0;
    while j < ncols
        invariant
            ncols == schema@.len(),
            nrows == rows@.len(),
            0 <= j <= ncols,
            forall|i: int| 0 <= i < rows@.len() ==> spec_row_matches(#[trigger] rows@[i]@, schema@),
            columns@.len() == j,
            forall|q: int|
                0 <= q < j ==> (#[trigger] columns@[q]).name@ == schema@[q].name@ && columns@[q].col_type
                    == schema@[q].col_type && columns@[q].values@.len() == nrows && forall|i: int|
                    0 <= i < nrows ==> columns@[q].values@[i] == rows@[i]@[q],
        decreases ncols - j,
    {
        let mut values: Vec<Cell> = Vec::new();
        let mut i: usize = 0;
        while i < nrows
            invariant
                ncols == schema@.len(),
                nrows == rows@.len(),
                0 <= i <= nrows,
                j < ncols,
                forall|p: int|
                    0 <= p < rows@.len() ==> spec_row_matches(#[trigger] rows@[p]@, schema@),
                values@.len() == i,
                forall|p: int| 0 <= p < i ==> values@[p] == rows@[p]@[j as int],
            decreases nrows - i,
        {
            assert(rows@[i as int]@.len() == schema@.len());
            values.push(cell_copy(&rows[i][j]));
            i = i + 1;
        }
        let name = schema[j].name.clone();
        let col_type = schema[j].col_type;
        columns.push(BatchColumn { name, col_type, values });
        j = j + 1;
    }
    let b = Batch { columns, num_rows: nrows };
    proof {
        assert forall|i: int| 0 <= i < nrows implies b.spec_row(i) =~= rows@[i]@ by {
            assert(spec_row_matches(rows@[i]@, schema@));
        }
        assert(b.spec_rows() =~= rows@.map_values(|row: Vec<Cell>| row@));
    }
    b
}

} // verus!
