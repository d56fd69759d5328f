//! The generic scan-execution protocol.
//!
//! A scan walks `Idle -> Planning -> Streaming -> Exhausted`: `begin_scan`
//! builds a plan restricted to the projected columns and bounded by the
//! pushed-down limit, `iter_scan` lazily opens the batch stream and serves
//! one row at a time in order, and `end_scan` releases the stream and buffer
//! so the scan can be begun afresh.

use vstd::prelude::*;

use crate::batch::{spec_all_rows, Batch, BatchColumn, Cell, cell_copy};
use crate::options::OptionsError;
use crate::provider::{spec_convert_cell, TableProvider};
use crate::registry::ContextError;

verus! {

/// A projected column of a scan: the consumer's name for it, its 1-based
/// attribute number in the provider schema, and the declared output type.
pub struct Column {
    pub name: String,
    pub num: usize,
    pub type_oid: crate::batch::PgType,
}

/// An advisory pushed-down predicate; the engine may ignore it and return
/// unfiltered rows for the caller to re-filter.
pub struct Qual {
    pub field: String,
}

/// An advisory pushed-down sort hint; the engine may ignore it.
pub struct Sort {
    pub field: String,
    pub reversed: bool,
}

/// A pushed-down row bound.
pub struct Limit {
    pub count: u64,
    pub offset: u64,
}

/// Failures of the scan protocol.  A missing plan or stream when iteration
/// expects one is an internal-invariant error, distinct from a data error.
#[derive(Debug)]
pub enum BaseFdwError {
    /// Iteration started with no plan built: protocol misuse.
    DataFrameNotFound,
    /// A batch pull was attempted with no open stream: protocol misuse.
    StreamNotFound,
    /// A projected column's number is outside the provider schema.
    ColumnNotFound(usize),
    /// A value could not be converted to the declared output type.
    DataTypeError(String),
    /// The declared options were rejected.
    Options(OptionsError),
    /// Registration or resolution failed underneath the scan.
    Context(ContextError),
}

impl BaseFdwError {
    /// Human-readable description.
    pub fn message(&self) -> (r: String)
        ensures
            match self {
                BaseFdwError::DataFrameNotFound => r@ == "no plan was built for this scan"@,
                BaseFdwError::StreamNotFound => r@ == "no stream is open for this scan"@,
                BaseFdwError::ColumnNotFound(_) => r@ == "projected column is out of range"@,
                BaseFdwError::DataTypeError(c) => r@ == "cannot convert value in column "@ + c@,
                BaseFdwError::Options(e) => r@ == (match e {
                    OptionsError::RequiredOptionNotFound(k) => "required option not found: "@
                        + k@,
                    OptionsError::OptionNameNotFound(k) => "invalid option name: "@ + k@,
                }),
                BaseFdwError::Context(_) => r@ == "object store or resolution failure"@,
            },
    {
        match self {
            BaseFdwError::DataFrameNotFound => String::from_str("no plan was built for this scan"),
            BaseFdwError::StreamNotFound => String::from_str("no stream is open for this scan"),
            BaseFdwError::ColumnNotFound(_) => String::from_str(
                "projected column is out of range",
            ),
            BaseFdwError::DataTypeError(c) => String::from_str(
                "cannot convert value in column ",
            ).concat(c.as_str()),
            BaseFdwError::Options(e) => e.message(),
            BaseFdwError::Context(_) => String::from_str("object store or resolution failure"),
        }
    }
}

/// An output row handed to the host's foreign-table interface: column names
/// and one cell per projected column.
pub struct Row {
    pub cols: Vec<String>,
    pub cells: Vec<Cell>,
}

impl Row {
    pub fn new() -> (r: Row)
        ensures
            r.cols@.len() == 0,
            r.cells@.len() == 0,
    {
        Row { cols: Vec::new(), cells: Vec::new() }
    }

    pub fn clear(&mut self)
        ensures
            final(self).cols@.len() == 0,
            final(self).cells@.len() == 0,
    {
        self.cols.clear();
        self.cells.clear();
    }
}

/// The row that a projection extracts: the cell at each projected column's
/// position, in projection order.
pub open spec fn spec_project_row(row: Seq<Cell>, columns: Seq<Column>) -> Seq<Cell> {
    Seq::new(columns.len(), |j: int| row[columns[j].num - 1])
}

/// Whether every projected column number addresses the given schema width.
pub open spec fn spec_columns_in_range(columns: Seq<Column>, width: nat) -> bool {
    forall|j: int|
        0 <= j < columns.len() ==> 1 <= (#[trigger] columns[j]).num && columns[j].num <= width
}

/// Project one batch onto the target columns, in target order.
pub fn batch_project(b: &Batch, columns: &Vec<Column>) -> (r: Result<Batch, BaseFdwError>)
    requires
        b.wf(),
    ensures
        match r {
            Ok(pb) => spec_columns_in_range(columns@, b.columns@.len()) && pb.wf()
                && pb.num_rows == b.num_rows && pb.columns@.len() == columns@.len() && (forall|
                j: int,
            |
                0 <= j < columns@.len() ==> (#[trigger] pb.columns@[j]).name@
                    == columns@[j].name@) && forall|i: int|
                0 <= i < b.num_rows ==> pb.spec_row(i) =~= spec_project_row(
                    b.spec_row(i),
                    columns@,
                ),
            Err(e) => !spec_columns_in_range(columns@, b.columns@.len()) && e is ColumnNotFound,
        },
{
    let ncols = columns.len();
    let mut out: Vec<BatchColumn> = Vec::new();
    let mut j: usize = 0;
    while j < ncols
        invariant
            ncols == columns@.len(),
            b.wf(),
            0 <= j <= ncols,
            out@.len() == j,
            forall|q: int|
                0 <= q < j ==> 1 <= (#[trigger] columns@[q]).num && columns@[q].num
                    <= b.columns@.len(),
            forall|q: int|
                0 <= q < j ==> (#[trigger] out@[q]).name@ == columns@[q].name@ && out@[q].col_type
                    == b.columns@[columns@[q].num - 1].col_type && out@[q].values@
                    == b.columns@[columns@[q].num - 1].values@,
        decreases ncols - j,
    {
        let num = columns[j].num;
        if num == 0 || num > b.columns.len() {
            return Err(BaseFdwError::ColumnNotFound(j));
        }
        let src = &b.columns[num - 1];
        let mut values: Vec<Cell> = Vec::new();
        let nrows = src.values.len();
        let mut i: usize = 0;
        while i < nrows
            invariant
                nrows == src.values@.len(),
                0 <= i <= nrows,
                values@ == src.values@.take(i as int),
            decreases nrows - i,
        {
            values.push(cell_copy(&src.values[i]));
            proof {
                assert(values@ =~= src.values@.take(i + 1 as int));
            }
            i = i + 1;
        }
        proof {
            assert(src.values@.take(nrows as int) =~= src.values@);
        }
        let name = columns[j].name.clone();
        let col_type = src.col_type;
        out.push(BatchColumn { name, col_type, values });
        j = j + 1;
    }
    let pb = Batch { columns: out, num_rows: b.num_rows };
    proof {
        assert forall|i: int| 0 <= i < b.num_rows implies pb.spec_row(i) =~= spec_project_row(
            b.spec_row(i),
            columns@,
        ) by {}
    }
    Ok(pb)
}

/// Truncate a batch to its first rows.
pub fn batch_truncate(b: &Batch, k: usize) -> (r: Batch)
    requires
        b.wf(),
        k <= b.num_rows,
    ensures
        r.wf(),
        r.num_rows == k,
        r.columns@.len() == b.columns@.len(),
        forall|j: int|
            0 <= j < b.columns@.len() ==> (#[trigger] r.columns@[j]).name@ == b.columns@[j].name@
                && r.columns@[j].col_type == b.columns@[j].col_type,
        r.spec_rows() =~= b.spec_rows().take(k as int),
{
    let ncols = b.columns.len();
    let mut out: Vec<BatchColumn> = Vec::new();
    let mut j: usize = 0;
    while j < ncols
        invariant
            ncols == b.columns@.len(),
            b.wf(),
            k <= b.num_rows,
            0 <= j <= ncols,
            out@.len() == j,
            forall|q: int|
                0 <= q < j ==> (#[trigger] out@[q]).name@ == b.columns@[q].name@
                    && out@[q].col_type == b.columns@[q].col_type && out@[q].values@
                    == b.columns@[q].values@.take(k as int),
        decreases ncols - j,
    {
        let src = &b.columns[j];
        let mut values: Vec<Cell> = Vec::new();
        let mut i: usize = 0;
        while i < k
            invariant
                b.wf(),
                j < ncols,
                ncols == b.columns@.len(),
                k <= b.num_rows,
                src == b.columns@[j as int],
                0 <= i <= k,
                values@ == src.values@.take(i as int),
            decreases k - i,
        {
            proof {
                assert(b.columns@[j as int].values@.len() == b.num_rows);
            }
            values.push(cell_copy(&src.values[i]));
            proof {
                assert(values@ =~= src.values@.take(i + 1 as int));
            }
            i = i + 1;
        }
        let name = src.name.clone();
        let col_type = src.col_type;
        out.push(BatchColumn { name, col_type, values });
        j = j + 1;
    }
    let r = Batch { columns: out, num_rows: k };
    proof {
        assert forall|i: int| 0 <= i < k implies r.spec_row(i) =~= b.spec_row(i) by {
            assert forall|q: int| 0 <= q < ncols implies r.columns@[q].values@[i]
                == b.columns@[q].values@[i] by {
                assert(b.columns@[q].values@.len() == b.num_rows);
            }
        }
        assert(r.spec_rows() =~= b.spec_rows().take(k as int));
    }
    r
}

/// An exact observable copy of a batch: same shape, same rows.
pub fn batch_copy(b: &Batch) -> (r: Batch)
    requires
        b.wf(),
    ensures
        r.wf(),
        r.num_rows == b.num_rows,
        r.columns@.len() == b.columns@.len(),
        forall|j: int|
            0 <= j < b.columns@.len() ==> (#[trigger] r.columns@[j]).name@ == b.columns@[j].name@
                && r.columns@[j].col_type == b.columns@[j].col_type,
        r.spec_rows() =~= b.spec_rows(),
{
    let r = batch_truncate(b, b.num_rows);
    proof {
        assert(b.spec_rows().take(b.num_rows as int) =~= b.spec_rows());
    }
    r
}

/// Rows concatenate batch by batch.
pub proof fn lemma_all_rows_push(s: Seq<Batch>, b: Batch)
    ensures
        spec_all_rows(s.push(b)) =~= spec_all_rows(s) + b.spec_rows(),
    decreases s.len(),
{
    if s.len() == 0 {
        assert(s.push(b).drop_first() =~= s);
        assert(s.push(b).first() == b);
    } else {
        assert(s.push(b).first() == s.first());
        assert(s.push(b).drop_first() =~= s.drop_first().push(b));
        lemma_all_rows_push(s.drop_first(), b);
    }
}

/// Batches whose rows agree index by index have the same rows overall.
pub proof fn lemma_all_rows_congruent(s1: Seq<Batch>, s2: Seq<Batch>)
    requires
        s1.len() == s2.len(),
        forall|i: int| 0 <= i < s1.len() ==> (#[trigger] s1[i]).spec_rows() == s2[i].spec_rows(),
    ensures
        spec_all_rows(s1) =~= spec_all_rows(s2),
    decreases s1.len(),
{
    if s1.len() > 0 {
        assert(s1.first().spec_rows() == s2.first().spec_rows());
        assert forall|i: int| 0 <= i < s1.drop_first().len() implies (#[trigger] s1.drop_first()[
            i
        ]).spec_rows() == s2.drop_first()[i].spec_rows() by {
            assert(s1.drop_first()[i] == s1[i + 1]);
            assert(s2.drop_first()[i] == s2[i + 1]);
        }
        lemma_all_rows_congruent(s1.drop_first(), s2.drop_first());
    }
}

/// The built query plan of one scan: the projected, bounded batches.
pub struct ScanPlan {
    pub batches: Vec<Batch>,
}

/// The open result stream of one scan: batches served in order.
pub struct BatchStream {
    pub batches: Vec<Batch>,
    pub next_batch: usize,
}

/// The rows a scan of the provider must produce: every row, projected onto
/// the target columns, bounded by the pushed-down limit.
pub open spec fn spec_scan_rows(p: TableProvider, columns: Seq<Column>, limit: Option<Limit>)
    -> Seq<Seq<Cell>> {
    let all = spec_all_rows(p.batches@).map_values(|r: Seq<Cell>| spec_project_row(r, columns));
    match limit {
        Some(l) => if l.count as int <= all.len() {
            all.take(l.count as int)
        } else {
            all
        },
        None => all,
    }
}

/// Splitting a batch sequence splits its rows.
pub proof fn lemma_all_rows_split(s: Seq<Batch>, i: int)
    requires
        0 <= i <= s.len(),
    ensures
        spec_all_rows(s) =~= spec_all_rows(s.take(i)) + spec_all_rows(s.skip(i)),
    decreases i,
{
    if i == 0 {
        assert(s.take(0) =~= Seq::<Batch>::empty());
        assert(s.skip(0) =~= s);
    } else {
        assert(s.take(i) =~= s.take(i - 1).push(s[i - 1]));
        lemma_all_rows_push(s.take(i - 1), s[i - 1]);
        lemma_all_rows_split(s, i - 1);
        assert(s.skip(i - 1) =~= seq![s[i - 1]] + s.skip(i));
        assert(spec_all_rows(s.skip(i - 1)) =~= s[i - 1].spec_rows() + spec_all_rows(s.skip(i)))
            by {
            assert(s.skip(i - 1).first() == s[i - 1]);
            assert(s.skip(i - 1).drop_first() =~= s.skip(i));
        }
    }
}

/// Build the plan of one scan: the provider's batches projected onto the
/// target columns, in order, truncated to the pushed-down limit.  The
/// provider is never asked to materialize unrequested columns: each plan
/// batch holds exactly the projected columns.
pub fn build_scan_plan(p: &TableProvider, columns: &Vec<Column>, limit: &Option<Limit>) -> (r:
    Result<ScanPlan, BaseFdwError>)
    requires
        p.wf(),
        spec_all_rows(p.batches@).len() <= u64::MAX,
    ensures
        match r {
            Ok(plan) => spec_columns_in_range(columns@, p.schema@.len()) && (forall|b: int|
                0 <= b < plan.batches@.len() ==> (#[trigger] plan.batches@[b]).wf()
                    && plan.batches@[b].columns@.len() == columns@.len() && (forall|j: int|
                    0 <= j < columns@.len() ==> (#[trigger] plan.batches@[b].columns@[j]).name@
                        == columns@[j].name@)) && spec_all_rows(plan.batches@) =~= spec_scan_rows(
                *p,
                columns@,
                match limit {
                    Some(l) => Some(Limit { count: l.count, offset: l.offset }),
                    None => None,
                },
            ),
            Err(e) => e is ColumnNotFound && !spec_columns_in_range(columns@, p.schema@.len()),
        },
        r is Ok <==> spec_columns_in_range(columns@, p.schema@.len()),
{
    let ghost project = |r: Seq<Cell>| spec_project_row(r, columns@);
    let ghost full: Seq<Seq<Cell>> = spec_all_rows(p.batches@).map_values(project);
    let nb = p.batches.len();
    let mut out: Vec<Batch> = Vec::new();
    let mut taken: u64 = 0;
    let mut bi: usize = 0;

    // check the projection against the provider schema first, so that an
    // out-of-range column is rejected even for an empty table
    let ncols = columns.len();
    let mut cj: usize = 0;
    while cj < ncols
        invariant
            ncols == columns@.len(),
            0 <= cj <= ncols,
            forall|q: int|
                0 <= q < cj ==> 1 <= (#[trigger] columns@[q]).num && columns@[q].num
                    <= p.schema@.len(),
        decreases ncols - cj,
    {
        let num = columns[cj].num;
        if num == 0 || num > p.schema.len() {
            return Err(BaseFdwError::ColumnNotFound(cj));
        }
        cj = cj + 1;
    }

    while bi < nb
        invariant
            nb == p.batches@.len(),
            p.wf(),
            ncols == columns@.len(),
            spec_columns_in_range(columns@, p.schema@.len()),
            0 <= bi <= nb,
            project == (|r: Seq<Cell>| spec_project_row(r, columns@)),
            full == spec_all_rows(p.batches@).map_values(project),
            full.len() <= u64::MAX,
            taken as int == spec_all_rows(p.batches@.take(bi as int)).len(),
            taken as int <= full.len(),
            spec_all_rows(out@) =~= full.take(taken as int),
            match limit {
                Some(l) => taken <= l.count,
                None => true,
            },
            forall|b: int|
                0 <= b < out@.len() ==> (#[trigger] out@[b]).wf() && out@[b].columns@.len()
                    == columns@.len() && (forall|j: int|
                    0 <= j < columns@.len() ==> (#[trigger] out@[b].columns@[j]).name@
                        == columns@[j].name@),
        decreases nb - bi,
    {
        let src = &p.batches[bi];
        let pb = match batch_project(src, columns) {
            Ok(pb) => pb,
            Err(e) => {
                proof {
                    assert(p.batches@[bi as int].columns@.len() == p.schema@.len());
                    assert(false);
                }
                return Err(e);
            },
        };
        proof {
            lemma_all_rows_split(p.batches@, bi as int);
            lemma_all_rows_split(p.batches@, bi + 1 as int);
            assert(p.batches@.take(bi + 1 as int) =~= p.batches@.take(bi as int).push(
                p.batches@[bi as int],
            ));
            lemma_all_rows_push(p.batches@.take(bi as int), p.batches@[bi as int]);
            assert(pb.spec_rows() =~= src.spec_rows().map_values(project)) by {
                assert forall|i: int| 0 <= i < pb.num_rows implies pb.spec_rows()[i]
                    == src.spec_rows().map_values(project)[i] by {
                    assert(pb.spec_row(i) =~= spec_project_row(src.spec_row(i), columns@));
                }
            }
            assert(full =~= spec_all_rows(p.batches@.take(bi as int)).map_values(project)
                + src.spec_rows().map_values(project) + spec_all_rows(
                p.batches@.skip(bi + 1 as int),
            ).map_values(project)) by {
                assert(spec_all_rows(p.batches@) =~= spec_all_rows(p.batches@.take(bi as int))
                    + src.spec_rows() + spec_all_rows(p.batches@.skip(bi + 1 as int)));
            }
            assert(full.take(taken as int) =~= spec_all_rows(p.batches@.take(bi as int))
                .map_values(project));
        }
        let room: Option<u64> = match limit {
            Some(l) => Some(l.count - taken),
            None => None,
        };
        match room {
            Some(k) if (pb.num_rows as u64) > k => {
                let cut = batch_truncate(&pb, k as usize);
                let ghost old_out = out@;
                out.push(cut);
                proof {
                    lemma_all_rows_push(old_out, cut);
                    assert(cut.spec_rows() =~= pb.spec_rows().take(k as int));
                    assert(spec_all_rows(out@) =~= full.take(taken + k as int)) by {
                        assert(spec_all_rows(out@) =~= full.take(taken as int)
                            + pb.spec_rows().take(k as int));
                    }
                }
                taken = taken + k;
                proof {
                    assert(match limit {
                        Some(l) => taken == l.count,
                        None => false,
                    });
                }
                let plan = ScanPlan { batches: out };
                proof {
                    assert(taken as int <= full.len());
                }
                return Ok(plan);
            },
            _ => {
                let ghost old_out = out@;
                let nr = pb.num_rows;
                out.push(pb);
                proof {
                    lemma_all_rows_push(old_out, out@.last());
                    assert(spec_all_rows(out@) =~= full.take(taken + nr as int));
                    assert(taken + nr as int <= full.len());
                }
                taken = taken + nr as u64;
            },
        }
        bi = bi + 1;
    }
    proof {
        assert(p.batches@.take(nb as int) =~= p.batches@);
        assert(full.take(taken as int) =~= full);
    }
    Ok(ScanPlan { batches: out })
}

/// Unfolding one batch from the middle of a sequence.
pub proof fn lemma_all_rows_skip_unfold(s: Seq<Batch>, i: int)
    requires
        0 <= i < s.len(),
    ensures
        spec_all_rows(s.skip(i)) =~= s[i].spec_rows() + spec_all_rows(s.skip(i + 1)),
{
    assert(s.skip(i).first() == s[i]);
    assert(s.skip(i).drop_first() =~= s.skip(i + 1));
}

/// Whether every cell of a row converts to its projected column's declared
/// output type.
pub open spec fn spec_row_convertible(row: Seq<Cell>, columns: Seq<Column>) -> bool {
    forall|j: int|
        0 <= j < columns.len() ==> spec_convert_cell(#[trigger] row[j], columns[j].type_oid)
            is Some
}

/// An exact copy of a projection column list.
pub fn columns_copy(columns: &Vec<Column>) -> (r: Vec<Column>)
    ensures
        r@.len() == columns@.len(),
        forall|j: int|
            0 <= j < columns@.len() ==> (#[trigger] r@[j]).name@ == columns@[j].name@ && r@[j].num
                == columns@[j].num && r@[j].type_oid == columns@[j].type_oid,
{
    let n = columns.len();
    let mut out: Vec<Column> = Vec::new();
    let mut j: usize = 0;
    while j < n
        invariant
            n == columns@.len(),
            0 <= j <= n,
            out@.len() == j,
            forall|q: int|
                0 <= q < j ==> (#[trigger] out@[q]).name@ == columns@[q].name@ && out@[q].num
                    == columns@[q].num && out@[q].type_oid == columns@[q].type_oid,
        decreases n - j,
    {
        let c = &columns[j];
        out.push(Column { name: c.name.clone(), num: c.num, type_oid: c.type_oid });
        j = j + 1;
    }
    out
}

/// The shared per-scan state of the storage-backend foreign-data wrappers.
pub struct BaseFdwState {
    pub dataframe: Option<ScanPlan>,
    pub stream: Option<BatchStream>,
    pub current_batch: Option<Batch>,
    pub current_batch_index: usize,
    pub target_columns: Vec<Column>,
}

impl BaseFdwState {
    /// Plan, stream and buffer agree with the projected column list; the
    /// cursor never passes the buffered batch's end.
    pub open spec fn wf(self) -> bool {
        &&& match self.dataframe {
            Some(p) => forall|b: int|
                0 <= b < p.batches@.len() ==> (#[trigger] p.batches@[b]).wf()
                    && p.batches@[b].columns@.len() == self.target_columns@.len(),
            None => true,
        }
        &&& match self.stream {
            Some(st) => st.next_batch <= st.batches@.len() && forall|b: int|
                0 <= b < st.batches@.len() ==> (#[trigger] st.batches@[b]).wf()
                    && st.batches@[b].columns@.len() == self.target_columns@.len(),
            None => true,
        }
        &&& match self.current_batch {
            Some(b) => b.wf() && self.current_batch_index <= b.num_rows && b.columns@.len()
                == self.target_columns@.len(),
            None => true,
        }
    }

    /// The rows this scan has still to serve, in order: the rest of the
    /// buffered batch, then the unserved stream batches; before the stream
    /// opens, the whole plan.
    pub open spec fn spec_remaining_rows(self) -> Seq<Seq<Cell>> {
        (match self.current_batch {
            Some(b) => b.spec_rows().skip(self.current_batch_index as int),
            None => Seq::empty(),
        }) + (match self.stream {
            Some(st) => spec_all_rows(st.batches@.skip(st.next_batch as int)),
            None => match self.dataframe {
                Some(p) => spec_all_rows(p.batches@),
                None => Seq::empty(),
            },
        })
    }

    /// A scan state holding a freshly built plan for these columns and rows:
    /// no stream, no buffer, cursor at zero.  Every field is a function of
    /// the plan alone, so nothing of an earlier scan can leak into it.
    pub open spec fn spec_fresh_scan(self, columns: Seq<Column>, rows: Seq<Seq<Cell>>) -> bool {
        &&& self.stream is None
        &&& self.current_batch is None
        &&& self.current_batch_index == 0
        &&& self.target_columns@.len() == columns.len()
        &&& forall|j: int|
            0 <= j < columns.len() ==> (#[trigger] self.target_columns@[j]).name@
                == columns[j].name@ && self.target_columns@[j].num == columns[j].num
                && self.target_columns@[j].type_oid == columns[j].type_oid
        &&& self.dataframe matches Some(p) && spec_all_rows(p.batches@) =~= rows
        &&& self.spec_remaining_rows() =~= rows
    }

    /// A fresh, idle scan state.
    pub fn new_state() -> (r: Self)
        ensures
            r.wf(),
            r.dataframe is None,
            r.stream is None,
            r.current_batch is None,
            r.current_batch_index == 0,
            r.target_columns@.len() == 0,
            r.spec_remaining_rows() =~= Seq::<Seq<Cell>>::empty(),
    {
        BaseFdwState {
            dataframe: None,
            stream: None,
            current_batch: None,
            current_batch_index: 0,
            target_columns: Vec::new(),
        }
    }

    pub fn get_current_batch(&self) -> (r: Option<&Batch>)
        ensures
            match r {
                Some(b) => self.current_batch == Some(*b),
                None => self.current_batch is None,
            },
    {
        match &self.current_batch {
            Some(b) => Some(b),
            None => None,
        }
    }

    pub fn get_current_batch_index(&self) -> (r: usize)
        ensures
            r == self.current_batch_index,
    {
        self.current_batch_index
    }

    pub fn get_target_columns(&self) -> (r: &Vec<Column>)
        ensures
            *r == self.target_columns,
    {
        &self.target_columns
    }

    pub fn set_current_batch(&mut self, batch: Option<Batch>)
        ensures
            final(self).current_batch == batch,
            final(self).dataframe == old(self).dataframe,
            final(self).stream == old(self).stream,
            final(self).current_batch_index == old(self).current_batch_index,
            final(self).target_columns == old(self).target_columns,
    {
        self.current_batch = batch;
    }

    pub fn set_current_batch_index(&mut self, index: usize)
        ensures
            final(self).current_batch_index == index,
            final(self).dataframe == old(self).dataframe,
            final(self).stream == old(self).stream,
            final(self).current_batch == old(self).current_batch,
            final(self).target_columns == old(self).target_columns,
    {
        self.current_batch_index = index;
    }

    pub fn set_dataframe(&mut self, dataframe: ScanPlan)
        ensures
            final(self).dataframe == Some(dataframe),
            final(self).stream == old(self).stream,
            final(self).current_batch == old(self).current_batch,
            final(self).current_batch_index == old(self).current_batch_index,
            final(self).target_columns == old(self).target_columns,
    {
        self.dataframe = Some(dataframe);
    }

    pub fn set_target_columns(&mut self, columns: &Vec<Column>)
        ensures
            final(self).target_columns@.len() == columns@.len(),
            forall|j: int|
                0 <= j < columns@.len() ==> (#[trigger] final(self).target_columns@[j]).name@
                    == columns@[j].name@ && final(self).target_columns@[j].num == columns@[j].num
                    && final(self).target_columns@[j].type_oid == columns@[j].type_oid,
            final(self).dataframe == old(self).dataframe,
            final(self).stream == old(self).stream,
            final(self).current_batch == old(self).current_batch,
            final(self).current_batch_index == old(self).current_batch_index,
    {
        self.target_columns = columns_copy(columns);
    }

    pub fn clear_stream(&mut self)
        ensures
            final(self).stream is None,
            final(self).dataframe == old(self).dataframe,
            final(self).current_batch == old(self).current_batch,
            final(self).current_batch_index == old(self).current_batch_index,
            final(self).target_columns == old(self).target_columns,
    {
        self.stream = None;
    }

    /// Open the batch stream by executing the built plan; opening an already
    /// open stream is a no-op.  The stream serves exactly the plan's
    /// batches, from the first.
    pub fn create_stream(&mut self) -> (r: Result<(), BaseFdwError>)
        requires
            old(self).wf(),
        ensures
            final(self).wf(),
            final(self).dataframe == old(self).dataframe,
            final(self).current_batch == old(self).current_batch,
            final(self).current_batch_index == old(self).current_batch_index,
            final(self).target_columns == old(self).target_columns,
            old(self).stream matches Some(st) ==> final(self).stream == Some(st) && r is Ok,
            old(self).stream is None && old(self).dataframe is None ==> (r matches Err(e)
                && e is DataFrameNotFound && final(self).stream is None),
            old(self).stream is None && old(self).dataframe is Some ==> r is Ok,
            r is Ok ==> final(self).stream is Some,
            final(self).spec_remaining_rows() =~= old(self).spec_remaining_rows(),
    {
        match &self.stream {
            Some(_) => Ok(()),
            None => {
                match &self.dataframe {
                    Some(plan) => {
                        let nb = plan.batches.len();
                        let mut batches: Vec<Batch> = Vec::new();
                        let mut i: usize = 0;
                        while i < nb
                            invariant
                                self.wf(),
                                self.dataframe matches Some(pl) && pl.batches@.len() == nb
                                    && plan == pl,
                                0 <= i <= nb,
                                batches@.len() == i,
                                forall|b: int|
                                    0 <= b < i ==> (#[trigger] batches@[b]).wf()
                                        && batches@[b].columns@.len()
                                        == self.target_columns@.len() && batches@[b].spec_rows()
                                        == plan.batches@[b].spec_rows(),
                            decreases nb - i,
                        {
                            let b = batch_copy(&plan.batches[i]);
                            proof {
                                assert(b.spec_rows() =~= plan.batches@[i as int].spec_rows());
                            }
                            batches.push(b);
                            i = i + 1;
                        }
                        proof {
                            lemma_all_rows_congruent(batches@, plan.batches@);
                        }
                        let st = BatchStream { batches, next_batch: 0 };
                        proof {
                            assert(st.batches@.skip(0) =~= st.batches@);
                        }
                        self.stream = Some(st);
                        Ok(())
                    },
                    None => Err(BaseFdwError::DataFrameNotFound),
                }
            },
        }
    }

    /// Pull the next batch from the open stream; the stream's end is the end
    /// of the scan, not an error.  Pulling without an open stream is an
    /// internal-invariant error.
    pub fn get_next_batch(&mut self) -> (r: Result<Option<Batch>, BaseFdwError>)
        requires
            old(self).wf(),
        ensures
            final(self).wf(),
            final(self).dataframe == old(self).dataframe,
            final(self).current_batch == old(self).current_batch,
            final(self).current_batch_index == old(self).current_batch_index,
            final(self).target_columns == old(self).target_columns,
            old(self).stream is None ==> (r matches Err(e) && e is StreamNotFound)
                && final(self).stream is None,
            old(self).stream is Some ==> r is Ok,
            match r {
                Ok(Some(b)) => (old(self).stream matches Some(st0) && st0.next_batch
                    < st0.batches@.len() && b.wf() && b.columns@.len()
                    == old(self).target_columns@.len() && b.spec_rows()
                    =~= st0.batches@[st0.next_batch as int].spec_rows()) && (final(self).stream
                    matches Some(st1) && st1.batches@ == (old(self).stream->Some_0).batches@
                    && st1.next_batch == (old(self).stream->Some_0).next_batch + 1),
                Ok(None) => old(self).stream matches Some(st0) && st0.next_batch
                    == st0.batches@.len() && final(self).stream == old(self).stream,
                Err(_) => final(self).stream == old(self).stream,
            },
    {
        match &self.stream {
            Some(st) => {
                if st.next_batch < st.batches.len() {
                    let b = batch_copy(&st.batches[st.next_batch]);
                    proof {
                        assert(b.spec_rows() =~= (self.stream->Some_0).batches@[
                            (self.stream->Some_0).next_batch as int
                        ].spec_rows());
                    }
                    match &mut self.stream {
                        Some(stm) => {
                            stm.next_batch = stm.next_batch + 1;
                        },
                        None => {},
                    }
                    Ok(Some(b))
                } else {
                    Ok(None)
                }
            },
            None => Err(BaseFdwError::StreamNotFound),
        }
    }
}

impl BaseFdwState {
    /// Begin a scan over a resolved provider: build the plan restricted to
    /// the projected columns and bounded by the pushed-down limit, store the
    /// projection, and leave the stream to be opened lazily.  Predicates and
    /// sort hints are advisory pushdown and are not applied here; the caller
    /// re-applies them.  On an error the scan state is left as it was.
    pub fn begin_scan(
        &mut self,
        quals: &Vec<Qual>,
        columns: &Vec<Column>,
        sorts: &Vec<Sort>,
        limit: &Option<Limit>,
        options: &crate::options::OptionMap,
        provider: &TableProvider,
    ) -> (r: Result<(), BaseFdwError>)
        requires
            provider.wf(),
            spec_all_rows(provider.batches@).len() <= u64::MAX,
        ensures
            match r {
                Ok(()) => final(self).wf() && final(self).spec_fresh_scan(
                    columns@,
                    spec_scan_rows(
                        *provider,
                        columns@,
                        match limit {
                            Some(l) => Some(Limit { count: l.count, offset: l.offset }),
                            None => None,
                        },
                    ),
                ),
                Err(e) => *final(self) == *old(self) && e is ColumnNotFound
                    && !spec_columns_in_range(columns@, provider.schema@.len()),
            },
            r is Ok <==> spec_columns_in_range(columns@, provider.schema@.len()),
    {
        let _ = quals;
        let _ = sorts;
        let _ = options;
        let plan = match build_scan_plan(provider, columns, limit) {
            Ok(plan) => plan,
            Err(e) => {
                return Err(e);
            },
        };
        self.target_columns = columns_copy(columns);
        self.dataframe = Some(plan);
        self.stream = None;
        self.current_batch = None;
        self.current_batch_index = 0;
        Ok(())
    }

    /// Serve the next row of the scan, in order.  The stream opens lazily on
    /// the first call; an exhausted scan yields nothing, which ends it
    /// without error.  A value that cannot be converted to its declared
    /// output type aborts the scan.
    pub fn iter_scan(&mut self, row: &mut Row) -> (r: Result<Option<()>, BaseFdwError>)
        requires
            old(self).wf(),
        ensures
            final(self).wf(),
            final(self).target_columns == old(self).target_columns,
            old(self).dataframe is None ==> (r matches Err(e) && e is DataFrameNotFound)
                && *final(self) == *old(self),
            old(self).dataframe is Some ==> match r {
                Ok(Some(_)) => old(self).spec_remaining_rows().len() > 0 && spec_row_convertible(
                    old(self).spec_remaining_rows().first(),
                    old(self).target_columns@,
                ) && final(row).cells@ =~= old(self).spec_remaining_rows().first()
                    && final(row).cols@.len() == old(self).target_columns@.len() && (forall|j: int|
                    0 <= j < old(self).target_columns@.len() ==> (#[trigger] final(row).cols@[j])@
                        == old(self).target_columns@[j].name@) && final(self).spec_remaining_rows()
                    =~= old(self).spec_remaining_rows().drop_first(),
                Ok(None) => old(self).spec_remaining_rows().len() == 0
                    && final(self).spec_remaining_rows().len() == 0,
                Err(e) => e is DataTypeError ==> (old(self).spec_remaining_rows().len() > 0
                    && !spec_row_convertible(
                    old(self).spec_remaining_rows().first(),
                    old(self).target_columns@,
                )),
            },
            old(self).dataframe is Some && old(self).spec_remaining_rows().len() == 0 ==> (r
                matches Ok(o) && o is None),
            old(self).dataframe is Some && old(self).spec_remaining_rows().len() > 0
                && spec_row_convertible(
                old(self).spec_remaining_rows().first(),
                old(self).target_columns@,
            ) ==> (r matches Ok(o) && o is Some),
            old(self).dataframe is Some && old(self).spec_remaining_rows().len() > 0
                && !spec_row_convertible(
                old(self).spec_remaining_rows().first(),
                old(self).target_columns@,
            ) ==> (r matches Err(e) && e is DataTypeError),
    {
        if self.dataframe.is_none() {
            return Err(BaseFdwError::DataFrameNotFound);
        }
        match self.create_stream() {
            Ok(()) => {},
            Err(e) => {
                return Err(e);
            },
        }
        loop
            invariant
                self.wf(),
                self.stream is Some,
                self.dataframe is Some,
                old(self).dataframe is Some,
                self.target_columns == old(self).target_columns,
                self.spec_remaining_rows() =~= old(self).spec_remaining_rows(),
            ensures
                self.wf(),
                self.stream is Some,
                self.dataframe is Some,
                self.target_columns == old(self).target_columns,
                self.spec_remaining_rows() =~= old(self).spec_remaining_rows(),
                self.current_batch matches Some(b) && self.current_batch_index < b.num_rows,
            decreases (match self.stream {
                Some(st) => st.batches@.len() - st.next_batch,
                None => 0,
            }),
        {
            let need_next = match &self.current_batch {
                None => true,
                Some(b) => self.current_batch_index >= b.num_rows,
            };
            if !need_next {
                break;
            }
            proof {
                if self.current_batch is Some {
                    let b = self.current_batch->Some_0;
                    assert(b.spec_rows().skip(self.current_batch_index as int)
                        =~= Seq::<Seq<Cell>>::empty());
                }
            }
            let ghost pre = *self;
            match self.get_next_batch() {
                Ok(Some(b)) => {
                    proof {
                        let st0 = pre.stream->Some_0;
                        lemma_all_rows_skip_unfold(st0.batches@, st0.next_batch as int);
                    }
                    self.current_batch = Some(b);
                    self.current_batch_index = 0;
                    proof {
                        assert(self.spec_remaining_rows() =~= pre.spec_remaining_rows());
                    }
                },
                Ok(None) => {
                    self.current_batch = None;
                    proof {
                        assert(self.spec_remaining_rows() =~= pre.spec_remaining_rows());
                        assert(self.spec_remaining_rows().len() == 0);
                    }
                    return Ok(None);
                },
                Err(e) => {
                    proof {
                        assert(false);
                    }
                    return Err(e);
                },
            }
        }
        let ghost rem = self.spec_remaining_rows();
        let ghost snapshot = *self;
        match &self.current_batch {
            Some(b) => {
                let i = self.current_batch_index;
                proof {
                    assert(i < b.num_rows);
                    assert(rem =~= b.spec_rows().skip(i as int) + (match snapshot.stream {
                        Some(st) => spec_all_rows(st.batches@.skip(st.next_batch as int)),
                        None => Seq::<Seq<Cell>>::empty(),
                    }));
                    assert(b.spec_rows().skip(i as int).first() == b.spec_rows()[i as int]);
                    assert(rem.first() =~= b.spec_row(i as int));
                }
                let cells = b.row_at(i);
                let ncols = self.target_columns.len();
                proof {
                    assert(cells@.len() == ncols);
                }
                row.clear();
                let mut j: usize = 0;
                while j < ncols
                    invariant
                        self.wf(),
                        *self == snapshot,
                        old(self).dataframe is Some,
                        self.target_columns == old(self).target_columns,
                        self.spec_remaining_rows() =~= old(self).spec_remaining_rows(),
                        rem =~= self.spec_remaining_rows(),
                        rem.len() > 0,
                        cells@ =~= rem.first(),
                        ncols == self.target_columns@.len(),
                        cells@.len() == ncols,
                        0 <= j <= ncols,
                        row.cells@ =~= cells@.take(j as int),
                        row.cols@.len() == j,
                        forall|q: int|
                            0 <= q < j ==> (#[trigger] row.cols@[q])@
                                == self.target_columns@[q].name@,
                        forall|q: int|
                            0 <= q < j ==> spec_convert_cell(
                                cells@[q],
                                self.target_columns@[q].type_oid,
                            ) is Some,
                    decreases ncols - j,
                {
                    let target = self.target_columns[j].type_oid;
                    match crate::provider::convert_cell(&cells[j], target) {
                        Some(v) => {
                            row.cells.push(v);
                            row.cols.push(self.target_columns[j].name.clone());
                            proof {
                                assert(row.cells@ =~= cells@.take(j + 1 as int));
                            }
                        },
                        None => {
                            return Err(
                                BaseFdwError::DataTypeError(self.target_columns[j].name.clone()),
                            );
                        },
                    }
                    j = j + 1;
                }
                proof {
                    assert(cells@.take(ncols as int) =~= cells@);
                }
                let i2 = self.current_batch_index;
                self.current_batch_index = i2 + 1;
                proof {
                    let b2 = self.current_batch->Some_0;
                    assert(b2.spec_rows().skip(i2 + 1 as int) =~= b2.spec_rows().skip(
                        i2 as int,
                    ).drop_first());
                    assert(self.spec_remaining_rows() =~= rem.drop_first());
                }
                Ok(Some(()))
            },
            None => {
                proof {
                    assert(false);
                }
                Ok(None)
            },
        }
    }

    /// End the scan: release the stream and the buffered batch and drop the
    /// plan, returning to an idle state that can be begun afresh.
    pub fn end_scan(&mut self) -> (r: Result<(), BaseFdwError>)
        ensures
            r is Ok,
            final(self).wf(),
            final(self).dataframe is None,
            final(self).stream is None,
            final(self).current_batch is None,
            final(self).current_batch_index == 0,
            final(self).target_columns@.len() == 0,
            final(self).spec_remaining_rows() =~= Seq::<Seq<Cell>>::empty(),
    {
        self.dataframe = None;
        self.stream = None;
        self.current_batch = None;
        self.current_batch_index = 0;
        self.target_columns = Vec::new();
        Ok(())
    }

    /// Plan-description pairs; this scan reports none.  Never mutates state.
    pub fn explain(&self) -> (r: Result<Option<Vec<(String, String)>>, BaseFdwError>)
        ensures
            r matches Ok(v) && (v matches Some(pairs) && pairs@.len() == 0),
    {
        Ok(Some(Vec::new()))
    }
}

/// Ending a scan and beginning anew yields a stream independent of the old
/// one: two scans begun with the same columns and plan rows serve exactly
/// the same rows, whatever happened before.
pub proof fn lemma_scan_restart_independent(
    s1: BaseFdwState,
    s2: BaseFdwState,
    columns: Seq<Column>,
    rows: Seq<Seq<Cell>>,
)
    requires
        s1.spec_fresh_scan(columns, rows),
        s2.spec_fresh_scan(columns, rows),
    ensures
        s1.spec_remaining_rows() =~= s2.spec_remaining_rows(),
{
}

/// The identity projection of a provider: every column, in schema order.
pub open spec fn spec_identity_columns(columns: Seq<Column>, width: nat) -> bool {
    columns.len() == width && forall|j: int|
        0 <= j < columns.len() ==> (#[trigger] columns[j]).num == j + 1
}

/// A full scan with no limit serves every row of the provider, in order:
/// what was written into the table's batches is what the scan returns.
pub proof fn lemma_scan_preserves_rows(p: TableProvider, columns: Seq<Column>)
    requires
        p.wf(),
        spec_identity_columns(columns, p.schema@.len()),
    ensures
        spec_scan_rows(p, columns, None) =~= spec_all_rows(p.batches@),
    decreases p.batches@.len(),
{
    let all = spec_all_rows(p.batches@);
    assert forall|i: int| 0 <= i < all.len() implies spec_project_row(all[i], columns) =~= all[i]
        by {
        lemma_all_rows_width(p.batches@, p.schema@.len(), i);
    }
    assert(spec_scan_rows(p, columns, None) =~= all.map_values(
        |r: Seq<Cell>| spec_project_row(r, columns),
    ));
}

/// Writing rows into a table's batches and scanning the resulting table
/// returns exactly those rows, in order, with every value unchanged: the
/// round trip is the identity.
pub proof fn lemma_round_trip(p: TableProvider, columns: Seq<Column>, rows: Seq<Seq<Cell>>)
    requires
        p.wf(),
        spec_identity_columns(columns, p.schema@.len()),
        p.batches@.len() == 1,
        p.batches@[0].spec_rows() == rows,
    ensures
        spec_scan_rows(p, columns, None) =~= rows,
{
    lemma_scan_preserves_rows(p, columns);
    assert(spec_all_rows(p.batches@) =~= rows) by {
        assert(p.batches@.first() == p.batches@[0]);
        assert(p.batches@.drop_first() =~= Seq::<Batch>::empty());
        assert(spec_all_rows(p.batches@.drop_first()) =~= Seq::<Seq<Cell>>::empty());
        assert(spec_all_rows(p.batches@) =~= p.batches@.first().spec_rows() + spec_all_rows(
            p.batches@.drop_first(),
        ));
    }
}

/// Every row of well-formed batches of one width has that width.
pub proof fn lemma_all_rows_width(s: Seq<Batch>, width: nat, i: int)
    requires
        forall|b: int|
            0 <= b < s.len() ==> (#[trigger] s[b]).wf() && s[b].columns@.len() == width,
        0 <= i < spec_all_rows(s).len(),
    ensures
        spec_all_rows(s)[i].len() == width,
    decreases s.len(),
{
    if s.len() > 0 {
        let f = s.first().spec_rows();
        if i < f.len() {
            assert(spec_all_rows(s)[i] == f[i]);
        } else {
            assert forall|b: int|
                0 <= b < s.drop_first().len() implies (#[trigger] s.drop_first()[b]).wf()
                && s.drop_first()[b].columns@.len() == width by {
                assert(s.drop_first()[b] == s[b + 1]);
            }
            lemma_all_rows_width(s.drop_first(), width, i - f.len());
            assert(spec_all_rows(s)[i] == spec_all_rows(s.drop_first())[i - f.len()]);
        }
    }
}

} // verus!
