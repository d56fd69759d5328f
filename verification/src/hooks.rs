//! The query-interception and translation layer.
//!
//! Each statement is screened before native execution: only a pure read that
//! references at least one relation of the federated kind is parsed into a
//! columnar logical plan, and a plan that turns out to be a write or a
//! utility statement is never executed here.  An eligible plan is executed
//! against the cached execution context, its batches are collected eagerly,
//! and every row is converted and sent to the destination receiver in
//! order; any recoverable failure routes the statement back to native
//! execution with a diagnostic warning.

use vstd::prelude::*;

use crate::batch::{spec_all_rows, Batch, Cell};
use crate::provider::{spec_convert_cell, PgAttribute};
use crate::registry::ContextError;
use crate::scan::{build_scan_plan, spec_scan_rows, Column, Limit};
use crate::session::Session;

verus! {

/// The host's classification of a statement's operation.
#[derive(Clone, Copy, PartialEq, Eq, Structural)]
pub enum CmdType {
    Select,
    Insert,
    Update,
    Delete,
    Utility,
}

/// Whether the statement's relations all belong to this library's federated
/// table kind, as classified by the host-side screen.
#[derive(Clone, Copy, PartialEq, Eq, Structural)]
pub enum QueryType {
    DataFusion,
    Native,
}

/// The shape of a parsed columnar logical plan.
#[derive(Clone, Copy, PartialEq, Eq, Structural)]
pub enum PlanKind {
    Ddl,
    Dml,
    Explain,
    Analyze,
    Query,
}

/// A parsed columnar logical plan over one federated table: its kind, and
/// the read it describes.
pub struct LogicalPlan {
    pub kind: PlanKind,
    pub schema_name: String,
    pub table_oid: u32,
    pub projection: Vec<Column>,
    pub limit: Option<Limit>,
}

/// What the executor hook learns about a statement before deciding.
pub struct StatementDesc {
    pub has_range_table: bool,
    pub operation: CmdType,
    pub query_type: QueryType,
    pub query_text: String,
}

/// Whether the statement text begins with `copy`, in any letter case: such
/// statements pass through to native execution.
pub open spec fn spec_starts_with_copy(s: Seq<char>) -> bool {
    s.len() >= 4 && (s[0] == 'c' || s[0] == 'C') && (s[1] == 'o' || s[1] == 'O') && (s[2] == 'p'
        || s[2] == 'P') && (s[3] == 'y' || s[3] == 'Y')
}

/// Decide whether the statement text begins with `copy`, ignoring letter
/// case.
pub fn query_is_copy(text: &String) -> (r: bool)
    ensures
        r == spec_starts_with_copy(text@),
{
    let s = text.as_str();
    let n = s.unicode_len();
    if n < 4 {
        return false;
    }
    let c0 = s.get_char(0);
    let c1 = s.get_char(1);
    let c2 = s.get_char(2);
    let c3 = s.get_char(3);
    (c0 == 'c' || c0 == 'C') && (c1 == 'o' || c1 == 'O') && (c2 == 'p' || c2 == 'P') && (c3 == 'y'
        || c3 == 'Y')
}

/// The eligibility screen that runs before any parsing: the statement must
/// reference at least one relation, be a plain select of the federated
/// kind, and not be a bulk-copy operation.
pub open spec fn spec_should_intercept(d: StatementDesc) -> bool {
    d.has_range_table && d.operation == CmdType::Select && d.query_type == QueryType::DataFusion
        && !spec_starts_with_copy(d.query_text@)
}

/// A plan whose shape is a write or a utility statement must never be
/// executed through the columnar engine, whatever its surface syntax.
pub open spec fn spec_plan_blocked(kind: PlanKind) -> bool {
    kind == PlanKind::Ddl || kind == PlanKind::Dml || kind == PlanKind::Explain || kind
        == PlanKind::Analyze
}

/// The text of the diagnostic attached to a recoverable fallback: the
/// triggering error text framed by an explanation and a pointer at the
/// issue tracker.
pub open spec fn spec_fallback_warning(msg: Seq<char>) -> Seq<char> {
    "This query was not fully pushed down because the columnar engine returned an error: "@ + msg
        + ". Query times may be impacted. Please submit a request at https://github.com/paradedb/paradedb/issues if you would like to see this query pushed down."@
}

/// The diagnostic attached to a recoverable fallback; it carries the
/// triggering error text and points at the issue tracker.
pub fn fallback_warning(msg: &String) -> (r: String)
    ensures
        r@ == spec_fallback_warning(msg@),
{
    String::from_str(
        "This query was not fully pushed down because the columnar engine returned an error: ",
    ).concat(msg.as_str()).concat(
        ". Query times may be impacted. Please submit a request at https://github.com/paradedb/paradedb/issues if you would like to see this query pushed down.",
    )
}

/// Failures of the executor hook that are fatal to the current statement.
#[derive(Debug)]
pub enum ExecutorHookError {
    Context(ContextError),
    DataType(String),
    AttributeNotFound(usize),
    RShutdownNotFound,
    ReceiveSlotNotFound,
    RStartupNotFound,
}

/// The destination receiver of a statement's output tuples, as the host
/// hands it to the hook: which callbacks it carries, and what has been sent
/// through it.
pub struct TupleDest {
    pub has_startup: bool,
    pub has_receive: bool,
    pub has_shutdown: bool,
    pub started: bool,
    pub shut_down: bool,
    pub received: Vec<Vec<Cell>>,
    pub processed: u64,
}

impl TupleDest {
    pub fn new(has_startup: bool, has_receive: bool, has_shutdown: bool) -> (r: Self)
        ensures
            r.has_startup == has_startup,
            r.has_receive == has_receive,
            r.has_shutdown == has_shutdown,
            !r.started,
            !r.shut_down,
            r.received@.len() == 0,
            r.processed == 0,
    {
        TupleDest {
            has_startup,
            has_receive,
            has_shutdown,
            started: false,
            shut_down: false,
            received: Vec::new(),
            processed: 0,
        }
    }
}

/// One row converted cell by cell to the declared attribute types; `None`
/// when any cell cannot be converted.
pub open spec fn spec_convert_row(row: Seq<Cell>, attrs: Seq<PgAttribute>) -> Option<Seq<Cell>> {
    if forall|j: int|
        0 <= j < attrs.len() ==> spec_convert_cell(#[trigger] row[j], attrs[j].type_oid)
            is Some {
        Some(Seq::new(attrs.len(), |j: int| spec_convert_cell(row[j], attrs[j].type_oid)->0))
    } else {
        None
    }
}

/// A converted row carries its values unchanged when the row has exactly
/// one cell per attribute: conversion checks types, it never rewrites
/// values.
pub proof fn lemma_convert_row_identity(row: Seq<Cell>, attrs: Seq<PgAttribute>)
    requires
        row.len() == attrs.len(),
        spec_convert_row(row, attrs) is Some,
    ensures
        spec_convert_row(row, attrs) == Some(row),
{
    let out = spec_convert_row(row, attrs)->0;
    assert forall|j: int| 0 <= j < row.len() implies out[j] == row[j] by {
        crate::provider::lemma_convert_cell_identity(row[j], attrs[j].type_oid);
    }
    assert(out =~= row);
}

/// Execute an eligible logical plan against the cached execution context
/// and collect all resulting batches eagerly.  The same plan against the
/// same session yields the same batches: execution is a function of the
/// session's resolved tables.
pub fn get_datafusion_batches(session: &Session, plan: &LogicalPlan) -> (r: Result<
    Vec<Batch>,
    ContextError,
>)
    requires
        session.wf(),
    ensures
        match r {
            Ok(batches) => session.spec_provider_at(plan.schema_name@, plan.table_oid) matches
                Some(p) && spec_all_rows(batches@) =~= spec_scan_rows(
                p,
                plan.projection@,
                match plan.limit {
                    Some(l) => Some(Limit { count: l.count, offset: l.offset }),
                    None => None,
                },
            ),
            Err(e) => e is TableNotFound || e is ObjectStore,
        },
        r matches Ok(batches) ==> spec_all_rows(batches@).len() <= u64::MAX,
        r matches Ok(batches) ==> (forall|b: int|
            0 <= b < batches@.len() ==> (#[trigger] batches@[b]).wf()
                && batches@[b].columns@.len() == plan.projection@.len()),
        session.spec_provider_at(plan.schema_name@, plan.table_oid) is None ==> (r matches Err(e)
            && (e matches ContextError::TableNotFound(t) && t@ == plan.schema_name@)),
        r matches Err(e) && e is TableNotFound ==> session.spec_provider_at(
            plan.schema_name@,
            plan.table_oid,
        ) is None,
        session.spec_provider_at(plan.schema_name@, plan.table_oid) matches Some(p) && (
        spec_all_rows(p.batches@).len() <= u64::MAX && crate::scan::spec_columns_in_range(
            plan.projection@,
            p.schema@.len(),
        )) ==> r is Ok,
{
    let provider = match session.table_provider(&plan.schema_name, plan.table_oid) {
        Some(p) => p,
        None => {
            return Err(ContextError::TableNotFound(plan.schema_name.clone()));
        },
    };
    proof {
        assert(session.spec_provider_at(plan.schema_name@, plan.table_oid) == Some(*provider));
    }
    if !rows_fit(provider) {
        return Err(
            ContextError::ObjectStore(String::from_str("table is too large to collect")),
        );
    }
    match build_scan_plan(provider, &plan.projection, &plan.limit) {
        Ok(sp) => {
            proof {
                assert(spec_all_rows(sp.batches@).len() <= spec_all_rows(
                    provider.batches@,
                ).len()) by {
                    let all = spec_all_rows(provider.batches@).map_values(
                        |r: Seq<Cell>| crate::scan::spec_project_row(r, plan.projection@),
                    );
                    assert(all.len() == spec_all_rows(provider.batches@).len());
                }
            }
            Ok(sp.batches)
        },
        Err(_) => Err(
            ContextError::ObjectStore(
                String::from_str("projected column is outside the table schema"),
            ),
        ),
    }
}

/// Decide whether the provider's total row count fits the scan bound.
fn rows_fit(p: &crate::provider::TableProvider) -> (r: bool)
    requires
        p.wf(),
    ensures
        r == (spec_all_rows(p.batches@).len() <= u64::MAX),
{
    let nb = p.batches.len();
    let mut total: u64 = 0;
    let mut i: usize = 0;
    while i < nb
        invariant
            nb == p.batches@.len(),
            p.wf(),
            0 <= i <= nb,
            total as int == spec_all_rows(p.batches@.take(i as int)).len(),
        decreases nb - i,
    {
        proof {
            assert(p.batches@.take(i + 1 as int) =~= p.batches@.take(i as int).push(
                p.batches@[i as int],
            ));
            crate::scan::lemma_all_rows_push(p.batches@.take(i as int), p.batches@[i as int]);
        }
        let nr = p.batches[i].row_count() as u64;
        if nr > u64::MAX - total {
            proof {
                lemma_all_rows_prefix_len(p.batches@, i + 1 as int);
            }
            return false;
        }
        total = total + nr;
        i = i + 1;
    }
    proof {
        assert(p.batches@.take(nb as int) =~= p.batches@);
    }
    true
}

/// A prefix of the batches holds at most as many rows as the whole.
proof fn lemma_all_rows_prefix_len(s: Seq<Batch>, i: int)
    requires
        0 <= i <= s.len(),
    ensures
        spec_all_rows(s.take(i)).len() <= spec_all_rows(s).len(),
{
    crate::scan::lemma_all_rows_split(s, i);
}

/// All rows converted row by row; `None` when any row fails.
pub open spec fn spec_convert_all(rows: Seq<Seq<Cell>>, attrs: Seq<PgAttribute>) -> Option<
    Seq<Seq<Cell>>,
> {
    if forall|i: int| 0 <= i < rows.len() ==> spec_convert_row(#[trigger] rows[i], attrs) is Some {
        Some(Seq::new(rows.len(), |i: int| spec_convert_row(rows[i], attrs)->0))
    } else {
        None
    }
}

/// Converting the output of a read rewrites no value: when every row has
/// one cell per attribute and converts, the rows sent are exactly the rows
/// produced, in order.
pub proof fn lemma_translation_transparency(rows: Seq<Seq<Cell>>, attrs: Seq<PgAttribute>)
    requires
        forall|i: int| 0 <= i < rows.len() ==> (#[trigger] rows[i]).len() == attrs.len(),
        spec_convert_all(rows, attrs) is Some,
    ensures
        spec_convert_all(rows, attrs) == Some(rows),
{
    let out = spec_convert_all(rows, attrs)->0;
    assert forall|i: int| 0 <= i < rows.len() implies out[i] == rows[i] by {
        lemma_convert_row_identity(rows[i], attrs);
    }
    assert(out =~= rows);
}

/// Whether every batch is well formed and wide enough for the attribute
/// list.
pub open spec fn spec_batches_wide_enough(batches: Seq<Batch>, width: nat) -> bool {
    forall|b: int|
        0 <= b < batches.len() ==> (#[trigger] batches[b]).wf() && batches[b].columns@.len()
            >= width
}

/// Convert the collected batches to output tuples and send them to the
/// destination receiver: startup first, then every row of every batch in
/// production order, then shutdown.  The row count sent equals the total
/// rows across all batches; a conversion failure for any row aborts the
/// whole statement.  A missing receiver callback is an internal-invariant
/// error.
#[verifier::loop_isolation(false)]
pub fn write_batches_to_slots(
    dest: &mut TupleDest,
    attrs: &Vec<PgAttribute>,
    batches: &Vec<Batch>,
) -> (r: Result<(), ExecutorHookError>)
    requires
        spec_all_rows(batches@).len() <= u64::MAX,
    ensures
        final(dest).has_startup == old(dest).has_startup,
        final(dest).has_receive == old(dest).has_receive,
        final(dest).has_shutdown == old(dest).has_shutdown,
        !old(dest).has_startup ==> (r matches Err(e) && e is RStartupNotFound) && *final(dest)
            == *old(dest),
        r is Ok <==> (old(dest).has_startup && old(dest).has_receive && old(dest).has_shutdown
            && spec_batches_wide_enough(batches@, attrs@.len()) && spec_convert_all(
            spec_all_rows(batches@),
            attrs@,
        ) is Some),
        r is Ok ==> final(dest).started && final(dest).shut_down && Some(final(dest).received@
            .map_values(|v: Vec<Cell>| v@)) == spec_convert_all(spec_all_rows(batches@), attrs@)
            && final(dest).processed as int == spec_all_rows(batches@).len(),
        old(dest).has_startup && !old(dest).has_receive ==> (r matches Err(e)
            && e is ReceiveSlotNotFound),
        old(dest).has_startup && old(dest).has_receive && spec_batches_wide_enough(
            batches@,
            attrs@.len(),
        ) && spec_convert_all(spec_all_rows(batches@), attrs@) is Some && !old(
            dest,
        ).has_shutdown ==> (r matches Err(e) && e is RShutdownNotFound),
        r matches Err(e) && e is AttributeNotFound ==> !spec_batches_wide_enough(
            batches@,
            attrs@.len(),
        ),
        r matches Err(e) && e is DataType ==> spec_convert_all(spec_all_rows(batches@), attrs@)
            is None,
{
    if !dest.has_startup {
        return Err(ExecutorHookError::RStartupNotFound);
    }
    dest.received = Vec::new();
    dest.processed = 0;
    dest.started = true;
    dest.shut_down = false;
    if !dest.has_receive {
        return Err(ExecutorHookError::ReceiveSlotNotFound);
    }
    let nattrs = attrs.len();
    let nb = batches.len();
    let ghost all = spec_all_rows(batches@);
    let mut bi: usize = 0;
    while bi < nb
        invariant
            nb == batches@.len(),
            nattrs == attrs@.len(),
            all == spec_all_rows(batches@),
            all.len() <= u64::MAX,
            dest.has_startup,
            dest.has_receive,
            old(dest).has_startup,
            old(dest).has_receive,
            dest.started,
            !dest.shut_down,
            dest.has_shutdown == old(dest).has_shutdown,
            0 <= bi <= nb,
            dest.processed as int == spec_all_rows(batches@.take(bi as int)).len(),
            dest.received@.len() == dest.processed,
            forall|q: int|
                0 <= q < dest.processed ==> spec_convert_row(
                    spec_all_rows(batches@.take(bi as int))[q],
                    attrs@,
                ) == Some((#[trigger] dest.received@[q])@),
            forall|b: int|
                0 <= b < bi ==> (#[trigger] batches@[b]).wf() && batches@[b].columns@.len()
                    >= nattrs,
        decreases nb - bi,
    {
        let b = &batches[bi];
        if attrs.len() > b.columns.len() {
            proof {
                assert(!spec_batches_wide_enough(batches@, attrs@.len())) by {
                    if spec_batches_wide_enough(batches@, attrs@.len()) {
                        assert(batches@[bi as int].columns@.len() >= attrs@.len());
                    }
                }
            }
            return Err(ExecutorHookError::AttributeNotFound(b.columns.len()));
        }
        if !batch_is_wf(b) {
            proof {
                assert(!spec_batches_wide_enough(batches@, attrs@.len())) by {
                    if spec_batches_wide_enough(batches@, attrs@.len()) {
                        assert(batches@[bi as int].wf());
                    }
                }
            }
            return Err(ExecutorHookError::AttributeNotFound(0));
        }
        let nrows = b.row_count();
        proof {
            assert(batches@.take(bi + 1 as int) =~= batches@.take(bi as int).push(
                batches@[bi as int],
            ));
            crate::scan::lemma_all_rows_push(batches@.take(bi as int), batches@[bi as int]);
            crate::scan::lemma_all_rows_split(batches@, bi + 1 as int);
        }
        let mut ri: usize = 0;
        while ri < nrows
            invariant
                nb == batches@.len(),
                nattrs == attrs@.len(),
                all == spec_all_rows(batches@),
                all.len() <= u64::MAX,
                dest.has_startup,
                dest.has_receive,
                old(dest).has_startup,
                old(dest).has_receive,
                dest.started,
                !dest.shut_down,
                dest.has_shutdown == old(dest).has_shutdown,
                0 <= bi < nb,
                b == &batches@[bi as int],
                b.wf(),
                b.columns@.len() >= nattrs,
                nrows == b.num_rows,
                0 <= ri <= nrows,
                spec_all_rows(batches@.take(bi + 1 as int)) =~= spec_all_rows(
                    batches@.take(bi as int),
                ) + b.spec_rows(),
                spec_all_rows(batches@.take(bi + 1 as int)).len() <= all.len(),
                dest.processed as int == spec_all_rows(batches@.take(bi as int)).len() + ri,
                dest.received@.len() == dest.processed,
                forall|q: int|
                    0 <= q < dest.processed ==> spec_convert_row(
                        spec_all_rows(batches@.take(bi + 1 as int))[q],
                        attrs@,
                    ) == Some((#[trigger] dest.received@[q])@),
            decreases nrows - ri,
        {
            let cells = b.row_at(ri);
            let mut out: Vec<Cell> = Vec::new();
            let mut j: usize = 0;
            while j < nattrs
                invariant
                    nattrs == attrs@.len(),
                    b.wf(),
                    b.columns@.len() >= nattrs,
                    ri < b.num_rows,
                    cells@ =~= b.spec_row(ri as int),
                    cells@.len() == b.columns@.len(),
                    0 <= j <= nattrs,
                    out@.len() == j,
                    forall|q: int|
                        0 <= q < j ==> spec_convert_cell(cells@[q], attrs@[q].type_oid) == Some(
                            #[trigger] out@[q],
                        ),
                decreases nattrs - j,
            {
                match crate::provider::convert_cell(&cells[j], attrs[j].type_oid) {
                    Some(v) => {
                        out.push(v);
                    },
                    None => {
                        proof {
                            let idx = dest.processed as int;
                            assert(spec_all_rows(batches@.take(bi + 1 as int))[idx]
                                =~= b.spec_row(ri as int));
                            crate::scan::lemma_all_rows_split(batches@, bi + 1 as int);
                            assert(all[idx] =~= cells@);
                            assert(spec_convert_row(all[idx], attrs@) is None) by {
                                assert(spec_convert_cell(all[idx][j as int], attrs@[j as int].type_oid)
                                    is None);
                            }
                            assert(spec_convert_all(all, attrs@) is None) by {
                                if spec_convert_all(all, attrs@) is Some {
                                    assert(spec_convert_row(all[idx], attrs@) is Some);
                                }
                            }
                        }
                        return Err(ExecutorHookError::DataType(attrs[j].name.clone()));
                    },
                }
                j = j + 1;
            }
            proof {
                assert forall|q: int| 0 <= q < attrs@.len() implies spec_convert_cell(
                    #[trigger] cells@[q],
                    attrs@[q].type_oid,
                ) is Some by {
                    assert(spec_convert_cell(cells@[q], attrs@[q].type_oid) == Some(out@[q]));
                }
                assert(spec_convert_row(cells@, attrs@) == Some(out@)) by {
                    let conv = spec_convert_row(cells@, attrs@)->0;
                    assert(conv =~= out@);
                }
            }
            let ghost prev = dest.received@;
            dest.received.push(out);
            dest.processed = dest.processed + 1;
            proof {
                assert(spec_all_rows(batches@.take(bi + 1 as int))[dest.processed - 1]
                    =~= b.spec_row(ri as int));
                assert forall|q: int| 0 <= q < dest.processed implies spec_convert_row(
                    spec_all_rows(batches@.take(bi + 1 as int))[q],
                    attrs@,
                ) == Some((#[trigger] dest.received@[q])@) by {
                    if q < dest.processed - 1 {
                        assert(dest.received@[q] == prev[q]);
                    }
                }
            }
            ri = ri + 1;
        }
        proof {
            assert(dest.processed as int == spec_all_rows(batches@.take(bi + 1 as int)).len());
            assert forall|q: int| 0 <= q < dest.processed implies spec_convert_row(
                spec_all_rows(batches@.take(bi + 1 as int))[q],
                attrs@,
            ) == Some((#[trigger] dest.received@[q])@) by {}
        }
        bi = bi + 1;
    }
    if !dest.has_shutdown {
        return Err(ExecutorHookError::RShutdownNotFound);
    }
    dest.shut_down = true;
    proof {
        assert(batches@.take(nb as int) =~= batches@);
        assert forall|i: int| 0 <= i < all.len() implies spec_convert_row(
            #[trigger] all[i],
            attrs@,
        ) is Some by {
            assert(spec_convert_row(all[i], attrs@) == Some(dest.received@[i]@));
        }
        assert(spec_convert_all(all, attrs@) == Some(dest.received@.map_values(
            |v: Vec<Cell>| v@,
        ))) by {
            let conv = spec_convert_all(all, attrs@)->0;
            assert(conv =~= dest.received@.map_values(|v: Vec<Cell>| v@));
        }
    }
    Ok(())
}

/// Decide well-formedness of one batch.
fn batch_is_wf(b: &Batch) -> (r: bool)
    ensures
        r == b.wf(),
{
    let ncols = b.columns.len();
    let mut j: usize = 0;
    while j < ncols
        invariant
            ncols == b.columns@.len(),
            0 <= j <= ncols,
            forall|q: int|
                0 <= q < j ==> (#[trigger] b.columns@[q]).values@.len() == b.num_rows && forall|
                    i: int,
                |
                    0 <= i < b.num_rows ==> crate::batch::spec_cell_fits(
                        b.columns@[q].values@[i],
                        b.columns@[q].col_type,
                    ),
        decreases ncols - j,
    {
        if b.columns[j].values.len() != b.num_rows {
            proof {
                assert(!b.wf()) by {
                    if b.wf() {
                        assert(b.columns@[j as int].values@.len() == b.num_rows);
                    }
                }
            }
            return false;
        }
        let n = b.columns[j].values.len();
        let mut i: usize = 0;
        while i < n
            invariant
                ncols == b.columns@.len(),
                0 <= j < ncols,
                n == b.columns@[j as int].values@.len(),
                n == b.num_rows,
                0 <= i <= n,
                forall|q: int|
                    0 <= q < i ==> crate::batch::spec_cell_fits(
                        b.columns@[j as int].values@[q],
                        b.columns@[j as int].col_type,
                    ),
            decreases n - i,
        {
            if !cell_fits(&b.columns[j].values[i], b.columns[j].col_type) {
                proof {
                    assert(!b.wf()) by {
                        if b.wf() {
                            assert(crate::batch::spec_cell_fits(
                                b.columns@[j as int].values@[i as int],
                                b.columns@[j as int].col_type,
                            ));
                        }
                    }
                }
                return false;
            }
            i = i + 1;
        }
        j = j + 1;
    }
    true
}

/// Decide whether a cell fits a column type.
fn cell_fits(c: &Cell, t: crate::batch::ColType) -> (r: bool)
    ensures
        r == crate::batch::spec_cell_fits(*c, t),
{
    match c {
        Cell::Null => true,
        Cell::Bool(_) => t == crate::batch::ColType::Bool,
        Cell::I16(_) => t == crate::batch::ColType::Int16,
        Cell::I32(_) => t == crate::batch::ColType::Int32,
        Cell::I64(_) => t == crate::batch::ColType::Int64,
        Cell::Text(_) => t == crate::batch::ColType::Utf8,
        Cell::Date(_) => t == crate::batch::ColType::Date32,
        Cell::Timestamp(_) => t == crate::batch::ColType::TimestampMicros,
        Cell::Decimal(_, s) => t == crate::batch::ColType::Decimal(*s),
    }
}

/// What the executor hook decided for one statement: run it natively, run
/// it natively after emitting a diagnostic warning, or fully handled with
/// the given number of rows sent.  Exactly one of the destination receiver
/// and the fallback path sees the statement.
pub enum HookOutcome {
    Native,
    NativeWithWarning(String),
    Handled(u64),
}

/// Intercept one statement before native execution.
///
/// The statement is handled here only when the eligibility screen passes,
/// parsing succeeded, and the parsed plan is a pure read; then the plan is
/// executed against the cached context, and all its rows are converted and
/// sent to the destination receiver, in production order.  Every other
/// outcome routes the statement to native execution, with a warning
/// carrying the error text when parsing or execution failed.  Only a broken
/// receiver or a failed row conversion is fatal.
pub fn executor_run(
    desc: &StatementDesc,
    parsed: &Result<LogicalPlan, String>,
    session: &Session,
    attrs: &Vec<PgAttribute>,
    dest: &mut TupleDest,
) -> (r: Result<HookOutcome, ExecutorHookError>)
    requires
        session.wf(),
    ensures
        !spec_should_intercept(*desc) ==> (r matches Ok(o) && o is Native
            && *final(dest) == *old(dest)),
        spec_should_intercept(*desc) ==> match parsed {
            Err(msg) => (r matches Ok(o) && (o matches HookOutcome::NativeWithWarning(w) && w@
                == spec_fallback_warning(msg@))) && *final(dest) == *old(dest),
            Ok(plan) => spec_plan_blocked(plan.kind) ==> (r matches Ok(o) && o is Native
                && *final(dest) == *old(dest)),
        },
        r matches Ok(o) && o is Native ==> *final(dest) == *old(dest),
        r matches Ok(o) && o is NativeWithWarning ==> *final(dest) == *old(dest),
        spec_should_intercept(*desc) ==> (parsed matches Ok(plan) ==> (!spec_plan_blocked(
            plan.kind,
        ) && session.spec_provider_at(plan.schema_name@, plan.table_oid) is None ==> (r matches
            Ok(o) && (o matches HookOutcome::NativeWithWarning(w) && w@ == spec_fallback_warning(
            "table not found: "@ + plan.schema_name@,
        ))))),
        spec_should_intercept(*desc) ==> (parsed matches Ok(plan) ==> (!spec_plan_blocked(
            plan.kind,
        ) && (session.spec_provider_at(plan.schema_name@, plan.table_oid) matches Some(p) && (
        spec_all_rows(p.batches@).len() <= u64::MAX && crate::scan::spec_columns_in_range(
            plan.projection@,
            p.schema@.len(),
        ) && attrs@.len() <= plan.projection@.len() && old(dest).has_startup && old(
            dest,
        ).has_receive && old(dest).has_shutdown && spec_convert_all(
            spec_scan_rows(
                p,
                plan.projection@,
                match plan.limit {
                    Some(l) => Some(Limit { count: l.count, offset: l.offset }),
                    None => None,
                },
            ),
            attrs@,
        ) is Some)) ==> (r matches Ok(o) && o is Handled))),
        r matches Ok(o) ==> (o matches HookOutcome::Handled(n) ==> (spec_should_intercept(*desc)
            && (parsed matches Ok(plan) && !spec_plan_blocked(plan.kind) && (
            session.spec_provider_at(plan.schema_name@, plan.table_oid) matches Some(p) && Some(
                final(dest).received@.map_values(|v: Vec<Cell>| v@),
            ) == spec_convert_all(
                spec_scan_rows(
                    p,
                    plan.projection@,
                    match plan.limit {
                        Some(l) => Some(Limit { count: l.count, offset: l.offset }),
                        None => None,
                    },
                ),
                attrs@,
            ))) && n == final(dest).processed && final(dest).started && final(dest).shut_down)),
{
    let should = desc.has_range_table && (match desc.operation {
        CmdType::Select => true,
        _ => false,
    }) && (match desc.query_type {
        QueryType::DataFusion => true,
        QueryType::Native => false,
    }) && !query_is_copy(&desc.query_text);
    if !should {
        return Ok(HookOutcome::Native);
    }
    let plan = match parsed {
        Ok(plan) => plan,
        Err(msg) => {
            return Ok(HookOutcome::NativeWithWarning(fallback_warning(msg)));
        },
    };
    match plan.kind {
        PlanKind::Ddl | PlanKind::Dml | PlanKind::Explain | PlanKind::Analyze => {
            return Ok(HookOutcome::Native);
        },
        PlanKind::Query => {},
    }
    let batches = match get_datafusion_batches(session, plan) {
        Ok(batches) => batches,
        Err(e) => {
            return Ok(HookOutcome::NativeWithWarning(fallback_warning(&e.message())));
        },
    };
    match write_batches_to_slots(dest, attrs, &batches) {
        Ok(()) => Ok(HookOutcome::Handled(dest.processed)),
        Err(e) => Err(e),
    }
}

} // verus!
