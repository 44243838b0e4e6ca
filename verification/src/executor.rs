//! Query execution: runs a query string over a connection handle, walks
//! the result set, coerces every cell to a display string, and assembles
//! the tabular result, isolating per-row failures.

use crate::cell::{coerce, coerced, CellValue};
use crate::config::ConnectionConfig;
use crate::driver;
use crate::manager::ConnectionHandle;
use crate::result::{grid_view, row_view, QueryResult};
use vstd::prelude::*;

verus! {

/// What became of one row of the result set: either its cells, or the
/// mark that this one row could not be read from the stream.
pub enum RowData {
    /// The row materialized with these cell values.
    Cells(Vec<CellValue>),
    /// The row could not be read.
    Failed,
}

/// The database rejected the query text (syntax error, permissions, and
/// the like). Recovered locally: execution reports an empty result
/// rather than failing the caller.
pub struct QuerySubmissionError {
    pub message: String,
}

/// The one terminal failure of execution: the connection source it needs
/// could not be built or could not hand out a sub-connection.
pub enum ExecutionError {
    /// The pool could not be built, or no sub-connection could be drawn
    /// from it. Carries the driver's account of the cause.
    ConnectionFailed(String),
}

impl ExecutionError {
    /// The driver's account of the failure.
    pub fn message(&self) -> (m: &String)
        ensures
            *self matches ExecutionError::ConnectionFailed(s) && m@ == s@,
    {
        match self {
            ExecutionError::ConnectionFailed(m) => m,
        }
    }
}

/// The display texts of one materialized row, cell by cell, in order.
pub open spec fn coerced_row(cells: Seq<CellValue>) -> Seq<Seq<char>> {
    cells.map_values(|c: CellValue| coerced(c))
}

/// The grid assembled from a sequence of row outcomes: every materialized
/// row contributes its coerced cells, in the driver's order, and every
/// failed row is skipped. Skipping rather than aborting keeps one bad row
/// from breaking the whole grid, matching how cell coercion already
/// absorbs bad cells.
pub open spec fn assembled(rows: Seq<RowData>) -> Seq<Seq<Seq<char>>>
    decreases rows.len(),
{
    if rows.len() == 0 {
        Seq::empty()
    } else {
        let prefix = assembled(rows.drop_last());
        match rows.last() {
            RowData::Cells(cells) => prefix.push(coerced_row(cells@)),
            RowData::Failed => prefix,
        }
    }
}

/// Law: a result set of no rows assembles to the empty grid, not to an
/// error of any kind.
pub proof fn lemma_assembled_empty()
    ensures
        assembled(Seq::<RowData>::empty()) == Seq::<Seq<Seq<char>>>::empty(),
{
}

/// Law: when every one of N row outcomes materialized, the assembled grid
/// has exactly N entries, in the original order, and entry i holds
/// exactly the coerced cells of row i — so a row of M cells yields an
/// entry of length M.
pub proof fn lemma_assembled_shape(rows: Seq<RowData>)
    requires
        forall|i: int| 0 <= i < rows.len() ==> rows[i] is Cells,
    ensures
        assembled(rows).len() == rows.len(),
        forall|i: int|
            0 <= i < rows.len() ==> assembled(rows)[i] == coerced_row(rows[i]->Cells_0@),
        forall|i: int|
            0 <= i < rows.len() ==> #[trigger] assembled(rows)[i].len() == rows[i]->Cells_0@.len(),
    decreases rows.len(),
{
    if rows.len() > 0 {
        let prefix = rows.drop_last();
        assert forall|i: int| 0 <= i < prefix.len() implies prefix[i] is Cells by {
            assert(prefix[i] == rows[i]);
        }
        lemma_assembled_shape(prefix);
        assert(rows.last() is Cells);
        assert forall|i: int| 0 <= i < rows.len() implies assembled(rows)[i] == coerced_row(
            rows[i]->Cells_0@,
        ) by {
            if i < rows.len() - 1 {
                assert(assembled(rows)[i] == assembled(prefix)[i]);
                assert(prefix[i] == rows[i]);
            }
        }
    }
}

/// Converts one materialized row's cells to their display strings, cell
/// by cell, in order.
pub fn coerce_cells(cells: &Vec<CellValue>) -> (r: Vec<String>)
    ensures
        row_view(r@) == coerced_row(cells@),
{
    let mut out: Vec<String> = Vec::new();
    let mut i: usize = 0;
    while i < cells.len()
        invariant
            i <= cells.len(),
            row_view(out@) =~= coerced_row(cells@.take(i as int)),
        decreases cells.len() - i,
    {
        let c = coerce(&cells[i]);
        let ghost prev = out@;
        out.push(c);
        proof {
            cells@.lemma_map_take_succ(|cv: CellValue| coerced(cv), i as int);
            prev.lemma_push_map_commute(|s: String| s@, c);
            assert(row_view(out@) =~= coerced_row(cells@.take(i + 1)));
        }
        i = i + 1;
    }
    proof {
        assert(cells@.take(cells@.len() as int) =~= cells@);
    }
    out
}

/// Assembles the tabular result from the row outcomes: materialized rows
/// contribute their coerced cells in order, failed rows are skipped.
pub fn assemble_rows(rows: &Vec<RowData>) -> (r: QueryResult)
    ensures
        r@ == assembled(rows@),
{
    let mut grid: Vec<Vec<String>> = Vec::new();
    let mut i: usize = 0;
    while i < rows.len()
        invariant
            i <= rows.len(),
            grid_view(grid@) =~= assembled(rows@.take(i as int)),
        decreases rows.len() - i,
    {
        let ghost prevg = grid@;
        match &rows[i] {
            RowData::Cells(cells) => {
                let srow = coerce_cells(cells);
                grid.push(srow);
                proof {
                    prevg.lemma_push_map_commute(|r: Vec<String>| row_view(r@), srow);
                    assert(grid_view(grid@) =~= grid_view(prevg).push(row_view(srow@)));
                }
            },
            RowData::Failed => {},
        }
        proof {
            assert(rows@.take(i + 1).drop_last() =~= rows@.take(i as int));
            assert(rows@.take(i + 1).last() == rows@[i as int]);
            assert(grid_view(grid@) =~= assembled(rows@.take(i + 1)));
        }
        i = i + 1;
    }
    proof {
        assert(rows@.take(rows@.len() as int) =~= rows@);
    }
    QueryResult { rows: grid }
}

/// The outcome of submitting a query: either its row outcomes, in driver
/// order, or the rejection of the query text itself.
pub enum FetchOutcome {
    /// The query was accepted; one outcome per produced row.
    Rows(Vec<RowData>),
    /// The query text was rejected.
    Rejected(QuerySubmissionError),
}

/// Settles a fetch outcome into the tabular result the caller sees: the
/// assembled grid where the query was accepted, and the empty grid — not
/// an error — where the query text was rejected, so the caller stays
/// responsive after a bad query. The result is built from the outcome
/// alone; nothing of any earlier result survives into it.
pub fn assemble_outcome(outcome: &FetchOutcome) -> (r: QueryResult)
    ensures
        outcome matches FetchOutcome::Rows(rows) ==> r@ == assembled(rows@),
        outcome matches FetchOutcome::Rejected(_) ==> r@ == Seq::<Seq<Seq<char>>>::empty(),
{
    match outcome {
        FetchOutcome::Rows(rows) => assemble_rows(rows),
        FetchOutcome::Rejected(_) => QueryResult::empty(),
    }
}

/// Decodes the native column values of one freshly fetched row, left to
/// right, one cell per entry. An entry the driver could not hand out is
/// kept as an undecodable cell, so the row never fails past this point.
fn decode_cells(vals: Vec<Option<mysql::Value>>) -> (r: Vec<CellValue>)
    ensures
        r@.len() == vals@.len(),
        forall|i: int| 0 <= i < vals@.len() && vals@[i] is None ==> r@[i] is Undecodable,
{
    let ghost original = vals@;
    let mut vals = vals;
    let mut out: Vec<CellValue> = Vec::new();
    proof {
        assert(vals@ =~= original.skip(0));
    }
    while vals.len() > 0
        invariant
            out@.len() + vals@.len() == original.len(),
            vals@ =~= original.skip(out@.len() as int),
            forall|i: int| 0 <= i < out@.len() && original[i] is None ==> out@[i] is Undecodable,
        decreases vals.len(),
    {
        let ghost k = out@.len() as int;
        let item = vals.remove(0);
        proof {
            assert(item == original.skip(k)[0]);
            assert(item == original[k]);
            assert(vals@ =~= original.skip(k + 1));
        }
        match item {
            Some(v) => out.push(driver::decode_value(v)),
            None => out.push(CellValue::Undecodable),
        }
    }
    out
}

/// Turns the driver's per-row results into row outcomes, one for one and
/// in order: a row that materialized keeps its decoded cells, a row that
/// could not be read is marked failed, with a warning logged so the skip
/// stays observable.
fn rows_to_cells(raw: Vec<Result<mysql::Row, mysql::Error>>) -> (r: Vec<RowData>)
    ensures
        r@.len() == raw@.len(),
        forall|i: int| 0 <= i < raw@.len() ==> ((raw@[i] is Ok) <==> (r@[i] is Cells)),
{
    let ghost original = raw@;
    let mut raw = raw;
    let mut out: Vec<RowData> = Vec::new();
    proof {
        assert(raw@ =~= original.skip(0));
    }
    while raw.len() > 0
        invariant
            out@.len() + raw@.len() == original.len(),
            raw@ =~= original.skip(out@.len() as int),
            forall|i: int| 0 <= i < out@.len() ==> ((original[i] is Ok) <==> (out@[i] is Cells)),
        decreases raw.len(),
    {
        let ghost k = out@.len() as int;
        let item = raw.remove(0);
        proof {
            assert(item == original.skip(k)[0]);
            assert(item == original[k]);
            assert(raw@ =~= original.skip(k + 1));
        }
        match item {
            Ok(row) => {
                let vals = driver::row_values(row);
                let cells = decode_cells(vals);
                out.push(RowData::Cells(cells));
            },
            Err(_) => {
                driver::emit_status("Failed to read a row; it was skipped.");
                out.push(RowData::Failed);
            },
        }
    }
    out
}

/// Runs one query over an existing connection handle: draws one
/// sub-connection, submits the query text verbatim, materializes the
/// rows, coerces every cell, and assembles the grid. The sub-connection
/// is released exactly once, before this function returns, on every
/// path. A rejected query yields the empty grid; only failure to draw a
/// sub-connection is terminal.
pub fn execute_on(handle: &ConnectionHandle, query: &String) -> (r: Result<
    QueryResult,
    ExecutionError,
>)
    ensures
        r matches Ok(qr) ==> exists|rows: Seq<RowData>| qr@ == assembled(rows),
{
    let conn = match driver::pool_get_conn(handle.pool()) {
        Ok(conn) => conn,
        Err(e) => {
            driver::emit_status("Failed to get connection.");
            return Err(ExecutionError::ConnectionFailed(driver::error_text(&e)));
        },
    };
    let outcome = match driver::fetch_rows(conn, query) {
        Ok(raw) => {
            driver::emit_status("Query executed successfully.");
            FetchOutcome::Rows(rows_to_cells(raw))
        },
        Err(e) => {
            let msg = driver::error_text(&e);
            driver::emit_status("Failed to execute query.");
            driver::emit_status(msg.as_str());
            FetchOutcome::Rejected(QuerySubmissionError { message: msg })
        },
    };
    let qr = assemble_outcome(&outcome);
    proof {
        match outcome {
            FetchOutcome::Rows(rows) => {
                assert(qr@ == assembled(rows@));
            },
            FetchOutcome::Rejected(_) => {
                assert(qr@ == assembled(Seq::<RowData>::empty()));
            },
        }
    }
    Ok(qr)
}

/// Runs one query from the raw credentials alone: rebuilds a connection
/// handle from the configuration, then executes over it. Failure to
/// build the pool is the one terminal case, reported as a typed error
/// rather than aborting.
pub fn execute(config: &ConnectionConfig, query: &String) -> (r: Result<
    QueryResult,
    ExecutionError,
>)
    ensures
        r matches Ok(qr) ==> exists|rows: Seq<RowData>| qr@ == assembled(rows),
{
    let opts = driver::opts_from_config(config);
    match driver::pool_new(opts) {
        Ok(pool) => execute_on(&ConnectionHandle::from_pool(pool, Ghost(config.creds())), query),
        Err(e) => {
            driver::emit_status("Failed to create pool.");
            Err(ExecutionError::ConnectionFailed(driver::error_text(&e)))
        },
    }
}

} // verus!
