//! The iteration executor: one timed unit of benchmark work per call,
//! reported as an immutable `IterationReport`.
//!
//! The driver measures the wall clock, performs the database round trip, and
//! hands the outcome back; the functions here decide what the outcome means —
//! which errors become a failed report and which terminate the worker — and
//! compute the payload estimate and item count of the report.

use vstd::prelude::*;

use crate::errors::BenchError;
use crate::tx_mode::TxMode;
use crate::worker::WorkerState;

verus! {

/// Estimated payload bytes of one inserted row: a 50-byte estimate for the
/// variable-length `data` column plus 4 bytes for the numeric column. A
/// deliberate heuristic, not wire-exact accounting.
pub const INSERT_ROW_BYTES: u64 = 50 + 4;

/// Size in bytes of the fixed-width BIGINT `id` column, as the SELECT byte
/// estimate counts it.
pub const BIGINT_SIZE: u64 = 8;

/// One per-iteration report, handed to the external aggregator as soon as
/// the iteration completes.
#[derive(Debug, Clone, Copy, PartialEq, Eq, Structural)]
pub struct IterationReport {
    /// Wall-clock duration of the unit of work, in nanoseconds, commit
    /// included when the mode wraps the unit in an explicit transaction.
    pub duration_nanos: u64,
    /// Zero on success; otherwise the status code of the error class.
    pub status: u32,
    /// Estimated payload size in bytes.
    pub bytes: u64,
    /// Rows affected or fetched.
    pub items: u64,
}

impl IterationReport {
    /// Whether the iteration succeeded.
    pub open spec fn is_success(self) -> bool {
        self.status == 0
    }
}

/// How one wrapped unit of work against the database ended.
#[derive(Debug, Clone, Copy, PartialEq, Eq, Structural)]
pub enum UnitOutcome {
    /// The statement (and its commit, when wrapped) went through.
    Committed,
    /// The transaction failed to commit — a write conflict, say. A
    /// per-iteration failure, not fatal to the worker.
    Conflict,
    /// The connection itself broke. Fatal: the worker terminates.
    ConnectionLost,
}

/// One row fetched by a SELECT iteration.
pub struct SelectRow {
    /// The fixed-width key column.
    pub id: i64,
    /// The variable-length text column.
    pub data: String,
}

/// How one wrapped SELECT unit against the database ended.
pub enum SelectOutcome {
    /// The query (and its commit, when wrapped) went through and returned
    /// these rows.
    Returned(Vec<SelectRow>),
    /// The transaction failed to commit. A per-iteration failure.
    Conflict,
    /// The connection itself broke. Fatal: the worker terminates.
    ConnectionLost,
}

/// The estimated payload of fetched rows: for each row, the fixed BIGINT
/// width plus the length of its variable-length field. An estimate, not
/// wire-exact accounting.
pub open spec fn select_bytes_of(rows: Seq<SelectRow>) -> nat
    decreases rows.len(),
{
    if rows.len() == 0 {
        0
    } else {
        select_bytes_of(rows.drop_last()) + (BIGINT_SIZE as nat) + rows.last().data@.len()
    }
}

proof fn lemma_select_bytes_step(rows: Seq<SelectRow>, i: int)
    requires
        0 <= i < rows.len(),
    ensures
        select_bytes_of(rows.take(i + 1)) == select_bytes_of(rows.take(i)) + BIGINT_SIZE
            + rows[i].data@.len(),
{
    assert(rows.take(i + 1).drop_last() =~= rows.take(i));
    assert(rows.take(i + 1).last() == rows[i]);
}

proof fn lemma_select_bytes_prefix_le(rows: Seq<SelectRow>, i: int)
    requires
        0 <= i <= rows.len(),
    ensures
        select_bytes_of(rows.take(i)) <= select_bytes_of(rows),
    decreases rows.len() - i,
{
    if i == rows.len() {
        assert(rows.take(i) =~= rows);
    } else {
        lemma_select_bytes_step(rows, i);
        lemma_select_bytes_prefix_le(rows, i + 1);
    }
}

/// Sum the payload estimate of fetched rows.
pub fn estimate_select_bytes(rows: &Vec<SelectRow>) -> (b: u64)
    requires
        select_bytes_of(rows@) <= u64::MAX,
    ensures
        b == select_bytes_of(rows@),
{
    let mut b: u64 = 0;
    let mut i: usize = 0;
    proof {
        assert(rows@.take(0) =~= Seq::<SelectRow>::empty());
    }
    while i < rows.len()
        invariant
            0 <= i <= rows@.len(),
            select_bytes_of(rows@) <= u64::MAX,
            b == select_bytes_of(rows@.take(i as int)),
        decreases rows@.len() - i,
    {
        proof {
            lemma_select_bytes_step(rows@, i as int);
            lemma_select_bytes_prefix_le(rows@, i as int + 1);
        }
        let len: usize = rows[i].data.as_str().unicode_len();
        b = b + BIGINT_SIZE + (len as u64);
        i = i + 1;
    }
    proof {
        assert(rows@.take(rows@.len() as int) =~= rows@);
    }
    b
}

/// A success report: status zero, with the measured duration and the given
/// payload estimate and item count.
pub fn success_report(duration_nanos: u64, bytes: u64, items: u64) -> (r: IterationReport)
    ensures
        r.is_success(),
        r.duration_nanos == duration_nanos,
        r.bytes == bytes,
        r.items == items,
{
    IterationReport { duration_nanos, status: 0, bytes, items }
}

/// A failed report: the error class's non-zero status code, with nothing
/// transferred.
pub fn failed_report(duration_nanos: u64, err: BenchError) -> (r: IterationReport)
    ensures
        !r.is_success(),
        r.status == err.spec_status_code(),
        r.duration_nanos == duration_nanos,
        r.bytes == 0,
        r.items == 0,
{
    IterationReport { duration_nanos, status: err.status_code(), bytes: 0, items: 0 }
}

/// What an INSERT iteration returns to the driver for a given outcome of the
/// wrapped unit of work: a report for outcomes the run continues past, the
/// fatal error class for a broken connection.
pub open spec fn spec_insert_result(
    outcome: UnitOutcome,
    batch_size: u32,
    duration_nanos: u64,
) -> Result<IterationReport, BenchError> {
    match outcome {
        UnitOutcome::Committed => Ok(
            IterationReport {
                duration_nanos,
                status: 0,
                bytes: (batch_size * INSERT_ROW_BYTES) as u64,
                items: batch_size as u64,
            },
        ),
        UnitOutcome::Conflict => Ok(
            IterationReport {
                duration_nanos,
                status: BenchError::TransactionError.spec_status_code(),
                bytes: 0,
                items: 0,
            },
        ),
        UnitOutcome::ConnectionLost => Err(BenchError::ConnectionError),
    }
}

/// Close one INSERT iteration: on success the report counts the configured
/// batch size and the per-row payload estimate, and the worker's counter
/// advances past the batch; a commit conflict becomes a failed report and
/// leaves the counter alone, so the next iteration reuses the same keys; a
/// broken connection is fatal.
pub fn finish_insert_iteration(
    state: &mut WorkerState,
    batch_size: u32,
    outcome: UnitOutcome,
    duration_nanos: u64,
) -> (r: Result<IterationReport, BenchError>)
    requires
        old(state).wf(),
        old(state).batches_done < u64::MAX,
    ensures
        final(state).wf(),
        final(state).worker_id == old(state).worker_id,
        final(state).concurrency == old(state).concurrency,
        r == spec_insert_result(outcome, batch_size, duration_nanos),
        outcome == UnitOutcome::Committed ==> final(state).batches_done == old(
            state,
        ).batches_done + 1,
        outcome != UnitOutcome::Committed ==> final(state).batches_done == old(
            state,
        ).batches_done,
{
    match outcome {
        UnitOutcome::Committed => {
            state.advance_batch();
            let bytes: u64 = (batch_size as u64) * INSERT_ROW_BYTES;
            Ok(success_report(duration_nanos, bytes, batch_size as u64))
        },
        UnitOutcome::Conflict => Ok(failed_report(duration_nanos, BenchError::TransactionError)),
        UnitOutcome::ConnectionLost => Err(BenchError::ConnectionError),
    }
}

/// What a SELECT iteration returns to the driver for a given outcome: on
/// success the report counts the configured select size and the summed
/// payload estimate of the fetched rows.
pub open spec fn spec_select_result(
    outcome: SelectOutcome,
    select_count: u32,
    duration_nanos: u64,
) -> Result<IterationReport, BenchError> {
    match outcome {
        SelectOutcome::Returned(rows) => Ok(
            IterationReport {
                duration_nanos,
                status: 0,
                bytes: select_bytes_of(rows@) as u64,
                items: select_count as u64,
            },
        ),
        SelectOutcome::Conflict => Ok(
            IterationReport {
                duration_nanos,
                status: BenchError::TransactionError.spec_status_code(),
                bytes: 0,
                items: 0,
            },
        ),
        SelectOutcome::ConnectionLost => Err(BenchError::ConnectionError),
    }
}

/// Close one SELECT iteration: a returned row set becomes a success report
/// with the configured item count and the estimated payload; a commit
/// conflict becomes a failed report; a broken connection is fatal.
pub fn finish_select_iteration(
    select_count: u32,
    outcome: &SelectOutcome,
    duration_nanos: u64,
) -> (r: Result<IterationReport, BenchError>)
    requires
        outcome matches SelectOutcome::Returned(rows) ==> select_bytes_of(rows@) <= u64::MAX,
    ensures
        r == spec_select_result(*outcome, select_count, duration_nanos),
{
    match outcome {
        SelectOutcome::Returned(rows) => {
            let bytes = estimate_select_bytes(rows);
            Ok(success_report(duration_nanos, bytes, select_count as u64))
        },
        SelectOutcome::Conflict => Ok(failed_report(duration_nanos, BenchError::TransactionError)),
        SelectOutcome::ConnectionLost => Err(BenchError::ConnectionError),
    }
}

/// Law: a successful iteration yields a success report whose item count is
/// the configured batch or select size — under each of the three transaction
/// modes. The modes differ only in how the unit of work was wrapped, which
/// the outcome already reflects, so the report is the same for all of them.
pub proof fn lemma_success_uniform_across_modes(
    mode: TxMode,
    batch_size: u32,
    select_count: u32,
    outcome: SelectOutcome,
    duration_nanos: u64,
)
    requires
        outcome is Returned,
    ensures
        spec_insert_result(UnitOutcome::Committed, batch_size, duration_nanos) matches Ok(rep)
            && rep.is_success() && rep.items == batch_size,
        spec_select_result(outcome, select_count, duration_nanos) matches Ok(rep)
            && rep.is_success() && rep.items == select_count,
{
}

/// The randomized SELECT offset, drawn from the raw entropy the driver
/// supplies: always within `[0, total_rows - select_count]`, so a SELECT of
/// `select_count` rows starting there never runs short of seeded rows.
pub open spec fn spec_select_offset(raw: u64, total_rows: u64, select_count: u64) -> int
    recommends
        1 <= select_count <= total_rows,
{
    raw as int % (total_rows - select_count + 1)
}

/// Reduce a raw uniform draw to a SELECT offset within
/// `[0, total_rows - select_count]`.
pub fn select_offset(raw: u64, total_rows: u64, select_count: u64) -> (off: u64)
    requires
        1 <= select_count <= total_rows,
    ensures
        off == spec_select_offset(raw, total_rows, select_count),
        off + select_count <= total_rows,
{
    let span: u64 = total_rows - select_count + 1;
    raw % span
}

/// How many rows a LIMIT/OFFSET query returns against a table of
/// `total_rows` rows.
pub open spec fn spec_rows_returned(total_rows: int, offset: int, limit: int) -> int
    recommends
        0 <= total_rows,
        0 <= offset,
        0 <= limit,
{
    if offset >= total_rows {
        0
    } else if total_rows - offset < limit {
        total_rows - offset
    } else {
        limit
    }
}

/// How many rows a LIMIT/OFFSET query returns against a table of
/// `total_rows` rows, absent concurrent deletion.
pub fn rows_returned(total_rows: u64, offset: u64, limit: u64) -> (r: u64)
    ensures
        r == spec_rows_returned(total_rows as int, offset as int, limit as int),
{
    if offset >= total_rows {
        0
    } else if total_rows - offset < limit {
        total_rows - offset
    } else {
        limit
    }
}

/// Law: an offset drawn by `select_offset` never produces fewer than the
/// requested rows — absent concurrent deletion, the SELECT returns exactly
/// `select_count` rows.
pub proof fn lemma_offset_never_starves(raw: u64, total_rows: u64, select_count: u64)
    requires
        1 <= select_count <= total_rows,
    ensures
        spec_rows_returned(
            total_rows as int,
            spec_select_offset(raw, total_rows, select_count),
            select_count as int,
        ) == select_count,
{
}

} // verus!
