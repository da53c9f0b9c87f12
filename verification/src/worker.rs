//! Per-worker state and the key-partitioning scheme.
//!
//! Each worker owns a monotonically increasing sequence counter and derives
//! the synthetic row counters of its next batch from it. The sequence numbers
//! of distinct workers are partitioned round-robin (`worker_id + batch_index
//! * concurrency`), so the counter ranges of any two workers' batches never
//! overlap — without any shared counter or client-side lock.

use vstd::prelude::*;

verus! {

/// The globally unique sequence number of one worker's `batch_index`-th batch.
pub open spec fn batch_seq(worker_id: int, batch_index: int, concurrency: int) -> int {
    worker_id + batch_index * concurrency
}

/// The base row counter of one worker's `batch_index`-th batch: the batch
/// covers counters `[base, base + batch_size)`.
pub open spec fn batch_base(
    worker_id: int,
    batch_index: int,
    concurrency: int,
    batch_size: int,
) -> int {
    batch_seq(worker_id, batch_index, concurrency) * batch_size
}

/// Distinct workers never produce the same batch sequence number, whatever
/// their batch indices.
pub proof fn lemma_batch_seqs_distinct(w1: int, n1: int, w2: int, n2: int, conc: int)
    requires
        0 <= w1 < conc,
        0 <= w2 < conc,
        w1 != w2,
        0 <= n1,
        0 <= n2,
    ensures
        batch_seq(w1, n1, conc) != batch_seq(w2, n2, conc),
{
    if batch_seq(w1, n1, conc) == batch_seq(w2, n2, conc) {
        assert(n1 != n2);
        if n1 < n2 {
            assert((n2 - n1) * conc == n2 * conc - n1 * conc) by (nonlinear_arith);
            assert((n2 - n1) * conc >= conc) by (nonlinear_arith)
                requires n2 - n1 >= 1 && conc >= 0;
            assert(false);
        } else {
            assert((n1 - n2) * conc == n1 * conc - n2 * conc) by (nonlinear_arith);
            assert((n1 - n2) * conc >= conc) by (nonlinear_arith)
                requires n1 - n2 >= 1 && conc >= 0;
            assert(false);
        }
    }
}

/// Collision freedom of the partitioning scheme: a row counter that lies in
/// one worker's batch range never lies in a batch range of a different
/// worker, for any pair of batch indices.
pub proof fn lemma_batch_ranges_disjoint(
    w1: int,
    n1: int,
    w2: int,
    n2: int,
    conc: int,
    bs: int,
    k: int,
)
    requires
        0 <= w1 < conc,
        0 <= w2 < conc,
        w1 != w2,
        0 <= n1,
        0 <= n2,
        bs >= 1,
        batch_base(w1, n1, conc, bs) <= k < batch_base(w1, n1, conc, bs) + bs,
    ensures
        !(batch_base(w2, n2, conc, bs) <= k < batch_base(w2, n2, conc, bs) + bs),
{
    let s1 = batch_seq(w1, n1, conc);
    let s2 = batch_seq(w2, n2, conc);
    lemma_batch_seqs_distinct(w1, n1, w2, n2, conc);
    if s1 < s2 {
        assert((s1 + 1) * bs <= s2 * bs) by (nonlinear_arith)
            requires s1 + 1 <= s2 && bs >= 1;
        assert((s1 + 1) * bs == s1 * bs + bs) by (nonlinear_arith);
    } else {
        assert((s2 + 1) * bs <= s1 * bs) by (nonlinear_arith)
            requires s2 + 1 <= s1 && bs >= 1;
        assert((s2 + 1) * bs == s2 * bs + bs) by (nonlinear_arith);
    }
}

/// One synthetic row of an INSERT batch: the unique counter (interpolated
/// into the variable-length `data` column) and the derived numeric column.
#[derive(Debug, Clone, Copy, PartialEq, Eq, Structural)]
pub struct InsertRow {
    /// The unique row counter; the `data` column carries it verbatim.
    pub counter: u64,
    /// The numeric column: the counter reduced modulo 1000.
    pub value: u64,
}

/// The private, never-shared state of one worker: its index, the size of the
/// worker pool, and how many batches it has completed. The live database
/// connection that accompanies it is owned by the driver.
pub struct WorkerState {
    /// This worker's index, below `concurrency`.
    pub worker_id: u32,
    /// The configured concurrency level of the run.
    pub concurrency: u32,
    /// How many batches this worker has completed.
    pub batches_done: u64,
}

impl WorkerState {
    /// Well-formedness: the worker index lies inside the pool.
    pub open spec fn wf(self) -> bool {
        &&& self.concurrency >= 1
        &&& self.worker_id < self.concurrency
    }

    /// The sequence number of this worker's next batch.
    pub open spec fn spec_seq(self) -> int {
        batch_seq(self.worker_id as int, self.batches_done as int, self.concurrency as int)
    }

    /// The base row counter of this worker's next batch.
    pub open spec fn spec_base(self, batch_size: int) -> int {
        batch_base(
            self.worker_id as int,
            self.batches_done as int,
            self.concurrency as int,
            batch_size,
        )
    }

    /// A fresh worker state with its counter at zero.
    pub fn new(worker_id: u32, concurrency: u32) -> (s: WorkerState)
        requires
            1 <= concurrency,
            worker_id < concurrency,
        ensures
            s.wf(),
            s.worker_id == worker_id,
            s.concurrency == concurrency,
            s.batches_done == 0,
    {
        WorkerState { worker_id, concurrency, batches_done: 0 }
    }

    /// The base row counter of the next batch.
    pub fn batch_base(&self, batch_size: u32) -> (base: u64)
        requires
            self.wf(),
            batch_size >= 1,
            (self.spec_seq() + 1) * batch_size <= u64::MAX,
        ensures
            base == self.spec_base(batch_size as int),
            base + batch_size <= u64::MAX,
    {
        let ghost s = self.spec_seq();
        let ghost bs = batch_size as int;
        proof {
            assert(s <= s * bs && s * bs + bs == (s + 1) * bs) by (nonlinear_arith)
                requires s >= 0 && bs >= 1;
        }
        let seq_no: u64 = (self.worker_id as u64) + self.batches_done * (self.concurrency as u64);
        proof {
            assert(seq_no * bs == s * bs) by (nonlinear_arith)
                requires seq_no == s;
        }
        seq_no * (batch_size as u64)
    }

    /// Build the next batch of synthetic rows: `batch_size` rows whose
    /// counters are consecutive from the batch base, each with its derived
    /// numeric column. Does not advance the counter; the counter advances
    /// only after the batch succeeds.
    pub fn plan_insert_batch(&self, batch_size: u32) -> (rows: Vec<InsertRow>)
        requires
            self.wf(),
            batch_size >= 1,
            (self.spec_seq() + 1) * batch_size <= u64::MAX,
        ensures
            rows@.len() == batch_size as int,
            forall|i: int|
                0 <= i < batch_size as int ==> (#[trigger] rows@[i]).counter == self.spec_base(
                    batch_size as int,
                ) + i,
            forall|i: int|
                0 <= i < batch_size as int ==> (#[trigger] rows@[i]).value == rows@[i].counter
                    % 1000,
    {
        let base = self.batch_base(batch_size);
        let mut rows: Vec<InsertRow> = Vec::new();
        let mut i: u32 = 0;
        while i < batch_size
            invariant
                0 <= i <= batch_size,
                base == self.spec_base(batch_size as int),
                base + batch_size <= u64::MAX,
                rows@.len() == i as int,
                forall|j: int|
                    0 <= j < i as int ==> (#[trigger] rows@[j]).counter == base + j,
                forall|j: int|
                    0 <= j < i as int ==> (#[trigger] rows@[j]).value == rows@[j].counter % 1000,
            decreases batch_size - i,
        {
            let counter: u64 = base + (i as u64);
            rows.push(InsertRow { counter, value: counter % 1000 });
            i = i + 1;
        }
        rows
    }

    /// Advance the counter past one completed batch.
    pub fn advance_batch(&mut self)
        requires
            old(self).wf(),
            old(self).batches_done < u64::MAX,
        ensures
            final(self).wf(),
            final(self).worker_id == old(self).worker_id,
            final(self).concurrency == old(self).concurrency,
            final(self).batches_done == old(self).batches_done + 1,
    {
        self.batches_done = self.batches_done + 1;
    }
}

/// Collision freedom at the level of two live workers: whatever batches the
/// two have completed, no row counter of one worker's next planned batch
/// equals a row counter of the other's, provided they belong to the same
/// pool and differ in index.
pub proof fn lemma_planned_counters_distinct(
    s1: WorkerState,
    s2: WorkerState,
    batch_size: int,
    i: int,
    j: int,
)
    requires
        s1.wf(),
        s2.wf(),
        s1.concurrency == s2.concurrency,
        s1.worker_id != s2.worker_id,
        batch_size >= 1,
        0 <= i < batch_size,
        0 <= j < batch_size,
    ensures
        s1.spec_base(batch_size) + i != s2.spec_base(batch_size) + j,
{
    lemma_batch_ranges_disjoint(
        s1.worker_id as int,
        s1.batches_done as int,
        s2.worker_id as int,
        s2.batches_done as int,
        s1.concurrency as int,
        batch_size,
        s1.spec_base(batch_size) + i,
    );
}

/// The per-worker counter is monotone: each completed batch strictly raises
/// the base counter of the next batch.
pub proof fn lemma_batch_base_monotone(w: int, n: int, conc: int, bs: int)
    requires
        0 <= w < conc,
        0 <= n,
        bs >= 1,
    ensures
        batch_base(w, n, conc, bs) + bs <= batch_base(w, n + 1, conc, bs),
{
    assert((w + n * conc) * bs + bs <= (w + (n + 1) * conc) * bs) by (nonlinear_arith)
        requires 0 <= w && 0 <= n && conc >= 1 && bs >= 1;
}

} // verus!
