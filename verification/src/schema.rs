//! The schema coordinator: exactly one worker (index 0) performs the
//! destructive schema setup — drop-if-exists, create, and for SELECT-style
//! workloads bulk seeding in fixed-size chunks — and every worker then blocks
//! on the shared barrier, so no timed iteration starts before setup is
//! complete.

use vstd::prelude::*;

use crate::barrier::Barrier;

verus! {

/// How many rows one seeding statement inserts at most; seeding proceeds in
/// chunks of this size to avoid oversized single statements.
pub const SEED_CHUNK_ROWS: u64 = 1000;

/// How many times more rows are seeded than one SELECT fetches, so that a
/// randomized offset always has enough rows behind it.
pub const TEST_DATA_MULTIPLIER: u64 = 2;

/// Whether this worker is the one that performs schema setup and teardown.
pub open spec fn is_setup_owner(worker_id: int) -> bool {
    worker_id == 0
}

/// Whether this worker performs the destructive schema setup (and the final
/// teardown). Exactly one worker of the pool does.
pub fn performs_setup(worker_id: u32) -> (r: bool)
    ensures
        r == is_setup_owner(worker_id as int),
{
    worker_id == 0
}

/// Whether this worker performs the final teardown — dropping the benchmark
/// table after every worker has finished iterating. The same single owner
/// that performed setup does; teardown is best-effort and relies on the
/// driver to invoke it only after all workers stopped producing iterations.
pub fn performs_teardown(worker_id: u32) -> (r: bool)
    ensures
        r == is_setup_owner(worker_id as int),
{
    worker_id == 0
}

/// In every pool there is exactly one setup owner: worker 0, and no other.
pub proof fn lemma_exactly_one_setup_owner(concurrency: int)
    requires
        concurrency >= 1,
    ensures
        is_setup_owner(0) && 0 < concurrency,
        forall|w1: int, w2: int| is_setup_owner(w1) && is_setup_owner(w2) ==> w1 == w2,
{
}

/// One step of the destructive schema setup.
#[derive(Debug, Clone, Copy, PartialEq, Eq, Structural)]
pub enum DdlStep {
    /// Drop the benchmark table if it exists. Succeeds whether or not the
    /// table exists.
    DropIfExists,
    /// Create the benchmark table. Fails if the table already exists.
    CreateTable,
}

/// Whether one DDL step succeeds against a database where the benchmark
/// table does or does not exist.
pub open spec fn ddl_step_succeeds(table_exists: bool, step: DdlStep) -> bool {
    match step {
        DdlStep::DropIfExists => true,
        DdlStep::CreateTable => !table_exists,
    }
}

/// Whether the benchmark table exists after one successful DDL step.
pub open spec fn ddl_step_result(table_exists: bool, step: DdlStep) -> bool {
    match step {
        DdlStep::DropIfExists => false,
        DdlStep::CreateTable => true,
    }
}

/// Whether the two-step setup sequence (drop-if-exists, then create) runs to
/// completion against a database in the given state.
pub open spec fn setup_ddl_succeeds(table_exists: bool) -> bool {
    &&& ddl_step_succeeds(table_exists, DdlStep::DropIfExists)
    &&& ddl_step_succeeds(ddl_step_result(table_exists, DdlStep::DropIfExists), DdlStep::CreateTable)
}

/// Whether the benchmark table exists after the two-step setup sequence.
pub open spec fn after_setup_ddl(table_exists: bool) -> bool {
    ddl_step_result(ddl_step_result(table_exists, DdlStep::DropIfExists), DdlStep::CreateTable)
}

/// Run one DDL step against a database where the benchmark table does or
/// does not exist: `Some` of the new existence state on success, `None` where
/// the step fails (creating a table that already exists).
pub fn run_ddl_step(table_exists: bool, step: DdlStep) -> (r: Option<bool>)
    ensures
        ddl_step_succeeds(table_exists, step) <==> r is Some,
        ddl_step_succeeds(table_exists, step) ==> r == Some(
            ddl_step_result(table_exists, step),
        ),
{
    match step {
        DdlStep::DropIfExists => Some(false),
        DdlStep::CreateTable => if table_exists {
            None
        } else {
            Some(true)
        },
    }
}

/// The DDL the setup owner issues, in order: drop-if-exists, then create.
pub fn setup_ddl_plan() -> (r: Vec<DdlStep>)
    ensures
        r@ =~= seq![DdlStep::DropIfExists, DdlStep::CreateTable],
{
    let mut r: Vec<DdlStep> = Vec::new();
    r.push(DdlStep::DropIfExists);
    r.push(DdlStep::CreateTable);
    r
}

/// Idempotence of setup: whatever state the database starts in — table
/// present or not — the drop-first sequence succeeds and leaves the table
/// existing; in particular running setup twice in succession never fails
/// due to a pre-existing table.
pub proof fn lemma_setup_idempotent(table_exists: bool)
    ensures
        setup_ddl_succeeds(table_exists),
        after_setup_ddl(table_exists),
        setup_ddl_succeeds(after_setup_ddl(table_exists)),
{
}

/// One chunk of the bulk seeding: rows `[start, start + count)`.
#[derive(Debug, Clone, Copy, PartialEq, Eq, Structural)]
pub struct SeedChunk {
    /// Index of the first row this chunk seeds.
    pub start: u64,
    /// How many rows this chunk seeds; at most `SEED_CHUNK_ROWS`, and at
    /// least one.
    pub count: u64,
}

/// How many rows seeding inserts for a SELECT workload with the given
/// per-iteration row count.
pub fn seed_row_count(select_count: u32) -> (r: u64)
    ensures
        r == TEST_DATA_MULTIPLIER * select_count,
{
    TEST_DATA_MULTIPLIER * (select_count as u64)
}

/// Split the bulk seeding of `total_rows` rows into consecutive fixed-size
/// chunks: every chunk but possibly the last seeds exactly `SEED_CHUNK_ROWS`
/// rows, the chunks tile `[0, total_rows)` in order and leave no gap, and
/// none is empty.
pub fn seed_chunk_plan(total_rows: u64) -> (r: Vec<SeedChunk>)
    ensures
        forall|j: int|
            0 <= j < r@.len() ==> (#[trigger] r@[j]).start == j * SEED_CHUNK_ROWS,
        forall|j: int|
            0 <= j < r@.len() ==> 1 <= (#[trigger] r@[j]).count <= SEED_CHUNK_ROWS,
        forall|j: int|
            0 <= j < r@.len() - 1 ==> (#[trigger] r@[j]).count == SEED_CHUNK_ROWS,
        forall|j: int|
            0 <= j < r@.len() - 1 ==> (#[trigger] r@[j]).start + r@[j].count == r@[j + 1].start,
        r@.len() >= 1 ==> r@[0].start == 0,
        r@.len() >= 1 ==> r@[r@.len() - 1].start + r@[r@.len() - 1].count == total_rows,
        total_rows == 0 ==> r@.len() == 0,
        total_rows >= 1 ==> r@.len() >= 1,
{
    let mut r: Vec<SeedChunk> = Vec::new();
    let mut start: u64 = 0;
    while start < total_rows
        invariant
            start <= total_rows,
            start == r@.len() * SEED_CHUNK_ROWS || (start == total_rows && r@.len() >= 1),
            forall|j: int|
                0 <= j < r@.len() ==> (#[trigger] r@[j]).start == j * SEED_CHUNK_ROWS,
            forall|j: int|
                0 <= j < r@.len() ==> 1 <= (#[trigger] r@[j]).count <= SEED_CHUNK_ROWS,
            forall|j: int|
                0 <= j < r@.len() - 1 ==> (#[trigger] r@[j]).count == SEED_CHUNK_ROWS,
            r@.len() >= 1 ==> r@[r@.len() - 1].start + r@[r@.len() - 1].count == start,
            r@.len() == 0 ==> start == 0,
        decreases total_rows - start,
    {
        let count: u64 = if total_rows - start < SEED_CHUNK_ROWS {
            total_rows - start
        } else {
            SEED_CHUNK_ROWS
        };
        r.push(SeedChunk { start, count });
        start = start + count;
    }
    r
}

/// The coordinator every worker goes through between its (possible) schema
/// setup and its first timed iteration: the shared barrier, plus the facts
/// that setup has completed and that the setup owner has arrived. Because
/// the owner arrives only after its DDL and seeding are done, a released
/// barrier guarantees the benchmark table is in place.
pub struct SchemaCoordinator {
    /// The shared rendezvous barrier, sized to the concurrency level.
    pub barrier: Barrier,
    /// Whether the setup owner has finished its DDL and seeding.
    pub setup_complete: bool,
    /// Whether the setup owner has arrived at the barrier.
    pub owner_arrived: bool,
}

impl SchemaCoordinator {
    /// Well-formedness: the barrier is well-formed, the owner arrives only
    /// after setup completed, and while the owner is missing the barrier
    /// cannot be full.
    pub open spec fn wf(self) -> bool {
        &&& self.barrier.wf()
        &&& (self.owner_arrived ==> self.setup_complete)
        &&& (!self.owner_arrived ==> self.barrier.arrived < self.barrier.size)
    }

    /// Whether every worker has arrived, releasing all of them into their
    /// timed iteration loops.
    pub open spec fn spec_released(self) -> bool {
        self.barrier.spec_released()
    }

    /// A fresh coordinator for a pool of `concurrency` workers.
    pub fn new(concurrency: u32) -> (c: SchemaCoordinator)
        requires
            concurrency >= 1,
        ensures
            c.wf(),
            c.barrier.size == concurrency,
            c.barrier.arrived == 0,
            !c.setup_complete,
            !c.owner_arrived,
    {
        SchemaCoordinator { barrier: Barrier::new(concurrency), setup_complete: false, owner_arrived: false }
    }

    /// The setup owner records that drop, create and seeding all succeeded.
    pub fn record_setup_complete(&mut self)
        requires
            old(self).wf(),
        ensures
            final(self).wf(),
            final(self).setup_complete,
            final(self).owner_arrived == old(self).owner_arrived,
            final(self).barrier == old(self).barrier,
    {
        self.setup_complete = true;
    }

    /// The setup owner arrives at the barrier, after completing setup.
    pub fn owner_arrive(&mut self) -> (released: bool)
        requires
            old(self).wf(),
            old(self).setup_complete,
            !old(self).owner_arrived,
        ensures
            final(self).wf(),
            final(self).setup_complete,
            final(self).owner_arrived,
            final(self).barrier.size == old(self).barrier.size,
            final(self).barrier.arrived == old(self).barrier.arrived + 1,
            released == final(self).spec_released(),
    {
        self.owner_arrived = true;
        self.barrier.arrive()
    }

    /// A worker other than the setup owner arrives at the barrier; it
    /// performed no DDL. While the owner is still missing, at least one slot
    /// must stay free for it.
    pub fn other_arrive(&mut self) -> (released: bool)
        requires
            old(self).wf(),
            old(self).owner_arrived ==> old(self).barrier.arrived < old(self).barrier.size,
            !old(self).owner_arrived ==> old(self).barrier.arrived < old(self).barrier.size - 1,
        ensures
            final(self).wf(),
            final(self).setup_complete == old(self).setup_complete,
            final(self).owner_arrived == old(self).owner_arrived,
            final(self).barrier.size == old(self).barrier.size,
            final(self).barrier.arrived == old(self).barrier.arrived + 1,
            released == final(self).spec_released(),
    {
        self.barrier.arrive()
    }

    /// Barrier correctness: a released coordinator has setup complete, so no
    /// worker entering its timed loop can observe a missing table.
    pub proof fn lemma_released_implies_setup_complete(self)
        requires
            self.wf(),
            self.spec_released(),
        ensures
            self.setup_complete,
            self.owner_arrived,
    {
    }
}

} // verus!
