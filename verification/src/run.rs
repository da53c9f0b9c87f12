//! The whole run, composed: the pool of worker lifecycles around the one
//! shared schema coordinator.
//!
//! Every transition a driver can take preserves the run's well-formedness,
//! and well-formedness carries the run-wide guarantee: a worker standing in
//! its timed iteration loop implies the schema setup completed — no worker
//! can observe a missing table during a timed iteration.

use vstd::prelude::*;

use crate::lifecycle::spec_step;
use crate::lifecycle::step;
use crate::lifecycle::WorkerEvent;
use crate::lifecycle::WorkerPhase;
use crate::schema::SchemaCoordinator;

verus! {

/// Whether a phase lies past the rendezvous: reachable only by observing the
/// barrier release.
pub open spec fn is_past_barrier(p: WorkerPhase) -> bool {
    ||| p == WorkerPhase::Iterating
    ||| p == WorkerPhase::TearingDown
    ||| p == WorkerPhase::Finished
}

/// The state of one whole benchmark run: the shared coordinator and the
/// phase of each worker of the pool.
pub struct BenchRun {
    /// The shared schema coordinator with its rendezvous barrier.
    pub coordinator: SchemaCoordinator,
    /// The lifecycle phase of each worker, indexed by worker id.
    pub phases: Vec<WorkerPhase>,
}

impl BenchRun {
    /// Well-formedness of a reachable run state: the coordinator is
    /// well-formed, there is one phase per party of the barrier, and any
    /// worker past the rendezvous certifies that setup completed.
    pub open spec fn wf(self) -> bool {
        &&& self.coordinator.wf()
        &&& self.phases@.len() == self.coordinator.barrier.size
        &&& (forall|w: int|
            0 <= w < self.phases@.len() && is_past_barrier(#[trigger] self.phases@[w])
                ==> self.coordinator.setup_complete)
    }

    /// A fresh run: every worker connecting, nothing set up, nobody at the
    /// barrier.
    pub fn new(concurrency: u32) -> (run: BenchRun)
        requires
            concurrency >= 1,
        ensures
            run.wf(),
            run.phases@.len() == concurrency as int,
            forall|w: int|
                0 <= w < concurrency as int ==> run.phases@[w] == WorkerPhase::Connecting,
            !run.coordinator.setup_complete,
    {
        let coordinator = SchemaCoordinator::new(concurrency);
        let mut phases: Vec<WorkerPhase> = Vec::new();
        let mut i: u32 = 0;
        while i < concurrency
            invariant
                i <= concurrency,
                phases@.len() == i as int,
                forall|w: int| 0 <= w < i as int ==> phases@[w] == WorkerPhase::Connecting,
            decreases concurrency - i,
        {
            phases.push(WorkerPhase::Connecting);
            i = i + 1;
        }
        BenchRun { coordinator, phases }
    }

    /// One worker observes any lifecycle event other than the barrier
    /// release — connecting, setup outcomes, iterations, stop, teardown. No
    /// such event can carry a worker past the rendezvous that was not
    /// already there, so the run stays well-formed.
    pub fn worker_event(&mut self, w: usize, event: WorkerEvent)
        requires
            old(self).wf(),
            w < old(self).phases@.len(),
            event != WorkerEvent::BarrierReleased,
        ensures
            final(self).wf(),
            final(self).coordinator == old(self).coordinator,
            final(self).phases@ == old(self).phases@.update(
                w as int,
                spec_step(old(self).phases@[w as int], event),
            ),
    {
        let next = step(self.phases[w], event);
        self.phases.set(w, next);
    }

    /// The setup owner records that its DDL and seeding succeeded.
    pub fn setup_complete(&mut self)
        requires
            old(self).wf(),
        ensures
            final(self).wf(),
            final(self).coordinator.setup_complete,
            final(self).coordinator.barrier == old(self).coordinator.barrier,
            final(self).coordinator.owner_arrived == old(self).coordinator.owner_arrived,
            final(self).phases == old(self).phases,
    {
        self.coordinator.record_setup_complete();
    }

    /// The setup owner arrives at the barrier, its setup done.
    pub fn owner_arrive(&mut self) -> (released: bool)
        requires
            old(self).wf(),
            old(self).coordinator.setup_complete,
            !old(self).coordinator.owner_arrived,
        ensures
            final(self).wf(),
            final(self).coordinator.barrier.arrived == old(self).coordinator.barrier.arrived + 1,
            final(self).coordinator.barrier.size == old(self).coordinator.barrier.size,
            final(self).coordinator.setup_complete,
            final(self).coordinator.owner_arrived,
            released == final(self).coordinator.spec_released(),
            final(self).phases == old(self).phases,
    {
        self.coordinator.owner_arrive()
    }

    /// A worker other than the setup owner arrives at the barrier.
    pub fn other_arrive(&mut self) -> (released: bool)
        requires
            old(self).wf(),
            old(self).coordinator.owner_arrived ==> old(self).coordinator.barrier.arrived < old(
                self,
            ).coordinator.barrier.size,
            !old(self).coordinator.owner_arrived ==> old(self).coordinator.barrier.arrived < old(
                self,
            ).coordinator.barrier.size - 1,
        ensures
            final(self).wf(),
            final(self).coordinator.barrier.arrived == old(self).coordinator.barrier.arrived + 1,
            final(self).coordinator.barrier.size == old(self).coordinator.barrier.size,
            final(self).coordinator.setup_complete == old(self).coordinator.setup_complete,
            final(self).coordinator.owner_arrived == old(self).coordinator.owner_arrived,
            released == final(self).coordinator.spec_released(),
            final(self).phases == old(self).phases,
    {
        self.coordinator.other_arrive()
    }

    /// A worker waiting at the barrier wakes: only a released barrier lets
    /// it through, and a released barrier certifies completed setup, so the
    /// worker enters its timed loop with the table in place.
    pub fn observe_release(&mut self, w: usize)
        requires
            old(self).wf(),
            w < old(self).phases@.len(),
            old(self).phases@[w as int] == WorkerPhase::AwaitingBarrier,
            old(self).coordinator.spec_released(),
        ensures
            final(self).wf(),
            final(self).coordinator == old(self).coordinator,
            final(self).phases@ == old(self).phases@.update(
                w as int,
                WorkerPhase::Iterating,
            ),
    {
        proof {
            self.coordinator.lemma_released_implies_setup_complete();
        }
        self.phases.set(w, WorkerPhase::Iterating);
    }

    /// The run-wide guarantee: in every reachable run state, a worker
    /// standing in its timed iteration loop implies the schema setup
    /// completed.
    pub proof fn lemma_no_timed_iteration_before_setup(self, w: int)
        requires
            self.wf(),
            0 <= w < self.phases@.len(),
            self.phases@[w] == WorkerPhase::Iterating,
        ensures
            self.coordinator.setup_complete,
    {
    }
}

} // verus!
