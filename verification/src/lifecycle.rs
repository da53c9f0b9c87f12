//! The worker lifecycle: connect → one-time schema setup behind the barrier
//! → repeated timed iterations → coordinated teardown.
//!
//! The lifecycle is a state machine from phase and event to the next phase.
//! The driver performs the outside work a phase calls for — connecting,
//! issuing DDL, awaiting the barrier, running one timed unit — and feeds the
//! outcome back in as an event. Fatal events move the worker into an
//! absorbing aborted phase; teardown failure is best-effort and still ends
//! the worker normally.

use vstd::prelude::*;

use crate::errors::BenchError;

verus! {

/// Where one worker stands in its lifecycle.
#[derive(Debug, Clone, Copy, PartialEq, Eq, Structural)]
pub enum WorkerPhase {
    /// Opening and authenticating the database connection.
    Connecting,
    /// Issuing the one-time session-level transaction-mode directive.
    InitializingMode,
    /// Performing (or, for a non-owner, skipping) the schema setup.
    SettingUp,
    /// Blocked on the shared barrier until every worker has arrived.
    AwaitingBarrier,
    /// Running timed iterations.
    Iterating,
    /// Dropping the benchmark table (the owner) or simply closing down.
    TearingDown,
    /// Stopped normally; collected reports stay valid.
    Finished,
    /// Stopped on a fatal error of the given class.
    Aborted(BenchError),
}

/// What the driver observed while serving the current phase.
#[derive(Debug, Clone, Copy, PartialEq, Eq, Structural)]
pub enum WorkerEvent {
    /// The connection opened and authenticated.
    Connected,
    /// Network or authentication failure while connecting.
    ConnectFailed,
    /// The session directive was applied (or the mode needed none).
    ModeInitialized,
    /// The session directive failed.
    ModeFailed,
    /// Schema setup completed (or this worker had none to do) and the
    /// barrier is next.
    SetupDone,
    /// DDL or seeding failed.
    SetupFailed,
    /// The last worker arrived; the barrier released everyone.
    BarrierReleased,
    /// One timed iteration completed and its report was delivered.
    IterationFinished,
    /// The driver stopped issuing iterations; honored between iterations.
    StopRequested,
    /// The teardown drop succeeded.
    TeardownDone,
    /// The teardown drop failed; cleanup is best-effort.
    TeardownFailed,
}

/// The next phase after observing an event in a phase. An event that does
/// not belong to the phase changes nothing.
pub open spec fn spec_step(phase: WorkerPhase, event: WorkerEvent) -> WorkerPhase {
    match (phase, event) {
        (WorkerPhase::Connecting, WorkerEvent::Connected) => WorkerPhase::InitializingMode,
        (WorkerPhase::Connecting, WorkerEvent::ConnectFailed) => WorkerPhase::Aborted(
            BenchError::ConnectionError,
        ),
        (WorkerPhase::InitializingMode, WorkerEvent::ModeInitialized) => WorkerPhase::SettingUp,
        (WorkerPhase::InitializingMode, WorkerEvent::ModeFailed) => WorkerPhase::Aborted(
            BenchError::ConfigurationError,
        ),
        (WorkerPhase::SettingUp, WorkerEvent::SetupDone) => WorkerPhase::AwaitingBarrier,
        (WorkerPhase::SettingUp, WorkerEvent::SetupFailed) => WorkerPhase::Aborted(
            BenchError::SchemaError,
        ),
        (WorkerPhase::AwaitingBarrier, WorkerEvent::BarrierReleased) => WorkerPhase::Iterating,
        (WorkerPhase::Iterating, WorkerEvent::IterationFinished) => WorkerPhase::Iterating,
        (WorkerPhase::Iterating, WorkerEvent::StopRequested) => WorkerPhase::TearingDown,
        (WorkerPhase::TearingDown, WorkerEvent::TeardownDone) => WorkerPhase::Finished,
        (WorkerPhase::TearingDown, WorkerEvent::TeardownFailed) => WorkerPhase::Finished,
        (p, _) => p,
    }
}

/// Advance one worker by one observed event.
pub fn step(phase: WorkerPhase, event: WorkerEvent) -> (next: WorkerPhase)
    ensures
        next == spec_step(phase, event),
{
    match (phase, event) {
        (WorkerPhase::Connecting, WorkerEvent::Connected) => WorkerPhase::InitializingMode,
        (WorkerPhase::Connecting, WorkerEvent::ConnectFailed) => WorkerPhase::Aborted(
            BenchError::ConnectionError,
        ),
        (WorkerPhase::InitializingMode, WorkerEvent::ModeInitialized) => WorkerPhase::SettingUp,
        (WorkerPhase::InitializingMode, WorkerEvent::ModeFailed) => WorkerPhase::Aborted(
            BenchError::ConfigurationError,
        ),
        (WorkerPhase::SettingUp, WorkerEvent::SetupDone) => WorkerPhase::AwaitingBarrier,
        (WorkerPhase::SettingUp, WorkerEvent::SetupFailed) => WorkerPhase::Aborted(
            BenchError::SchemaError,
        ),
        (WorkerPhase::AwaitingBarrier, WorkerEvent::BarrierReleased) => WorkerPhase::Iterating,
        (WorkerPhase::Iterating, WorkerEvent::IterationFinished) => WorkerPhase::Iterating,
        (WorkerPhase::Iterating, WorkerEvent::StopRequested) => WorkerPhase::TearingDown,
        (WorkerPhase::TearingDown, WorkerEvent::TeardownDone) => WorkerPhase::Finished,
        (WorkerPhase::TearingDown, WorkerEvent::TeardownFailed) => WorkerPhase::Finished,
        (p, _) => p,
    }
}

/// The phase a worker reaches from `phase` after observing `events` in
/// order.
pub open spec fn spec_run(phase: WorkerPhase, events: Seq<WorkerEvent>) -> WorkerPhase
    decreases events.len(),
{
    if events.len() == 0 {
        phase
    } else {
        spec_run(spec_step(phase, events[0]), events.subrange(1, events.len() as int))
    }
}

/// An aborted worker stays aborted: no later event revives it.
pub proof fn lemma_aborted_absorbing(err: BenchError, events: Seq<WorkerEvent>)
    ensures
        spec_run(WorkerPhase::Aborted(err), events) == WorkerPhase::Aborted(err),
    decreases events.len(),
{
    if events.len() > 0 {
        lemma_aborted_absorbing(err, events.subrange(1, events.len() as int));
    }
}

/// A database unreachable at connect time aborts the worker with a
/// connection-class failure, and no iteration is ever attempted: at no point
/// of the remaining trace does the worker stand in its iteration phase.
pub proof fn lemma_connect_failure_aborts_before_iterating(events: Seq<WorkerEvent>)
    requires
        events.len() >= 1,
        events[0] == WorkerEvent::ConnectFailed,
    ensures
        spec_run(WorkerPhase::Connecting, events) == WorkerPhase::Aborted(
            BenchError::ConnectionError,
        ),
        forall|k: int|
            0 <= k <= events.len() ==> spec_run(WorkerPhase::Connecting, #[trigger] events.take(k))
                != WorkerPhase::Iterating,
{
    lemma_aborted_absorbing(BenchError::ConnectionError, events.subrange(1, events.len() as int));
    assert forall|k: int|
        0 <= k <= events.len() implies spec_run(WorkerPhase::Connecting, #[trigger] events.take(k))
        != WorkerPhase::Iterating by {
        if k > 0 {
            let t = events.take(k);
            assert(t[0] == WorkerEvent::ConnectFailed);
            lemma_aborted_absorbing(BenchError::ConnectionError, t.subrange(1, t.len() as int));
        }
    }
}

/// A worker not already iterating reaches its timed iteration phase only by
/// observing the barrier release: whatever the trace, no first iteration
/// precedes the rendezvous — and a released rendezvous means setup completed.
pub proof fn lemma_iterating_needs_barrier_release(phase: WorkerPhase, events: Seq<WorkerEvent>)
    requires
        phase != WorkerPhase::Iterating,
        spec_run(phase, events) == WorkerPhase::Iterating,
    ensures
        exists|k: int| 0 <= k < events.len() && events[k] == WorkerEvent::BarrierReleased,
    decreases events.len(),
{
    let rest = events.subrange(1, events.len() as int);
    let next = spec_step(phase, events[0]);
    if next == WorkerPhase::Iterating {
        assert(events[0] == WorkerEvent::BarrierReleased);
    } else {
        lemma_iterating_needs_barrier_release(next, rest);
        let k = choose|k: int| 0 <= k < rest.len() && rest[k] == WorkerEvent::BarrierReleased;
        assert(events[k + 1] == WorkerEvent::BarrierReleased);
    }
}

/// Classify the outcome of the owner's best-effort teardown: a failure is
/// reported as a teardown-class error, which is fatal neither to the worker
/// nor to the already-collected measurements.
pub fn classify_teardown(dropped: bool) -> (r: Option<BenchError>)
    ensures
        dropped <==> r is None,
        !dropped ==> (r matches Some(e) && e == BenchError::TeardownError
            && !e.spec_fatal_to_worker()),
{
    if dropped {
        None
    } else {
        Some(BenchError::TeardownError)
    }
}

} // verus!
