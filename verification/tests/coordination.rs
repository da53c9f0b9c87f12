use tidb_bench::performs_setup;
use tidb_bench::performs_teardown;
use tidb_bench::run_ddl_step;
use tidb_bench::seed_chunk_plan;
use tidb_bench::seed_row_count;
use tidb_bench::setup_ddl_plan;
use tidb_bench::step;
use tidb_bench::Barrier;
use tidb_bench::BenchRun;
use tidb_bench::BenchError;
use tidb_bench::DdlStep;
use tidb_bench::SchemaCoordinator;
use tidb_bench::WorkerEvent;
use tidb_bench::WorkerPhase;

#[test]
fn exactly_one_setup_owner_in_pool_of_four() {
    let mut owners: u32 = 0;
    for worker_id in 0..4u32 {
        if performs_setup(worker_id) {
            owners += 1;
        }
    }
    assert_eq!(owners, 1);
    assert!(performs_setup(0));
    assert!(!performs_setup(1));
}

#[test]
fn exactly_one_teardown_owner_in_pool_of_four() {
    let mut owners: u32 = 0;
    for worker_id in 0..4u32 {
        if performs_teardown(worker_id) {
            owners += 1;
        }
    }
    assert_eq!(owners, 1);
    assert!(performs_teardown(0));
}

#[test]
fn single_worker_pool_still_has_an_owner() {
    assert!(performs_setup(0));
}

#[test]
fn barrier_releases_only_on_last_arrival() {
    let mut b = Barrier::new(3);
    assert!(!b.arrive());
    assert!(!b.arrive());
    assert!(b.arrive());
}

#[test]
fn barrier_of_one_releases_at_once() {
    let mut b = Barrier::new(1);
    assert!(b.arrive());
}

#[test]
fn coordinator_holds_workers_until_owner_setup_done() {
    // concurrency = 4: the owner finishes DDL and seeding, then everyone
    // rendezvous; only the last arrival releases, and by then setup is done.
    let mut c = SchemaCoordinator::new(4);
    assert!(!c.setup_complete);
    assert!(!c.other_arrive());
    assert!(!c.other_arrive());
    c.record_setup_complete();
    assert!(!c.owner_arrive());
    let released = c.other_arrive();
    assert!(released);
    assert!(c.setup_complete);
}

#[test]
fn coordinator_owner_last_also_releases() {
    let mut c = SchemaCoordinator::new(2);
    assert!(!c.other_arrive());
    c.record_setup_complete();
    assert!(c.owner_arrive());
}

#[test]
fn setup_plan_is_drop_then_create() {
    let plan = setup_ddl_plan();
    assert_eq!(plan, vec![DdlStep::DropIfExists, DdlStep::CreateTable]);
}

#[test]
fn setup_succeeds_whether_or_not_table_exists() {
    for initial in [false, true] {
        let mut exists = initial;
        for step in setup_ddl_plan() {
            let r = run_ddl_step(exists, step);
            assert!(r.is_some());
            exists = r.unwrap();
        }
        assert!(exists);
    }
}

#[test]
fn setup_twice_in_succession_never_fails() {
    let mut exists = false;
    for _round in 0..2u32 {
        for step in setup_ddl_plan() {
            let r = run_ddl_step(exists, step);
            assert!(r.is_some());
            exists = r.unwrap();
        }
    }
    assert!(exists);
}

#[test]
fn bare_create_fails_on_existing_table() {
    assert_eq!(run_ddl_step(true, DdlStep::CreateTable), None);
    assert_eq!(run_ddl_step(false, DdlStep::CreateTable), Some(true));
    assert_eq!(run_ddl_step(true, DdlStep::DropIfExists), Some(false));
}

#[test]
fn seeding_doubles_the_select_count() {
    assert_eq!(seed_row_count(1000), 2000);
    assert_eq!(seed_row_count(0), 0);
}

#[test]
fn seed_chunks_tile_the_row_range() {
    let chunks = seed_chunk_plan(2500);
    assert_eq!(chunks.len(), 3);
    assert_eq!((chunks[0].start, chunks[0].count), (0, 1000));
    assert_eq!((chunks[1].start, chunks[1].count), (1000, 1000));
    assert_eq!((chunks[2].start, chunks[2].count), (2000, 500));
    // gap-free: each chunk starts where the previous one ended
    let mut expected_start: u64 = 0;
    for chunk in &chunks {
        assert_eq!(chunk.start, expected_start);
        assert!(chunk.count >= 1);
        expected_start = chunk.start + chunk.count;
    }
    assert_eq!(expected_start, 2500);
}

#[test]
fn seed_chunks_edge_sizes() {
    assert!(seed_chunk_plan(0).is_empty());
    let one = seed_chunk_plan(1);
    assert_eq!(one.len(), 1);
    assert_eq!((one[0].start, one[0].count), (0, 1));
    let exact = seed_chunk_plan(1000);
    assert_eq!(exact.len(), 1);
    assert_eq!((exact[0].start, exact[0].count), (0, 1000));
    let over = seed_chunk_plan(1001);
    assert_eq!(over.len(), 2);
    assert_eq!((over[1].start, over[1].count), (1000, 1));
}

#[test]
fn four_worker_run_reaches_timed_iterations_together() {
    // Drive a whole run of four workers through the protocol: everyone
    // connects and initializes its mode, the owner alone runs setup, all
    // rendezvous, and only then does anyone iterate.
    let mut run = BenchRun::new(4);
    for w in 0..4usize {
        run.worker_event(w, WorkerEvent::Connected);
        run.worker_event(w, WorkerEvent::ModeInitialized);
    }
    // the non-owners have no DDL to do and head for the barrier
    for w in 1..4usize {
        run.worker_event(w, WorkerEvent::SetupDone);
        assert_eq!(run.phases[w], WorkerPhase::AwaitingBarrier);
        assert!(!run.other_arrive());
    }
    // the owner finishes its DDL and seeding, arrives last, and releases
    run.setup_complete();
    run.worker_event(0, WorkerEvent::SetupDone);
    let released = run.owner_arrive();
    assert!(released);
    for w in 0..4usize {
        run.observe_release(w);
        assert_eq!(run.phases[w], WorkerPhase::Iterating);
    }
    assert!(run.coordinator.setup_complete);
}

#[test]
fn lifecycle_happy_path() {
    let mut p = WorkerPhase::Connecting;
    p = step(p, WorkerEvent::Connected);
    assert_eq!(p, WorkerPhase::InitializingMode);
    p = step(p, WorkerEvent::ModeInitialized);
    assert_eq!(p, WorkerPhase::SettingUp);
    p = step(p, WorkerEvent::SetupDone);
    assert_eq!(p, WorkerPhase::AwaitingBarrier);
    p = step(p, WorkerEvent::BarrierReleased);
    assert_eq!(p, WorkerPhase::Iterating);
    p = step(p, WorkerEvent::IterationFinished);
    assert_eq!(p, WorkerPhase::Iterating);
    p = step(p, WorkerEvent::StopRequested);
    assert_eq!(p, WorkerPhase::TearingDown);
    p = step(p, WorkerEvent::TeardownDone);
    assert_eq!(p, WorkerPhase::Finished);
}

#[test]
fn unreachable_database_aborts_before_any_iteration() {
    // Scenario: the database is unreachable at connect time. The run aborts
    // with a connection-class failure, and no later event reaches the
    // iteration phase.
    let mut p = WorkerPhase::Connecting;
    p = step(p, WorkerEvent::ConnectFailed);
    assert_eq!(p, WorkerPhase::Aborted(BenchError::ConnectionError));
    for ev in [
        WorkerEvent::Connected,
        WorkerEvent::BarrierReleased,
        WorkerEvent::IterationFinished,
        WorkerEvent::StopRequested,
    ] {
        p = step(p, ev);
        assert_eq!(p, WorkerPhase::Aborted(BenchError::ConnectionError));
    }
}

#[test]
fn directive_failure_aborts_with_configuration_error() {
    let p = step(WorkerPhase::InitializingMode, WorkerEvent::ModeFailed);
    assert_eq!(p, WorkerPhase::Aborted(BenchError::ConfigurationError));
}

#[test]
fn ddl_failure_aborts_the_run() {
    let p = step(WorkerPhase::SettingUp, WorkerEvent::SetupFailed);
    assert_eq!(p, WorkerPhase::Aborted(BenchError::SchemaError));
    assert!(BenchError::SchemaError.aborts_run());
}

#[test]
fn teardown_failure_still_finishes_the_worker() {
    let p = step(WorkerPhase::TearingDown, WorkerEvent::TeardownFailed);
    assert_eq!(p, WorkerPhase::Finished);
}

#[test]
fn event_outside_its_phase_changes_nothing() {
    let p = step(WorkerPhase::AwaitingBarrier, WorkerEvent::IterationFinished);
    assert_eq!(p, WorkerPhase::AwaitingBarrier);
}
