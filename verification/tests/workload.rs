use tidb_bench::classify_teardown;
use tidb_bench::estimate_select_bytes;
use tidb_bench::failed_report;
use tidb_bench::finish_insert_iteration;
use tidb_bench::finish_select_iteration;
use tidb_bench::rows_returned;
use tidb_bench::select_offset;
use tidb_bench::success_report;
use tidb_bench::BenchError;
use tidb_bench::DbOpts;
use tidb_bench::SelectOutcome;
use tidb_bench::SelectRow;
use tidb_bench::TxMode;
use tidb_bench::UnitOutcome;
use tidb_bench::WorkerState;

#[test]
fn session_directives_per_mode() {
    assert_eq!(TxMode::AutoCommit.session_directive(), None);
    assert_eq!(
        TxMode::Optimistic.session_directive(),
        Some("SET SESSION tidb_txn_mode = 'optimistic'")
    );
    assert_eq!(
        TxMode::Pessimistic.session_directive(),
        Some("SET SESSION tidb_txn_mode = 'pessimistic'")
    );
}

#[test]
fn only_auto_commit_skips_the_explicit_transaction() {
    assert!(!TxMode::AutoCommit.uses_explicit_transaction());
    assert!(TxMode::Optimistic.uses_explicit_transaction());
    assert!(TxMode::Pessimistic.uses_explicit_transaction());
}

#[test]
fn default_options() {
    let opts = DbOpts::default();
    assert_eq!(opts.host, "localhost");
    assert_eq!(opts.port, 4000);
    assert_eq!(opts.user, "root");
    assert_eq!(opts.password, "");
    assert_eq!(opts.database, "test");
    assert_eq!(opts.table, "bench_table");
    assert_eq!(opts.tx_mode, TxMode::AutoCommit);
}

#[test]
fn table_name_is_identifier_quoted() {
    let opts = DbOpts::default();
    assert_eq!(opts.quoted_table(), "`bench_table`");
}

#[test]
fn worker_batches_never_collide_across_workers() {
    // Four workers, batch size 100, three batches each: no counter is ever
    // generated twice, though the workers share no state.
    let batch_size = 100u32;
    let mut counters: Vec<u64> = Vec::new();
    for worker_id in 0..4u32 {
        let mut state = WorkerState::new(worker_id, 4);
        for _batch in 0..3u32 {
            for row in state.plan_insert_batch(batch_size) {
                counters.push(row.counter);
            }
            state.advance_batch();
        }
    }
    let total: usize = counters.len();
    counters.sort();
    counters.dedup();
    assert_eq!(counters.len(), total);
}

#[test]
fn first_insert_iterations_of_four_workers() {
    // Scenario: concurrency = 4, batch size = 100, auto-commit. Each
    // worker's first iteration reports 100 items and 100 * 54 bytes, and no
    // two workers' data values collide.
    let mode = TxMode::AutoCommit;
    assert!(!mode.uses_explicit_transaction());
    let mut data_values: Vec<String> = Vec::new();
    for worker_id in 0..4u32 {
        let mut state = WorkerState::new(worker_id, 4);
        for row in state.plan_insert_batch(100) {
            data_values.push(format!("bench_data_{}", row.counter));
            assert_eq!(row.value, row.counter % 1000);
        }
        let report = finish_insert_iteration(&mut state, 100, UnitOutcome::Committed, 1_000_000)
            .expect("a committed batch is not fatal");
        assert_eq!(report.status, 0);
        assert_eq!(report.items, 100);
        assert_eq!(report.bytes, 100 * 54);
        assert_eq!(state.batches_done, 1);
    }
    let total: usize = data_values.len();
    data_values.sort();
    data_values.dedup();
    assert_eq!(data_values.len(), total);
}

#[test]
fn batch_bases_follow_the_partitioning_scheme() {
    let state = WorkerState::new(2, 4);
    assert_eq!(state.batch_base(100), 200);
    let mut state = state;
    state.advance_batch();
    // second batch of worker 2: sequence number 2 + 1 * 4 = 6
    assert_eq!(state.batch_base(100), 600);
}

#[test]
fn conflict_becomes_failed_report_and_keeps_the_counter() {
    let mut state = WorkerState::new(0, 1);
    let report = finish_insert_iteration(&mut state, 50, UnitOutcome::Conflict, 42)
        .expect("a conflict is not fatal");
    assert_ne!(report.status, 0);
    assert_eq!(report.status, BenchError::TransactionError.status_code());
    assert_eq!(report.items, 0);
    assert_eq!(report.bytes, 0);
    assert_eq!(state.batches_done, 0);
}

#[test]
fn lost_connection_is_fatal_to_the_worker() {
    let mut state = WorkerState::new(0, 1);
    let r = finish_insert_iteration(&mut state, 50, UnitOutcome::ConnectionLost, 42);
    assert_eq!(r, Err(BenchError::ConnectionError));
    assert!(BenchError::ConnectionError.is_fatal_to_worker());
    let r = finish_select_iteration(10, &SelectOutcome::ConnectionLost, 42);
    assert!(r.is_err());
}

#[test]
fn select_report_counts_configured_size_and_estimated_bytes() {
    let rows = vec![
        SelectRow { id: 1, data: String::from("test_data_1") },
        SelectRow { id: 2, data: String::from("") },
        SelectRow { id: 3, data: String::from("abc") },
    ];
    // 3 * 8 bytes of BIGINT plus the string lengths 11 + 0 + 3
    assert_eq!(estimate_select_bytes(&rows), 24 + 14);
    let report = finish_select_iteration(3, &SelectOutcome::Returned(rows), 7)
        .expect("a returned row set is not fatal");
    assert_eq!(report.status, 0);
    assert_eq!(report.items, 3);
    assert_eq!(report.bytes, 38);
    assert_eq!(report.duration_nanos, 7);
}

#[test]
fn select_conflict_becomes_failed_report() {
    let report = finish_select_iteration(3, &SelectOutcome::Conflict, 7)
        .expect("a conflict is not fatal");
    assert_eq!(report.status, BenchError::TransactionError.status_code());
    assert_eq!(report.items, 0);
}

#[test]
fn offsets_stay_within_the_seeded_range() {
    // Scenario: one worker, pessimistic mode, select count 1000 against 2000
    // seeded rows: every offset lies in [0, 1000] and the SELECT returns
    // exactly 1000 rows absent concurrent deletion.
    assert!(TxMode::Pessimistic.uses_explicit_transaction());
    for raw in [0u64, 1, 5, 999, 1000, 1001, 2000, 123_456_789, u64::MAX] {
        let off = select_offset(raw, 2000, 1000);
        assert!(off <= 1000);
        assert_eq!(off, raw % 1001);
        assert_eq!(rows_returned(2000, off, 1000), 1000);
    }
}

#[test]
fn offset_edge_spans() {
    // select_count == total_rows leaves offset 0 as the only draw
    assert_eq!(select_offset(u64::MAX, 1000, 1000), 0);
    assert_eq!(select_offset(7, 1, 1), 0);
    assert_eq!(rows_returned(5, 5, 3), 0);
    assert_eq!(rows_returned(5, 4, 3), 1);
}

#[test]
fn report_constructors() {
    let ok = success_report(9, 100, 10);
    assert_eq!((ok.duration_nanos, ok.status, ok.bytes, ok.items), (9, 0, 100, 10));
    let bad = failed_report(9, BenchError::TransactionError);
    assert_ne!(bad.status, 0);
    assert_eq!((bad.bytes, bad.items), (0, 0));
}

#[test]
fn error_codes_are_nonzero_and_distinct() {
    let errors = [
        BenchError::ConnectionError,
        BenchError::ConfigurationError,
        BenchError::SchemaError,
        BenchError::TransactionError,
        BenchError::TeardownError,
    ];
    let mut codes: Vec<u32> = errors.iter().map(|e| e.status_code()).collect();
    assert!(codes.iter().all(|&c| c != 0));
    codes.sort();
    codes.dedup();
    assert_eq!(codes.len(), errors.len());
}

#[test]
fn error_classification_follows_the_taxonomy() {
    assert!(BenchError::ConnectionError.is_fatal_to_worker());
    assert!(BenchError::ConfigurationError.is_fatal_to_worker());
    assert!(BenchError::SchemaError.is_fatal_to_worker());
    assert!(!BenchError::TransactionError.is_fatal_to_worker());
    assert!(!BenchError::TeardownError.is_fatal_to_worker());
    assert!(BenchError::SchemaError.aborts_run());
    assert!(!BenchError::ConnectionError.aborts_run());
    assert!(BenchError::TransactionError.is_recorded_as_failed_iteration());
    assert!(!BenchError::SchemaError.is_recorded_as_failed_iteration());
}

#[test]
fn fatal_errors_name_their_phase() {
    assert_eq!(BenchError::ConnectionError.phase_name(), "connect");
    assert_eq!(BenchError::ConfigurationError.phase_name(), "connect");
    assert_eq!(BenchError::SchemaError.phase_name(), "setup");
    assert_eq!(BenchError::TransactionError.phase_name(), "iterate");
    assert_eq!(BenchError::TeardownError.phase_name(), "teardown");
}

#[test]
fn teardown_outcome_classification() {
    assert_eq!(classify_teardown(true), None);
    let err = classify_teardown(false);
    assert_eq!(err, Some(BenchError::TeardownError));
    assert!(!err.unwrap().is_fatal_to_worker());
}
