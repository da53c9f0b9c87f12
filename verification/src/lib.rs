//! Verified core of a concurrent INSERT/SELECT load-generation harness for a
//! MySQL-wire-protocol (TiDB-compatible) database.
//!
//! The library holds the coordination and decision logic of the harness: the
//! transaction-mode strategy, the per-worker key partitioning, the schema
//! coordinator with its rendezvous barrier, the iteration executor's report
//! construction and byte accounting, and the worker lifecycle state machine.
//! The driver around it performs the actual network I/O and feeds the
//! outcomes back in as plain values.

mod barrier;
mod config;
mod errors;
mod iteration;
mod lifecycle;
mod run;
mod schema;
mod tx_mode;
mod worker;

pub use barrier::Barrier;
pub use config::DbOpts;
pub use config::DEFAULT_PORT;
pub use errors::BenchError;
pub use iteration::estimate_select_bytes;
pub use iteration::failed_report;
pub use iteration::finish_insert_iteration;
pub use iteration::finish_select_iteration;
pub use iteration::lemma_offset_never_starves;
pub use iteration::lemma_success_uniform_across_modes;
pub use iteration::rows_returned;
pub use iteration::select_bytes_of;
pub use iteration::select_offset;
pub use iteration::spec_insert_result;
pub use iteration::spec_rows_returned;
pub use iteration::spec_select_offset;
pub use iteration::spec_select_result;
pub use iteration::success_report;
pub use iteration::IterationReport;
pub use iteration::SelectOutcome;
pub use iteration::SelectRow;
pub use iteration::UnitOutcome;
pub use iteration::BIGINT_SIZE;
pub use iteration::INSERT_ROW_BYTES;
pub use lifecycle::classify_teardown;
pub use lifecycle::lemma_aborted_absorbing;
pub use lifecycle::lemma_connect_failure_aborts_before_iterating;
pub use lifecycle::lemma_iterating_needs_barrier_release;
pub use lifecycle::spec_run;
pub use lifecycle::spec_step;
pub use lifecycle::step;
pub use lifecycle::WorkerEvent;
pub use lifecycle::WorkerPhase;
pub use run::is_past_barrier;
pub use run::BenchRun;
pub use schema::after_setup_ddl;
pub use schema::ddl_step_result;
pub use schema::ddl_step_succeeds;
pub use schema::is_setup_owner;
pub use schema::lemma_exactly_one_setup_owner;
pub use schema::lemma_setup_idempotent;
pub use schema::performs_setup;
pub use schema::performs_teardown;
pub use schema::run_ddl_step;
pub use schema::seed_chunk_plan;
pub use schema::seed_row_count;
pub use schema::setup_ddl_plan;
pub use schema::setup_ddl_succeeds;
pub use schema::DdlStep;
pub use schema::SchemaCoordinator;
pub use schema::SeedChunk;
pub use schema::SEED_CHUNK_ROWS;
pub use schema::TEST_DATA_MULTIPLIER;
pub use tx_mode::TxMode;
pub use worker::batch_base;
pub use worker::batch_seq;
pub use worker::lemma_batch_base_monotone;
pub use worker::lemma_batch_ranges_disjoint;
pub use worker::lemma_batch_seqs_distinct;
pub use worker::lemma_planned_counters_distinct;
pub use worker::InsertRow;
pub use worker::WorkerState;
