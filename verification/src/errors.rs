//! The harness's error taxonomy and its propagation policy.
//!
//! Errors that mean the measurement itself failed (a commit conflict) become
//! a failed iteration report and the worker continues; errors that mean the
//! harness cannot proceed correctly (a dead connection, missing schema) are
//! fatal. Teardown failure is reported but never invalidates collected
//! measurements.

use vstd::prelude::*;

verus! {

/// The classes of failure a benchmark run distinguishes.
#[derive(Debug, Clone, Copy, PartialEq, Eq, Structural)]
pub enum BenchError {
    /// Network or authentication failure while connecting. Fatal for the
    /// worker; never retried.
    ConnectionError,
    /// The session-level transaction-mode directive failed. Fatal for the
    /// worker: iterations would silently run under the wrong isolation mode.
    ConfigurationError,
    /// DDL or row seeding failed during setup. Fatal for the whole run: there
    /// is no partial-setup recovery path.
    SchemaError,
    /// A per-iteration failure such as a commit conflict. Non-fatal: recorded
    /// as a failed iteration and the worker proceeds.
    TransactionError,
    /// Dropping the benchmark table failed. Non-fatal, best-effort cleanup:
    /// already-collected measurements stay valid.
    TeardownError,
}

impl BenchError {
    /// The non-zero status code a failed iteration report carries for this
    /// error class. Zero is reserved for success.
    pub open spec fn spec_status_code(self) -> u32 {
        match self {
            BenchError::ConnectionError => 1,
            BenchError::ConfigurationError => 2,
            BenchError::SchemaError => 3,
            BenchError::TransactionError => 4,
            BenchError::TeardownError => 5,
        }
    }

    /// The status code of this error class: non-zero, and distinct per class.
    pub fn status_code(&self) -> (r: u32)
        ensures
            r == self.spec_status_code(),
            r != 0,
    {
        match self {
            BenchError::ConnectionError => 1,
            BenchError::ConfigurationError => 2,
            BenchError::SchemaError => 3,
            BenchError::TransactionError => 4,
            BenchError::TeardownError => 5,
        }
    }

    /// Whether this error terminates the worker it occurred on.
    pub open spec fn spec_fatal_to_worker(self) -> bool {
        match self {
            BenchError::ConnectionError => true,
            BenchError::ConfigurationError => true,
            BenchError::SchemaError => true,
            BenchError::TransactionError => false,
            BenchError::TeardownError => false,
        }
    }

    /// Whether this error terminates the worker it occurred on. Connection,
    /// configuration and schema failures do; a per-iteration transaction
    /// failure and a teardown failure do not.
    pub fn is_fatal_to_worker(&self) -> (r: bool)
        ensures
            r == self.spec_fatal_to_worker(),
    {
        match self {
            BenchError::ConnectionError => true,
            BenchError::ConfigurationError => true,
            BenchError::SchemaError => true,
            BenchError::TransactionError => false,
            BenchError::TeardownError => false,
        }
    }

    /// Whether this error aborts the whole run rather than one worker.
    pub fn aborts_run(&self) -> (r: bool)
        ensures
            r == (*self == BenchError::SchemaError),
    {
        match self {
            BenchError::SchemaError => true,
            _ => false,
        }
    }

    /// Whether this error is converted into a failed iteration report rather
    /// than propagated, preserving the statistical validity of the
    /// surrounding successful iterations.
    pub fn is_recorded_as_failed_iteration(&self) -> (r: bool)
        ensures
            r == (*self == BenchError::TransactionError),
    {
        match self {
            BenchError::TransactionError => true,
            _ => false,
        }
    }

    /// The phase a user-visible fatal-error message names.
    pub fn phase_name(&self) -> (r: &'static str)
        ensures
            *self == BenchError::ConnectionError ==> r == "connect",
            *self == BenchError::ConfigurationError ==> r == "connect",
            *self == BenchError::SchemaError ==> r == "setup",
            *self == BenchError::TransactionError ==> r == "iterate",
            *self == BenchError::TeardownError ==> r == "teardown",
    {
        match self {
            BenchError::ConnectionError => "connect",
            BenchError::ConfigurationError => "connect",
            BenchError::SchemaError => "setup",
            BenchError::TransactionError => "iterate",
            BenchError::TeardownError => "teardown",
        }
    }
}

} // verus!
