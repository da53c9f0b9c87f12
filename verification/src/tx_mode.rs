//! The transaction-mode strategy: how a unit of benchmark work is wrapped in
//! a commit protocol, and which session-level directive a connection needs.

use vstd::prelude::*;

verus! {

/// The three transaction-isolation strategies a benchmark run can use.
///
/// The modes differ only in the session-level directive issued once per
/// connection; between `Optimistic` and `Pessimistic` the per-iteration code
/// path is identical (both wrap the unit of work in an explicit transaction).
#[derive(Debug, Clone, Copy, PartialEq, Eq, Structural)]
pub enum TxMode {
    /// No explicit transaction; each statement auto-commits.
    AutoCommit,
    /// Optimistic transactions: begin, execute, commit.
    Optimistic,
    /// Pessimistic transactions: begin, execute, commit, with the pessimistic
    /// session directive applied at connect time.
    Pessimistic,
}

impl TxMode {
    /// Whether a unit of work under this mode is wrapped in an explicit
    /// transaction (begin ... commit) rather than auto-committed.
    pub fn uses_explicit_transaction(&self) -> (r: bool)
        ensures
            r == (*self != TxMode::AutoCommit),
    {
        match self {
            TxMode::AutoCommit => false,
            TxMode::Optimistic => true,
            TxMode::Pessimistic => true,
        }
    }

    /// The session-level transaction-mode directive to issue exactly once
    /// after connecting, or `None` for auto-commit mode, which issues nothing.
    pub fn session_directive(&self) -> (r: Option<&'static str>)
        ensures
            *self == TxMode::AutoCommit <==> r is None,
            *self == TxMode::Optimistic ==> r == Some("SET SESSION tidb_txn_mode = 'optimistic'"),
            *self == TxMode::Pessimistic ==> r == Some("SET SESSION tidb_txn_mode = 'pessimistic'"),
    {
        match self {
            TxMode::AutoCommit => None,
            TxMode::Optimistic => Some("SET SESSION tidb_txn_mode = 'optimistic'"),
            TxMode::Pessimistic => Some("SET SESSION tidb_txn_mode = 'pessimistic'"),
        }
    }
}

} // verus!
