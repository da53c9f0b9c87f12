//! The run configuration: connection options plus workload sizing. Immutable
//! after construction and shared read-only by every worker.

use vstd::prelude::*;

use crate::tx_mode::TxMode;

verus! {

/// The default server port.
pub const DEFAULT_PORT: u16 = 4000;

/// Common database connection and benchmark options.
pub struct DbOpts {
    /// Server host.
    pub host: String,
    /// Server port.
    pub port: u16,
    /// Username for authentication.
    pub user: String,
    /// Password for authentication.
    pub password: String,
    /// Database name.
    pub database: String,
    /// Benchmark table name.
    pub table: String,
    /// Transaction mode.
    pub tx_mode: TxMode,
}

impl DbOpts {
    /// The table name wrapped in identifier quotes, as it is interpolated
    /// into SQL text.
    pub fn quoted_table(&self) -> (r: String)
        ensures
            r@ == seq!['`'] + self.table@ + seq!['`'],
    {
        proof {
            reveal_strlit("`");
        }
        let mut s = String::from_str("`");
        s.append(self.table.as_str());
        s.append("`");
        proof {
            assert(s@ =~= seq!['`'] + self.table@ + seq!['`']);
        }
        s
    }
}

impl Default for DbOpts {
    /// The default options: localhost on the default port, user `root` with
    /// an empty password, database `test`, table `bench_table`, auto-commit.
    fn default() -> (r: DbOpts)
        ensures
            r.host@ == "localhost"@,
            r.port == DEFAULT_PORT,
            r.user@ == "root"@,
            r.password@ == ""@,
            r.database@ == "test"@,
            r.table@ == "bench_table"@,
            r.tx_mode == TxMode::AutoCommit,
    {
        DbOpts {
            host: String::from_str("localhost"),
            port: DEFAULT_PORT,
            user: String::from_str("root"),
            password: String::from_str(""),
            database: String::from_str("test"),
            table: String::from_str("bench_table"),
            tx_mode: TxMode::AutoCommit,
        }
    }
}

} // verus!
