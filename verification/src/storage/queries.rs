//! The database's connection settings and the statements the store runs:
//! the journal and synchronous modes a configuration asks for, the cache
//! pragma, the query for one device's readings with its bound values, and
//! how a batch of readings is cut into chunks.
use vstd::prelude::*;

use crate::config::settings::SqliteConfig;
use crate::text::{concat, decimal, decimal_string, owned, signed_decimal, signed_decimal_string, str_eq};

verus! {

/// SQLite's synchronous setting.
#[derive(Debug, Clone, Copy, PartialEq, Eq, Structural)]
pub enum SyncMode {
    Off,
    Normal,
    Full,
}

/// The synchronous setting named by `mode`: `OFF`, `NORMAL` or `FULL`, and
/// `NORMAL` for any other text.
pub open spec fn sync_mode_of(mode: Seq<char>) -> SyncMode {
    if mode == "OFF"@ {
        SyncMode::Off
    } else if mode == "FULL"@ {
        SyncMode::Full
    } else {
        SyncMode::Normal
    }
}

/// How the store opens the database.
#[derive(Debug, Clone)]
pub struct ConnectionSettings {
    /// Write-ahead logging; otherwise the rollback journal is deleted.
    pub wal_journal: bool,
    pub synchronous: SyncMode,
    pub busy_timeout_ms: u64,
    /// The statement that sets the page cache's size.
    pub cache_pragma: String,
    /// The statement that turns incremental vacuuming on, where asked for.
    pub vacuum_pragma: Option<String>,
}

/// The connection settings a configuration asks for.
pub fn connection_settings(config: &SqliteConfig) -> (s: ConnectionSettings)
    ensures
        s.wal_journal == config.enable_wal,
        s.synchronous == sync_mode_of(config.sync_mode@),
        s.busy_timeout_ms == config.busy_timeout_ms,
        s.cache_pragma@ == "PRAGMA cache_size = -"@ + signed_decimal(config.cache_size as int),
        config.auto_vacuum ==> (s.vacuum_pragma matches Some(p) && p@ == "PRAGMA auto_vacuum = INCREMENTAL"@),
        !config.auto_vacuum ==> s.vacuum_pragma is None,
{
    let m = config.sync_mode.as_str();
    let synchronous = if str_eq(m, "OFF") {
        SyncMode::Off
    } else if str_eq(m, "FULL") {
        SyncMode::Full
    } else {
        SyncMode::Normal
    };
    let n = signed_decimal_string(config.cache_size as i64);
    let cache_pragma = concat("PRAGMA cache_size = -", n.as_str());
    let vacuum_pragma = if config.auto_vacuum {
        Some(owned("PRAGMA auto_vacuum = INCREMENTAL"))
    } else {
        None
    };
    ConnectionSettings {
        wal_journal: config.enable_wal,
        synchronous,
        busy_timeout_ms: config.busy_timeout_ms,
        cache_pragma,
        vacuum_pragma,
    }
}

/// The query for the flowmeter readings of one device, newest first, and the
/// values bound to it in order: the address, then the optional start and end
/// times and row limit.
pub open spec fn readings_query_spec(address: u8, start: Option<i64>, end: Option<i64>, limit: Option<i64>) -> (
    Seq<char>,
    Seq<Seq<char>>,
) {
    let q0 = "SELECT * FROM flowmeter_readings WHERE device_address = ?"@;
    let b0 = seq![decimal(address as nat)];
    let (q1, b1) = match start {
        Some(t) => (q0 + " AND unix_timestamp >= ?"@, b0.push(signed_decimal(t as int))),
        None => (q0, b0),
    };
    let (q2, b2) = match end {
        Some(t) => (q1 + " AND unix_timestamp <= ?"@, b1.push(signed_decimal(t as int))),
        None => (q1, b1),
    };
    let q3 = q2 + " ORDER BY unix_timestamp DESC"@;
    match limit {
        Some(l) => (q3 + " LIMIT ?"@, b2.push(signed_decimal(l as int))),
        None => (q3, b2),
    }
}

/// Builds the query for one device's flowmeter readings and its bound values.
pub fn device_readings_query(address: u8, start: Option<i64>, end: Option<i64>, limit: Option<i64>) -> (r: (
    String,
    Vec<String>,
))
    ensures
        r.0@ == readings_query_spec(address, start, end, limit).0,
        r.1@.map_values(|b: String| b@) == readings_query_spec(address, start, end, limit).1,
{
    let mut query = owned("SELECT * FROM flowmeter_readings WHERE device_address = ?");
    let mut binds: Vec<String> = Vec::new();
    binds.push(decimal_string(address as u64));
    let ghost b0 = binds@.map_values(|b: String| b@);
    proof {
        assert(b0 =~= seq![decimal(address as nat)]);
    }
    match start {
        Some(t) => {
            query = concat(query.as_str(), " AND unix_timestamp >= ?");
            let ghost old_b = binds@;
            binds.push(signed_decimal_string(t));
            proof {
                assert(binds@.map_values(|b: String| b@) =~= old_b.map_values(|b: String| b@).push(
                    signed_decimal(t as int),
                ));
            }
        },
        None => {},
    }
    match end {
        Some(t) => {
            query = concat(query.as_str(), " AND unix_timestamp <= ?");
            let ghost old_b = binds@;
            binds.push(signed_decimal_string(t));
            proof {
                assert(binds@.map_values(|b: String| b@) =~= old_b.map_values(|b: String| b@).push(
                    signed_decimal(t as int),
                ));
            }
        },
        None => {},
    }
    query = concat(query.as_str(), " ORDER BY unix_timestamp DESC");
    match limit {
        Some(l) => {
            query = concat(query.as_str(), " LIMIT ?");
            let ghost old_b = binds@;
            binds.push(signed_decimal_string(l));
            proof {
                assert(binds@.map_values(|b: String| b@) =~= old_b.map_values(|b: String| b@).push(
                    signed_decimal(l as int),
                ));
            }
        },
        None => {},
    }
    (query, binds)
}

/// The smallest batch the store inserts in one transaction.
pub const MIN_INSERT_BATCH: usize = 500;

/// The number of readings inserted per transaction: the configured batch
/// size, but at least `MIN_INSERT_BATCH`.
pub fn insert_batch_size(configured: usize) -> (n: usize)
    ensures
        n == (if configured >= MIN_INSERT_BATCH { configured } else { MIN_INSERT_BATCH }),
{
    if configured >= MIN_INSERT_BATCH {
        configured
    } else {
        MIN_INSERT_BATCH
    }
}

/// The chunks `slice::chunks(size)` cuts `n` items into, as start and end
/// positions: consecutive, each `size` long but the last, which holds the rest.
pub fn chunk_ranges(n: usize, size: usize) -> (r: Vec<(usize, usize)>)
    requires
        size > 0,
    ensures
        r@.len() == (n + size - 1) / size as int,
        forall|i: int|
            0 <= i < r@.len() ==> (#[trigger] r@[i]).0 == i * size && r@[i].1 == (if (i + 1) * size <= n {
                (i + 1) * size
            } else {
                n as int
            }),
{
    let mut r: Vec<(usize, usize)> = Vec::new();
    let mut start: usize = 0;
    while start < n
        invariant
            size > 0,
            start <= n,
            r@.len() * size >= start,
            start < n ==> start == r@.len() * size,
            r@.len() > 0 ==> (r@.len() - 1) * size < n,
            n == 0 ==> r@.len() == 0,
            forall|i: int|
                0 <= i < r@.len() ==> (#[trigger] r@[i]).0 == i * size && r@[i].1 == (if (i + 1) * size <= n {
                    (i + 1) * size
                } else {
                    n as int
                }),
        decreases n - start,
    {
        let end: usize = if n - start >= size { start + size } else { n };
        proof {
            assert((r@.len() + 1) * size == r@.len() * size + size) by (nonlinear_arith);
        }
        r.push((start, end));
        start = end;
    }
    proof {
        let k = r@.len() as int;
        let sz = size as int;
        let nn = n as int;
        assert(k == (nn + sz - 1) / sz) by (nonlinear_arith)
            requires
                sz > 0,
                k >= 0,
                nn >= 0,
                k * sz >= nn,
                k == 0 || (k - 1) * sz < nn,
                nn == 0 ==> k == 0,
        {
        }
    }
    r
}

} // verus!
