//! Persistent tier: a durable table of cached answers with explicit expiry
//! and an upper bound on its size.
//!
//! The database is the caller's. This module holds the layout of the table,
//! the statements that read and write it, and every number that goes into
//! them: when a row expires, how a hit is counted, and when the oldest rows
//! are dropped.

use vstd::prelude::*;

verus! {

/// The seconds in a day.
pub const SECONDS_PER_DAY: i64 = 86_400;

/// The bytes in a gibibyte.
pub const BYTES_PER_GIB: u64 = 1_073_741_824;

/// The number of rows, oldest first, that one eviction removes.
pub const EVICTION_BATCH: u32 = 500;

/// Creates the table of answers, with its index on the expiry, and the
/// table of counters.
pub const CREATE_TABLES: &'static str =
    "CREATE TABLE IF NOT EXISTS ai_cache (
                cache_key TEXT PRIMARY KEY,
                response_json TEXT NOT NULL,
                created_at INTEGER NOT NULL,
                expires_at INTEGER NOT NULL,
                hits INTEGER NOT NULL DEFAULT 0
            );
            CREATE INDEX IF NOT EXISTS idx_ai_cache_expires ON ai_cache(expires_at);
            CREATE TABLE IF NOT EXISTS cache_stats (
                metric TEXT PRIMARY KEY,
                value INTEGER NOT NULL,
                updated_at INTEGER NOT NULL
            );";

/// Reads the row of a key (`?1`) that has not expired at the current second
/// (`?2`).
pub const SELECT_LIVE_ROW: &'static str =
    "SELECT cache_key, response_json, created_at, expires_at, hits
             FROM ai_cache
             WHERE cache_key = ?1 AND expires_at > ?2";

/// Stores the hit count (`?1`) of a key (`?2`).
pub const UPDATE_HITS: &'static str = "UPDATE ai_cache SET hits = ?1 WHERE cache_key = ?2";

/// Inserts a row, or overwrites the value and the two timestamps of the row
/// that has the key already. The hit count of such a row stays.
pub const UPSERT_ROW: &'static str =
    "INSERT INTO ai_cache (cache_key, response_json, created_at, expires_at, hits)
             VALUES (?1, ?2, ?3, ?4, 0)
             ON CONFLICT(cache_key) DO UPDATE SET
                response_json = excluded.response_json,
                created_at = excluded.created_at,
                expires_at = excluded.expires_at";

/// Deletes every row that has expired at the current second (`?1`).
pub const DELETE_EXPIRED: &'static str = "DELETE FROM ai_cache WHERE expires_at <= ?1";

/// Deletes the oldest rows, one eviction batch of them.
pub const DELETE_OLDEST: &'static str =
    "DELETE FROM ai_cache
             WHERE cache_key IN (
                SELECT cache_key FROM ai_cache ORDER BY created_at ASC LIMIT 500
             );";

/// Gives the space of deleted rows back.
pub const RECLAIM_SPACE: &'static str = "VACUUM;";

/// A row of the table as a read returns it. The timestamps are seconds
/// since the Unix epoch.
#[derive(Debug, Clone)]
pub struct CacheRecord {
    pub key: String,
    pub value_json: String,
    pub created_at: i64,
    pub expires_at: i64,
    pub hits: u64,
}

/// The two timestamps of a row that is written.
#[derive(Debug, Clone, Copy, PartialEq, Eq, Structural)]
pub struct RowTimes {
    pub created_at: i64,
    pub expires_at: i64,
}

/// The persistent tier as the orchestrator knows it.
#[derive(Debug, Clone)]
pub struct CacheRepo {
    pub path: String,
    pub ttl_days: i64,
    pub max_size_bytes: u64,
}

/// The persistent tier as the contracts see it.
pub struct Persisted {
    /// The file that holds the database.
    pub path: Seq<char>,
    /// The lifetime of a row, in days.
    pub ttl_days: i64,
    /// The size that the file may grow to, in bytes; zero bounds nothing.
    pub max_size_bytes: u64,
}

impl View for CacheRepo {
    type V = Persisted;

    open spec fn view(&self) -> Persisted {
        Persisted {
            path: self.path@,
            ttl_days: self.ttl_days,
            max_size_bytes: self.max_size_bytes,
        }
    }
}

/// `gigabytes` in bytes, or the largest size there is where that is less.
pub open spec fn size_budget(gigabytes: u64) -> u64 {
    if gigabytes * BYTES_PER_GIB > u64::MAX {
        u64::MAX
    } else {
        (gigabytes * BYTES_PER_GIB) as u64
    }
}

/// The second at which a row written at `now` expires after `ttl_days`
/// days, kept within the seconds that can be stored.
pub open spec fn expiry_second(now: i64, ttl_days: i64) -> i64 {
    if now + ttl_days * SECONDS_PER_DAY > i64::MAX {
        i64::MAX
    } else if now + ttl_days * SECONDS_PER_DAY < i64::MIN {
        i64::MIN
    } else {
        (now + ttl_days * SECONDS_PER_DAY) as i64
    }
}

/// The hit count after one more hit on a row that had `stored` hits. A
/// count below zero, which no write of this tier produces, counts as none.
pub open spec fn hits_after_read(stored: i64) -> u64 {
    if stored < 0 {
        1
    } else {
        (stored + 1) as u64
    }
}

impl CacheRepo {
    /// The tier whose database is the file at `path`, whose rows live
    /// `ttl_days` days and whose file may grow to `max_size_gb` gigabytes;
    /// zero gigabytes stand for no bound.
    pub fn new(path: String, ttl_days: u32, max_size_gb: u64) -> (repo: CacheRepo)
        ensures
            repo.path == path,
            repo.ttl_days == ttl_days,
            repo.max_size_bytes == size_budget(max_size_gb),
            repo@ == (Persisted {
                path: path@,
                ttl_days: ttl_days as i64,
                max_size_bytes: size_budget(max_size_gb),
            }),
    {
        let max_size_bytes: u64 = match max_size_gb.checked_mul(BYTES_PER_GIB) {
            Some(bytes) => bytes,
            None => u64::MAX,
        };
        CacheRepo { path, ttl_days: ttl_days as i64, max_size_bytes }
    }

    /// The record that a read at a live row returns: the row with one more
    /// hit. The caller stores the new count with `UPDATE_HITS`.
    pub fn record_hit(
        &self,
        key: String,
        value_json: String,
        created_at: i64,
        expires_at: i64,
        stored_hits: i64,
    ) -> (record: CacheRecord)
        ensures
            record.key == key,
            record.value_json == value_json,
            record.created_at == created_at,
            record.expires_at == expires_at,
            record.hits == hits_after_read(stored_hits),
    {
        let hits: u64 = if stored_hits < 0 {
            1
        } else {
            stored_hits as u64 + 1
        };
        CacheRecord { key, value_json, created_at, expires_at, hits }
    }

    /// The timestamps of a row written at the second `now`.
    pub fn row_times(&self, now: i64) -> (times: RowTimes)
        ensures
            times.created_at == now,
            times.expires_at == expiry_second(now, self.ttl_days),
    {
        let days: i128 = self.ttl_days as i128;
        assert(-0x8000_0000_0000_0000 * 86_400 <= days * 86_400 <= 0x8000_0000_0000_0000 * 86_400)
            by (nonlinear_arith)
            requires
                -0x8000_0000_0000_0000 <= days <= 0x8000_0000_0000_0000,
        ;
        let lifetime: i128 = days * 86_400;
        let end: i128 = now as i128 + lifetime;
        let expires_at: i64 = if end > i64::MAX as i128 {
            i64::MAX
        } else if end < i64::MIN as i128 {
            i64::MIN
        } else {
            end as i64
        };
        RowTimes { created_at: now, expires_at }
    }

    /// Whether a database file of `size` bytes is over the budget, so that
    /// the oldest rows are dropped after a write. A budget of zero bounds
    /// nothing.
    pub open spec fn over_budget(self, size: u64) -> bool {
        self.max_size_bytes != 0 && size > self.max_size_bytes
    }

    /// Whether the oldest rows are to be dropped, given the size of the
    /// database file in bytes.
    pub fn needs_eviction(&self, size: u64) -> (evict: bool)
        ensures
            evict == self.over_budget(size),
    {
        self.max_size_bytes != 0 && size > self.max_size_bytes
    }
}

} // verus!
