//! The sync history of an account: what each sync pushed, pulled and
//! conflicted, kept for ninety days and at most a thousand records.
use vstd::prelude::*;
use crate::clock::{MAX_TIMESTAMP, MIN_TIMESTAMP};
use crate::server::models::SyncHistoryEntry;

verus! {

/// Records a listing returns at most.
pub const MAX_HISTORY_PAGE: usize = 100usize;

/// Records a listing returns when no number is asked for.
pub const DEFAULT_HISTORY_PAGE: usize = 50usize;

/// Records kept per account.
pub const MAX_HISTORY_RECORDS: i64 = 1000i64;

/// Days a record is kept.
pub const HISTORY_RETENTION_DAYS: i64 = 90i64;

/// Records created before this time are deleted by a cleanup at `now`.
pub fn history_cutoff(now: i64) -> (r: i64)
    requires
        MIN_TIMESTAMP <= now <= MAX_TIMESTAMP,
    ensures
        r == now - HISTORY_RETENTION_DAYS * 86400,
{
    now - HISTORY_RETENTION_DAYS * 24 * 60 * 60
}

/// How many of the oldest records a cleanup deletes when the account has
/// `count` records left: those beyond the thousand kept.
pub fn history_excess(count: i64) -> (r: i64)
    ensures
        r == (if count > MAX_HISTORY_RECORDS {
            count - MAX_HISTORY_RECORDS
        } else {
            0
        }),
        r >= 0,
        count - r <= MAX_HISTORY_RECORDS,
{
    if count > MAX_HISTORY_RECORDS {
        count - MAX_HISTORY_RECORDS
    } else {
        0
    }
}

/// The record of one sync, as it is stored.
pub fn history_entry(
    id: String,
    user_id: &str,
    sync_type: &str,
    pushed_count: i32,
    pulled_count: i32,
    conflict_count: i32,
    error: Option<String>,
    duration_ms: i64,
    now: i64,
) -> (r: SyncHistoryEntry)
    ensures
        r.id == id,
        r.user_id@ == user_id@,
        r.sync_type@ == sync_type@,
        r.pushed_count == pushed_count,
        r.pulled_count == pulled_count,
        r.conflict_count == conflict_count,
        r.error == error,
        r.duration_ms == duration_ms,
        r.created_at == now,
{
    SyncHistoryEntry {
        id,
        user_id: user_id.to_owned(),
        sync_type: sync_type.to_owned(),
        pushed_count,
        pulled_count,
        conflict_count,
        error,
        duration_ms,
        created_at: now,
    }
}

} // verus!
