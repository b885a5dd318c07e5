//! Listing a workspace's notes, and the snapshot endpoints that are not
//! offered yet.
use vstd::prelude::*;
use crate::server::handlers::ErrorResponse;

verus! {

/// Body of a request that saves a snapshot of a note.
#[derive(Debug, Clone)]
pub struct CreateSnapshotRequest {
    pub title: String,
    pub content: String,
    pub snapshot_name: Option<String>,
}

/// Body of a request that lists notes; the default workspace when no
/// workspace is given.
#[derive(Debug, Clone)]
pub struct ListNotesRequest {
    pub workspace_id: Option<String>,
    pub limit: Option<u32>,
    pub offset: Option<u32>,
}

/// Most notes one page holds.
pub const MAX_NOTES_PAGE: u32 = 1000u32;

/// Notes per page when none is asked for.
pub const DEFAULT_NOTES_PAGE: u32 = 100u32;

/// The page asked for: its size (100 by default, at most 1000) and its
/// offset (0 by default).
pub fn notes_page(limit: Option<u32>, offset: Option<u32>) -> (r: (i64, i64))
    ensures
        r.0 == (match limit {
            Some(l) => if l < MAX_NOTES_PAGE { l } else { MAX_NOTES_PAGE },
            None => DEFAULT_NOTES_PAGE,
        }),
        r.1 == (match offset {
            Some(o) => o,
            None => 0u32,
        }),
{
    let l = match limit {
        Some(l) => if l < MAX_NOTES_PAGE { l } else { MAX_NOTES_PAGE },
        None => DEFAULT_NOTES_PAGE,
    };
    let o = match offset {
        Some(o) => o,
        None => 0,
    };
    (l as i64, o as i64)
}

/// The answer of the snapshot endpoints, which are not offered yet.
pub fn snapshots_unavailable() -> (r: ErrorResponse)
    ensures
        r.status is None,
        r.error_code is None,
        r.error@ == "快照功能暂未实现"@,
{
    ErrorResponse::new("快照功能暂未实现")
}

} // verus!
