//! Snapshots: versions of a note that the user saves by hand.
use vstd::prelude::*;

verus! {

/// A saved version of a note.
#[derive(Debug, Clone)]
pub struct NoteSnapshot {
    pub id: String,
    pub note_id: String,
    pub title: String,
    pub content: String,
    /// A name the user gave the snapshot.
    pub snapshot_name: Option<String>,
    pub created_at: i64,
    pub server_ver: i32,
    pub is_dirty: bool,
    pub last_synced_at: Option<i64>,
}

/// Body of a request that saves a snapshot.
#[derive(Debug, Clone)]
pub struct CreateSnapshotRequest {
    pub note_id: String,
    pub title: String,
    pub content: String,
    pub snapshot_name: Option<String>,
}

/// A snapshot as a list shows it.
#[derive(Debug, Clone)]
pub struct SnapshotListItem {
    pub id: String,
    pub note_id: String,
    pub title: String,
    pub snapshot_name: Option<String>,
    pub created_at: i64,
    /// The creation time, formatted for display.
    pub created_at_display: String,
}

} // verus!
