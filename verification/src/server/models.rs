//! Records of the sync server's database.
use vstd::prelude::*;

verus! {

/// A registered account.
#[derive(Debug, Clone)]
pub struct User {
    pub id: String,
    pub email: String,
    pub created_at: i64,
}

/// A device that an account has used; `device_type` is "desktop",
/// "laptop", "mobile" or "tablet".
#[derive(Debug, Clone)]
pub struct Device {
    pub id: String,
    pub user_id: String,
    pub device_name: String,
    pub device_type: String,
    pub revoked: bool,
    pub last_seen_at: i64,
    pub created_at: i64,
}

/// One recorded synchronisation; `sync_type` is "push", "pull", "full" or "sync".
#[derive(Debug, Clone)]
pub struct SyncHistoryEntry {
    pub id: String,
    pub user_id: String,
    pub sync_type: String,
    pub pushed_count: i32,
    pub pulled_count: i32,
    pub conflict_count: i32,
    pub error: Option<String>,
    pub duration_ms: i64,
    pub created_at: i64,
}

/// A note as the server stores it, with the client's display fields.
#[derive(Debug, Clone)]
pub struct Note {
    pub id: String,
    pub user_id: String,
    pub workspace_id: Option<String>,
    pub title: String,
    pub content: String,
    pub folder_id: Option<String>,
    pub is_deleted: bool,
    pub deleted_at: Option<i64>,
    pub created_at: i64,
    pub updated_at: i64,
    pub server_ver: i32,
    pub device_id: Option<String>,
    pub updated_by_device: Option<String>,
    pub excerpt: Option<String>,
    pub markdown_cache: Option<String>,
    pub is_favorite: bool,
    pub is_pinned: bool,
    pub author: Option<String>,
    pub word_count: i32,
    pub read_time_minutes: i32,
}

/// A folder as the server stores it.
#[derive(Debug, Clone)]
pub struct Folder {
    pub id: String,
    pub user_id: String,
    pub workspace_id: Option<String>,
    pub name: String,
    pub parent_id: Option<String>,
    pub created_at: i64,
    pub updated_at: i64,
    pub is_deleted: bool,
    pub deleted_at: Option<i64>,
    pub server_ver: i32,
    pub device_id: Option<String>,
    pub updated_by_device: Option<String>,
}

/// A tag as the server stores it.
#[derive(Debug, Clone)]
pub struct Tag {
    pub id: String,
    pub user_id: String,
    pub workspace_id: Option<String>,
    pub name: String,
    pub color: Option<String>,
    pub created_at: i64,
    pub updated_at: i64,
    pub is_deleted: bool,
    pub deleted_at: Option<i64>,
    pub server_ver: i32,
    pub device_id: Option<String>,
    pub updated_by_device: Option<String>,
}

/// A snapshot (saved version) of a note.
#[derive(Debug, Clone)]
pub struct NoteVersion {
    pub id: String,
    pub note_id: String,
    pub user_id: String,
    pub workspace_id: Option<String>,
    pub title: String,
    pub content: String,
    pub snapshot_name: Option<String>,
    pub created_at: i64,
    pub server_ver: i32,
    pub device_id: Option<String>,
}

/// A tag attached to a note.
#[derive(Debug, Clone)]
pub struct NoteTagRelation {
    pub note_id: String,
    pub tag_id: String,
    pub user_id: String,
    pub workspace_id: Option<String>,
    pub created_at: i64,
    pub is_deleted: bool,
    pub deleted_at: Option<i64>,
}

/// A workspace: a separate space of notes, folders and tags of one account.
#[derive(Debug, Clone)]
pub struct Workspace {
    pub id: String,
    pub user_id: String,
    pub name: String,
    pub description: Option<String>,
    pub icon: Option<String>,
    pub color: Option<String>,
    pub is_default: bool,
    pub sort_order: i32,
    pub is_deleted: bool,
    pub deleted_at: Option<i64>,
    pub created_at: i64,
    pub updated_at: i64,
    pub server_ver: i32,
    pub device_id: Option<String>,
    pub updated_by_device: Option<String>,
}

/// Body of a request that creates a workspace.
#[derive(Debug, Clone)]
pub struct CreateWorkspaceRequest {
    pub name: String,
    pub description: Option<String>,
    pub icon: Option<String>,
    pub color: Option<String>,
}

/// Body of a request that changes a workspace; absent fields stay as they are.
#[derive(Debug, Clone)]
pub struct UpdateWorkspaceRequest {
    pub name: Option<String>,
    pub description: Option<String>,
    pub icon: Option<String>,
    pub color: Option<String>,
}

/// A lock that one device holds while it synchronises.
#[derive(Debug)]
pub struct SyncLock {
    pub id: String,
    pub user_id: String,
    pub device_id: String,
    pub workspace_id: Option<String>,
    pub acquired_at: i64,
    pub expires_at: i64,
}

/// A copy of an optional text.
pub fn clone_opt_string(o: &Option<String>) -> (r: Option<String>)
    ensures
        r == *o,
{
    match o {
        Some(s) => Some(s.clone()),
        None => None,
    }
}

impl Clone for SyncLock {
    fn clone(&self) -> (r: Self)
        ensures
            r == *self,
    {
        SyncLock {
            id: self.id.clone(),
            user_id: self.user_id.clone(),
            device_id: self.device_id.clone(),
            workspace_id: clone_opt_string(&self.workspace_id),
            acquired_at: self.acquired_at,
            expires_at: self.expires_at,
        }
    }
}

/// What the server does with a pushed note that is older than its own copy.
#[derive(Debug, Clone, Copy, PartialEq, Eq, Structural, Default)]
pub enum ConflictResolutionStrategy {
    /// Keep both: the pushed text is saved as a conflict copy.
    #[default]
    KeepBoth,
    /// The server's version wins.
    KeepServer,
    /// The pushed version wins.
    KeepLocal,
    /// Nothing is written; the user merges by hand.
    ManualMerge,
}

} // verus!
