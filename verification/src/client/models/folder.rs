//! Folders as the desktop client keeps them.
use vstd::prelude::*;
use crate::clock::{new_uuid_v4, now_timestamp, uuid_v4_text, MAX_TIMESTAMP, MIN_TIMESTAMP};

verus! {

/// A folder of the client; a folder without parent is at the top.
#[derive(Debug, Clone)]
pub struct Folder {
    pub id: String,
    pub name: String,
    pub parent_id: Option<String>,
    pub icon: Option<String>,
    pub color: Option<String>,
    /// Position among its siblings.
    pub sort_order: i32,
    pub is_deleted: bool,
    pub created_at: i64,
    pub updated_at: i64,
    pub deleted_at: Option<i64>,
    pub server_ver: i32,
    pub is_dirty: bool,
    pub last_synced_at: Option<i64>,
}

/// Body of a request that creates a folder.
#[derive(Debug, Clone)]
pub struct CreateFolderRequest {
    pub name: String,
    pub parent_id: Option<String>,
    pub color: Option<String>,
    pub icon: Option<String>,
}

/// Body of a request that changes a folder; absent fields stay as they are.
#[derive(Debug, Clone)]
pub struct UpdateFolderRequest {
    pub id: String,
    pub name: Option<String>,
    pub parent_id: Option<String>,
    pub color: Option<String>,
    pub icon: Option<String>,
    pub sort_order: Option<i32>,
}

/// Body of a request that moves a folder.
#[derive(Debug, Clone)]
pub struct MoveFolderRequest {
    pub id: String,
    pub new_parent_id: Option<String>,
    pub new_sort_order: Option<i32>,
}

/// Body of a request that moves notes into a folder (out of any folder
/// when none is given).
#[derive(Debug, Clone)]
pub struct MoveNotesRequest {
    pub note_ids: Vec<String>,
    pub folder_id: Option<String>,
}

/// `f` is a fresh folder made at `now`: first among its siblings, not
/// deleted, dirty and never synced.
pub open spec fn fresh_folder(f: Folder, now: i64) -> bool {
    &&& f.sort_order == 0
    &&& !f.is_deleted
    &&& f.created_at == now
    &&& f.updated_at == now
    &&& f.deleted_at is None
    &&& f.server_ver == 0
    &&& f.is_dirty
    &&& f.last_synced_at is None
}

impl Folder {
    /// A new folder with identifier `id`, made at `now`.
    pub fn new_at(
        id: String,
        now: i64,
        name: String,
        parent_id: Option<String>,
        color: Option<String>,
        icon: Option<String>,
    ) -> (r: Folder)
        ensures
            r.id == id,
            r.name == name,
            r.parent_id == parent_id,
            r.color == color,
            r.icon == icon,
            fresh_folder(r, now),
    {
        Folder {
            id,
            name,
            parent_id,
            icon,
            color,
            sort_order: 0,
            is_deleted: false,
            created_at: now,
            updated_at: now,
            deleted_at: None,
            server_ver: 0,
            is_dirty: true,
            last_synced_at: None,
        }
    }

    /// A new folder with a fresh random identifier, made now.
    pub fn new(name: String, parent_id: Option<String>, color: Option<String>, icon: Option<String>) -> (r: Folder)
        ensures
            uuid_v4_text(r.id@),
            MIN_TIMESTAMP <= r.created_at <= MAX_TIMESTAMP,
            r.name == name,
            r.parent_id == parent_id,
            r.color == color,
            r.icon == icon,
            fresh_folder(r, r.created_at),
    {
        let now = now_timestamp();
        let id = new_uuid_v4();
        Self::new_at(id, now, name, parent_id, color, icon)
    }

    /// A new top-level folder without color or icon.
    pub fn root(name: String) -> (r: Folder)
        ensures
            uuid_v4_text(r.id@),
            MIN_TIMESTAMP <= r.created_at <= MAX_TIMESTAMP,
            r.name == name,
            r.parent_id is None,
            r.color is None,
            r.icon is None,
            fresh_folder(r, r.created_at),
    {
        Self::new(name, None, None, None)
    }
}

} // verus!
