//! Workspaces as the desktop client keeps them.
use vstd::prelude::*;
use crate::clock::{new_uuid_v4, now_timestamp, uuid_v4_text, MAX_TIMESTAMP, MIN_TIMESTAMP};

verus! {

/// A workspace of the client.
#[derive(Debug, Clone)]
pub struct Workspace {
    pub id: String,
    pub user_id: String,
    pub name: String,
    pub description: Option<String>,
    pub icon: Option<String>,
    pub color: Option<String>,
    pub is_default: bool,
    /// The workspace shown now.
    pub is_current: bool,
    pub sort_order: i32,
    pub created_at: i64,
    pub updated_at: i64,
    pub is_deleted: bool,
    pub deleted_at: Option<i64>,
    pub server_ver: i32,
    pub is_dirty: bool,
    pub last_synced_at: Option<i64>,
}

/// Body of a request that creates a workspace.
#[derive(Debug, Clone)]
pub struct CreateWorkspaceRequest {
    pub name: String,
    pub description: Option<String>,
    pub icon: Option<String>,
    pub color: Option<String>,
}

/// Body of a request that changes a workspace; absent fields stay as they are.
#[derive(Debug, Clone)]
pub struct UpdateWorkspaceRequest {
    pub id: String,
    pub name: Option<String>,
    pub description: Option<String>,
    pub icon: Option<String>,
    pub color: Option<String>,
}

/// `w` is a fresh workspace made at `now`: not current, first in order, not
/// deleted, dirty and never synced.
pub open spec fn fresh_workspace(w: Workspace, now: i64) -> bool {
    &&& !w.is_current
    &&& w.sort_order == 0
    &&& w.created_at == now
    &&& w.updated_at == now
    &&& !w.is_deleted
    &&& w.deleted_at is None
    &&& w.server_ver == 0
    &&& w.is_dirty
    &&& w.last_synced_at is None
}

impl Workspace {
    /// A new workspace with identifier `id`, made at `now`.
    pub fn new_at(
        id: String,
        now: i64,
        user_id: String,
        name: String,
        description: Option<String>,
        icon: Option<String>,
        color: Option<String>,
        is_default: bool,
    ) -> (r: Workspace)
        ensures
            r.id == id,
            r.user_id == user_id,
            r.name == name,
            r.description == description,
            r.icon == icon,
            r.color == color,
            r.is_default == is_default,
            fresh_workspace(r, now),
    {
        Workspace {
            id,
            user_id,
            name,
            description,
            icon,
            color,
            is_default,
            is_current: false,
            sort_order: 0,
            created_at: now,
            updated_at: now,
            is_deleted: false,
            deleted_at: None,
            server_ver: 0,
            is_dirty: true,
            last_synced_at: None,
        }
    }

    /// A new workspace, default or not, with a fresh random identifier,
    /// made now.
    pub fn new_with_default(
        user_id: String,
        name: String,
        description: Option<String>,
        icon: Option<String>,
        color: Option<String>,
        is_default: bool,
    ) -> (r: Workspace)
        ensures
            uuid_v4_text(r.id@),
            MIN_TIMESTAMP <= r.created_at <= MAX_TIMESTAMP,
            r.user_id == user_id,
            r.name == name,
            r.description == description,
            r.icon == icon,
            r.color == color,
            r.is_default == is_default,
            fresh_workspace(r, r.created_at),
    {
        let now = now_timestamp();
        let id = new_uuid_v4();
        Self::new_at(id, now, user_id, name, description, icon, color, is_default)
    }

    /// A new workspace that is not the default one.
    pub fn new(
        user_id: String,
        name: String,
        description: Option<String>,
        icon: Option<String>,
        color: Option<String>,
    ) -> (r: Workspace)
        ensures
            uuid_v4_text(r.id@),
            MIN_TIMESTAMP <= r.created_at <= MAX_TIMESTAMP,
            r.user_id == user_id,
            r.name == name,
            r.description == description,
            r.icon == icon,
            r.color == color,
            !r.is_default,
            fresh_workspace(r, r.created_at),
    {
        Self::new_with_default(user_id, name, description, icon, color, false)
    }
}

} // verus!
