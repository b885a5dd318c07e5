//! What the client sends to and receives from the sync endpoint, and the
//! report it shows after a sync.
use vstd::prelude::*;
use crate::client::models::note::Note;
use crate::client::models::folder::Folder;
use crate::client::models::snapshot::NoteSnapshot;
use vstd::std_specs::convert::FromSpecImpl;

verus! {

/// Which records a sync covers.
#[derive(Debug, Clone, Copy, PartialEq, Eq, Structural)]
pub enum SyncType {
    Notes,
    Folders,
    Tags,
    Snapshots,
    All,
}

/// A note as the server exchanges it.
#[derive(Debug, Clone)]
pub struct ServerNote {
    pub id: String,
    pub user_id: String,
    pub title: String,
    pub content: String,
    pub folder_id: Option<String>,
    pub is_deleted: bool,
    pub deleted_at: Option<i64>,
    pub created_at: i64,
    pub updated_at: i64,
    pub server_ver: i32,
    pub excerpt: Option<String>,
    pub markdown_cache: Option<String>,
    pub is_favorite: bool,
    pub is_pinned: bool,
    pub author: Option<String>,
    pub word_count: i32,
    pub read_time_minutes: i32,
}

/// A folder as the server exchanges it.
#[derive(Debug, Clone)]
pub struct ServerFolder {
    pub id: String,
    pub user_id: String,
    pub name: String,
    pub parent_id: Option<String>,
    pub created_at: i64,
    pub updated_at: i64,
    pub is_deleted: bool,
    pub deleted_at: Option<i64>,
    pub server_ver: i32,
}

/// A tag as the server exchanges it.
#[derive(Debug, Clone)]
pub struct ServerTag {
    pub id: String,
    pub user_id: String,
    pub name: String,
    pub color: Option<String>,
    pub created_at: i64,
    pub updated_at: i64,
    pub is_deleted: bool,
    pub deleted_at: Option<i64>,
    pub server_ver: i32,
}

/// A note snapshot as the server exchanges it.
#[derive(Debug, Clone)]
pub struct ServerNoteSnapshot {
    pub id: String,
    pub note_id: String,
    pub title: String,
    pub content: String,
    pub snapshot_name: Option<String>,
    pub created_at: i64,
    pub server_ver: i32,
}

/// A tag link as the server exchanges it.
#[derive(Debug, Clone)]
pub struct ServerNoteTagRelation {
    pub note_id: String,
    pub tag_id: String,
    pub user_id: String,
    pub created_at: i64,
}

/// A tag link as the client keeps it.
#[derive(Debug, Clone)]
pub struct NoteTagRelation {
    pub note_id: String,
    pub tag_id: String,
    pub user_id: String,
    pub created_at: i64,
    pub is_deleted: bool,
    pub deleted_at: Option<i64>,
}

/// What the server does with a pushed note that is older than its copy.
#[derive(Debug, Clone, Copy, PartialEq, Eq, Structural, Default)]
pub enum ConflictStrategy {
    /// Keep both: the pushed text is saved as a conflict copy.
    #[default]
    KeepBoth,
    KeepServer,
    KeepLocal,
}

/// A sync request of the client.
#[derive(Debug, Clone)]
pub struct SyncRequest {
    pub notes: Option<Vec<ServerNote>>,
    pub folders: Option<Vec<ServerFolder>>,
    pub tags: Option<Vec<ServerTag>>,
    pub snapshots: Option<Vec<ServerNoteSnapshot>>,
    pub note_tags: Option<Vec<ServerNoteTagRelation>>,
    pub last_sync_at: Option<i64>,
    pub conflict_resolution: ConflictStrategy,
    pub device_id: Option<String>,
}

/// A pushed record that the server did not write.
#[derive(Debug, Clone)]
pub struct ConflictInfo {
    pub id: String,
    pub entity_type: String,
    pub local_version: i32,
    pub server_version: i32,
    pub title: String,
}

/// The server's answer to a sync request.
#[derive(Debug, Clone)]
pub struct SyncResponse {
    pub status: String,
    pub server_time: i64,
    pub last_sync_at: i64,
    pub upserted_notes: Vec<ServerNote>,
    pub upserted_folders: Vec<ServerFolder>,
    pub upserted_tags: Vec<ServerTag>,
    pub upserted_snapshots: Vec<ServerNoteSnapshot>,
    pub upserted_note_tags: Vec<ServerNoteTagRelation>,
    pub deleted_note_ids: Vec<String>,
    pub deleted_folder_ids: Vec<String>,
    pub deleted_tag_ids: Vec<String>,
    pub pushed_notes: usize,
    pub pushed_folders: usize,
    pub pushed_tags: usize,
    pub pushed_snapshots: usize,
    pub pushed_note_tags: usize,
    pub pushed_total: usize,
    pub pulled_notes: usize,
    pub pulled_folders: usize,
    pub pulled_tags: usize,
    pub pulled_snapshots: usize,
    pub pulled_note_tags: usize,
    pub pulled_total: usize,
    pub conflicts: Vec<ConflictInfo>,
}

/// The sync state shown to the user.
#[derive(Debug, Clone)]
pub struct SyncStatus {
    pub last_sync_at: Option<i64>,
    pub pending_count: i32,
    pub conflict_count: i32,
    pub last_error: Option<String>,
}

/// What a sync did.
#[derive(Debug, Clone, Default)]
pub struct SyncReport {
    pub success: bool,
    pub pushed_notes: usize,
    pub pushed_folders: usize,
    pub pushed_tags: usize,
    pub pushed_snapshots: usize,
    pub pushed_note_tags: usize,
    pub pulled_notes: usize,
    pub pulled_folders: usize,
    pub pulled_tags: usize,
    pub pulled_snapshots: usize,
    pub pulled_note_tags: usize,
    pub deleted_notes: usize,
    pub deleted_folders: usize,
    pub deleted_tags: usize,
    pub conflict_count: usize,
    pub error: Option<String>,
    pub pushed_count: Option<usize>,
    pub pulled_count: Option<usize>,
}

impl SyncReport {
    /// Records pushed, of every kind.
    pub open spec fn pushed_sum(self) -> int {
        self.pushed_notes + self.pushed_folders + self.pushed_tags + self.pushed_snapshots
            + self.pushed_note_tags
    }

    /// Records pulled, of every kind.
    pub open spec fn pulled_sum(self) -> int {
        self.pulled_notes + self.pulled_folders + self.pulled_tags + self.pulled_snapshots
            + self.pulled_note_tags
    }

    /// Total of pushed records.
    pub fn total_pushed(&self) -> (r: usize)
        requires
            self.pushed_sum() <= usize::MAX,
        ensures
            r == self.pushed_sum(),
    {
        self.pushed_notes + self.pushed_folders + self.pushed_tags + self.pushed_snapshots
            + self.pushed_note_tags
    }

    /// Total of pulled records.
    pub fn total_pulled(&self) -> (r: usize)
        requires
            self.pulled_sum() <= usize::MAX,
        ensures
            r == self.pulled_sum(),
    {
        self.pulled_notes + self.pulled_folders + self.pulled_tags + self.pulled_snapshots
            + self.pulled_note_tags
    }
}

/// The note as the server exchanges it (the server fills in the account).
pub fn server_note_from(note: Note) -> (r: ServerNote)
    ensures
        r.id == note.id,
        r.user_id@.len() == 0,
        r.title == note.title,
        r.content == note.content,
        r.folder_id == note.folder_id,
        r.is_deleted == note.is_deleted,
        r.deleted_at == note.deleted_at,
        r.created_at == note.created_at,
        r.updated_at == note.updated_at,
        r.server_ver == note.server_ver,
        r.excerpt == note.excerpt,
        r.markdown_cache == note.markdown_cache,
        r.is_favorite == note.is_favorite,
        r.is_pinned == note.is_pinned,
        r.author == note.author,
        r.word_count == note.word_count as i32,
        r.read_time_minutes == note.read_time_minutes as i32,
{
    {
        ServerNote {
            id: note.id,
            user_id: String::new(),
            title: note.title,
            content: note.content,
            folder_id: note.folder_id,
            is_deleted: note.is_deleted,
            deleted_at: note.deleted_at,
            created_at: note.created_at,
            updated_at: note.updated_at,
            server_ver: note.server_ver,
            excerpt: note.excerpt,
            markdown_cache: note.markdown_cache,
            is_favorite: note.is_favorite,
            is_pinned: note.is_pinned,
            author: note.author,
            word_count: note.word_count as i32,
            read_time_minutes: note.read_time_minutes as i32,
        }
    }
}


/// The client's note for a note the server sent, synced at `synced_at`:
/// clean, with the server's fields (counts cast back to unsigned).
pub fn note_from_server(note: ServerNote, synced_at: i64) -> (r: Note)
    ensures
        r.id == note.id,
        r.title == note.title,
        r.content == note.content,
        r.folder_id == note.folder_id,
        r.workspace_id is None,
        r.is_deleted == note.is_deleted,
        r.deleted_at == note.deleted_at,
        r.created_at == note.created_at,
        r.updated_at == note.updated_at,
        r.server_ver == note.server_ver,
        r.excerpt == note.excerpt,
        r.markdown_cache == note.markdown_cache,
        r.is_favorite == note.is_favorite,
        r.is_pinned == note.is_pinned,
        r.author == note.author,
        r.word_count == note.word_count as u32,
        r.read_time_minutes == note.read_time_minutes as u32,
        !r.is_dirty,
        r.last_synced_at == Some(synced_at),
{
    Note {
        id: note.id,
        title: note.title,
        content: note.content,
        folder_id: note.folder_id,
        workspace_id: None,
        is_deleted: note.is_deleted,
        deleted_at: note.deleted_at,
        created_at: note.created_at,
        updated_at: note.updated_at,
        server_ver: note.server_ver,
        excerpt: note.excerpt,
        markdown_cache: note.markdown_cache,
        is_favorite: note.is_favorite,
        is_pinned: note.is_pinned,
        author: note.author,
        word_count: note.word_count as u32,
        read_time_minutes: note.read_time_minutes as u32,
        is_dirty: false,
        last_synced_at: Some(synced_at),
    }
}

/// The folder as the server exchanges it (the server fills in the account).
pub fn server_folder_from(folder: Folder) -> (r: ServerFolder)
    ensures
        r.id == folder.id,
        r.user_id@.len() == 0,
        r.name == folder.name,
        r.parent_id == folder.parent_id,
        r.created_at == folder.created_at,
        r.updated_at == folder.updated_at,
        r.is_deleted == folder.is_deleted,
        r.deleted_at == folder.deleted_at,
        r.server_ver == folder.server_ver,
{
    {
        ServerFolder {
            id: folder.id,
            user_id: String::new(),
            name: folder.name,
            parent_id: folder.parent_id,
            created_at: folder.created_at,
            updated_at: folder.updated_at,
            is_deleted: folder.is_deleted,
            deleted_at: folder.deleted_at,
            server_ver: folder.server_ver,
        }
    }
}


/// The client's folder for a folder the server sent, synced at `synced_at`:
/// clean, without icon or colour, first in order.
pub fn folder_from_server(folder: ServerFolder, synced_at: i64) -> (r: Folder)
    ensures
        r.id == folder.id,
        r.name == folder.name,
        r.parent_id == folder.parent_id,
        r.created_at == folder.created_at,
        r.updated_at == folder.updated_at,
        r.is_deleted == folder.is_deleted,
        r.deleted_at == folder.deleted_at,
        r.server_ver == folder.server_ver,
        !r.is_dirty,
        r.last_synced_at == Some(synced_at),
        r.icon is None,
        r.color is None,
        r.sort_order == 0,
{
    Folder {
        id: folder.id,
        name: folder.name,
        parent_id: folder.parent_id,
        created_at: folder.created_at,
        updated_at: folder.updated_at,
        is_deleted: folder.is_deleted,
        deleted_at: folder.deleted_at,
        server_ver: folder.server_ver,
        is_dirty: false,
        last_synced_at: Some(synced_at),
        icon: None,
        color: None,
        sort_order: 0,
    }
}

impl From<NoteSnapshot> for ServerNoteSnapshot {
    fn from(s: NoteSnapshot) -> (r: ServerNoteSnapshot) {
        ServerNoteSnapshot {
            id: s.id,
            note_id: s.note_id,
            title: s.title,
            content: s.content,
            snapshot_name: s.snapshot_name,
            created_at: s.created_at,
            server_ver: s.server_ver,
        }
    }
}

impl FromSpecImpl<NoteSnapshot> for ServerNoteSnapshot {
    open spec fn obeys_from_spec() -> bool {
        true
    }

    open spec fn from_spec(s: NoteSnapshot) -> ServerNoteSnapshot {
        ServerNoteSnapshot {
            id: s.id,
            note_id: s.note_id,
            title: s.title,
            content: s.content,
            snapshot_name: s.snapshot_name,
            created_at: s.created_at,
            server_ver: s.server_ver,
        }
    }
}

/// The client's snapshot for one the server sent, synced at `synced_at`.
pub fn snapshot_from_server(s: ServerNoteSnapshot, synced_at: i64) -> (r: NoteSnapshot)
    ensures
        r.id == s.id,
        r.note_id == s.note_id,
        r.title == s.title,
        r.content == s.content,
        r.snapshot_name == s.snapshot_name,
        r.created_at == s.created_at,
        r.server_ver == s.server_ver,
        !r.is_dirty,
        r.last_synced_at == Some(synced_at),
{
    NoteSnapshot {
        id: s.id,
        note_id: s.note_id,
        title: s.title,
        content: s.content,
        snapshot_name: s.snapshot_name,
        created_at: s.created_at,
        server_ver: s.server_ver,
        is_dirty: false,
        last_synced_at: Some(synced_at),
    }
}

impl From<NoteTagRelation> for ServerNoteTagRelation {
    fn from(rel: NoteTagRelation) -> (r: ServerNoteTagRelation) {
        ServerNoteTagRelation {
            note_id: rel.note_id,
            tag_id: rel.tag_id,
            user_id: rel.user_id,
            created_at: rel.created_at,
        }
    }
}

impl FromSpecImpl<NoteTagRelation> for ServerNoteTagRelation {
    open spec fn obeys_from_spec() -> bool {
        true
    }

    open spec fn from_spec(rel: NoteTagRelation) -> ServerNoteTagRelation {
        ServerNoteTagRelation {
            note_id: rel.note_id,
            tag_id: rel.tag_id,
            user_id: rel.user_id,
            created_at: rel.created_at,
        }
    }
}

impl From<ServerNoteTagRelation> for NoteTagRelation {
    fn from(rel: ServerNoteTagRelation) -> (r: NoteTagRelation) {
        NoteTagRelation {
            note_id: rel.note_id,
            tag_id: rel.tag_id,
            user_id: rel.user_id,
            created_at: rel.created_at,
            is_deleted: false,
            deleted_at: None,
        }
    }
}

impl FromSpecImpl<ServerNoteTagRelation> for NoteTagRelation {
    open spec fn obeys_from_spec() -> bool {
        true
    }

    open spec fn from_spec(rel: ServerNoteTagRelation) -> NoteTagRelation {
        NoteTagRelation {
            note_id: rel.note_id,
            tag_id: rel.tag_id,
            user_id: rel.user_id,
            created_at: rel.created_at,
            is_deleted: false,
            deleted_at: None,
        }
    }
}

} // verus!
