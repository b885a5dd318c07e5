//! Tags of the client.
use vstd::prelude::*;

verus! {

/// A tag.
#[derive(Debug, Clone)]
pub struct Tag {
    pub id: String,
    pub name: String,
    pub color: Option<String>,
    pub created_at: i64,
    pub updated_at: i64,
}

/// Body of a request that creates a tag.
#[derive(Debug, Clone)]
pub struct CreateTagRequest {
    pub name: String,
    pub color: Option<String>,
}

/// Body of a request that changes a tag; absent fields stay as they are.
#[derive(Debug, Clone)]
pub struct UpdateTagRequest {
    pub name: Option<String>,
    pub color: Option<String>,
}

/// Body of a request that adds a tag to a note or removes it.
#[derive(Debug, Clone)]
pub struct NoteTagRequest {
    pub note_id: String,
    pub tag_id: String,
}

} // verus!
