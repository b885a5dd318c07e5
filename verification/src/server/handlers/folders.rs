//! Listing and creating folders outside a sync.
use vstd::prelude::*;

verus! {

/// Body of a request that creates a folder.
#[derive(Debug, Clone)]
pub struct CreateFolderRequest {
    pub name: String,
    pub parent_id: Option<String>,
}

/// Body of a request that lists folders; the default workspace when no
/// workspace is given.
#[derive(Debug, Clone)]
pub struct ListFoldersRequest {
    pub workspace_id: Option<String>,
}

} // verus!
