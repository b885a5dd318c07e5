//! Where the client keeps its keyboard shortcuts: a JSON file.
use vstd::prelude::*;
use std::path::PathBuf;

verus! {

/// `std::path::PathBuf`, a path of the file system, held as it is.
#[verifier::external_type_specification]
#[verifier::external_body]
pub struct ExPathBuf(PathBuf);

/// The store of the shortcuts; reading and writing the file is the
/// client binary's part.
pub struct KeybindingRepository {
    storage_path: PathBuf,
}

impl KeybindingRepository {
    /// A store that keeps the shortcuts at `storage_path`.
    pub fn new(storage_path: PathBuf) -> (r: KeybindingRepository)
        ensures
            r.path() == storage_path,
    {
        KeybindingRepository { storage_path }
    }

    /// The path of the shortcuts file.
    pub closed spec fn path(&self) -> PathBuf {
        self.storage_path
    }

    /// The path of the shortcuts file.
    pub fn storage_path(&self) -> (r: &PathBuf)
        ensures
            *r == self.path(),
    {
        &self.storage_path
    }
}

} // verus!
