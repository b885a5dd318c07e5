//! Rules of the client's local store.
pub mod folder_repository;
pub mod keybinding_repository;
