//! Models of the desktop client.
pub mod app_settings;
pub mod auth;
pub mod error;
pub mod folder;
pub mod keybinding;
pub mod note;
pub mod snapshot;
pub mod sync;
pub mod tag;
pub mod user_profile;
pub mod workspace;
