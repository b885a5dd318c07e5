//! Services of the sync server.
pub mod auth_service;
pub mod device_identifier_service;
pub mod device_service;
pub mod profile_service;
pub mod sync_history_service;
pub mod sync_lock_service;
pub mod token_blacklist;
pub mod token_service;
