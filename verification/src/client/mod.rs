//! The desktop client: its models and the rules of its local store.
pub mod models;
pub mod repositories;
