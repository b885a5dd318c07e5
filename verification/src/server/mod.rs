//! The sync server: its configuration, models, request handling rules
//! and services.
pub mod config;
pub mod handlers;
pub mod middleware;
pub mod models;
pub mod services;
