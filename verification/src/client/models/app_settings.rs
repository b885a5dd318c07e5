//! Settings of the client application.
use vstd::prelude::*;
use crate::clock::{now_timestamp, MAX_TIMESTAMP, MIN_TIMESTAMP};

verus! {

/// The application's global settings (one row).
#[derive(Debug, Clone)]
pub struct AppSettings {
    pub id: i32,
    pub default_server_url: String,
    pub auto_sync_enabled: bool,
    pub sync_interval_minutes: i32,
    /// "system", "light" or "dark".
    pub theme: String,
    pub language: String,
    pub updated_at: i64,
}

/// A change of settings; absent fields stay as they are.
#[derive(Debug, Clone)]
pub struct UpdateAppSettings {
    pub default_server_url: Option<String>,
    pub auto_sync_enabled: Option<bool>,
    pub sync_interval_minutes: Option<i32>,
    pub theme: Option<String>,
    pub language: Option<String>,
}

/// `s` holds the default settings, stamped `now`.
pub open spec fn default_settings(s: AppSettings, now: i64) -> bool {
    &&& s.id == 1
    &&& s.default_server_url@ == "https://api.noteapp.com"@
    &&& s.auto_sync_enabled
    &&& s.sync_interval_minutes == 5
    &&& s.theme@ == "system"@
    &&& s.language@ == "zh-CN"@
    &&& s.updated_at == now
}

impl AppSettings {
    /// The default settings, stamped `now`.
    pub fn default_at(now: i64) -> (r: AppSettings)
        ensures
            default_settings(r, now),
    {
        AppSettings {
            id: 1,
            default_server_url: "https://api.noteapp.com".to_owned(),
            auto_sync_enabled: true,
            sync_interval_minutes: 5,
            theme: "system".to_owned(),
            language: "zh-CN".to_owned(),
            updated_at: now,
        }
    }
}

impl Default for AppSettings {
    fn default() -> (r: AppSettings)
        ensures
            MIN_TIMESTAMP <= r.updated_at <= MAX_TIMESTAMP,
            default_settings(r, r.updated_at),
    {
        AppSettings::default_at(now_timestamp())
    }
}

} // verus!
