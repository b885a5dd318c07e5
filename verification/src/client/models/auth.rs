//! Sign-in of the client: requests to the server and the accounts it keeps.
use vstd::prelude::*;
use crate::client::models::user_profile::UserProfile;

verus! {

/// A login on a server.
#[derive(Debug, Clone)]
pub struct LoginRequest {
    pub email: String,
    pub password: String,
    pub server_url: String,
    pub device_id: Option<String>,
}

/// A registration on a server.
#[derive(Debug, Clone)]
pub struct RegisterRequest {
    pub email: String,
    pub password: String,
    pub server_url: String,
    pub device_id: Option<String>,
}

/// The server's answer to a login or registration.
#[derive(Debug, Clone)]
pub struct AuthResponse {
    pub token: String,
    pub refresh_token: String,
    pub user_id: String,
    pub email: String,
    pub device_id: String,
}

/// A signed-in account.
#[derive(Debug, Clone)]
pub struct User {
    pub id: String,
    pub email: String,
    pub server_url: String,
    pub device_id: String,
    pub last_sync_at: Option<i64>,
}

/// An account with its profile.
#[derive(Debug, Clone)]
pub struct AccountWithProfile {
    pub id: String,
    pub email: String,
    pub server_url: String,
    pub device_id: String,
    pub last_sync_at: Option<i64>,
    pub profile: Option<UserProfile>,
}

/// A token refresh.
#[derive(Debug, Clone)]
pub struct RefreshTokenRequest {
    pub refresh_token: String,
}

/// A refreshed access token.
#[derive(Debug, Clone)]
pub struct TokenResponse {
    pub token: String,
    pub expires_at: i64,
}

/// A logout of one device.
#[derive(Debug, Clone)]
pub struct LogoutRequest {
    pub device_id: String,
}

} // verus!
