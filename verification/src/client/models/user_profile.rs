//! The profile of the signed-in user, as the client keeps it.
use vstd::prelude::*;
use crate::clock::{now_timestamp, MAX_TIMESTAMP, MIN_TIMESTAMP};

verus! {

/// A user's profile.
#[derive(Debug, Clone)]
pub struct UserProfile {
    /// Row identifier, absent before the profile is stored.
    pub id: Option<i64>,
    pub user_id: String,
    pub username: Option<String>,
    pub phone: Option<String>,
    pub qq: Option<String>,
    pub wechat: Option<String>,
    /// The avatar image, base64-encoded.
    pub avatar_data: Option<String>,
    pub avatar_mime_type: Option<String>,
    pub bio: Option<String>,
    pub created_at: i64,
    pub updated_at: i64,
}

/// Body of a request that creates a profile.
#[derive(Debug, Clone)]
pub struct CreateProfileRequest {
    pub user_id: String,
    pub username: Option<String>,
    pub phone: Option<String>,
    pub qq: Option<String>,
    pub wechat: Option<String>,
    pub avatar_data: Option<String>,
    pub avatar_mime_type: Option<String>,
    pub bio: Option<String>,
}

/// A change of profile; absent fields stay as they are.
#[derive(Debug, Clone)]
pub struct UpdateProfileRequest {
    pub username: Option<String>,
    pub phone: Option<String>,
    pub qq: Option<String>,
    pub wechat: Option<String>,
    pub avatar_data: Option<String>,
    pub avatar_mime_type: Option<String>,
    pub bio: Option<String>,
}

/// The new value of a field: the requested one when present.
pub open spec fn merged(old: Option<String>, new: Option<String>) -> Option<String> {
    match new {
        Some(v) => Some(v),
        None => old,
    }
}

/// The profile `p` after the change `req` made at `now`.
pub open spec fn profile_updated(p: UserProfile, req: UpdateProfileRequest, now: i64) -> UserProfile {
    UserProfile {
        username: merged(p.username, req.username),
        phone: merged(p.phone, req.phone),
        qq: merged(p.qq, req.qq),
        wechat: merged(p.wechat, req.wechat),
        avatar_data: merged(p.avatar_data, req.avatar_data),
        avatar_mime_type: merged(p.avatar_mime_type, req.avatar_mime_type),
        bio: merged(p.bio, req.bio),
        updated_at: now,
        ..p
    }
}

impl UserProfile {
    /// An empty profile of `user_id`, made at `now`.
    pub fn new_at(user_id: String, now: i64) -> (r: UserProfile)
        ensures
            r == (UserProfile {
                id: None,
                user_id,
                username: None,
                phone: None,
                qq: None,
                wechat: None,
                avatar_data: None,
                avatar_mime_type: None,
                bio: None,
                created_at: now,
                updated_at: now,
            }),
    {
        UserProfile {
            id: None,
            user_id,
            username: None,
            phone: None,
            qq: None,
            wechat: None,
            avatar_data: None,
            avatar_mime_type: None,
            bio: None,
            created_at: now,
            updated_at: now,
        }
    }

    /// An empty profile of `user_id`, made now.
    pub fn new(user_id: String) -> (r: UserProfile)
        ensures
            MIN_TIMESTAMP <= r.created_at <= MAX_TIMESTAMP,
            r == UserProfile::new_spec(user_id, r.created_at),
    {
        Self::new_at(user_id, now_timestamp())
    }

    /// An empty profile of `user_id` made at `now`.
    pub open spec fn new_spec(user_id: String, now: i64) -> UserProfile {
        UserProfile {
            id: None,
            user_id,
            username: None,
            phone: None,
            qq: None,
            wechat: None,
            avatar_data: None,
            avatar_mime_type: None,
            bio: None,
            created_at: now,
            updated_at: now,
        }
    }

    /// The profile a create request describes, made at `now`.
    pub fn from_create_request_at(req: CreateProfileRequest, now: i64) -> (r: UserProfile)
        ensures
            r.id is None,
            r.user_id == req.user_id,
            r.username == req.username,
            r.phone == req.phone,
            r.qq == req.qq,
            r.wechat == req.wechat,
            r.avatar_data == req.avatar_data,
            r.avatar_mime_type == req.avatar_mime_type,
            r.bio == req.bio,
            r.created_at == now,
            r.updated_at == now,
    {
        UserProfile {
            id: None,
            user_id: req.user_id,
            username: req.username,
            phone: req.phone,
            qq: req.qq,
            wechat: req.wechat,
            avatar_data: req.avatar_data,
            avatar_mime_type: req.avatar_mime_type,
            bio: req.bio,
            created_at: now,
            updated_at: now,
        }
    }

    /// The profile a create request describes, made now.
    pub fn from_create_request(req: CreateProfileRequest) -> (r: UserProfile)
        ensures
            MIN_TIMESTAMP <= r.created_at <= MAX_TIMESTAMP,
            r.updated_at == r.created_at,
            r.id is None,
            r.user_id == req.user_id,
            r.username == req.username,
            r.phone == req.phone,
            r.qq == req.qq,
            r.wechat == req.wechat,
            r.avatar_data == req.avatar_data,
            r.avatar_mime_type == req.avatar_mime_type,
            r.bio == req.bio,
    {
        Self::from_create_request_at(req, now_timestamp())
    }

    /// Applies a change made at `now`: present fields replace the stored
    /// ones, and the profile is stamped `now`.
    pub fn update_at(&mut self, req: UpdateProfileRequest, now: i64)
        ensures
            *final(self) == profile_updated(*old(self), req, now),
    {
        if req.username.is_some() {
            self.username = req.username;
        }
        if req.phone.is_some() {
            self.phone = req.phone;
        }
        if req.qq.is_some() {
            self.qq = req.qq;
        }
        if req.wechat.is_some() {
            self.wechat = req.wechat;
        }
        if req.avatar_data.is_some() {
            self.avatar_data = req.avatar_data;
        }
        if req.avatar_mime_type.is_some() {
            self.avatar_mime_type = req.avatar_mime_type;
        }
        if req.bio.is_some() {
            self.bio = req.bio;
        }
        self.updated_at = now;
    }

    /// Applies a change now (see `update_at`).
    pub fn update(&mut self, req: UpdateProfileRequest)
        ensures
            MIN_TIMESTAMP <= final(self).updated_at <= MAX_TIMESTAMP,
            *final(self) == profile_updated(*old(self), req, final(self).updated_at),
    {
        let now = now_timestamp();
        self.update_at(req, now);
    }
}

/// Applying the same change twice is applying it once (but for the time
/// stamp of the second).
pub proof fn lemma_profile_update_idempotent(p: UserProfile, req: UpdateProfileRequest, t1: i64, t2: i64)
    ensures
        profile_updated(profile_updated(p, req, t1), req, t2) == profile_updated(p, req, t2),
{
}

/// A change without fields only stamps the profile.
pub proof fn lemma_profile_empty_update(p: UserProfile, now: i64)
    ensures
        profile_updated(
            p,
            UpdateProfileRequest {
                username: None,
                phone: None,
                qq: None,
                wechat: None,
                avatar_data: None,
                avatar_mime_type: None,
                bio: None,
            },
            now,
        ) == (UserProfile { updated_at: now, ..p }),
{
}

/// A change never alters the identity of the profile nor when it was made.
pub proof fn lemma_profile_update_keeps_identity(p: UserProfile, req: UpdateProfileRequest, now: i64)
    ensures
        profile_updated(p, req, now).id == p.id,
        profile_updated(p, req, now).user_id == p.user_id,
        profile_updated(p, req, now).created_at == p.created_at,
{
}

} // verus!
