//! Stored user profiles and the update statement that changes them.
use vstd::prelude::*;
use crate::server::handlers::profile::ProfileSyncRequest;

verus! {

/// A user's profile as stored.
#[derive(Debug, Clone)]
pub struct UserProfile {
    pub id: String,
    pub user_id: String,
    pub username: Option<String>,
    pub phone: Option<String>,
    pub qq: Option<String>,
    pub wechat: Option<String>,
    /// The avatar image, base64-encoded.
    pub avatar_data: Option<String>,
    pub avatar_mime_type: Option<String>,
    pub bio: Option<String>,
    pub created_at: i64,
    pub updated_at: i64,
}

/// Body of a request that creates a profile.
#[derive(Debug, Clone)]
pub struct CreateProfileRequest {
    pub user_id: String,
    pub username: Option<String>,
    pub phone: Option<String>,
    pub qq: Option<String>,
    pub wechat: Option<String>,
    pub avatar_data: Option<String>,
    pub avatar_mime_type: Option<String>,
    pub bio: Option<String>,
}

/// Body of a request that changes a profile; absent fields stay as they are.
#[derive(Debug, Clone)]
pub struct UpdateProfileRequest {
    pub username: Option<String>,
    pub phone: Option<String>,
    pub qq: Option<String>,
    pub wechat: Option<String>,
    pub avatar_data: Option<String>,
    pub avatar_mime_type: Option<String>,
    pub bio: Option<String>,
}

/// The profile created from a request, with identifier `id`, at `now`.
pub fn profile_from_create(id: String, req: CreateProfileRequest, now: i64) -> (r: UserProfile)
    ensures
        r.id == id,
        r.user_id == req.user_id,
        r.username == req.username,
        r.phone == req.phone,
        r.qq == req.qq,
        r.wechat == req.wechat,
        r.avatar_data == req.avatar_data,
        r.avatar_mime_type == req.avatar_mime_type,
        r.bio == req.bio,
        r.created_at == now,
        r.updated_at == now,
{
    UserProfile {
        id,
        user_id: req.user_id,
        username: req.username,
        phone: req.phone,
        qq: req.qq,
        wechat: req.wechat,
        avatar_data: req.avatar_data,
        avatar_mime_type: req.avatar_mime_type,
        bio: req.bio,
        created_at: now,
        updated_at: now,
    }
}

/// The request that creates (or, when the profile exists, updates) the
/// profile a client syncs.
pub fn create_request_from_sync(req: ProfileSyncRequest) -> (r: CreateProfileRequest)
    ensures
        r.user_id == req.user_id,
        r.username == req.username,
        r.phone == req.phone,
        r.qq == req.qq,
        r.wechat == req.wechat,
        r.avatar_data == req.avatar_data,
        r.avatar_mime_type == req.avatar_mime_type,
        r.bio == req.bio,
{
    CreateProfileRequest {
        user_id: req.user_id,
        username: req.username,
        phone: req.phone,
        qq: req.qq,
        wechat: req.wechat,
        avatar_data: req.avatar_data,
        avatar_mime_type: req.avatar_mime_type,
        bio: req.bio,
    }
}

/// The update that an upsert applies to an existing profile: every field
/// of the create request.
pub fn update_request_from_create(req: &CreateProfileRequest) -> (r: UpdateProfileRequest)
    ensures
        r.username == req.username,
        r.phone == req.phone,
        r.qq == req.qq,
        r.wechat == req.wechat,
        r.avatar_data == req.avatar_data,
        r.avatar_mime_type == req.avatar_mime_type,
        r.bio == req.bio,
{
    UpdateProfileRequest {
        username: clone_opt(&req.username),
        phone: clone_opt(&req.phone),
        qq: clone_opt(&req.qq),
        wechat: clone_opt(&req.wechat),
        avatar_data: clone_opt(&req.avatar_data),
        avatar_mime_type: clone_opt(&req.avatar_mime_type),
        bio: clone_opt(&req.bio),
    }
}

fn clone_opt(o: &Option<String>) -> (r: Option<String>)
    ensures
        r == *o,
{
    crate::server::models::clone_opt_string(o)
}

/// `, <column> = ?` when the field is present, else nothing.
pub open spec fn set_clause(present: bool, column: Seq<char>) -> Seq<char> {
    if present {
        ", "@ + column + " = ?"@
    } else {
        Seq::empty()
    }
}

/// The statement that applies `req`: `updated_at` and each present field,
/// in the order of the request, for the profile of one user.
pub open spec fn profile_update_sql_of(req: UpdateProfileRequest) -> Seq<char> {
    "UPDATE user_profiles SET updated_at = ?"@ + set_clause(req.username is Some, "username"@)
        + set_clause(req.phone is Some, "phone"@) + set_clause(req.qq is Some, "qq"@) + set_clause(
        req.wechat is Some,
        "wechat"@,
    ) + set_clause(req.avatar_data is Some, "avatar_data"@) + set_clause(
        req.avatar_mime_type is Some,
        "avatar_mime_type"@,
    ) + set_clause(req.bio is Some, "bio"@) + " WHERE user_id = ?"@
}

/// Number of present fields of an update.
pub open spec fn present_fields(req: UpdateProfileRequest) -> nat {
    (if req.username is Some { 1nat } else { 0nat }) + (if req.phone is Some { 1nat } else { 0nat })
        + (if req.qq is Some { 1nat } else { 0nat }) + (if req.wechat is Some { 1nat } else { 0nat })
        + (if req.avatar_data is Some { 1nat } else { 0nat }) + (if req.avatar_mime_type is Some {
        1nat
    } else {
        0nat
    }) + (if req.bio is Some { 1nat } else { 0nat })
}

fn push_set_clause(sql: &mut String, count: &mut usize, present: bool, column: &str)
    requires
        *old(count) < 100,
    ensures
        final(sql)@ == old(sql)@ + set_clause(present, column@),
        *final(count) == *old(count) + if present { 1usize } else { 0usize },
{
    if present {
        sql.append(", ");
        sql.append(column);
        sql.append(" = ?");
        *count = *count + 1;
    }
}

/// The update statement of a profile and its number of placeholders (the
/// time, each present field, and the user).
pub fn profile_update_sql(req: &UpdateProfileRequest) -> (r: (String, usize))
    ensures
        r.0@ == profile_update_sql_of(*req),
        r.1 == present_fields(*req) + 2,
{
    let mut sql = "UPDATE user_profiles SET updated_at = ?".to_owned();
    let mut count: usize = 1;
    push_set_clause(&mut sql, &mut count, req.username.is_some(), "username");
    push_set_clause(&mut sql, &mut count, req.phone.is_some(), "phone");
    push_set_clause(&mut sql, &mut count, req.qq.is_some(), "qq");
    push_set_clause(&mut sql, &mut count, req.wechat.is_some(), "wechat");
    push_set_clause(&mut sql, &mut count, req.avatar_data.is_some(), "avatar_data");
    push_set_clause(&mut sql, &mut count, req.avatar_mime_type.is_some(), "avatar_mime_type");
    push_set_clause(&mut sql, &mut count, req.bio.is_some(), "bio");
    sql.append(" WHERE user_id = ?");
    (sql, count + 1)
}

/// Number of placeholders in the update statement: the time, each present
/// field and the user.
pub open spec fn profile_update_sql_placeholders(req: UpdateProfileRequest) -> nat {
    present_fields(req) + 2
}

/// `acc` followed by the value of the field when it is present.
pub open spec fn push_present(acc: Seq<Seq<char>>, field: Option<String>) -> Seq<Seq<char>> {
    match field {
        Some(v) => acc.push(v@),
        None => acc,
    }
}

/// The values that fill the placeholders of the fields in the update
/// statement: the present fields, in the order of their `SET` clauses.
pub open spec fn profile_update_values(req: UpdateProfileRequest) -> Seq<Seq<char>> {
    push_present(
        push_present(
            push_present(
                push_present(
                    push_present(
                        push_present(push_present(Seq::empty(), req.username), req.phone),
                        req.qq,
                    ),
                    req.wechat,
                ),
                req.avatar_data,
            ),
            req.avatar_mime_type,
        ),
        req.bio,
    )
}

/// The texts of a list of strings.
pub open spec fn texts(v: Seq<String>) -> Seq<Seq<char>> {
    v.map_values(|s: String| s@)
}

fn push_if(values: &mut Vec<String>, field: &Option<String>)
    ensures
        texts(final(values)@) == push_present(texts(old(values)@), *field),
{
    match field {
        Some(v) => {
            let ghost before = values@;
            values.push(v.clone());
            assert(texts(values@) =~= texts(before).push(v@));
        },
        None => {},
    }
}

/// The values bound to the field placeholders of `profile_update_sql`, in
/// order (after the time and before the user).
pub fn profile_update_values_of(req: &UpdateProfileRequest) -> (r: Vec<String>)
    ensures
        texts(r@) == profile_update_values(*req),
        r@.len() + 2 == profile_update_sql_placeholders(*req),
{
    let mut v: Vec<String> = Vec::new();
    assert(texts(v@) =~= Seq::<Seq<char>>::empty());
    push_if(&mut v, &req.username);
    push_if(&mut v, &req.phone);
    push_if(&mut v, &req.qq);
    push_if(&mut v, &req.wechat);
    push_if(&mut v, &req.avatar_data);
    push_if(&mut v, &req.avatar_mime_type);
    push_if(&mut v, &req.bio);
    assert(texts(v@).len() == v@.len());
    v
}

/// The column that stores field `k` of a profile, counting from 0:
/// username, phone, qq, wechat, avatar_data, avatar_mime_type, bio.
pub open spec fn profile_column(k: int) -> Seq<char> {
    if k == 0 {
        "username"@
    } else if k == 1 {
        "phone"@
    } else if k == 2 {
        "qq"@
    } else if k == 3 {
        "wechat"@
    } else if k == 4 {
        "avatar_data"@
    } else if k == 5 {
        "avatar_mime_type"@
    } else {
        "bio"@
    }
}

/// Field `k` of an update request, counting from 0 in the order of
/// `profile_column`.
pub open spec fn profile_field(req: UpdateProfileRequest, k: int) -> Option<String> {
    if k == 0 {
        req.username
    } else if k == 1 {
        req.phone
    } else if k == 2 {
        req.qq
    } else if k == 3 {
        req.wechat
    } else if k == 4 {
        req.avatar_data
    } else if k == 5 {
        req.avatar_mime_type
    } else {
        req.bio
    }
}

/// A request that changes one field sets that field's column, and nothing
/// else but the time, to that field's value: the statement is
/// "UPDATE user_profiles SET updated_at = ?, <column> = ? WHERE user_id = ?"
/// and the one value bound to the column is the field's.
pub proof fn lemma_single_field_update(req: UpdateProfileRequest, k: int)
    requires
        0 <= k < 7,
        profile_field(req, k) is Some,
        forall|j: int| 0 <= j < 7 && j != k ==> profile_field(req, j) is None,
    ensures
        profile_update_sql_of(req) == "UPDATE user_profiles SET updated_at = ?"@ + ", "@
            + profile_column(k) + " = ?"@ + " WHERE user_id = ?"@,
        profile_update_values(req) == seq![profile_field(req, k)->0@],
        present_fields(req) == 1,
{
    assert(profile_field(req, 0) == req.username);
    assert(profile_field(req, 1) == req.phone);
    assert(profile_field(req, 2) == req.qq);
    assert(profile_field(req, 3) == req.wechat);
    assert(profile_field(req, 4) == req.avatar_data);
    assert(profile_field(req, 5) == req.avatar_mime_type);
    assert(profile_field(req, 6) == req.bio);
    let e = Seq::<char>::empty();
    let pre = "UPDATE user_profiles SET updated_at = ?"@;
    let post = " WHERE user_id = ?"@;
    let c = ", "@ + profile_column(k) + " = ?"@;
    assert(profile_update_sql_of(req) =~= pre + c + post);
    assert(profile_update_values(req) =~= seq![profile_field(req, k)->0@]);
}

/// A request that changes every field sets the columns in the order
/// username, phone, qq, wechat, avatar_data, avatar_mime_type, bio, and
/// binds each column the value of its own field.
pub proof fn lemma_all_fields_update(req: UpdateProfileRequest)
    requires
        forall|j: int| 0 <= j < 7 ==> profile_field(req, j) is Some,
    ensures
        profile_update_sql_of(req) == "UPDATE user_profiles SET updated_at = ?"@ + ", "@
            + profile_column(0) + " = ?"@ + ", "@ + profile_column(1) + " = ?"@ + ", "@
            + profile_column(2) + " = ?"@ + ", "@ + profile_column(3) + " = ?"@ + ", "@
            + profile_column(4) + " = ?"@ + ", "@ + profile_column(5) + " = ?"@ + ", "@
            + profile_column(6) + " = ?"@ + " WHERE user_id = ?"@,
        profile_update_values(req).len() == 7,
        forall|j: int| 0 <= j < 7 ==> #[trigger] profile_update_values(req)[j] == profile_field(
            req,
            j,
        )->0@,
{
    assert(profile_field(req, 0) == req.username);
    assert(profile_field(req, 1) == req.phone);
    assert(profile_field(req, 2) == req.qq);
    assert(profile_field(req, 3) == req.wechat);
    assert(profile_field(req, 4) == req.avatar_data);
    assert(profile_field(req, 5) == req.avatar_mime_type);
    assert(profile_field(req, 6) == req.bio);
    assert(profile_update_sql_of(req) =~= "UPDATE user_profiles SET updated_at = ?"@ + ", "@
        + profile_column(0) + " = ?"@ + ", "@ + profile_column(1) + " = ?"@ + ", "@
        + profile_column(2) + " = ?"@ + ", "@ + profile_column(3) + " = ?"@ + ", "@
        + profile_column(4) + " = ?"@ + ", "@ + profile_column(5) + " = ?"@ + ", "@
        + profile_column(6) + " = ?"@ + " WHERE user_id = ?"@);
}

} // verus!
