//! Registration, login, token refresh and logout: the requests and answers,
//! and how the device that signs in is identified.
use vstd::prelude::*;
use crate::clock::{now_timestamp, MAX_TIMESTAMP, MIN_TIMESTAMP};
use crate::server::handlers::ErrorResponse;
use crate::server::services::token_service::{decode_sub_claim, hs256_sub_claim};
use vstd::string::StringSliceAdditionalSpecFns;
use crate::server::services::device_identifier_service::{
    device_type_name, known_device_name, parse_device_id_spec, platform_name, DeviceIdentifierService,
    DeviceInfo, DeviceType,
};
use crate::text::{
    chars_of, find_char, lemma_rfind_char, rfind_char, rfind_char_in, seq_starts_with,
    str_starts_with, string_from_range, lower_text,
};
use crate::server::services::device_identifier_service::refine_device_type;

verus! {

/// Body of a login request. It has no `Debug`: the password stays out of
/// logs.
#[derive(Clone)]
pub struct LoginRequest {
    pub email: String,
    pub password: String,
    /// The device's identifier, when the client sends one.
    pub device_id: Option<String>,
}

/// Body of a registration request (no `Debug`, for the password).
#[derive(Clone)]
pub struct RegisterRequest {
    pub email: String,
    pub password: String,
    /// The device's identifier, when the client sends one.
    pub device_id: Option<String>,
}

/// Answer to a successful registration, login or refresh (no `Debug`, for
/// the tokens).
#[derive(Clone)]
pub struct AuthResponse {
    pub token: String,
    pub refresh_token: String,
    pub user_id: String,
    pub email: String,
    pub device_id: String,
}

/// Body of a token refresh request.
#[derive(Clone)]
pub struct RefreshRequest {
    pub refresh_token: String,
}

/// Body of a request that deletes the account.
#[derive(Clone)]
pub struct DeleteAccountRequest {
    pub password: String,
}

/// The MD5 digest of a byte string.
pub uninterp spec fn md5_of(data: Seq<u8>) -> Seq<u8>;

/// Calls `md5::compute`.
///
/// Trusted: the result is the MD5 digest of the data, 16 bytes long.
#[verifier::external_body]
fn md5_digest(data: &[u8]) -> (r: Vec<u8>)
    ensures
        r@ == md5_of(data@),
        r@.len() == 16,
{
    md5::compute(data).0.to_vec()
}

/// The lowercase hexadecimal digit of `v` (below 16).
pub open spec fn hex_digit(v: int) -> char {
    if v < 10 {
        ('0' as int + v) as char
    } else {
        ('a' as int + v - 10) as char
    }
}

/// Lowercase hexadecimal text of the bytes, two digits each.
pub open spec fn hex_of(bytes: Seq<u8>) -> Seq<char>
    decreases bytes.len(),
{
    if bytes.len() == 0 {
        Seq::empty()
    } else {
        hex_of(bytes.drop_last()) + seq![
            hex_digit(bytes.last() as int / 16),
            hex_digit(bytes.last() as int % 16),
        ]
    }
}

fn hex_digit_of(v: u8) -> (r: char)
    requires
        v < 16,
    ensures
        r == hex_digit(v as int),
{
    match v {
        0 => '0',
        1 => '1',
        2 => '2',
        3 => '3',
        4 => '4',
        5 => '5',
        6 => '6',
        7 => '7',
        8 => '8',
        9 => '9',
        10 => 'a',
        11 => 'b',
        12 => 'c',
        13 => 'd',
        14 => 'e',
        _ => 'f',
    }
}

/// Lowercase hexadecimal text of the bytes.
pub fn hex_lower(bytes: &[u8]) -> (r: String)
    ensures
        r@ == hex_of(bytes@),
{
    let mut s = String::new();
    let n = bytes.len();
    for i in 0..n
        invariant
            n == bytes@.len(),
            s@ == hex_of(bytes@.take(i as int)),
    {
        let b = bytes[i];
        crate::text::push_char(&mut s, hex_digit_of(b / 16));
        crate::text::push_char(&mut s, hex_digit_of(b % 16));
        assert(bytes@.take(i + 1).drop_last() =~= bytes@.take(i as int));
    }
    assert(bytes@.take(n as int) =~= bytes@);
    s
}

/// The device identifier used when the client sends none:
/// "default-" and the MD5 of the email in hexadecimal.
pub open spec fn default_device_id_of(email: Seq<u8>) -> Seq<char> {
    "default-"@ + hex_of(md5_of(email))
}

/// The device identifier of a client that sends none.
pub fn default_device_id(email: &str) -> (r: String)
    ensures
        r@ == default_device_id_of(email.spec_bytes()),
{
    let digest = md5_digest(email.as_bytes());
    let mut s = "default-".to_owned();
    s.append(hex_lower(digest.as_slice()).as_str());
    s
}

/// The text after the last `-` of `id` (all of it when it holds none).
pub open spec fn last_segment(id: Seq<char>) -> Seq<char> {
    id.subrange(rfind_char(id, '-') + 1, id.len() as int)
}

/// The identifier under which a device is registered: a "mobile-..." device
/// that turns out to be a tablet is renamed
/// "tablet-<platform>-<last segment>", keeping the identifier's last
/// dash-separated part; any other keeps its identifier.
pub open spec fn final_device_id_of(id: Seq<char>, info: DeviceInfo) -> Seq<char> {
    if seq_starts_with(id, "mobile-"@) && info.device_type == DeviceType::Tablet {
        device_type_name(info.device_type) + "-"@ + platform_name(info.platform) + "-"@
            + last_segment(id)
    } else {
        id
    }
}

/// The identifier under which the device `info`, that sent `client_id`, is
/// registered.
pub fn final_device_id(client_id: &str, info: &DeviceInfo) -> (r: String)
    ensures
        r@ == final_device_id_of(client_id@, *info),
{
    if str_starts_with(client_id, "mobile-") && info.device_type == DeviceType::Tablet {
        let cs = chars_of(client_id);
        proof {
            lemma_rfind_char(cs@, '-');
        }
        let start = match rfind_char_in(cs.as_slice(), '-') {
            Some(i) => i + 1,
            None => 0,
        };
        let tail = string_from_range(cs.as_slice(), start, cs.len());
        let mut s = info.device_type.as_str().to_owned();
        s.append("-");
        s.append(info.platform.as_str());
        s.append("-");
        s.append(tail.as_str());
        s
    } else {
        client_id.to_owned()
    }
}

/// The device a client signs in from, as registration and login see it.
#[derive(Debug, Clone)]
pub struct ClientDevice {
    /// What the identifier and User-Agent tell of the device.
    pub info: DeviceInfo,
    /// Its friendly name.
    pub name: String,
    /// Its kind, as stored ("desktop", "mobile", ...).
    pub device_type: &'static str,
    /// The identifier it is registered under.
    pub final_id: String,
}

/// Identifies the device that registers or logs in: its identifier (the
/// client's, else the default one made from the email), what that and the
/// User-Agent tell of it, its name and the identifier it is registered
/// under. A client identifier must hold a `-`.
pub fn identify_client_device(device_id: Option<&str>, email: &str, user_agent: Option<&str>) -> (r: ClientDevice)
    requires
        match device_id {
            Some(d) => find_char(d@, '-', 0) >= 0,
            None => true,
        },
    ensures
        ({
            let id = match device_id {
                Some(d) => d@,
                None => default_device_id_of(email.spec_bytes()),
            };
            let (t, p, u) = parse_device_id_spec(id)->0;
            &&& parse_device_id_spec(id) is Some
            &&& r.info.platform == p
            &&& r.info.uuid@ == u
            &&& r.info.raw_id@ == id
            &&& r.info.device_type == match user_agent {
                Some(ua) => refine_device_type(t, p, lower_text(ua@)),
                None => t,
            }
            &&& r.name@ == match known_device_name(r.info.device_type, r.info.platform) {
                Some(name) => name,
                None => platform_name(r.info.platform) + " "@ + device_type_name(r.info.device_type),
            }
            &&& r.device_type@ == device_type_name(r.info.device_type)
            &&& r.final_id@ == final_device_id_of(id, r.info)
        }),
{
    let id = match device_id {
        Some(d) => d.to_owned(),
        None => default_device_id(email),
    };
    proof {
        reveal_strlit("default-");
        if device_id is None {
            assert(id@[7] == '-');
            lemma_find_char_bound(id@, '-', 0, 7);
        }
    }
    let info = match DeviceIdentifierService::identify_device(id.as_str(), user_agent) {
        Ok(info) => info,
        Err(_) => {
            proof {
                assert(false);
            }
            DeviceInfo {
                device_type: DeviceType::Unknown,
                platform: crate::server::services::device_identifier_service::Platform::Unknown,
                uuid: String::new(),
                raw_id: String::new(),
            }
        },
    };
    let name = DeviceIdentifierService::get_device_name(&info);
    let device_type = info.device_type.as_str();
    let final_id = final_device_id(id.as_str(), &info);
    ClientDevice { info, name, device_type, final_id }
}

/// `find_char` finds some `c` at or before an index that holds one.
proof fn lemma_find_char_bound(s: Seq<char>, c: char, from: nat, at: int)
    requires
        from <= at < s.len(),
        s[at] == c,
    ensures
        find_char(s, c, from) >= 0,
    decreases at - from,
{
    if s[from as int] != c {
        lemma_find_char_bound(s, c, from + 1, at);
    }
}

/// The token of an `Authorization` header of the form "Bearer <token>",
/// or `None` when the header has another form.
pub fn bearer_token(header: &str) -> (r: Option<String>)
    ensures
        r is Some <==> seq_starts_with(header@, "Bearer "@),
        r matches Some(t) ==> t@ == header@.subrange(7, header@.len() as int),
{
    proof {
        reveal_strlit("Bearer ");
    }
    if str_starts_with(header, "Bearer ") {
        let cs = chars_of(header);
        Some(string_from_range(cs.as_slice(), 7, cs.len()))
    } else {
        None
    }
}

/// Seconds a token expiring at `exp` stays on the blacklist when revoked
/// at `now`: until it expires, or a minute when it already has.
pub open spec fn ttl_of(exp: usize, now: usize) -> u64 {
    if exp > now {
        (exp - now) as u64
    } else {
        60u64
    }
}

/// Seconds a revoked token stays on the blacklist: until it expires, or a
/// minute when it already has.
pub fn token_ttl(exp: usize, now: usize) -> (r: u64)
    ensures
        r == ttl_of(exp, now),
{
    if exp > now {
        (exp - now) as u64
    } else {
        60
    }
}

/// The `exp` claim of a JWT, read without checking its signature or any
/// time: `Some(exp)` when `token` is three dot-separated parts whose header
/// is a JWT header and whose payload is a JSON object with an unsigned
/// integer `exp` that fits a `usize`; `None` otherwise.
pub uninterp spec fn jwt_exp_claim(token: Seq<char>) -> Option<usize>;

/// Calls `jsonwebtoken::decode` with signature checking, expiry checking
/// and audience checking turned off (only the presence of `exp` is
/// required), and reads the `exp` claim.
///
/// Trusted: with these checks off, the outcome only depends on the token;
/// it is the claim `jwt_exp_claim` names.
#[verifier::external_body]
fn decode_exp_claim(token: &str) -> (r: Option<usize>)
    ensures
        r == jwt_exp_claim(token@),
{
    let mut validation = jsonwebtoken::Validation::default();
    validation.insecure_disable_signature_validation();
    validation.validate_exp = false;
    validation.validate_aud = false;
    let key = jsonwebtoken::DecodingKey::from_secret(&[]);
    let data = jsonwebtoken::decode::<serde_json::Map<String, serde_json::Value>>(token, &key, &validation).ok()?;
    let exp = data.claims.get("exp")?.as_u64()?;
    usize::try_from(exp).ok()
}

/// Seconds until a token expires, for the blacklist, read from the token's
/// `exp` claim without checking its signature: until it expires, or a
/// minute when it already has; `None` when the token has no readable `exp`
/// claim.
pub fn extract_token_ttl(token: &str) -> (r: Option<u64>)
    ensures
        jwt_exp_claim(token@) is None ==> r is None,
        jwt_exp_claim(token@) matches Some(exp) ==> r matches Some(t) && t >= 1 && exists|now: i64|
            MIN_TIMESTAMP <= now <= MAX_TIMESTAMP && t == #[trigger] ttl_of(exp, now as usize),
{
    match decode_exp_claim(token) {
        None => None,
        Some(exp) => {
            let now = now_timestamp();
            Some(token_ttl(exp, now as usize))
        },
    }
}

/// The account a refreshed access token names, read back with the server's
/// secret; a token that cannot be decoded is answered "无效的 access_token".
/// A token without a valid `sub` claim under the secret is always refused;
/// one that is read gives its own `sub` claim. Whether the decoder's clock
/// refuses an expired token is not stated.
pub fn refreshed_subject(access_token: &str, secret: &str) -> (r: Result<String, ErrorResponse>)
    ensures
        hs256_sub_claim(access_token@, secret@) is None ==> r is Err,
        r matches Ok(s) ==> hs256_sub_claim(access_token@, secret@) == Some(s@),
        r matches Err(e) ==> e.error@ == "无效的 access_token"@ && e.status is None,
{
    match decode_sub_claim(access_token, secret) {
        Some(s) => Ok(s),
        None => Err(ErrorResponse::new("无效的 access_token")),
    }
}

/// The token a logout revokes, from its `Authorization` header: missing
/// header and other forms than "Bearer <token>" are refused.
pub fn logout_token(header: Option<&str>) -> (r: Result<String, ErrorResponse>)
    ensures
        match header {
            None => r matches Err(e) && e.error@ == "缺少 Authorization header"@ && e.status is None,
            Some(h) => if seq_starts_with(h@, "Bearer "@) {
                r matches Ok(t) && t@ == h@.subrange(7, h@.len() as int)
            } else {
                r matches Err(e) && e.error@ == "无效的 Authorization 格式"@ && e.status is None
            },
        },
{
    match header {
        None => Err(ErrorResponse::new("缺少 Authorization header")),
        Some(h) => match bearer_token(h) {
            Some(t) => Ok(t),
            None => Err(ErrorResponse::new("无效的 Authorization 格式")),
        },
    }
}

} // verus!
