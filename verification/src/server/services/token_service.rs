//! Access and refresh tokens: signed JWTs that name the account and expire.
use vstd::prelude::*;
use crate::clock::{now_timestamp, MAX_TIMESTAMP, MIN_TIMESTAMP};
use crate::codec::{base64_encode, base64_standard, base64_url_decode, base64_url_decoded};
use crate::text::{chars_of, find_char, find_char_from, string_from_range};
use vstd::string::StringSliceAdditionalSpecFns;

verus! {

/// Seconds in a day.
pub const SECS_PER_DAY: i64 = 86400i64;

/// Days a refresh token stays valid.
pub const REFRESH_TOKEN_DAYS: i64 = 30i64;

/// Largest number of seconds a `chrono::TimeDelta` holds (`i64::MAX / 1000`).
pub const MAX_DELTA_SECS: i64 = 9223372036854775i64;

/// The compact JWS (HS256, default header) of the claims
/// `{"sub": sub, "exp": exp, "token_type": token_type}`, signed with `secret`.
pub uninterp spec fn hs256_jwt(sub: Seq<char>, exp: usize, token_type: Seq<char>, secret: Seq<char>) -> Seq<char>;

/// The SHA-256 digest of a byte string.
pub uninterp spec fn sha256_of(data: Seq<u8>) -> Seq<u8>;

/// The `sub` claim that `jsonwebtoken::decode` reads from `token` with
/// `secret` as HMAC key and the default validation, as far as the clock
/// plays no part: `Some(sub)` when the HS256 signature under `secret` is
/// valid, the payload is a JSON object with a string `sub` and an unsigned
/// integer `exp`, and the other default checks (no unexpected audience)
/// pass; `None` otherwise.
pub uninterp spec fn hs256_sub_claim(token: Seq<char>, secret: Seq<char>) -> Option<Seq<char>>;

/// The claims of a token are all read back from it: a token that is the
/// JWS of `sub`, `exp` and `token_type` under `secret` is the JWS of no
/// other claims.
pub open spec fn claims_determined(
    token: Seq<char>,
    sub: Seq<char>,
    exp: usize,
    token_type: Seq<char>,
    secret: Seq<char>,
) -> bool {
    forall|s2: Seq<char>, e2: usize, t2: Seq<char>|
        #[trigger] hs256_jwt(s2, e2, t2, secret) == token ==> s2 == sub && e2 == exp && t2
            == token_type
}

/// Calls `jsonwebtoken::encode` with the default header (HS256), the claims
/// `sub`, `exp` and `token_type` (in that order, as a JSON object) and the
/// secret as an HMAC key.
///
/// Trusted: HS256 encoding of string and number claims cannot fail (the
/// key family matches the algorithm, the claims serialise, HMAC signing
/// returns a value); the token is the HS256 JWS of those claims, which only
/// depends on the arguments; its payload holds the claims, so that no other
/// claims give the same token and decoding it with the same secret reads
/// back `sub`.
#[verifier::external_body]
fn encode_claims(sub: &str, exp: usize, token_type: &str, secret: &str) -> (r: Result<String, String>)
    ensures
        r is Ok,
        r->Ok_0@ == hs256_jwt(sub@, exp, token_type@, secret@),
        claims_determined(r->Ok_0@, sub@, exp, token_type@, secret@),
        hs256_sub_claim(r->Ok_0@, secret@) == Some(sub@),
{
    let mut claims = serde_json::Map::new();
    claims.insert("sub".to_string(), serde_json::Value::String(sub.to_string()));
    claims.insert("exp".to_string(), serde_json::Value::from(exp));
    claims.insert("token_type".to_string(), serde_json::Value::String(token_type.to_string()));
    let key = jsonwebtoken::EncodingKey::from_secret(secret.as_bytes());
    jsonwebtoken::encode(&jsonwebtoken::Header::default(), &claims, &key).map_err(|e| e.to_string())
}

/// Calls `jsonwebtoken::decode` with `secret` as HMAC key and the default
/// validation, and reads the `sub` claim.
///
/// Trusted: apart from comparing the expiry with the clock (a token that
/// expired more than a minute ago is refused), the outcome only depends on
/// the token and the secret; what it gives is then the claim that
/// `hs256_sub_claim` names. Whether the clock refuses the token is not
/// claimed.
#[verifier::external_body]
pub(crate) fn decode_sub_claim(token: &str, secret: &str) -> (r: Option<String>)
    ensures
        r matches Some(s) ==> hs256_sub_claim(token@, secret@) == Some(s@),
        hs256_sub_claim(token@, secret@) is None ==> r is None,
{
    let key = jsonwebtoken::DecodingKey::from_secret(secret.as_bytes());
    let validation = jsonwebtoken::Validation::default();
    let data = jsonwebtoken::decode::<serde_json::Map<String, serde_json::Value>>(token, &key, &validation).ok()?;
    let sub = data.claims.get("sub")?.as_str()?;
    Some(sub.to_string())
}

/// Calls `sha2::Sha256::digest`.
///
/// Trusted: the result is the SHA-256 digest of the data, 32 bytes long.
#[verifier::external_body]
fn sha256(data: &[u8]) -> (r: Vec<u8>)
    ensures
        r@ == sha256_of(data@),
        r@.len() == 32,
{
    <sha2::Sha256 as sha2::Digest>::digest(data).to_vec()
}

/// Why a token could not be made.
#[derive(Debug, Clone)]
pub enum TokenError {
    /// The expiry lies outside the timestamps the clock can represent.
    ExpiryOutOfRange,
    /// The JWT library refused to encode the claims.
    Encoding(String),
}

/// Number of seconds in `days` days fits a `chrono::TimeDelta`.
pub open spec fn valid_days(days: i64) -> bool {
    -MAX_DELTA_SECS <= days * SECS_PER_DAY <= MAX_DELTA_SECS
}

/// The `exp` claim of a token made at `now` that lasts `days` days: the
/// expiry as a Unix timestamp, cast as the claim stores it; `None` when the
/// expiry is not a representable timestamp.
pub fn token_expiry(now: i64, days: i64) -> (r: Option<usize>)
    requires
        MIN_TIMESTAMP <= now <= MAX_TIMESTAMP,
        valid_days(days),
    ensures
        match r {
            Some(e) => MIN_TIMESTAMP <= now + days * SECS_PER_DAY <= MAX_TIMESTAMP && e == (now + days
                * SECS_PER_DAY) as usize,
            None => !(MIN_TIMESTAMP <= now + days * SECS_PER_DAY <= MAX_TIMESTAMP),
        },
{
    let secs = days * SECS_PER_DAY;
    let at = now + secs;
    if MIN_TIMESTAMP <= at && at <= MAX_TIMESTAMP {
        Some(at as usize)
    } else {
        None
    }
}

/// `token` is the token of kind `token_type` for `sub`, made at `now` and
/// lasting `days` days (whose expiry is a representable timestamp).
pub open spec fn issued_at(
    token: Seq<char>,
    sub: Seq<char>,
    days: i64,
    token_type: Seq<char>,
    secret: Seq<char>,
    now: i64,
) -> bool {
    &&& MIN_TIMESTAMP <= now + days * SECS_PER_DAY <= MAX_TIMESTAMP
    &&& token == hs256_jwt(sub, (now + days * SECS_PER_DAY) as usize, token_type, secret)
    &&& claims_determined(token, sub, (now + days * SECS_PER_DAY) as usize, token_type, secret)
    &&& hs256_sub_claim(token, secret) == Some(sub)
}

/// A token the service issued names the account it was issued for: read
/// back with the same secret, its subject is that account.
pub proof fn lemma_issued_token_names_its_account(
    token: Seq<char>,
    sub: Seq<char>,
    days: i64,
    token_type: Seq<char>,
    secret: Seq<char>,
    now: i64,
    read: Seq<char>,
)
    requires
        issued_at(token, sub, days, token_type, secret, now),
        hs256_sub_claim(token, secret) == Some(read),
    ensures
        read == sub,
{
}

/// Tokens of different kinds are different tokens, whoever they name and
/// whenever they were made.
pub proof fn lemma_token_kinds_differ(
    t1: Seq<char>,
    sub1: Seq<char>,
    days1: i64,
    kind1: Seq<char>,
    now1: i64,
    t2: Seq<char>,
    sub2: Seq<char>,
    days2: i64,
    kind2: Seq<char>,
    now2: i64,
    secret: Seq<char>,
)
    requires
        issued_at(t1, sub1, days1, kind1, secret, now1),
        issued_at(t2, sub2, days2, kind2, secret, now2),
        kind1 != kind2,
    ensures
        t1 != t2,
{
    if t1 == t2 {
        assert(hs256_jwt(sub1, (now1 + days1 * SECS_PER_DAY) as usize, kind1, secret) == t2);
    }
}

/// A token made at `now` lasting `days` days would expire at no
/// representable timestamp.
pub open spec fn expiry_out_of_range(now: i64, days: i64) -> bool {
    !(MIN_TIMESTAMP <= now + days * SECS_PER_DAY <= MAX_TIMESTAMP)
}

/// The middle one of the three dot-separated parts of a token (its
/// payload); `None` unless the token has exactly two dots.
pub open spec fn middle_part(s: Seq<char>) -> Option<Seq<char>> {
    let i = find_char(s, '.', 0);
    let j = find_char(s, '.', (i + 1) as nat);
    if i >= 0 && j >= 0 && find_char(s, '.', (j + 1) as nat) == -1 {
        Some(s.subrange(i + 1, j))
    } else {
        None
    }
}

/// Why the payload of a token could not be read.
#[derive(Debug, Clone)]
pub enum PayloadError {
    /// The token is not three parts separated by dots.
    Format,
    /// The payload is no URL-safe unpadded base64; the decoder's message.
    Base64(String),
}

impl PayloadError {
    /// The message reported for the error.
    pub fn message(&self) -> (r: String)
        ensures
            r@ == match self {
                PayloadError::Format => "无效的 token 格式"@,
                PayloadError::Base64(m) => m@,
            },
    {
        match self {
            PayloadError::Format => "无效的 token 格式".to_owned(),
            PayloadError::Base64(m) => m.clone(),
        }
    }
}

/// Issues access and refresh tokens.
pub struct TokenService;

impl TokenService {
    /// An access token for `user_id` that expires `expiration_days` days from now.
    pub fn generate_access_token(user_id: &str, expiration_days: i64, jwt_secret: &str) -> (r: Result<String, TokenError>)
        requires
            valid_days(expiration_days),
        ensures
            r is Ok ==> exists|now: i64|
                #[trigger] issued_at(r->Ok_0@, user_id@, expiration_days, "Access"@, jwt_secret@, now),
            r is Err ==> r matches Err(TokenError::ExpiryOutOfRange),
            r matches Err(TokenError::ExpiryOutOfRange) ==> exists|now: i64|
                MIN_TIMESTAMP <= now <= MAX_TIMESTAMP && #[trigger] expiry_out_of_range(now, expiration_days),
    {
        let now = now_timestamp();
        match token_expiry(now, expiration_days) {
            None => {
                assert(expiry_out_of_range(now, expiration_days));
                Err(TokenError::ExpiryOutOfRange)
            },
            Some(exp) => match encode_claims(user_id, exp, "Access", jwt_secret) {
                Ok(t) => {
                    let r: Result<String, TokenError> = Ok(t);
                    assert(issued_at(r->Ok_0@, user_id@, expiration_days, "Access"@, jwt_secret@, now));
                    r
                },
                Err(e) => Err(TokenError::Encoding(e)),
            },
        }
    }

    /// A refresh token for `user_id` that expires in thirty days.
    pub fn generate_refresh_token(user_id: &str, jwt_secret: &str) -> (r: Result<String, TokenError>)
        ensures
            r is Ok ==> exists|now: i64|
                #[trigger] issued_at(r->Ok_0@, user_id@, REFRESH_TOKEN_DAYS, "Refresh"@, jwt_secret@, now),
            r is Err ==> r matches Err(TokenError::ExpiryOutOfRange),
            r matches Err(TokenError::ExpiryOutOfRange) ==> exists|now: i64|
                MIN_TIMESTAMP <= now <= MAX_TIMESTAMP && #[trigger] expiry_out_of_range(now, REFRESH_TOKEN_DAYS),
    {
        let now = now_timestamp();
        match token_expiry(now, REFRESH_TOKEN_DAYS) {
            None => {
                assert(expiry_out_of_range(now, REFRESH_TOKEN_DAYS));
                Err(TokenError::ExpiryOutOfRange)
            },
            Some(exp) => match encode_claims(user_id, exp, "Refresh", jwt_secret) {
                Ok(t) => {
                    let r: Result<String, TokenError> = Ok(t);
                    assert(issued_at(r->Ok_0@, user_id@, REFRESH_TOKEN_DAYS, "Refresh"@, jwt_secret@, now));
                    r
                },
                Err(e) => Err(TokenError::Encoding(e)),
            },
        }
    }

    /// An access token and a refresh token for `user_id`.
    pub fn generate_token_pair(user_id: &str, expiration_days: i64, jwt_secret: &str) -> (r: Result<(String, String), TokenError>)
        requires
            valid_days(expiration_days),
        ensures
            r is Ok ==> {
                &&& exists|now: i64|
                    #[trigger] issued_at(r->Ok_0.0@, user_id@, expiration_days, "Access"@, jwt_secret@, now)
                &&& exists|now: i64|
                    #[trigger] issued_at(
                        r->Ok_0.1@,
                        user_id@,
                        REFRESH_TOKEN_DAYS,
                        "Refresh"@,
                        jwt_secret@,
                        now,
                    )
                &&& r->Ok_0.0@ != r->Ok_0.1@
            },
            r is Err ==> r matches Err(TokenError::ExpiryOutOfRange),
            r matches Err(TokenError::ExpiryOutOfRange) ==> exists|now: i64|
                #![trigger expiry_out_of_range(now, expiration_days)]
                #![trigger expiry_out_of_range(now, REFRESH_TOKEN_DAYS)]
                MIN_TIMESTAMP <= now <= MAX_TIMESTAMP && (expiry_out_of_range(now, expiration_days)
                    || expiry_out_of_range(now, REFRESH_TOKEN_DAYS)),
    {
        let access = match Self::generate_access_token(user_id, expiration_days, jwt_secret) {
            Ok(t) => t,
            Err(e) => return Err(e),
        };
        let refresh = match Self::generate_refresh_token(user_id, jwt_secret) {
            Ok(t) => t,
            Err(e) => return Err(e),
        };
        let r: Result<(String, String), TokenError> = Ok((access, refresh));
        assert(r->Ok_0.0@ == access@ && r->Ok_0.1@ == refresh@);
        proof {
            let n1 = choose|now: i64|
                #[trigger] issued_at(access@, user_id@, expiration_days, "Access"@, jwt_secret@, now);
            let n2 = choose|now: i64|
                #[trigger] issued_at(refresh@, user_id@, REFRESH_TOKEN_DAYS, "Refresh"@, jwt_secret@, now);
            reveal_strlit("Access");
            reveal_strlit("Refresh");
            assert("Access"@ != "Refresh"@) by {
                assert("Access"@[0] != "Refresh"@[0]);
            }
            lemma_token_kinds_differ(
                access@,
                user_id@,
                expiration_days,
                "Access"@,
                n1,
                refresh@,
                user_id@,
                REFRESH_TOKEN_DAYS,
                "Refresh"@,
                n2,
                jwt_secret@,
            );
        }
        r
    }

    /// The digest under which a token is stored: base64 of its SHA-256.
    pub fn hash_token(token: &str) -> (r: String)
        ensures
            r@ == base64_standard(sha256_of(token.spec_bytes())),
            r@.len() == 44,
    {
        let digest = sha256(token.as_bytes());
        base64_encode(digest.as_slice())
    }

    /// The bytes of a token's payload, read without checking the signature:
    /// the token must be three parts separated by dots, and the middle one
    /// URL-safe base64 without padding, as JWTs write it.
    pub fn token_payload(token: &str) -> (r: Result<Vec<u8>, PayloadError>)
        ensures
            match middle_part(token@) {
                None => r matches Err(PayloadError::Format),
                Some(m) => match base64_url_decoded(vstd::utf8::encode_utf8(m)) {
                    None => r matches Err(PayloadError::Base64(_)),
                    Some(bytes) => r matches Ok(v) && v@ == bytes,
                },
            },
    {
        let cs = chars_of(token);
        let n = cs.len();
        let i = match find_char_from(cs.as_slice(), '.', 0) {
            Some(i) => i,
            None => return Err(PayloadError::Format),
        };
        assert(i < n);
        let j = match find_char_from(cs.as_slice(), '.', i + 1) {
            Some(j) => j,
            None => return Err(PayloadError::Format),
        };
        assert(j < n);
        if find_char_from(cs.as_slice(), '.', j + 1).is_some() {
            return Err(PayloadError::Format);
        }
        let middle = string_from_range(cs.as_slice(), i + 1, j);
        match base64_url_decode(middle.as_str().as_bytes()) {
            Ok(bytes) => Ok(bytes),
            Err(e) => Err(PayloadError::Base64(e)),
        }
    }
}

} // verus!
