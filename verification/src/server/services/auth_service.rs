//! Accounts: password hashing and checking, account identifiers and the
//! lifetime of refresh tokens.
use vstd::prelude::*;
use crate::clock::{MAX_TIMESTAMP, MIN_TIMESTAMP};
use crate::text::{decimal, decimal_string, lemma_decimal_digits, pow10};
use vstd::string::StringSliceAdditionalSpecFns;
use crate::server::services::token_service::{REFRESH_TOKEN_DAYS, SECS_PER_DAY};

verus! {

/// The stored hash is a PHC string that `password_hash` can parse.
pub uninterp spec fn phc_parses(hash: Seq<char>) -> bool;

/// Argon2 (default parameters) accepts `password` against the parsed PHC
/// string `hash`.
pub uninterp spec fn argon2_accepts(password: Seq<u8>, hash: Seq<char>) -> bool;

/// Outcome of checking a password against a stored hash.
#[derive(Debug, Clone)]
pub enum PasswordCheck {
    /// The stored hash could not be parsed; the parser's message.
    Malformed(String),
    /// The password does not match.
    Mismatch,
    /// The password matches.
    Match,
}

/// Calls `argon2::password_hash::PasswordHash::new` on the stored hash and,
/// when it parses, `Argon2::default().verify_password`.
///
/// Trusted: the outcome only depends on the two arguments, and an empty
/// hash never parses (the parser rejects it first). The parser's message is
/// passed on and nothing is claimed of its text.
#[verifier::external_body]
fn argon2_check(password: &[u8], hash: &str) -> (r: PasswordCheck)
    ensures
        (r is Malformed) == !phc_parses(hash@),
        (r is Match) == (phc_parses(hash@) && argon2_accepts(password@, hash@)),
        hash@.len() == 0 ==> r is Malformed,
{
    let parsed = match argon2::password_hash::PasswordHash::new(hash) {
        Ok(p) => p,
        Err(e) => return PasswordCheck::Malformed(e.to_string()),
    };
    match argon2::PasswordVerifier::verify_password(&argon2::Argon2::default(), password, &parsed) {
        Ok(()) => PasswordCheck::Match,
        Err(_) => PasswordCheck::Mismatch,
    }
}

/// Calls `Argon2::default().hash_password` with a salt that
/// `SaltString::generate` draws from the operating system.
///
/// Trusted: the salt is random, so the hash is too; of a hash it returns
/// only what holds whatever the salt is claimed: the PHC string parses, and
/// Argon2 with default parameters accepts the password against it (the
/// verifier recomputes the hash with the salt and parameters stored in it).
/// When hashing fails is not claimed.
#[verifier::external_body]
pub fn hash_password(password: &str) -> (r: Result<String, String>)
    ensures
        r matches Ok(h) ==> phc_parses(h@) && argon2_accepts(password.spec_bytes(), h@),
{
    let salt = argon2::password_hash::SaltString::generate(&mut argon2::password_hash::rand_core::OsRng);
    match argon2::PasswordHasher::hash_password(&argon2::Argon2::default(), password.as_bytes(), &salt) {
        Ok(h) => Ok(h.to_string()),
        Err(e) => Err(e.to_string()),
    }
}

/// Checks a password against the stored hash; `wrong` is the message when
/// it does not match.
pub fn check_password(password: &str, stored_hash: &str, wrong: &str) -> (r: Result<(), String>)
    ensures
        r is Ok == (phc_parses(stored_hash@) && argon2_accepts(password.spec_bytes(), stored_hash@)),
        r matches Err(m) ==> (if phc_parses(stored_hash@) {
            m@ == wrong@
        } else {
            m@.len() >= "解析密码哈希失败: "@.len() && m@.subrange(0, "解析密码哈希失败: "@.len() as int)
                == "解析密码哈希失败: "@
        }),
{
    match argon2_check(password.as_bytes(), stored_hash) {
        PasswordCheck::Match => Ok(()),
        PasswordCheck::Mismatch => Err(wrong.to_owned()),
        PasswordCheck::Malformed(e) => {
            let mut m = "解析密码哈希失败: ".to_owned();
            let ghost prefix = m@;
            m.append(e.as_str());
            assert(m@.subrange(0, prefix.len() as int) =~= prefix);
            Err(m)
        },
    }
}

/// The message of a failed login.
pub open spec fn login_failed_message() -> Seq<char> {
    "邮箱或密码错误"@
}

/// The password check of a login: `stored_hash` is the hash of the account
/// with the email, absent when no account has it. An unknown email and a
/// wrong password are answered alike, with `login_failed_message`; a
/// stored hash that does not parse gives the parser's message.
pub fn check_login(stored_hash: Option<&str>, password: &str) -> (r: Result<(), String>)
    ensures
        r is Ok <==> (stored_hash matches Some(h) && phc_parses(h@) && argon2_accepts(
            password.spec_bytes(),
            h@,
        )),
        stored_hash is None ==> (r matches Err(m) && m@ == login_failed_message()),
        (stored_hash matches Some(h) && phc_parses(h@)) ==> (r is Ok || (r matches Err(m) && m@
            == login_failed_message())),
        (stored_hash matches Some(h) && !phc_parses(h@)) ==> (r matches Err(m) && m@.len()
            >= "解析密码哈希失败: "@.len() && m@.subrange(0, "解析密码哈希失败: "@.len() as int)
            == "解析密码哈希失败: "@),
{
    match stored_hash {
        None => Err("邮箱或密码错误".to_owned()),
        Some(h) => check_password(password, h, "邮箱或密码错误"),
    }
}

/// Calls `rand::thread_rng().gen_range(lo..hi)`.
///
/// Trusted: the number is random; only its range is claimed. An empty
/// range makes `gen_range` panic, so it is ruled out.
#[verifier::external_body]
fn random_in_range(lo: u64, hi: u64) -> (r: u64)
    requires
        lo < hi,
    ensures
        lo <= r < hi,
{
    rand::Rng::gen_range(&mut rand::thread_rng(), lo..hi)
}

/// Smallest account identifier (ten digits).
pub const MIN_USER_ID: u64 = 1_000_000_000u64;

/// One more than the largest account identifier (ten digits).
pub const USER_ID_BOUND: u64 = 10_000_000_000u64;

/// A random account identifier: a number of ten decimal digits, written in
/// decimal.
pub fn generate_user_id() -> (r: String)
    ensures
        exists|n: u64| MIN_USER_ID <= n < USER_ID_BOUND && r@ == decimal(n as nat),
        r@.len() == 10,
        forall|i: int| 0 <= i < 10 ==> '0' <= #[trigger] r@[i] <= '9',
        r@[0] != '0',
{
    let n = random_in_range(MIN_USER_ID, USER_ID_BOUND);
    proof {
        reveal_with_fuel(pow10, 11);
        lemma_decimal_digits(n as nat, 10);
    }
    decimal_string(n)
}

/// Most candidate identifiers tried before registration gives up.
pub const MAX_USER_ID_ATTEMPTS: u32 = 10u32;

/// What to do after a candidate account identifier was checked.
#[derive(Debug, Clone, Copy, PartialEq, Eq, Structural)]
pub enum UserIdStep {
    /// The candidate is free: use it.
    Accept,
    /// The candidate is taken: try another; the number of failed attempts.
    Retry(u32),
    /// Too many candidates were taken.
    GiveUp,
}

/// The next step of the search for a free account identifier, after
/// `failed` taken candidates and a candidate that is `taken` or not.
pub fn next_user_id_step(failed: u32, taken: bool) -> (r: UserIdStep)
    requires
        failed < MAX_USER_ID_ATTEMPTS,
    ensures
        r == (if !taken {
            UserIdStep::Accept
        } else if failed + 1 >= MAX_USER_ID_ATTEMPTS {
            UserIdStep::GiveUp
        } else {
            UserIdStep::Retry((failed + 1) as u32)
        }),
{
    if !taken {
        UserIdStep::Accept
    } else if failed + 1 >= MAX_USER_ID_ATTEMPTS {
        UserIdStep::GiveUp
    } else {
        UserIdStep::Retry(failed + 1)
    }
}

/// The message when no free account identifier was found.
pub open spec fn user_id_exhausted_message() -> Seq<char> {
    "生成唯一用户 ID 失败：已达到最大重试次数"@
}

/// When a refresh token saved at `now` expires: thirty days later, or
/// `None` when that is no representable timestamp.
pub fn refresh_token_expires_at(now: i64) -> (r: Option<i64>)
    requires
        MIN_TIMESTAMP <= now <= MAX_TIMESTAMP,
    ensures
        match r {
            Some(t) => t == now + REFRESH_TOKEN_DAYS * SECS_PER_DAY && t <= MAX_TIMESTAMP,
            None => now + REFRESH_TOKEN_DAYS * SECS_PER_DAY > MAX_TIMESTAMP,
        },
{
    let t = now + REFRESH_TOKEN_DAYS * SECS_PER_DAY;
    if t <= MAX_TIMESTAMP {
        Some(t)
    } else {
        None
    }
}

/// A refresh token that expired before `now` is refused.
pub fn refresh_token_expired(expires_at: i64, now: i64) -> (r: bool)
    ensures
        r == (expires_at < now),
{
    expires_at < now
}

} // verus!
