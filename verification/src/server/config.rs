//! Configuration of the sync server, and the Redis address built from it.
use vstd::prelude::*;
use crate::text::{
    chars_of, lower_text, seq_contains, seq_starts_with, str_contains, str_starts_with,
    string_from_range, to_lowercase,
};

verus! {

/// Where the server listens.
#[derive(Debug, Clone)]
pub struct ServerConfig {
    pub host: String,
    pub port: u16,
}

/// The MySQL database.
#[derive(Debug, Clone)]
pub struct DatabaseConfig {
    pub url: String,
    /// Size of the connection pool (10 unless configured).
    pub max_connections: u32,
}

/// Signing of access tokens.
#[derive(Debug, Clone)]
pub struct AuthConfig {
    pub jwt_secret: String,
    /// Days an access token lasts (7 unless configured).
    pub jwt_expiration_days: i64,
}

/// The Redis server that keeps revoked tokens.
#[derive(Debug, Clone)]
pub struct RedisConfig {
    pub url: String,
    pub password: Option<String>,
}

/// The whole configuration.
#[derive(Debug, Clone)]
pub struct AppConfig {
    pub server: ServerConfig,
    pub database: DatabaseConfig,
    pub auth: AuthConfig,
    pub redis: RedisConfig,
}

/// Pool size when none is configured.
pub fn default_max_connections() -> (r: u32)
    ensures
        r == 10,
{
    10
}

/// Lifetime of access tokens, in days, when none is configured.
pub fn default_jwt_expiration_days() -> (r: i64)
    ensures
        r == 7,
{
    7
}

/// The Redis address to connect to: the configured one, with the password
/// put in as "redis://:<password>@..." when it carries none yet (no `@`),
/// a non-empty password is configured and the address starts "redis://".
pub open spec fn redis_url_of(url: Seq<char>, password: Option<Seq<char>>) -> Seq<char> {
    if seq_contains(url, "@"@) {
        url
    } else {
        match password {
            Some(p) => if p.len() > 0 && seq_starts_with(url, "redis://"@) {
                "redis://:"@ + p + url.subrange(8, url.len() as int)
            } else {
                url
            },
            None => url,
        }
    }
}

/// The Redis address to connect to (see `redis_url_of`).
pub fn build_redis_url(url: &str, password: Option<&str>) -> (r: String)
    ensures
        r@ == redis_url_of(
            url@,
            match password {
                Some(p) => Some(p@),
                None => None,
            },
        ),
{
    if str_contains(url, "@") {
        return url.to_owned();
    }
    match password {
        Some(p) => {
            proof {
                reveal_strlit("redis://");
            }
            if !p.is_empty() && str_starts_with(url, "redis://") {
                let cs = chars_of(url);
                let rest = string_from_range(cs.as_slice(), 8, cs.len());
                let mut s = "redis://:".to_owned();
                s.append(p);
                s.append(rest.as_str());
                s
            } else {
                url.to_owned()
            }
        },
        None => url.to_owned(),
    }
}


/// Where the configuration is read from.
#[derive(Debug, Clone, Copy, PartialEq, Eq, Structural)]
pub enum ConfigSource {
    /// The path given on the command line.
    CommandLine,
    /// The path in `CLOUDMEMO_CONFIG_PATH`.
    Environment,
    /// The first of the default places that holds a file: the executable's
    /// directory then the working directory, for `config/<environment>.toml`
    /// and then `config/default.toml`.
    Candidate(usize),
    /// None exists: `config/<environment>.toml` beside the executable,
    /// which then fails to load.
    Fallback,
}

/// Picks where the configuration comes from: a path on the command line
/// first, then one in the environment, then the first existing default
/// place, else the fallback.
pub fn pick_config_source(has_cli_path: bool, has_env_path: bool, candidate_exists: &[bool]) -> (r: ConfigSource)
    ensures
        has_cli_path ==> r == ConfigSource::CommandLine,
        !has_cli_path && has_env_path ==> r == ConfigSource::Environment,
        !has_cli_path && !has_env_path ==> match r {
            ConfigSource::Candidate(i) => i < candidate_exists@.len() && candidate_exists@[i as int]
                && forall|j: int| 0 <= j < i ==> !candidate_exists@[j],
            ConfigSource::Fallback => forall|j: int|
                0 <= j < candidate_exists@.len() ==> !candidate_exists@[j],
            _ => false,
        },
{
    if has_cli_path {
        return ConfigSource::CommandLine;
    }
    if has_env_path {
        return ConfigSource::Environment;
    }
    let n = candidate_exists.len();
    for i in 0..n
        invariant
            n == candidate_exists@.len(),
            !has_cli_path,
            !has_env_path,
            forall|j: int| 0 <= j < i ==> !candidate_exists@[j],
    {
        if candidate_exists[i] {
            return ConfigSource::Candidate(i);
        }
    }
    ConfigSource::Fallback
}

/// The environment the server runs in: `CLOUDMEMO_ENV` lowercased, or
/// "development".
pub fn environment_name(var: Option<&str>) -> (r: String)
    ensures
        r@ == lower_text(
            match var {
                Some(v) => v@,
                None => "development"@,
            },
        ),
{
    match var {
        Some(v) => to_lowercase(v),
        None => to_lowercase("development"),
    }
}

/// The file name of an environment's configuration: "<environment>.toml".
pub fn config_file_name(environment: &str) -> (r: String)
    ensures
        r@ == environment@ + ".toml"@,
{
    let mut s = environment.to_owned();
    s.append(".toml");
    s
}

} // verus!
