//! Request handling of the sync server: what the handlers decide, apart
//! from the HTTP and database plumbing around them.
use vstd::prelude::*;

pub mod auth;
pub mod devices;
pub mod folders;
pub mod history;
pub mod notes;
pub mod profile;
pub mod sync;
pub mod workspaces;

verus! {

/// The error body that every handler answers with.
#[derive(Debug, Clone)]
pub struct ErrorResponse {
    /// HTTP status to answer with; 400 when absent.
    pub status: Option<u16>,
    /// Machine-readable error code.
    pub error_code: Option<String>,
    /// Human-readable message.
    pub error: String,
}

/// `e` has HTTP status `status`, error code `code` and message `message`.
pub open spec fn coded_error(e: ErrorResponse, status: u16, code: Seq<char>, message: Seq<char>) -> bool {
    &&& e.status == Some(status)
    &&& e.error_code is Some
    &&& e.error_code->0@ == code
    &&& e.error@ == message
}

impl ErrorResponse {
    /// An error with a message only (answered as 400 Bad Request).
    pub fn new(message: &str) -> (r: Self)
        ensures
            r.status is None,
            r.error_code is None,
            r.error@ == message@,
    {
        ErrorResponse { status: None, error_code: None, error: message.to_owned() }
    }

    /// An error with a message, an HTTP status and an error code.
    pub fn new_with_code(message: &str, status: u16, error_code: &str) -> (r: Self)
        ensures
            r.status == Some(status),
            r.error_code matches Some(c) && c@ == error_code@,
            r.error@ == message@,
    {
        ErrorResponse {
            status: Some(status),
            error_code: Some(error_code.to_owned()),
            error: message.to_owned(),
        }
    }

    /// The HTTP status the error is answered with: its own status when that
    /// is a valid status code (100 to 999), else 400.
    pub fn http_status(&self) -> (r: u16)
        ensures
            r == match self.status {
                Some(s) => if 100 <= s <= 999 { s } else { 400u16 },
                None => 400u16,
            },
    {
        match self.status {
            Some(s) => if status_code_valid(s) { s } else { 400 },
            None => 400,
        }
    }
}

/// Calls `http::StatusCode::from_u16` (re-exported by axum).
///
/// Trusted: `from_u16` accepts exactly the codes from 100 to 999.
#[verifier::external_body]
fn status_code_valid(s: u16) -> (r: bool)
    ensures
        r == (100 <= s <= 999),
{
    axum::http::StatusCode::from_u16(s).is_ok()
}

} // verus!
