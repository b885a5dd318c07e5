//! The wall clock and fresh identifiers, the two sources of values that
//! depend on neither the arguments nor the state of the library.
use vstd::prelude::*;

verus! {

/// Smallest Unix timestamp (seconds) that `chrono` can represent
/// (January 1 of year -262143).
pub const MIN_TIMESTAMP: i64 = -8334601315200i64;

/// Largest Unix timestamp (seconds) that `chrono` can represent
/// (December 31 of year 262142, 23:59:59).
pub const MAX_TIMESTAMP: i64 = 8210266876799i64;

/// Calls `chrono::Utc::now()` and `DateTime::timestamp`.
///
/// Trusted: returns the current time in whole seconds since the Unix epoch.
/// It depends on the clock, so only the representable range of a
/// `chrono::DateTime<Utc>` is claimed of it.
#[verifier::external_body]
pub(crate) fn now_timestamp() -> (r: i64)
    ensures
        MIN_TIMESTAMP <= r <= MAX_TIMESTAMP,
{
    chrono::Utc::now().timestamp()
}

/// A lowercase hexadecimal digit.
pub open spec fn is_lower_hex(c: char) -> bool {
    ('0' <= c && c <= '9') || ('a' <= c && c <= 'f')
}

/// The text of a random (version 4, RFC 4122 variant) UUID in its
/// hyphenated lowercase form: 8-4-4-4-12 hexadecimal digits, the version
/// digit `4` first in the third group, and `8`, `9`, `a` or `b` first in
/// the fourth.
pub open spec fn uuid_v4_text(s: Seq<char>) -> bool {
    &&& s.len() == 36
    &&& forall|i: int|
        0 <= i < 36 ==> if i == 8 || i == 13 || i == 18 || i == 23 {
            s[i] == '-'
        } else {
            is_lower_hex(#[trigger] s[i])
        }
    &&& s[14] == '4'
    &&& (s[19] == '8' || s[19] == '9' || s[19] == 'a' || s[19] == 'b')
}

/// Calls `uuid::Uuid::new_v4()` and formats it with `to_string`.
///
/// Trusted: the identifier is random; of the text only its form is
/// claimed: `to_string` writes the hyphenated lowercase form, and `new_v4`
/// sets the version bits to 4 and the variant bits to `10`.
#[verifier::external_body]
pub(crate) fn new_uuid_v4() -> (r: String)
    ensures
        uuid_v4_text(r@),
{
    uuid::Uuid::new_v4().to_string()
}

} // verus!
