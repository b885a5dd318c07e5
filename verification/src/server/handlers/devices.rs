//! The device endpoints: listing, revoking, heartbeats.
use vstd::prelude::*;
use crate::server::handlers::ErrorResponse;
use crate::text::{seq_contains, str_contains};

verus! {

/// The answer when revoking a device or recording its heartbeat failed:
/// "设备不存在" when the service's error says the device was not found,
/// else `fallback`.
pub fn device_failure(error: &str, fallback: &str) -> (r: ErrorResponse)
    ensures
        r.status is None,
        r.error_code is None,
        r.error@ == (if seq_contains(error@, "not found"@) {
            "设备不存在"@
        } else {
            fallback@
        }),
{
    if str_contains(error, "not found") {
        ErrorResponse::new("设备不存在")
    } else {
        ErrorResponse::new(fallback)
    }
}

} // verus!
