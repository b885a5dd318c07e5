//! Rules of device registration.
use vstd::prelude::*;
use crate::server::models::Device;
use crate::text::{lower_text, seq_contains, str_contains, to_lowercase};

verus! {

/// Device kind ("tablet", "mobile" or "desktop") for a lowercased
/// User-Agent: tablets first (iPad, or Android without "mobile"), then
/// phones; everything else, and an absent agent, is a desktop.
pub open spec fn device_kind_for_agent(ua: Seq<char>) -> Seq<char> {
    if seq_contains(ua, "ipad"@) || (seq_contains(ua, "android"@) && !seq_contains(ua, "mobile"@)) {
        "tablet"@
    } else if seq_contains(ua, "iphone"@) || seq_contains(ua, "android"@) || seq_contains(
        ua,
        "mobile"@,
    ) {
        "mobile"@
    } else {
        "desktop"@
    }
}

/// The record that registering a device leaves: an existing record of the
/// same account and device gets the new name, kind and `last_seen_at`;
/// otherwise a new, unrevoked record is made at `now`.
pub open spec fn registered_device(
    existing: Option<Device>,
    user_id: Seq<char>,
    device_id: Seq<char>,
    device_name: Seq<char>,
    device_type: Seq<char>,
    now: i64,
    r: Device,
) -> bool {
    match existing {
        Some(d) => {
            &&& r.id == d.id
            &&& r.user_id == d.user_id
            &&& r.revoked == d.revoked
            &&& r.created_at == d.created_at
            &&& r.device_name@ == device_name
            &&& r.device_type@ == device_type
            &&& r.last_seen_at == now
        },
        None => {
            &&& r.id@ == device_id
            &&& r.user_id@ == user_id
            &&& r.device_name@ == device_name
            &&& r.device_type@ == device_type
            &&& !r.revoked
            &&& r.last_seen_at == now
            &&& r.created_at == now
        },
    }
}

/// Whatever was found, the stored record is the device asked for: when the
/// found record is the unrevoked one of this account and device (what the
/// lookup selects), and when none was found. It carries the name and kind
/// given, was seen at `now`, is not revoked, and a found record keeps the
/// time it was created.
pub proof fn lemma_registered_device_is_the_asked_one(
    existing: Option<Device>,
    user_id: Seq<char>,
    device_id: Seq<char>,
    device_name: Seq<char>,
    device_type: Seq<char>,
    now: i64,
    r: Device,
)
    requires
        registered_device(existing, user_id, device_id, device_name, device_type, now, r),
        existing matches Some(d) ==> d.id@ == device_id && d.user_id@ == user_id && !d.revoked,
    ensures
        r.id@ == device_id,
        r.user_id@ == user_id,
        r.device_name@ == device_name,
        r.device_type@ == device_type,
        !r.revoked,
        r.last_seen_at == now,
        existing matches Some(d) ==> r.created_at == d.created_at,
        existing is None ==> r.created_at == now,
{
}

/// Rules of the device service; the database side of the service is kept
/// by the server binary.
pub struct DeviceService;

impl DeviceService {
    /// Kind of device that a User-Agent describes, ignoring case; without an
    /// agent the device is taken for a desktop (the desktop client).
    pub fn parse_device_type(user_agent: Option<&str>) -> (r: &'static str)
        ensures
            r@ == device_kind_for_agent(
                lower_text(
                    match user_agent {
                        Some(ua) => ua@,
                        None => ""@,
                    },
                ),
            ),
    {
        let raw = match user_agent {
            Some(ua) => ua,
            None => "",
        };
        let lower = to_lowercase(raw);
        let ua = lower.as_str();
        if str_contains(ua, "ipad") || (str_contains(ua, "android") && !str_contains(ua, "mobile")) {
            return "tablet";
        }
        if str_contains(ua, "iphone") || str_contains(ua, "android") || str_contains(ua, "mobile") {
            return "mobile";
        }
        if str_contains(ua, "windows") || str_contains(ua, "macintosh") || str_contains(ua, "linux")
            || str_contains(ua, "ubuntu") {
            return "desktop";
        }
        "desktop"
    }

    /// The record that `register_or_update` stores and returns, given the
    /// unrevoked record of this account and device found in the database (if any).
    pub fn register_or_update_record(
        existing: Option<Device>,
        user_id: &str,
        device_id: &str,
        device_name: &str,
        device_type: &str,
        now: i64,
    ) -> (r: Device)
        ensures
            registered_device(existing, user_id@, device_id@, device_name@, device_type@, now, r),
    {
        match existing {
            Some(device) => {
                let mut device = device;
                device.last_seen_at = now;
                device.device_name = device_name.to_owned();
                device.device_type = device_type.to_owned();
                device
            },
            None => Device {
                id: device_id.to_owned(),
                user_id: user_id.to_owned(),
                device_name: device_name.to_owned(),
                device_type: device_type.to_owned(),
                revoked: false,
                last_seen_at: now,
                created_at: now,
            },
        }
    }

    /// Outcome of revoking a device (`revoking`) or recording its heartbeat,
    /// given how many rows the update changed: none means the device was
    /// not found (or, for a heartbeat, is revoked).
    pub fn update_outcome(rows_affected: u64, revoking: bool) -> (r: Result<(), String>)
        ensures
            r is Ok == (rows_affected > 0),
            r matches Err(m) ==> m@ == (if revoking {
                "Device not found or already revoked"@
            } else {
                "Device not found or revoked"@
            }),
    {
        if rows_affected > 0 {
            Ok(())
        } else if revoking {
            Err("Device not found or already revoked".to_owned())
        } else {
            Err("Device not found or revoked".to_owned())
        }
    }
}

} // verus!
