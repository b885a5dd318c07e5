//! Parsing of device identifiers and recognition of device kinds.
use vstd::prelude::*;
use crate::text::{
    ascii_lower, chars_of, find_char, find_char_from, is_ascii_text, lemma_ascii_lower_idempotent,
    lemma_find_char_at, lemma_lower_letters, lower_text, seq_contains, str_contains, str_eq,
    string_from_range, to_lowercase,
};

verus! {

/// Kind of device a client runs on.
#[derive(Debug, Clone, Copy, PartialEq, Eq, Structural)]
pub enum DeviceType {
    Desktop,
    Mobile,
    Tablet,
    Unknown,
}

/// Operating system of a client.
#[derive(Debug, Clone, Copy, PartialEq, Eq, Structural)]
pub enum Platform {
    Windows,
    MacOS,
    Linux,
    Android,
    IOS,
    Unknown,
}

/// Error of `DeviceIdentifierService::parse_device_id`.
#[derive(Debug, Clone)]
pub enum DeviceIdError {
    /// The identifier holds no `-`; carries the identifier.
    InvalidFormat(String),
}

impl DeviceIdError {
    /// Human-readable text of the error.
    pub fn message(&self) -> (r: String)
        ensures
            match self {
                DeviceIdError::InvalidFormat(id) => r@ == "Invalid device_id format: "@ + id@,
            },
    {
        match self {
            DeviceIdError::InvalidFormat(id) => {
                let mut s = "Invalid device_id format: ".to_owned();
                s.append(id.as_str());
                s
            },
        }
    }
}

/// Name of a device kind as stored in the database.
pub open spec fn device_type_name(t: DeviceType) -> Seq<char> {
    match t {
        DeviceType::Desktop => "desktop"@,
        DeviceType::Mobile => "mobile"@,
        DeviceType::Tablet => "tablet"@,
        DeviceType::Unknown => "unknown"@,
    }
}

/// Device kind named by an already lowercased text; anything else is `Unknown`.
pub open spec fn device_type_from_lower(s: Seq<char>) -> DeviceType {
    if s == "desktop"@ {
        DeviceType::Desktop
    } else if s == "mobile"@ {
        DeviceType::Mobile
    } else if s == "tablet"@ {
        DeviceType::Tablet
    } else {
        DeviceType::Unknown
    }
}

/// Name of a platform as stored in the database.
pub open spec fn platform_name(p: Platform) -> Seq<char> {
    match p {
        Platform::Windows => "windows"@,
        Platform::MacOS => "macos"@,
        Platform::Linux => "linux"@,
        Platform::Android => "android"@,
        Platform::IOS => "ios"@,
        Platform::Unknown => "unknown"@,
    }
}

/// Platform named by an already lowercased text; anything else is `Unknown`.
pub open spec fn platform_from_lower(s: Seq<char>) -> Platform {
    if s == "windows"@ {
        Platform::Windows
    } else if s == "macos"@ {
        Platform::MacOS
    } else if s == "linux"@ {
        Platform::Linux
    } else if s == "android"@ {
        Platform::Android
    } else if s == "ios"@ {
        Platform::IOS
    } else {
        Platform::Unknown
    }
}

/// Device kind implied by a platform alone.
pub open spec fn device_type_of_platform(p: Platform) -> DeviceType {
    match p {
        Platform::Windows | Platform::MacOS | Platform::Linux => DeviceType::Desktop,
        Platform::Android | Platform::IOS => DeviceType::Mobile,
        Platform::Unknown => DeviceType::Unknown,
    }
}

/// Result of parsing a device identifier: kind, platform and UUID part.
///
/// Formats: `<type>-<platform>-<uuid>` (three or more dash-separated parts;
/// the UUID is everything after the second dash), `default-<md5>`, and
/// `<platform>-<uuid>`. An identifier without a dash has no meaning.
pub open spec fn parse_device_id_spec(id: Seq<char>) -> Option<(DeviceType, Platform, Seq<char>)> {
    let d1 = find_char(id, '-', 0);
    if d1 < 0 {
        None
    } else {
        let first = id.subrange(0, d1);
        let d2 = find_char(id, '-', (d1 + 1) as nat);
        if d2 >= 0 {
            Some(
                (
                    device_type_from_lower(lower_text(first)),
                    platform_from_lower(lower_text(id.subrange(d1 + 1, d2))),
                    id.subrange(d2 + 1, id.len() as int),
                ),
            )
        } else if first == "default"@ {
            Some((DeviceType::Unknown, Platform::Unknown, id.subrange(d1 + 1, id.len() as int)))
        } else {
            let p = platform_from_lower(lower_text(first));
            Some((device_type_of_platform(p), p, id.subrange(d1 + 1, id.len() as int)))
        }
    }
}

/// The stored names of device kinds and platforms are lowercase letters.
proof fn lemma_names_are_lower(d: DeviceType, p: Platform)
    ensures
        forall|i: int|
            0 <= i < device_type_name(d).len() ==> 'a' <= #[trigger] device_type_name(d)[i]
                && device_type_name(d)[i] <= 'z',
        forall|i: int|
            0 <= i < platform_name(p).len() ==> 'a' <= #[trigger] platform_name(p)[i]
                && platform_name(p)[i] <= 'z',
        device_type_name(d).len() > 0,
{
    reveal_strlit("desktop");
    reveal_strlit("mobile");
    reveal_strlit("tablet");
    reveal_strlit("unknown");
    reveal_strlit("windows");
    reveal_strlit("macos");
    reveal_strlit("linux");
    reveal_strlit("android");
    reveal_strlit("ios");
}

/// The name of a device kind reads back as that kind, whatever its case.
pub proof fn lemma_device_type_name_round_trip(d: DeviceType)
    ensures
        device_type_from_lower(lower_text(device_type_name(d))) == d,
{
    lemma_names_are_lower(d, Platform::Unknown);
    lemma_lower_letters(device_type_name(d));
    reveal_strlit("desktop");
    reveal_strlit("mobile");
    reveal_strlit("tablet");
    reveal_strlit("unknown");
    assert("desktop"@[0] == 'd' && "mobile"@[0] == 'm' && "tablet"@[0] == 't' && "unknown"@[0] == 'u');
    match d {
        DeviceType::Desktop => {},
        DeviceType::Mobile => {
            assert("mobile"@ != "desktop"@);
        },
        DeviceType::Tablet => {
            assert("tablet"@ != "desktop"@ && "tablet"@ != "mobile"@);
        },
        DeviceType::Unknown => {
            assert("unknown"@ != "desktop"@ && "unknown"@ != "mobile"@ && "unknown"@ != "tablet"@);
        },
    }
}

/// The name of a platform reads back as that platform.
pub proof fn lemma_platform_name_round_trip(p: Platform)
    ensures
        platform_from_lower(lower_text(platform_name(p))) == p,
{
    lemma_names_are_lower(DeviceType::Unknown, p);
    lemma_lower_letters(platform_name(p));
    reveal_strlit("windows");
    reveal_strlit("macos");
    reveal_strlit("linux");
    reveal_strlit("android");
    reveal_strlit("ios");
    reveal_strlit("unknown");
    assert("windows"@[0] == 'w' && "macos"@[0] == 'm' && "linux"@[0] == 'l' && "android"@[0] == 'a'
        && "ios"@[0] == 'i' && "unknown"@[0] == 'u');
    match p {
        Platform::Windows => {},
        Platform::MacOS => {
            assert("macos"@ != "windows"@);
        },
        Platform::Linux => {
            assert("linux"@ != "windows"@ && "linux"@ != "macos"@);
        },
        Platform::Android => {
            assert("android"@ != "windows"@ && "android"@ != "macos"@ && "android"@ != "linux"@);
        },
        Platform::IOS => {
            assert("ios"@ != "windows"@ && "ios"@ != "macos"@ && "ios"@ != "linux"@ && "ios"@
                != "android"@);
        },
        Platform::Unknown => {
            assert("unknown"@ != "windows"@ && "unknown"@ != "macos"@ && "unknown"@ != "linux"@
                && "unknown"@ != "android"@ && "unknown"@ != "ios"@);
        },
    }
}

/// Reading a device kind ignores case: on ASCII text, the kind of a text
/// is the kind of its lowercase form.
pub proof fn lemma_device_type_ignores_case(s: Seq<char>)
    requires
        is_ascii_text(s),
    ensures
        device_type_from_lower(lower_text(lower_text(s))) == device_type_from_lower(lower_text(s)),
        platform_from_lower(lower_text(lower_text(s))) == platform_from_lower(lower_text(s)),
{
    lemma_ascii_lower_idempotent(s);
}

/// An identifier written as "<kind>-<platform>-<uuid>" parses back into
/// that kind, platform and UUID part, whatever the UUID part holds.
pub proof fn lemma_parse_device_id_round_trip(d: DeviceType, p: Platform, u: Seq<char>)
    ensures
        parse_device_id_spec(device_type_name(d) + "-"@ + platform_name(p) + "-"@ + u) == Some(
            (d, p, u),
        ),
{
    let dn = device_type_name(d);
    let pn = platform_name(p);
    let id = dn + "-"@ + pn + "-"@ + u;
    reveal_strlit("-");
    lemma_names_are_lower(d, p);
    let k1 = dn.len() as int;
    let k2 = k1 + 1 + pn.len();
    assert(id[k1] == '-');
    assert forall|i: int| 0 <= i < k1 implies id[i] != '-' by {
        assert(id[i] == dn[i]);
    }
    lemma_find_char_at(id, '-', 0, k1);
    assert(id[k2] == '-');
    assert forall|i: int| k1 + 1 <= i < k2 implies id[i] != '-' by {
        assert(id[i] == pn[i - k1 - 1]);
    }
    lemma_find_char_at(id, '-', (k1 + 1) as nat, k2);
    assert(id.subrange(0, k1) =~= dn);
    assert(id.subrange(k1 + 1, k2) =~= pn);
    assert(id.subrange(k2 + 1, id.len() as int) =~= u);
    lemma_device_type_name_round_trip(d);
    lemma_platform_name_round_trip(p);
}

/// Device kind after looking at a lowercased User-Agent: only a `Mobile` or
/// `Unknown` kind is refined; iPads and Android devices without "mobile" are
/// tablets, and an unknown kind is guessed from phone or desktop markers.
pub open spec fn refine_device_type(t: DeviceType, p: Platform, ua: Seq<char>) -> DeviceType {
    if t != DeviceType::Mobile && t != DeviceType::Unknown {
        t
    } else if seq_contains(ua, "ipad"@) {
        DeviceType::Tablet
    } else if p == Platform::Android && seq_contains(ua, "android"@) && !seq_contains(
        ua,
        "mobile"@,
    ) {
        DeviceType::Tablet
    } else if t == DeviceType::Unknown {
        if seq_contains(ua, "iphone"@) || seq_contains(ua, "android"@) || seq_contains(
            ua,
            "mobile"@,
        ) {
            DeviceType::Mobile
        } else if seq_contains(ua, "windows"@) || seq_contains(ua, "macintosh"@) || seq_contains(
            ua,
            "linux"@,
        ) {
            DeviceType::Desktop
        } else {
            t
        }
    } else {
        t
    }
}

/// How the User-Agent refines a device kind:
/// - a desktop or tablet kind stays as it is;
/// - an iPad agent makes a phone or unknown kind a tablet;
/// - for an unknown kind, phone markers ("iphone", "android", "mobile") win
///   over desktop markers: an agent with one of them is a phone (unless it
///   is an Android tablet's agent), whatever desktop marker it also holds;
/// - an unknown kind whose agent has no phone marker but a desktop marker
///   ("windows", "macintosh", "linux") is a desktop;
/// - a phone stays a phone unless the agent is an iPad's or an Android
///   tablet's.
pub proof fn lemma_refine_device_type_rules(t: DeviceType, p: Platform, ua: Seq<char>)
    ensures
        (t == DeviceType::Desktop || t == DeviceType::Tablet) ==> refine_device_type(t, p, ua)
            == t,
        ((t == DeviceType::Mobile || t == DeviceType::Unknown) && seq_contains(ua, "ipad"@))
            ==> refine_device_type(t, p, ua) == DeviceType::Tablet,
        (t == DeviceType::Unknown && !seq_contains(ua, "ipad"@) && !(p == Platform::Android
            && seq_contains(ua, "android"@) && !seq_contains(ua, "mobile"@)) && (seq_contains(
            ua,
            "iphone"@,
        ) || seq_contains(ua, "android"@) || seq_contains(ua, "mobile"@))) ==> refine_device_type(
            t,
            p,
            ua,
        ) == DeviceType::Mobile,
        (t == DeviceType::Unknown && !seq_contains(ua, "ipad"@) && !seq_contains(ua, "iphone"@)
            && !seq_contains(ua, "android"@) && !seq_contains(ua, "mobile"@) && (seq_contains(
            ua,
            "windows"@,
        ) || seq_contains(ua, "macintosh"@) || seq_contains(ua, "linux"@))) ==> refine_device_type(
            t,
            p,
            ua,
        ) == DeviceType::Desktop,
        (t == DeviceType::Mobile && !seq_contains(ua, "ipad"@) && !(p == Platform::Android
            && seq_contains(ua, "android"@) && !seq_contains(ua, "mobile"@))) ==> refine_device_type(
            t,
            p,
            ua,
        ) == DeviceType::Mobile,
        refine_device_type(t, p, ua) != DeviceType::Unknown ==> t != DeviceType::Unknown
            || seq_contains(ua, "ipad"@) || seq_contains(ua, "iphone"@) || seq_contains(
            ua,
            "android"@,
        ) || seq_contains(ua, "mobile"@) || seq_contains(ua, "windows"@) || seq_contains(
            ua,
            "macintosh"@,
        ) || seq_contains(ua, "linux"@),
{
}

/// Friendly name of a device, or `None` where it is "<platform> <type>".
pub open spec fn known_device_name(t: DeviceType, p: Platform) -> Option<Seq<char>> {
    match (t, p) {
        (DeviceType::Desktop, Platform::Windows) => Some("Windows 电脑"@),
        (DeviceType::Desktop, Platform::MacOS) => Some("Mac 电脑"@),
        (DeviceType::Desktop, Platform::Linux) => Some("Linux 电脑"@),
        (DeviceType::Mobile, Platform::Android) => Some("Android 手机"@),
        (DeviceType::Mobile, Platform::IOS) => Some("iPhone"@),
        (DeviceType::Tablet, Platform::Android) => Some("Android 平板"@),
        (DeviceType::Tablet, Platform::IOS) => Some("iPad"@),
        _ => None,
    }
}

/// Icon of a device.
pub open spec fn device_icon(t: DeviceType, p: Platform) -> Seq<char> {
    match (t, p) {
        (DeviceType::Desktop, Platform::Windows) => "💻"@,
        (DeviceType::Desktop, Platform::MacOS) => "🍎"@,
        (DeviceType::Desktop, Platform::Linux) => "🐧"@,
        (DeviceType::Mobile, Platform::Android) => "🤖"@,
        (DeviceType::Mobile, Platform::IOS) => "📱"@,
        (DeviceType::Tablet, Platform::Android) => "📱"@,
        (DeviceType::Tablet, Platform::IOS) => "📱"@,
        _ => "📟"@,
    }
}

impl DeviceType {
    /// Name of the kind as stored in the database.
    pub fn as_str(&self) -> (r: &'static str)
        ensures
            r@ == device_type_name(*self),
    {
        match self {
            DeviceType::Desktop => "desktop",
            DeviceType::Mobile => "mobile",
            DeviceType::Tablet => "tablet",
            DeviceType::Unknown => "unknown",
        }
    }

    /// Kind named by an already lowercased text.
    pub fn from_lowercase(s: &str) -> (r: DeviceType)
        ensures
            r == device_type_from_lower(s@),
    {
        if str_eq(s, "desktop") {
            DeviceType::Desktop
        } else if str_eq(s, "mobile") {
            DeviceType::Mobile
        } else if str_eq(s, "tablet") {
            DeviceType::Tablet
        } else {
            DeviceType::Unknown
        }
    }

    /// Kind named by a text, ignoring case; never fails (unknown names give `Unknown`).
    pub fn from_str(s: &str) -> (r: Result<DeviceType, DeviceIdError>)
        ensures
            r == Ok::<DeviceType, DeviceIdError>(device_type_from_lower(lower_text(s@))),
    {
        let lower = to_lowercase(s);
        Ok(Self::from_lowercase(lower.as_str()))
    }
}

impl Platform {
    /// Name of the platform as stored in the database.
    pub fn as_str(&self) -> (r: &'static str)
        ensures
            r@ == platform_name(*self),
    {
        match self {
            Platform::Windows => "windows",
            Platform::MacOS => "macos",
            Platform::Linux => "linux",
            Platform::Android => "android",
            Platform::IOS => "ios",
            Platform::Unknown => "unknown",
        }
    }

    /// Platform named by an already lowercased text.
    pub fn from_lowercase(s: &str) -> (r: Platform)
        ensures
            r == platform_from_lower(s@),
    {
        if str_eq(s, "windows") {
            Platform::Windows
        } else if str_eq(s, "macos") {
            Platform::MacOS
        } else if str_eq(s, "linux") {
            Platform::Linux
        } else if str_eq(s, "android") {
            Platform::Android
        } else if str_eq(s, "ios") {
            Platform::IOS
        } else {
            Platform::Unknown
        }
    }

    /// Platform named by a text, ignoring case; never fails (unknown names give `Unknown`).
    pub fn from_str(s: &str) -> (r: Result<Platform, DeviceIdError>)
        ensures
            r == Ok::<Platform, DeviceIdError>(platform_from_lower(lower_text(s@))),
    {
        let lower = to_lowercase(s);
        Ok(Self::from_lowercase(lower.as_str()))
    }
}

/// What is known of a device from its identifier.
#[derive(Debug, Clone)]
pub struct DeviceInfo {
    pub device_type: DeviceType,
    pub platform: Platform,
    pub uuid: String,
    pub raw_id: String,
}

/// Service that interprets device identifiers.
pub struct DeviceIdentifierService;

impl DeviceIdentifierService {
    /// Parses a device identifier (see `parse_device_id_spec` for the formats).
    /// Fails exactly when the identifier holds no `-`.
    pub fn parse_device_id(device_id: &str) -> (r: Result<DeviceInfo, DeviceIdError>)
        ensures
            r is Ok <==> parse_device_id_spec(device_id@) is Some,
            match r {
                Ok(info) => {
                    &&& (info.device_type, info.platform, info.uuid@) == parse_device_id_spec(
                        device_id@,
                    )->0
                    &&& info.raw_id@ == device_id@
                },
                Err(DeviceIdError::InvalidFormat(id)) => id@ == device_id@,
            },
    {
        let cs = chars_of(device_id);
        let n = cs.len();
        match find_char_from(cs.as_slice(), '-', 0) {
            None => Err(DeviceIdError::InvalidFormat(device_id.to_owned())),
            Some(d1) => {
                let first = string_from_range(cs.as_slice(), 0, d1);
                match find_char_from(cs.as_slice(), '-', d1 + 1) {
                    Some(d2) => {
                        let first_lower = to_lowercase(first.as_str());
                        let second = string_from_range(cs.as_slice(), d1 + 1, d2);
                        let second_lower = to_lowercase(second.as_str());
                        let uuid = string_from_range(cs.as_slice(), d2 + 1, n);
                        Ok(
                            DeviceInfo {
                                device_type: DeviceType::from_lowercase(first_lower.as_str()),
                                platform: Platform::from_lowercase(second_lower.as_str()),
                                uuid,
                                raw_id: device_id.to_owned(),
                            },
                        )
                    },
                    None => {
                        let uuid = string_from_range(cs.as_slice(), d1 + 1, n);
                        if str_eq(first.as_str(), "default") {
                            Ok(
                                DeviceInfo {
                                    device_type: DeviceType::Unknown,
                                    platform: Platform::Unknown,
                                    uuid,
                                    raw_id: device_id.to_owned(),
                                },
                            )
                        } else {
                            let first_lower = to_lowercase(first.as_str());
                            let platform = Platform::from_lowercase(first_lower.as_str());
                            let device_type = match platform {
                                Platform::Windows | Platform::MacOS | Platform::Linux => DeviceType::Desktop,
                                Platform::Android | Platform::IOS => DeviceType::Mobile,
                                Platform::Unknown => DeviceType::Unknown,
                            };
                            Ok(DeviceInfo { device_type, platform, uuid, raw_id: device_id.to_owned() })
                        }
                    },
                }
            },
        }
    }

    /// Refines the kind of a parsed device with an already lowercased User-Agent.
    pub fn refine_with_user_agent(info: DeviceInfo, ua_lower: &str) -> (r: DeviceInfo)
        ensures
            r.device_type == refine_device_type(info.device_type, info.platform, ua_lower@),
            r.platform == info.platform,
            r.uuid == info.uuid,
            r.raw_id == info.raw_id,
    {
        let mut info = info;
        if info.device_type == DeviceType::Mobile || info.device_type == DeviceType::Unknown {
            if str_contains(ua_lower, "ipad") {
                info.device_type = DeviceType::Tablet;
            } else if info.platform == Platform::Android && str_contains(ua_lower, "android")
                && !str_contains(ua_lower, "mobile") {
                info.device_type = DeviceType::Tablet;
            } else if info.device_type == DeviceType::Unknown {
                if str_contains(ua_lower, "iphone") || str_contains(ua_lower, "android")
                    || str_contains(ua_lower, "mobile") {
                    info.device_type = DeviceType::Mobile;
                } else if str_contains(ua_lower, "windows") || str_contains(ua_lower, "macintosh")
                    || str_contains(ua_lower, "linux") {
                    info.device_type = DeviceType::Desktop;
                }
            }
        }
        info
    }

    /// Recognises a device from its identifier and, where given, its
    /// User-Agent: the identifier gives platform and UUID, and a `Mobile` or
    /// `Unknown` kind is refined with the lowercased User-Agent.
    /// Fails exactly where `parse_device_id` fails.
    pub fn identify_device(device_id: &str, user_agent: Option<&str>) -> (r: Result<
        DeviceInfo,
        DeviceIdError,
    >)
        ensures
            r is Ok <==> parse_device_id_spec(device_id@) is Some,
            match r {
                Ok(info) => {
                    let (t, p, u) = parse_device_id_spec(device_id@)->0;
                    &&& info.platform == p
                    &&& info.uuid@ == u
                    &&& info.raw_id@ == device_id@
                    &&& info.device_type == match user_agent {
                        Some(ua) => refine_device_type(t, p, lower_text(ua@)),
                        None => t,
                    }
                },
                Err(DeviceIdError::InvalidFormat(id)) => id@ == device_id@,
            },
    {
        let info = Self::parse_device_id(device_id)?;
        if info.device_type == DeviceType::Mobile || info.device_type == DeviceType::Unknown {
            if let Some(ua) = user_agent {
                let ua_lower = to_lowercase(ua);
                return Ok(Self::refine_with_user_agent(info, ua_lower.as_str()));
            }
        }
        Ok(info)
    }

    /// Friendly name of a device: a fixed name for the common kinds, else
    /// "<platform> <type>".
    pub fn get_device_name(info: &DeviceInfo) -> (r: String)
        ensures
            r@ == match known_device_name(info.device_type, info.platform) {
                Some(name) => name,
                None => platform_name(info.platform) + " "@ + device_type_name(info.device_type),
            },
    {
        match (info.device_type, info.platform) {
            (DeviceType::Desktop, Platform::Windows) => "Windows 电脑".to_owned(),
            (DeviceType::Desktop, Platform::MacOS) => "Mac 电脑".to_owned(),
            (DeviceType::Desktop, Platform::Linux) => "Linux 电脑".to_owned(),
            (DeviceType::Mobile, Platform::Android) => "Android 手机".to_owned(),
            (DeviceType::Mobile, Platform::IOS) => "iPhone".to_owned(),
            (DeviceType::Tablet, Platform::Android) => "Android 平板".to_owned(),
            (DeviceType::Tablet, Platform::IOS) => "iPad".to_owned(),
            _ => {
                let mut s = info.platform.as_str().to_owned();
                s.append(" ");
                s.append(info.device_type.as_str());
                s
            },
        }
    }

    /// Icon of a device.
    pub fn get_device_icon(info: &DeviceInfo) -> (r: &'static str)
        ensures
            r@ == device_icon(info.device_type, info.platform),
    {
        match (info.device_type, info.platform) {
            (DeviceType::Desktop, Platform::Windows) => "💻",
            (DeviceType::Desktop, Platform::MacOS) => "🍎",
            (DeviceType::Desktop, Platform::Linux) => "🐧",
            (DeviceType::Mobile, Platform::Android) => "🤖",
            (DeviceType::Mobile, Platform::IOS) => "📱",
            (DeviceType::Tablet, Platform::Android) => "📱",
            (DeviceType::Tablet, Platform::IOS) => "📱",
            _ => "📟",
        }
    }
}

} // verus!
