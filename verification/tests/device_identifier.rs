use cloudmemo::server::services::device_identifier_service::{
    DeviceIdentifierService, DeviceInfo, DeviceType, Platform,
};

#[test]
fn test_parse_new_format() {
    let device_id = "desktop-windows-a1b2c3d4-e5f6-7890-abcd-ef1234567890";
    let info = DeviceIdentifierService::parse_device_id(device_id).unwrap();

    assert_eq!(info.device_type, DeviceType::Desktop);
    assert_eq!(info.platform, Platform::Windows);
    assert_eq!(info.raw_id, device_id);
}

#[test]
fn test_parse_old_format() {
    let device_id = "default-a1b2c3d4e5f6789a1b2c3d4e5f6789";
    let info = DeviceIdentifierService::parse_device_id(device_id).unwrap();

    assert_eq!(info.device_type, DeviceType::Unknown);
    assert_eq!(info.platform, Platform::Unknown);
}

#[test]
fn test_identify_tablet() {
    let device_id = "mobile-ios-a1b2c3d4-e5f6-7890-abcd-ef1234567890";
    let user_agent = Some("Mozilla/5.0 (iPad; CPU OS 17_0 like Mac OS X)");

    let info = DeviceIdentifierService::identify_device(device_id, user_agent).unwrap();

    assert_eq!(info.device_type, DeviceType::Tablet);
    assert_eq!(info.platform, Platform::IOS);
}

#[test]
fn test_device_name() {
    let info = DeviceInfo {
        device_type: DeviceType::Desktop,
        platform: Platform::Windows,
        uuid: "a1b2c3d4-e5f6-7890-abcd-ef1234567890".to_string(),
        raw_id: "desktop-windows-a1b2c3d4-e5f6-7890-abcd-ef1234567890".to_string(),
    };

    let name = DeviceIdentifierService::get_device_name(&info);
    assert_eq!(name, "Windows 电脑");
}

#[test]
fn test_device_icon() {
    let info = DeviceInfo {
        device_type: DeviceType::Tablet,
        platform: Platform::IOS,
        uuid: "a1b2c3d4-e5f6-7890-abcd-ef1234567890".to_string(),
        raw_id: "mobile-ios-a1b2c3d4-e5f6-7890-abcd-ef1234567890".to_string(),
    };

    let icon = DeviceIdentifierService::get_device_icon(&info);
    assert_eq!(icon, "📱");
}

#[test]
fn parse_without_dash_is_refused() {
    let r = DeviceIdentifierService::parse_device_id("nodash");
    assert!(r.is_err());
    assert_eq!(r.unwrap_err().message(), "Invalid device_id format: nodash");
}

#[test]
fn parse_platform_only_format() {
    let info = DeviceIdentifierService::parse_device_id("Android-1234").unwrap();
    assert_eq!(info.device_type, DeviceType::Mobile);
    assert_eq!(info.platform, Platform::Android);
    assert_eq!(info.uuid, "1234");
}

#[test]
fn parse_lowercases_parts() {
    let info = DeviceIdentifierService::parse_device_id("TABLET-MacOS-x-y").unwrap();
    assert_eq!(info.device_type, DeviceType::Tablet);
    assert_eq!(info.platform, Platform::MacOS);
    assert_eq!(info.uuid, "x-y");
}

#[test]
fn identify_unknown_from_agent() {
    let info = DeviceIdentifierService::identify_device("default-abc", Some("Mozilla/5.0 (Windows NT 10.0)")).unwrap();
    assert_eq!(info.device_type, DeviceType::Desktop);
    let phone = DeviceIdentifierService::identify_device("default-abc", Some("Mozilla/5.0 (iPhone)")).unwrap();
    assert_eq!(phone.device_type, DeviceType::Mobile);
    let android_tablet = DeviceIdentifierService::identify_device("mobile-android-1", Some("Linux; Android 13; SM-X900")).unwrap();
    assert_eq!(android_tablet.device_type, DeviceType::Tablet);
}

#[test]
fn device_names_and_icons_fall_back() {
    let info = DeviceInfo {
        device_type: DeviceType::Desktop,
        platform: Platform::Android,
        uuid: "u".to_string(),
        raw_id: "desktop-android-u".to_string(),
    };
    assert_eq!(DeviceIdentifierService::get_device_name(&info), "android desktop");
    assert_eq!(DeviceIdentifierService::get_device_icon(&info), "📟");
}

#[test]
fn type_and_platform_names() {
    assert_eq!(DeviceType::Tablet.as_str(), "tablet");
    assert_eq!(Platform::IOS.as_str(), "ios");
    assert_eq!(Platform::MacOS.as_str(), "macos");
}

#[test]
fn kinds_and_platforms_read_back_from_their_names() {
    for d in [DeviceType::Desktop, DeviceType::Mobile, DeviceType::Tablet, DeviceType::Unknown] {
        for p in [Platform::Windows, Platform::MacOS, Platform::Linux, Platform::Android, Platform::IOS, Platform::Unknown] {
            for u in ["", "x", "a-b-c"] {
                let id = format!("{}-{}-{}", d.as_str(), p.as_str(), u);
                let info = DeviceIdentifierService::parse_device_id(&id).unwrap();
                assert_eq!(info.device_type, d);
                assert_eq!(info.platform, p);
                assert_eq!(info.uuid, u);
                assert_eq!(info.raw_id, id);
            }
        }
        assert_eq!(DeviceType::from_str(d.as_str()).unwrap(), d);
        assert_eq!(DeviceType::from_str(&d.as_str().to_uppercase()).unwrap(), d);
    }
    assert_eq!(DeviceType::from_str("Phone").unwrap(), DeviceType::Unknown);
}
