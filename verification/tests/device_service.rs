use cloudmemo::server::models::Device;
use cloudmemo::server::services::device_service::DeviceService;

#[test]
fn test_parse_device_type_desktop() {
    assert_eq!(
        DeviceService::parse_device_type(Some("Mozilla/5.0 (Windows NT 10.0; Win64; x64)")),
        "desktop"
    );

    assert_eq!(
        DeviceService::parse_device_type(Some("Mozilla/5.0 (Macintosh; Intel Mac OS X 10_15_7)")),
        "desktop"
    );

    assert_eq!(
        DeviceService::parse_device_type(Some("Mozilla/5.0 (X11; Linux x86_64)")),
        "desktop"
    );

    println!("✅ Desktop devices recognized correctly");
}

#[test]
fn test_parse_device_type_mobile() {
    assert_eq!(
        DeviceService::parse_device_type(Some("Mozilla/5.0 (iPhone; CPU iPhone OS 17_0 like Mac OS X)")),
        "mobile"
    );

    assert_eq!(
        DeviceService::parse_device_type(Some("Mozilla/5.0 (Linux; Android 13; SM-S908B) Mobile")),
        "mobile"
    );

    println!("✅ Mobile devices recognized correctly");
}

#[test]
fn test_parse_device_type_tablet() {
    assert_eq!(
        DeviceService::parse_device_type(Some("Mozilla/5.0 (iPad; CPU OS 17_0 like Mac OS X)")),
        "tablet"
    );

    assert_eq!(
        DeviceService::parse_device_type(Some("Mozilla/5.0 (Linux; Android 13; SM-X900)")),
        "tablet"
    );

    println!("✅ Tablet devices recognized correctly");
}

#[test]
fn test_parse_device_type_edge_cases() {
    assert_eq!(
        DeviceService::parse_device_type(None),
        "desktop"
    );

    assert_eq!(
        DeviceService::parse_device_type(Some("Mozilla/5.0 (WINDOWS NT 10.0)")),
        "desktop"
    );

    println!("✅ Edge cases handled correctly");
}

#[test]
fn register_new_device_record() {
    let d = DeviceService::register_or_update_record(None, "u1", "desktop-windows-x", "Windows 电脑", "desktop", 100);
    assert_eq!(d.id, "desktop-windows-x");
    assert_eq!(d.user_id, "u1");
    assert_eq!(d.device_name, "Windows 电脑");
    assert_eq!(d.device_type, "desktop");
    assert!(!d.revoked);
    assert_eq!(d.last_seen_at, 100);
    assert_eq!(d.created_at, 100);
}

#[test]
fn update_existing_device_record() {
    let existing = Device {
        id: "dev".to_string(),
        user_id: "u1".to_string(),
        device_name: "old".to_string(),
        device_type: "mobile".to_string(),
        revoked: false,
        last_seen_at: 5,
        created_at: 1,
    };
    let d = DeviceService::register_or_update_record(Some(existing), "u1", "dev", "new", "tablet", 50);
    assert_eq!(d.device_name, "new");
    assert_eq!(d.device_type, "tablet");
    assert_eq!(d.last_seen_at, 50);
    assert_eq!(d.created_at, 1);
}

#[test]
fn device_update_outcomes() {
    assert!(DeviceService::update_outcome(1, true).is_ok());
    assert_eq!(DeviceService::update_outcome(0, true).unwrap_err(), "Device not found or already revoked");
    assert_eq!(DeviceService::update_outcome(0, false).unwrap_err(), "Device not found or revoked");
}
