use base64::Engine;
use cloudmemo::server::handlers::profile::{
    validate_avatar_data, validate_decoded_avatar, validate_image_magic_bytes, ValidationError,
    MAX_AVATAR_SIZE,
};
use cloudmemo::server::services::profile_service::{
    profile_from_create, profile_update_sql, update_request_from_create, CreateProfileRequest,
    UpdateProfileRequest,
};

fn b64(bytes: &[u8]) -> Option<String> {
    Some(base64::engine::general_purpose::STANDARD.encode(bytes))
}

fn mime(m: &str) -> Option<String> {
    Some(m.to_string())
}

#[test]
fn validation_messages() {
    assert_eq!(ValidationError::InvalidBase64.message(), "无效的 Base64 编码");
    assert_eq!(ValidationError::InvalidImageFormat.message(), "无效的图片格式");
    assert_eq!(
        ValidationError::ImageTooLarge { size: 6000000, max_size: 5242880 }.message(),
        "图片过大: 6000000 字节（最大 5242880 字节）"
    );
    assert_eq!(
        ValidationError::UnsupportedMimeType("text/plain".to_string()).message(),
        "不支持的图片类型: text/plain"
    );
}

#[test]
fn magic_bytes() {
    assert!(validate_image_magic_bytes(&[0xFF, 0xD8, 0xFF, 0x00], "image/jpeg").is_ok());
    assert!(validate_image_magic_bytes(&[0xFF, 0xD8], "image/jpeg").is_err());
    assert!(validate_image_magic_bytes(&[0x89, 0x50, 0x4E, 0x47, 0x0D, 0x0A, 0x1A, 0x0A], "image/png").is_ok());
    assert!(validate_image_magic_bytes(&[0x89, 0x50, 0x4E, 0x47, 0x0D, 0x0A, 0x1A, 0x0B], "image/png").is_err());
    assert!(validate_image_magic_bytes(b"GIF89a", "image/gif").is_ok());
    assert!(validate_image_magic_bytes(b"RIFF1234WEBPVP8", "image/webp").is_ok());
    assert!(validate_image_magic_bytes(b"RIFF1234WEBX", "image/webp").is_err());
    assert!(validate_image_magic_bytes(b"BM", "image/bmp").is_ok());
    assert!(validate_image_magic_bytes(b"", "image/other").is_ok());
}

#[test]
fn avatar_checks() {
    assert!(validate_avatar_data(&None, &None).is_ok());
    assert!(matches!(validate_avatar_data(&None, &mime("image/png")), Err(ValidationError::InvalidBase64)));
    match validate_avatar_data(&b64(b"BM"), &None) {
        Err(ValidationError::UnsupportedMimeType(m)) => assert_eq!(m, "未指定"),
        _ => panic!("expected an unsupported type"),
    }
    match validate_avatar_data(&b64(b"BM"), &mime("image/tiff")) {
        Err(ValidationError::UnsupportedMimeType(m)) => assert_eq!(m, "image/tiff"),
        _ => panic!("expected an unsupported type"),
    }
    assert!(matches!(
        validate_avatar_data(&Some("not base64!".to_string()), &mime("image/png")),
        Err(ValidationError::InvalidBase64)
    ));
    assert!(validate_avatar_data(&b64(b"BMxx"), &mime("image/bmp")).is_ok());
    assert!(matches!(validate_avatar_data(&b64(b"XMxx"), &mime("image/bmp")), Err(ValidationError::InvalidImageFormat)));
    assert!(validate_avatar_data(&b64(b"<svg/>"), &mime("image/svg+xml")).is_ok());
}

#[test]
fn avatar_size_limit() {
    let big = vec![0u8; MAX_AVATAR_SIZE + 1];
    match validate_decoded_avatar(&big, "image/svg+xml") {
        Err(ValidationError::ImageTooLarge { size, max_size }) => {
            assert_eq!(size, 5242881);
            assert_eq!(max_size, 5242880);
        }
        _ => panic!("expected too large"),
    }
    let ok = vec![0u8; MAX_AVATAR_SIZE];
    assert!(validate_decoded_avatar(&ok, "image/svg+xml").is_ok());
}

#[test]
fn profile_update_statement() {
    let none = UpdateProfileRequest {
        username: None,
        phone: None,
        qq: None,
        wechat: None,
        avatar_data: None,
        avatar_mime_type: None,
        bio: None,
    };
    let (sql, n) = profile_update_sql(&none);
    assert_eq!(sql, "UPDATE user_profiles SET updated_at = ? WHERE user_id = ?");
    assert_eq!(n, 2);
    let some = UpdateProfileRequest {
        username: Some("a".to_string()),
        bio: Some("b".to_string()),
        ..none
    };
    let (sql, n) = profile_update_sql(&some);
    assert_eq!(sql, "UPDATE user_profiles SET updated_at = ?, username = ?, bio = ? WHERE user_id = ?");
    assert_eq!(n, 4);
}

#[test]
fn profile_creation() {
    let req = CreateProfileRequest {
        user_id: "u".to_string(),
        username: Some("name".to_string()),
        phone: None,
        qq: None,
        wechat: Some("w".to_string()),
        avatar_data: None,
        avatar_mime_type: None,
        bio: None,
    };
    let upd = update_request_from_create(&req);
    assert_eq!(upd.username.as_deref(), Some("name"));
    assert_eq!(upd.wechat.as_deref(), Some("w"));
    let p = profile_from_create("id1".to_string(), req, 77);
    assert_eq!(p.id, "id1");
    assert_eq!(p.user_id, "u");
    assert_eq!(p.created_at, 77);
    assert_eq!(p.updated_at, 77);
}
