use cloudmemo::server::handlers::auth::{
    bearer_token, extract_token_ttl, refreshed_subject, logout_token, default_device_id, final_device_id, hex_lower, identify_client_device, token_ttl,
};
use cloudmemo::server::services::auth_service::{
    check_login, check_password, generate_user_id, hash_password, next_user_id_step, refresh_token_expired,
    refresh_token_expires_at, UserIdStep,
};
use cloudmemo::server::services::device_identifier_service::{DeviceIdentifierService, DeviceType, Platform};
use cloudmemo::server::services::token_blacklist::blacklist_key;
use cloudmemo::server::middleware::access_subject;
use cloudmemo::server::services::token_service::{token_expiry, PayloadError, TokenService};

#[test]
fn default_device_id_is_md5_of_email() {
    // md5("") = d41d8cd98f00b204e9800998ecf8427e
    assert_eq!(default_device_id(""), "default-d41d8cd98f00b204e9800998ecf8427e");
    assert_eq!(default_device_id("a@b.c"), format!("default-{:x}", md5::compute("a@b.c")));
    assert_eq!(hex_lower(&[0x00, 0xab, 0x0f]), "00ab0f");
}

#[test]
fn mobile_turned_tablet_is_renamed() {
    let info = DeviceIdentifierService::identify_device(
        "mobile-ios-a1b2-c3d4",
        Some("Mozilla/5.0 (iPad; CPU OS 17_0 like Mac OS X)"),
    )
    .unwrap();
    assert_eq!(final_device_id("mobile-ios-a1b2-c3d4", &info), "tablet-ios-c3d4");
    let long_id = "mobile-ios-a1b2c3d4-e5f6-7890-abcd-ef1234567890";
    let ipad = DeviceIdentifierService::identify_device(
        long_id,
        Some("Mozilla/5.0 (iPad; CPU OS 17_0 like Mac OS X)"),
    )
    .unwrap();
    assert_eq!(final_device_id(long_id, &ipad), "tablet-ios-ef1234567890");
    let phone = DeviceIdentifierService::identify_device("mobile-ios-a1b2", Some("iPhone")).unwrap();
    assert_eq!(final_device_id("mobile-ios-a1b2", &phone), "mobile-ios-a1b2");
}

#[test]
fn client_device_defaults_to_email_id() {
    let d = identify_client_device(None, "", None);
    assert_eq!(d.info.raw_id, "default-d41d8cd98f00b204e9800998ecf8427e");
    assert_eq!(d.info.device_type, DeviceType::Unknown);
    assert_eq!(d.info.platform, Platform::Unknown);
    assert_eq!(d.name, "unknown unknown");
    assert_eq!(d.device_type, "unknown");
    assert_eq!(d.final_id, d.info.raw_id);
    let w = identify_client_device(Some("desktop-windows-1"), "x@y", Some("Windows"));
    assert_eq!(w.name, "Windows 电脑");
    assert_eq!(w.final_id, "desktop-windows-1");
}

#[test]
fn bearer_tokens() {
    assert_eq!(bearer_token("Bearer abc.def"), Some("abc.def".to_string()));
    assert_eq!(bearer_token("Bearer "), Some(String::new()));
    assert_eq!(bearer_token("Basic abc"), None);
    assert_eq!(bearer_token("bearer abc"), None);
}

#[test]
fn ttl_of_tokens() {
    assert_eq!(token_ttl(1000, 400), 600);
    assert_eq!(token_ttl(400, 400), 60);
    assert_eq!(token_ttl(10, 400), 60);
    assert_eq!(blacklist_key("tok"), "blacklist:tok");
}

#[test]
fn token_expiry_and_pairs() {
    assert_eq!(token_expiry(1_000, 7), Some(1_000 + 7 * 86_400));
    assert_eq!(token_expiry(8_210_266_876_799, 1), None);
    let (a, r) = TokenService::generate_token_pair("42", 7, "secret").unwrap();
    assert_eq!(a.split('.').count(), 3);
    assert_eq!(r.split('.').count(), 3);
    assert_ne!(a, r);
}

#[test]
fn issued_tokens_name_their_account_and_expiry() {
    let (a, r) = TokenService::generate_token_pair("42", 7, "secret").unwrap();
    assert_eq!(refreshed_subject(&a, "secret").unwrap(), "42");
    assert_eq!(access_subject(&r, "secret").as_deref(), Some("42"));
    assert!(access_subject(&a, "other secret").is_none());
    match refreshed_subject("not a token", "secret") {
        Err(e) => assert_eq!(e.error, "无效的 access_token"),
        Ok(_) => panic!("expected a refusal"),
    }
    // the TTL of an access token that lasts seven days is close to seven days,
    // whatever key signed it
    let ttl = extract_token_ttl(&a).unwrap();
    assert!(ttl > 7 * 86_400 - 60 && ttl <= 7 * 86_400);
    assert_eq!(extract_token_ttl("garbage"), None);
}

#[test]
fn token_hash_is_base64_sha256() {
    // sha256("") base64
    assert_eq!(TokenService::hash_token(""), "47DEQpj8HBSa+/TImW+5JCeuQeRkm5NMpJWZG3hSuFU=");
    assert_eq!(TokenService::hash_token("abc").len(), 44);
    assert_ne!(TokenService::hash_token("abc"), "abc");
}

#[test]
fn passwords_round_trip() {
    let h = hash_password("hunter2").unwrap();
    assert!(check_password("hunter2", &h, "密码错误").is_ok());
    assert_eq!(check_password("wrong", &h, "密码错误").unwrap_err(), "密码错误");
    let e = check_password("x", "", "密码错误").unwrap_err();
    assert!(e.starts_with("解析密码哈希失败: "));
}

#[test]
fn user_ids_and_retries() {
    let id = generate_user_id();
    assert_eq!(id.len(), 10);
    assert!(id.chars().all(|c| c.is_ascii_digit()));
    assert_ne!(id.chars().next(), Some('0'));
    assert_eq!(next_user_id_step(0, false), UserIdStep::Accept);
    assert_eq!(next_user_id_step(0, true), UserIdStep::Retry(1));
    assert_eq!(next_user_id_step(9, true), UserIdStep::GiveUp);
}

#[test]
fn refresh_token_lifetime() {
    assert_eq!(refresh_token_expires_at(0), Some(30 * 86_400));
    assert_eq!(refresh_token_expires_at(8_210_266_876_799), None);
    assert!(refresh_token_expired(5, 6));
    assert!(!refresh_token_expired(6, 6));
}

#[test]
fn logout_tokens() {
    assert_eq!(extract_token_ttl("not-a-jwt"), None);
    assert_eq!(logout_token(None).unwrap_err().error, "缺少 Authorization header");
    assert_eq!(logout_token(Some("Token x")).unwrap_err().error, "无效的 Authorization 格式");
    assert_eq!(logout_token(Some("Bearer abc")).unwrap(), "abc");
}

#[test]
fn token_payloads() {
    // "eyJzdWIiOiJ1MSJ9" is the base64 of {"sub":"u1"}.
    match TokenService::token_payload("head.eyJzdWIiOiJ1MSJ9.sig") {
        Ok(bytes) => assert_eq!(bytes, b"{\"sub\":\"u1\"}".to_vec()),
        Err(e) => panic!("unexpected error: {}", e.message()),
    }
    for bad in ["", "abc", "a.b", "a.b.c.d", "..."] {
        match TokenService::token_payload(bad) {
            Err(PayloadError::Format) => {}
            _ => panic!("expected a format error for {:?}", bad),
        }
    }
    assert_eq!(PayloadError::Format.message(), "无效的 token 格式");
    match TokenService::token_payload("a.a.c") {
        Err(PayloadError::Base64(m)) => assert!(!m.is_empty()),
        _ => panic!("expected a base64 error"),
    }
    // The payload of an issued token is its JSON claims.
    let t = TokenService::generate_access_token("u7", 1, "k").unwrap();
    let json = String::from_utf8(TokenService::token_payload(&t).unwrap()).unwrap();
    assert!(json.contains("\"sub\":\"u7\""));
    // An empty payload decodes to no bytes.
    match TokenService::token_payload("a..c") {
        Ok(bytes) => assert!(bytes.is_empty()),
        Err(e) => panic!("unexpected error: {}", e.message()),
    }
}

#[test]
fn unknown_email_and_wrong_password_are_answered_alike() {
    let hash = hash_password("right").unwrap();
    assert_eq!(check_login(None, "x").unwrap_err(), "邮箱或密码错误");
    assert_eq!(check_login(Some(&hash), "wrong").unwrap_err(), "邮箱或密码错误");
    assert!(check_login(Some(&hash), "right").is_ok());
    assert!(check_login(Some("not a hash"), "right").unwrap_err().starts_with("解析密码哈希失败: "));
}
