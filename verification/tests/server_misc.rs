use cloudmemo::server::config::{
    build_redis_url, config_file_name, default_jwt_expiration_days, default_max_connections,
    environment_name, pick_config_source, ConfigSource,
};
use cloudmemo::server::handlers::devices::device_failure;
use cloudmemo::server::handlers::history::{history_limit, HistoryQueryParams};
use cloudmemo::server::handlers::notes::{notes_page, snapshots_unavailable};
use cloudmemo::server::handlers::workspaces::check_deletable;
use cloudmemo::server::handlers::ErrorResponse;
use cloudmemo::server::services::sync_history_service::{history_cutoff, history_entry, history_excess};
use cloudmemo::text::decimal_string;

#[test]
fn config_defaults() {
    assert_eq!(default_max_connections(), 10);
    assert_eq!(default_jwt_expiration_days(), 7);
}

#[test]
fn redis_urls() {
    assert_eq!(build_redis_url("redis://localhost:6379", Some("pw")), "redis://:pwlocalhost:6379");
    assert_eq!(build_redis_url("redis://:x@host", Some("pw")), "redis://:x@host");
    assert_eq!(build_redis_url("redis://host", Some("")), "redis://host");
    assert_eq!(build_redis_url("rediss://host", Some("pw")), "rediss://host");
    assert_eq!(build_redis_url("redis://host", None), "redis://host");
}

#[test]
fn error_responses() {
    let e = ErrorResponse::new("bad");
    assert_eq!(e.error, "bad");
    assert_eq!(e.http_status(), 400);
    let c = ErrorResponse::new_with_code("gone", 410, "GONE");
    assert_eq!(c.http_status(), 410);
    assert_eq!(c.error_code.as_deref(), Some("GONE"));
    assert_eq!(ErrorResponse::new_with_code("x", 1000, "X").http_status(), 400);
    assert_eq!(ErrorResponse::new_with_code("x", 99, "X").http_status(), 400);
    assert_eq!(snapshots_unavailable().error, "快照功能暂未实现");
}

#[test]
fn paging_and_limits() {
    assert_eq!(notes_page(None, None), (100, 0));
    assert_eq!(notes_page(Some(5000), Some(20)), (1000, 20));
    assert_eq!(notes_page(Some(7), None), (7, 0));
    assert_eq!(history_limit(&HistoryQueryParams { limit: None }), 50);
    assert_eq!(history_limit(&HistoryQueryParams { limit: Some(500) }), 100);
    assert_eq!(history_limit(&HistoryQueryParams { limit: Some(3) }), 3);
}

#[test]
fn device_errors_and_deletion() {
    assert_eq!(device_failure("Device not found or revoked", "更新心跳失败").error, "设备不存在");
    assert_eq!(device_failure("pool timed out", "更新心跳失败").error, "更新心跳失败");
    assert!(check_deletable(None).is_ok());
    assert!(check_deletable(Some(false)).is_ok());
    assert_eq!(check_deletable(Some(true)).unwrap_err().error, "不允许删除默认空间");
}

#[test]
fn history_rules() {
    assert_eq!(history_cutoff(10_000_000), 10_000_000 - 90 * 86_400);
    assert_eq!(history_excess(1500), 500);
    assert_eq!(history_excess(1000), 0);
    let e = history_entry("h".to_string(), "u", "sync", 1, 2, 3, None, 40, 99);
    assert_eq!(e.sync_type, "sync");
    assert_eq!(e.created_at, 99);
    assert_eq!(decimal_string(0), "0");
    assert_eq!(decimal_string(1234567890), "1234567890");
}

#[test]
fn config_sources() {
    assert_eq!(pick_config_source(true, true, &[true; 4]), ConfigSource::CommandLine);
    assert_eq!(pick_config_source(false, true, &[true; 4]), ConfigSource::Environment);
    assert_eq!(pick_config_source(false, false, &[false, false, true, true]), ConfigSource::Candidate(2));
    assert_eq!(pick_config_source(false, false, &[false; 4]), ConfigSource::Fallback);
    assert_eq!(environment_name(None), "development");
    assert_eq!(environment_name(Some("PRODUCTION")), "production");
    assert_eq!(config_file_name("production"), "production.toml");
}
