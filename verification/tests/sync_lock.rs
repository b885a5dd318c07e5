use cloudmemo::server::services::sync_lock_service::{LockError, SyncLockService};

#[test]
fn lock_is_exclusive_between_devices() {
    let mut s = SyncLockService::new();
    let a = s.acquire_lock_at("u", "d1", Some("w"), 30, 100, "L1".to_string());
    assert_eq!(a.unwrap(), "L1");
    let b = s.acquire_lock_at("u", "d2", Some("w"), 30, 110, "L2".to_string());
    assert_eq!(b.unwrap_err(), LockError::HeldByOtherDevice);
    // another account is not affected
    let c = s.acquire_lock_at("v", "d2", Some("w"), 30, 110, "L3".to_string());
    assert_eq!(c.unwrap(), "L3");
    assert_eq!(s.list().len(), 2);
}

#[test]
fn own_lock_is_extended_or_refused_for_other_workspace() {
    let mut s = SyncLockService::new();
    s.acquire_lock_at("u", "d1", Some("w"), 30, 100, "L1".to_string()).unwrap();
    let again = s.acquire_lock_at("u", "d1", Some("w"), 30, 120, "L9".to_string());
    assert_eq!(again.unwrap(), "L1");
    assert_eq!(s.list()[0].expires_at, 150);
    let other = s.acquire_lock_at("u", "d1", Some("w2"), 30, 121, "L8".to_string());
    assert_eq!(other.unwrap_err(), LockError::OtherWorkspaceSyncing);
}

#[test]
fn expired_locks_are_cleared_before_acquiring() {
    let mut s = SyncLockService::new();
    s.acquire_lock_at("u", "d1", Some("w"), 30, 100, "L1".to_string()).unwrap();
    let later = s.acquire_lock_at("u", "d2", Some("w"), 30, 200, "L2".to_string());
    assert_eq!(later.unwrap(), "L2");
    assert_eq!(s.list().len(), 1);
    assert_eq!(s.list()[0].device_id, "d2");
}

#[test]
fn duplicate_lock_id_is_refused() {
    let mut s = SyncLockService::new();
    s.acquire_lock_at("u", "d1", Some("w"), 30, 100, "L1".to_string()).unwrap();
    let dup = s.acquire_lock_at("v", "d2", Some("w2"), 30, 100, "L1".to_string());
    assert_eq!(dup.unwrap_err(), LockError::DuplicateLockId);
}

#[test]
fn release_removes_only_own_lock() {
    let mut s = SyncLockService::new();
    s.acquire_lock_at("u", "d1", Some("w"), 30, 100, "L1".to_string()).unwrap();
    s.release_lock("L1", "someone-else");
    assert_eq!(s.list().len(), 1);
    s.release_lock("L1", "u");
    assert_eq!(s.list().len(), 0);
    assert_eq!(LockError::HeldByOtherDevice.message(), "同步锁已被其他设备持有");
}

#[test]
fn acquire_with_clock_gives_fresh_id() {
    let mut s = SyncLockService::new();
    let id = s.acquire_lock("u", "d1", None, 30).unwrap();
    assert_eq!(id.len(), 36);
    s.cleanup_expired_locks();
    assert_eq!(s.list().len(), 1);
}

#[test]
fn released_workspace_goes_to_the_next_device() {
    let mut s = SyncLockService::new();
    let id = s.acquire_lock_at("u", "d1", Some("w"), 30, 100, "L1".to_string()).unwrap();
    assert!(s.acquire_lock_at("u", "d2", Some("w"), 30, 101, "L2".to_string()).is_err());
    s.release_lock(&id, "u");
    assert_eq!(s.acquire_lock_at("u", "d2", Some("w"), 30, 102, "L3".to_string()).unwrap(), "L3");
}

#[test]
fn another_workspace_of_the_account_blocks_other_devices() {
    let mut s = SyncLockService::new();
    s.acquire_lock_at("u", "d2", Some("w2"), 30, 100, "L1".to_string()).unwrap();
    let r = s.acquire_lock_at("u", "d1", Some("w1"), 30, 110, "L2".to_string());
    assert_eq!(r.unwrap_err(), LockError::OtherWorkspaceSyncing);
    let none = s.acquire_lock_at("u", "d1", None, 30, 110, "L3".to_string());
    assert_eq!(none.unwrap_err(), LockError::OtherWorkspaceSyncing);
    assert_eq!(s.list().len(), 1);
    // once the lock expired, the other device gets its workspace
    assert_eq!(s.acquire_lock_at("u", "d1", Some("w1"), 30, 131, "L4".to_string()).unwrap(), "L4");
}
