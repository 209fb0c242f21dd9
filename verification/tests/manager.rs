use macos_permissions::PhotoKitAccessLevel;
use macos_permissions::PhotoKitAuthorizationStatus;
use macos_permissions::PhotoKitManagerError;
use macos_permissions::PhotoKitPermissionManager;

#[test]
fn test_manager_creation() {
    let manager = PhotoKitPermissionManager::new(Some(60));
    assert!(manager.cache_ttl == 60);
}

#[test]
fn test_manager_default() {
    let manager = PhotoKitPermissionManager::default();
    assert!(manager.cache_ttl == 30);
}

#[test]
fn test_cache_operations() {
    let mut manager = PhotoKitPermissionManager::new(Some(60));

    assert!(manager.clear_cache(None).is_ok());
    assert!(manager.clear_cache(Some(PhotoKitAccessLevel::Read)).is_ok());
}

#[test]
fn test_framework_availability() {
    let manager = PhotoKitPermissionManager::new(None);
    let _ = manager.is_framework_available();
}

#[test]
fn check_and_request_degrade_to_authorized_without_the_authority() {
    let mut manager = PhotoKitPermissionManager::new(None);
    assert!(!manager.is_framework_available());
    assert_eq!(
        manager
            .check_authorization_status(PhotoKitAccessLevel::Read)
            .unwrap(),
        PhotoKitAuthorizationStatus::Authorized
    );
    assert_eq!(
        manager
            .request_authorization(PhotoKitAccessLevel::AddOnly)
            .unwrap(),
        PhotoKitAuthorizationStatus::Authorized
    );
    assert_eq!(manager.get_photos_count().unwrap(), 0);
}

#[test]
fn cache_serves_fresh_entries_without_a_new_probe() {
    let mut manager = PhotoKitPermissionManager::new(Some(30));

    // Seed the cache with a native observation that differs from the
    // platform fallback, so a cache hit is distinguishable from a probe.
    let seeded = manager
        .record_native_status(PhotoKitAccessLevel::Read, Some(2), 100)
        .unwrap();
    assert_eq!(seeded, PhotoKitAuthorizationStatus::Denied);

    // Within the ttl the check is answered from the cache.
    let hit = manager
        .check_authorization_status_at(PhotoKitAccessLevel::Read, 120)
        .unwrap();
    assert_eq!(hit, PhotoKitAuthorizationStatus::Denied);

    // A second check inside the same window still hits the same entry.
    let hit_again = manager
        .check_authorization_status_at(PhotoKitAccessLevel::Read, 129)
        .unwrap();
    assert_eq!(hit_again, PhotoKitAuthorizationStatus::Denied);

    // Exactly at the ttl the entry has expired: a fresh probe answers and
    // overwrites the slot.
    let probed = manager
        .check_authorization_status_at(PhotoKitAccessLevel::Read, 130)
        .unwrap();
    assert_eq!(probed, PhotoKitAuthorizationStatus::Authorized);

    // The fresh observation now serves later checks.
    let hit_after = manager
        .check_authorization_status_at(PhotoKitAccessLevel::Read, 140)
        .unwrap();
    assert_eq!(hit_after, PhotoKitAuthorizationStatus::Authorized);
}

#[test]
fn clearing_one_level_leaves_the_others_cached() {
    let mut manager = PhotoKitPermissionManager::new(Some(30));
    manager
        .record_native_status(PhotoKitAccessLevel::Read, Some(2), 100)
        .unwrap();
    manager
        .record_native_status(PhotoKitAccessLevel::ReadWrite, Some(1), 100)
        .unwrap();

    manager.clear_cache(Some(PhotoKitAccessLevel::Read)).unwrap();

    // The cleared level probes afresh and reports the platform fallback.
    assert_eq!(
        manager
            .check_authorization_status_at(PhotoKitAccessLevel::Read, 110)
            .unwrap(),
        PhotoKitAuthorizationStatus::Authorized
    );
    // The other level's entry is unaffected and still serves its status.
    assert_eq!(
        manager
            .check_authorization_status_at(PhotoKitAccessLevel::ReadWrite, 110)
            .unwrap(),
        PhotoKitAuthorizationStatus::Restricted
    );
}

#[test]
fn clearing_everything_forces_fresh_probes_for_all_levels() {
    let mut manager = PhotoKitPermissionManager::new(Some(30));
    manager
        .record_native_status(PhotoKitAccessLevel::Read, Some(2), 100)
        .unwrap();
    manager
        .record_native_status(PhotoKitAccessLevel::AddOnly, Some(0), 100)
        .unwrap();

    manager.clear_cache(None).unwrap();

    assert_eq!(
        manager.get_cached_status(PhotoKitAccessLevel::Read, 101),
        None
    );
    assert_eq!(
        manager.get_cached_status(PhotoKitAccessLevel::AddOnly, 101),
        None
    );
}

#[test]
fn request_always_overwrites_the_cache_entry() {
    let mut manager = PhotoKitPermissionManager::new(Some(30));
    manager
        .record_native_status(PhotoKitAccessLevel::Read, Some(2), 100)
        .unwrap();

    // A request is never cache-served; its outcome replaces the entry.
    let status = manager
        .request_authorization_at(PhotoKitAccessLevel::Read, 110)
        .unwrap();
    assert_eq!(status, PhotoKitAuthorizationStatus::Authorized);
    assert_eq!(
        manager.get_cached_status(PhotoKitAccessLevel::Read, 111),
        Some(PhotoKitAuthorizationStatus::Authorized)
    );
}

#[test]
fn invalid_native_reply_is_an_error_and_leaves_the_cache_alone() {
    let mut manager = PhotoKitPermissionManager::new(Some(30));
    manager
        .record_native_status(PhotoKitAccessLevel::Read, Some(4), 100)
        .unwrap();

    let r = manager.record_native_status(PhotoKitAccessLevel::Read, Some(99), 110);
    match r {
        Err(e) => {
            assert_eq!(e.message(), "桥接层错误: 无效的授权状态: 99");
            assert!(matches!(e, PhotoKitManagerError::BridgeError(_)));
        }
        Ok(_) => panic!("an out-of-range native code must not decode"),
    }

    // The earlier observation still stands.
    assert_eq!(
        manager.get_cached_status(PhotoKitAccessLevel::Read, 110),
        Some(PhotoKitAuthorizationStatus::Limited)
    );
}

#[test]
fn aborted_native_call_records_not_determined() {
    let mut manager = PhotoKitPermissionManager::new(Some(30));
    let status = manager
        .record_native_status(PhotoKitAccessLevel::Read, None, 100)
        .unwrap();
    assert_eq!(status, PhotoKitAuthorizationStatus::NotDetermined);
    assert_eq!(
        manager.get_cached_status(PhotoKitAccessLevel::Read, 100),
        Some(PhotoKitAuthorizationStatus::NotDetermined)
    );
}

#[test]
fn entries_from_the_future_or_past_the_ttl_are_stale() {
    let mut manager = PhotoKitPermissionManager::new(Some(30));
    manager
        .record_native_status(PhotoKitAccessLevel::Read, Some(2), 100)
        .unwrap();

    // A clock that went backwards makes the entry unusable.
    assert_eq!(manager.get_cached_status(PhotoKitAccessLevel::Read, 99), None);
    // The boundary is strict: age == ttl is already stale.
    assert_eq!(manager.get_cached_status(PhotoKitAccessLevel::Read, 130), None);
    assert_eq!(
        manager.get_cached_status(PhotoKitAccessLevel::Read, 129),
        Some(PhotoKitAuthorizationStatus::Denied)
    );
}

#[test]
fn manager_error_messages_render_their_detail() {
    let e = PhotoKitManagerError::PlatformNotSupported;
    assert_eq!(e.message(), "平台不支持 PhotoKit");
    let e = PhotoKitManagerError::CheckFailed(String::from("x"));
    assert_eq!(e.message(), "权限检查失败: x");
    let e = PhotoKitManagerError::RequestFailed(String::from("y"));
    assert_eq!(e.message(), "权限请求失败: y");
    let e = PhotoKitManagerError::CacheError(String::from("z"));
    assert_eq!(e.message(), "状态缓存错误: z");
}
