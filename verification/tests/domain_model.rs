use macos_permissions::PermissionStatusChangeEvent;
use macos_permissions::PhotoKitAccessLevel;
use macos_permissions::PhotoKitAuthorizationStatus;

#[test]
fn test_photokit_access_level_native_conversion() {
    assert_eq!(PhotoKitAccessLevel::Read.to_native_value(), 1);
    assert_eq!(PhotoKitAccessLevel::ReadWrite.to_native_value(), 2);
    assert_eq!(PhotoKitAccessLevel::AddOnly.to_native_value(), 3);

    assert_eq!(
        PhotoKitAccessLevel::from_native_value(1),
        Some(PhotoKitAccessLevel::Read)
    );
    assert_eq!(
        PhotoKitAccessLevel::from_native_value(2),
        Some(PhotoKitAccessLevel::ReadWrite)
    );
    assert_eq!(
        PhotoKitAccessLevel::from_native_value(3),
        Some(PhotoKitAccessLevel::AddOnly)
    );
    assert_eq!(PhotoKitAccessLevel::from_native_value(999), None);
}

#[test]
fn test_photokit_authorization_status_native_conversion() {
    assert_eq!(
        PhotoKitAuthorizationStatus::NotDetermined.to_native_value(),
        0
    );
    assert_eq!(PhotoKitAuthorizationStatus::Restricted.to_native_value(), 1);
    assert_eq!(PhotoKitAuthorizationStatus::Denied.to_native_value(), 2);
    assert_eq!(PhotoKitAuthorizationStatus::Authorized.to_native_value(), 3);
    assert_eq!(PhotoKitAuthorizationStatus::Limited.to_native_value(), 4);

    assert_eq!(
        PhotoKitAuthorizationStatus::from_native_value(0),
        Some(PhotoKitAuthorizationStatus::NotDetermined)
    );
    assert_eq!(
        PhotoKitAuthorizationStatus::from_native_value(1),
        Some(PhotoKitAuthorizationStatus::Restricted)
    );
    assert_eq!(
        PhotoKitAuthorizationStatus::from_native_value(2),
        Some(PhotoKitAuthorizationStatus::Denied)
    );
    assert_eq!(
        PhotoKitAuthorizationStatus::from_native_value(3),
        Some(PhotoKitAuthorizationStatus::Authorized)
    );
    assert_eq!(
        PhotoKitAuthorizationStatus::from_native_value(4),
        Some(PhotoKitAuthorizationStatus::Limited)
    );
    assert_eq!(PhotoKitAuthorizationStatus::from_native_value(999), None);
}

#[test]
fn test_photokit_authorization_status_is_authorized() {
    assert!(PhotoKitAuthorizationStatus::Authorized.is_authorized());
    assert!(PhotoKitAuthorizationStatus::Limited.is_authorized());
    assert!(!PhotoKitAuthorizationStatus::NotDetermined.is_authorized());
    assert!(!PhotoKitAuthorizationStatus::Restricted.is_authorized());
    assert!(!PhotoKitAuthorizationStatus::Denied.is_authorized());
}

#[test]
fn test_permission_status_change_event_creation() {
    let event = PermissionStatusChangeEvent::new(
        PhotoKitAuthorizationStatus::Authorized,
        PhotoKitAccessLevel::Read,
    );

    assert_eq!(event.new_status, PhotoKitAuthorizationStatus::Authorized);
    assert_eq!(event.access_level, PhotoKitAccessLevel::Read);
    assert!(event.timestamp > 0);
}

#[test]
fn test_serde_serialization() {
    let access_level = PhotoKitAccessLevel::ReadWrite;
    let json = format!("\"{}\"", access_level.wire_tag());
    assert_eq!(json, "\"readWrite\"");

    let deserialized = PhotoKitAccessLevel::from_wire_tag(access_level.wire_tag()).unwrap();
    assert_eq!(deserialized, access_level);

    let status = PhotoKitAuthorizationStatus::Limited;
    let json = format!("\"{}\"", status.wire_tag());
    assert_eq!(json, "\"limited\"");

    let deserialized = PhotoKitAuthorizationStatus::from_wire_tag(status.wire_tag()).unwrap();
    assert_eq!(deserialized, status);
}

#[test]
fn test_photokit_access_levels() {
    let levels = [
        PhotoKitAccessLevel::Read,
        PhotoKitAccessLevel::ReadWrite,
        PhotoKitAccessLevel::AddOnly,
    ];

    for level in levels.iter() {
        let serialized = level.wire_tag();
        assert!(!serialized.is_empty());

        let deserialized = PhotoKitAccessLevel::from_wire_tag(serialized);
        assert!(deserialized.is_some());
        assert_eq!(*level, deserialized.unwrap());
    }
}

#[test]
fn native_codes_outside_declared_ranges_decode_to_none() {
    assert_eq!(PhotoKitAccessLevel::from_native_value(0), None);
    assert_eq!(PhotoKitAccessLevel::from_native_value(4), None);
    assert_eq!(PhotoKitAccessLevel::from_native_value(-1), None);
    assert_eq!(PhotoKitAuthorizationStatus::from_native_value(-1), None);
    assert_eq!(PhotoKitAuthorizationStatus::from_native_value(5), None);
    assert_eq!(PhotoKitAuthorizationStatus::from_native_value(i32::MIN), None);
}

#[test]
fn wire_tags_are_the_stable_string_contract() {
    assert_eq!(PhotoKitAccessLevel::Read.wire_tag(), "read");
    assert_eq!(PhotoKitAccessLevel::ReadWrite.wire_tag(), "readWrite");
    assert_eq!(PhotoKitAccessLevel::AddOnly.wire_tag(), "addOnly");
    assert_eq!(PhotoKitAuthorizationStatus::NotDetermined.wire_tag(), "notDetermined");
    assert_eq!(PhotoKitAuthorizationStatus::Restricted.wire_tag(), "restricted");
    assert_eq!(PhotoKitAuthorizationStatus::Denied.wire_tag(), "denied");
    assert_eq!(PhotoKitAuthorizationStatus::Authorized.wire_tag(), "authorized");
    assert_eq!(PhotoKitAuthorizationStatus::Limited.wire_tag(), "limited");
}

#[test]
fn unknown_wire_tags_decode_to_none() {
    assert_eq!(PhotoKitAccessLevel::from_wire_tag("write"), None);
    assert_eq!(PhotoKitAccessLevel::from_wire_tag(""), None);
    assert_eq!(PhotoKitAccessLevel::from_wire_tag("Read"), None);
    assert_eq!(PhotoKitAuthorizationStatus::from_wire_tag("granted"), None);
    assert_eq!(PhotoKitAuthorizationStatus::from_wire_tag(""), None);
}

#[test]
fn status_wire_round_trip() {
    let statuses = [
        PhotoKitAuthorizationStatus::NotDetermined,
        PhotoKitAuthorizationStatus::Restricted,
        PhotoKitAuthorizationStatus::Denied,
        PhotoKitAuthorizationStatus::Authorized,
        PhotoKitAuthorizationStatus::Limited,
    ];
    for status in statuses.iter() {
        assert_eq!(
            PhotoKitAuthorizationStatus::from_wire_tag(status.wire_tag()),
            Some(*status)
        );
        assert_eq!(
            PhotoKitAuthorizationStatus::from_native_value(status.to_native_value()),
            Some(*status)
        );
    }
}
