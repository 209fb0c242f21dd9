//! Command layer for photo-library permission queries.
//!
//! These are the compute parts of the inbound command surface: each takes
//! and returns plain values, with errors rendered as strings for the
//! boundary. The embedding application's command router calls them; any
//! asynchronous dispatch is its concern, not this layer's.

use vstd::prelude::*;

use crate::PhotoKitAccessLevel;
use crate::PhotoKitAuthorizationStatus;
use crate::photokit_listener::ListenerInfo;
use crate::photokit_listener::PhotoKitPermissionListener;
use crate::photokit_manager::PhotoKitPermissionManager;

verus! {

/// Current photo-library authorization status for an access level. Never
/// fails to the caller: a status query that cannot be answered degrades to
/// `NotDetermined` instead of erroring. On this build the platform fallback
/// answers every fresh query with `Authorized`.
pub fn check_photokit_permission(access_level: PhotoKitAccessLevel) -> (r:
    PhotoKitAuthorizationStatus)
    ensures
        r == PhotoKitAuthorizationStatus::Authorized,
{
    let mut manager = PhotoKitPermissionManager::new(None);
    match manager.check_authorization_status(access_level) {
        Ok(status) => status,
        Err(_) => PhotoKitAuthorizationStatus::NotDetermined,
    }
}

/// Requests photo-library authorization for an access level and returns the
/// status observed right after, or an error message. On this build the
/// platform fallback grants every request as `Authorized`.
pub fn request_photokit_permission(access_level: PhotoKitAccessLevel) -> (r: Result<
    PhotoKitAuthorizationStatus,
    String,
>)
    ensures
        r matches Ok(status) && status == PhotoKitAuthorizationStatus::Authorized,
{
    let mut manager = PhotoKitPermissionManager::new(None);
    match manager.request_authorization(access_level) {
        Ok(status) => Ok(status),
        Err(e) => Err(e.message()),
    }
}

/// Registers a change listener for an access level on the given registry
/// and returns the fresh listener id.
pub fn register_photokit_permission_listener(
    registry: &mut PhotoKitPermissionListener,
    access_level: PhotoKitAccessLevel,
) -> (r: Result<String, String>)
    ensures
        final(registry).notification_initialized == true,
        final(registry).listeners@.len() == old(registry).listeners@.len() + 1,
        final(registry).listeners@.drop_last() == old(registry).listeners@,
        r matches Ok(id) && ({
            let info = final(registry).listeners@.last();
            &&& info.id@ == id@
            &&& info.access_level == access_level
            &&& info.active == true
        }),
{
    match registry.register_listener(access_level) {
        Ok(id) => Ok(id),
        Err(e) => Err(e.message()),
    }
}

/// Unregisters the listener with the given id from the given registry; an
/// unknown id is an error message and leaves the registry unchanged.
pub fn unregister_photokit_permission_listener(
    registry: &mut PhotoKitPermissionListener,
    listener_id: String,
) -> (r: Result<(), String>)
    ensures
        old(registry).spec_has_listener(listener_id@) ==> ({
            &&& r == Ok::<(), String>(())
            &&& final(registry).notification_initialized == old(
                registry,
            ).notification_initialized
            &&& exists|i: int|
                0 <= i < old(registry).listeners@.len() && old(registry).listeners@[i].id@
                    == listener_id@ && final(registry).listeners@ == old(
                    registry,
                ).listeners@.remove(i)
        }),
        !old(registry).spec_has_listener(listener_id@) ==> ({
            &&& r matches Err(message) && message@ == "监听器不存在: "@ + listener_id@
            &&& *final(registry) == *old(registry)
        }),
{
    match registry.unregister_listener(listener_id.as_str()) {
        Ok(()) => Ok(()),
        Err(e) => Err(e.message()),
    }
}

/// A snapshot of the registry's active listeners.
pub fn get_photokit_permission_listeners(registry: &PhotoKitPermissionListener) -> (r: Result<
    Vec<ListenerInfo>,
    String,
>)
    ensures
        r matches Ok(snapshot) && snapshot@ == registry.listeners@.filter(
            |l: ListenerInfo| l.active,
        ),
{
    match registry.get_active_listeners() {
        Ok(snapshot) => Ok(snapshot),
        Err(e) => Err(e.message()),
    }
}

/// Total number of photos in the library, or an error message. On this
/// build the platform fallback reports an empty library.
pub fn get_photos_count() -> (r: Result<u64, String>)
    ensures
        r == Ok::<u64, String>(0u64),
{
    let manager = PhotoKitPermissionManager::new(None);
    match manager.get_photos_count() {
        Ok(count) => Ok(count),
        Err(e) => Err(e.message()),
    }
}

} // verus!
