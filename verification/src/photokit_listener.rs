//! Registry of photo-library permission change listeners.
//!
//! The registry tracks subscriber interest per access level and decides
//! which change events deserve fan-out. It is decoupled from how changes are
//! detected: an external coordinator observes a status change and calls
//! [`PhotoKitPermissionListener::handle_permission_change`], which hands back
//! the event to deliver — if any listener asked for it — for the embedding
//! layer to emit to its event sink. The native change-notification source
//! itself is not wired up here; until the platform layer drives it, the
//! registry only keeps books.

use vstd::prelude::*;

use crate::PermissionStatusChangeEvent;
use crate::PhotoKitAccessLevel;
use crate::PhotoKitAuthorizationStatus;
use crate::sys;

verus! {

/// Errors of the listener registry.
#[derive(Debug)]
pub enum PhotoKitListenerError {
    /// No listener carries the given id.
    ListenerNotFound(String),
    /// A listener with the given id already exists (reserved).
    ListenerAlreadyExists(String),
    /// Handing an event to the event sink failed, with detail.
    EventEmitFailed(String),
    /// The registry's lock could not be acquired.
    LockFailed,
    /// The platform does not support change notifications.
    PlatformNotSupported,
}

impl PhotoKitListenerError {
    /// The human-readable description of this error.
    pub open spec fn spec_message(self) -> Seq<char> {
        match self {
            PhotoKitListenerError::ListenerNotFound(id) => "监听器不存在: "@ + id@,
            PhotoKitListenerError::ListenerAlreadyExists(id) => "监听器已存在: "@ + id@,
            PhotoKitListenerError::EventEmitFailed(detail) => "事件发送失败: "@ + detail@,
            PhotoKitListenerError::LockFailed => "监听器管理器锁定失败"@,
            PhotoKitListenerError::PlatformNotSupported => "平台不支持"@,
        }
    }

    /// Renders the error for display.
    pub fn message(&self) -> (r: String)
        ensures
            r@ == self.spec_message(),
    {
        match self {
            PhotoKitListenerError::ListenerNotFound(id) => {
                let mut out = String::from_str("监听器不存在: ");
                out.append(id.as_str());
                out
            },
            PhotoKitListenerError::ListenerAlreadyExists(id) => {
                let mut out = String::from_str("监听器已存在: ");
                out.append(id.as_str());
                out
            },
            PhotoKitListenerError::EventEmitFailed(detail) => {
                let mut out = String::from_str("事件发送失败: ");
                out.append(detail.as_str());
                out
            },
            PhotoKitListenerError::LockFailed => String::from_str("监听器管理器锁定失败"),
            PhotoKitListenerError::PlatformNotSupported => String::from_str("平台不支持"),
        }
    }
}

/// A registered interest in change notifications for one access level.
/// Identity is the `id`; the record is removed, not soft-deleted, on
/// unregistration.
#[derive(Debug)]
pub struct ListenerInfo {
    /// Unique identifier of the listener.
    pub id: String,
    /// The access level the listener wants change notifications for.
    pub access_level: PhotoKitAccessLevel,
    /// When the listener was registered, in seconds since the Unix epoch.
    pub created_at: u64,
    /// Whether the listener takes part in fan-out. Always `true` at
    /// creation; nothing flips it in the current design, which anticipates
    /// but does not implement a soft-disable lifecycle.
    pub active: bool,
}

impl Clone for ListenerInfo {
    /// An exact copy of the record.
    fn clone(&self) -> (r: ListenerInfo)
        ensures
            r == *self,
    {
        ListenerInfo {
            id: self.id.clone(),
            access_level: self.access_level,
            created_at: self.created_at,
            active: self.active,
        }
    }
}

impl ListenerInfo {
    /// Creates a listener record with a fresh random id, stamped with the
    /// current wall-clock time, and active.
    pub fn new(access_level: PhotoKitAccessLevel) -> (r: ListenerInfo)
        ensures
            r.access_level == access_level,
            r.active == true,
            r.id@.len() == 36,
    {
        ListenerInfo {
            id: sys::fresh_listener_id(),
            access_level,
            created_at: sys::unix_time_millis() / 1000,
            active: true,
        }
    }
}

/// Registry of change listeners: the sole owner of which subscribers hold an
/// outstanding interest, plus the one-shot flag for the change-notification
/// wiring.
pub struct PhotoKitPermissionListener {
    /// The registered listeners.
    pub listeners: Vec<ListenerInfo>,
    /// Whether the change-notification wiring has been initialized.
    pub notification_initialized: bool,
}

impl PhotoKitPermissionListener {
    /// Whether some registered listener carries the given id.
    pub open spec fn spec_has_listener(self, id: Seq<char>) -> bool {
        exists|i: int| 0 <= i < self.listeners@.len() && self.listeners@[i].id@ == id
    }

    /// Whether some active registered listener targets the given level.
    pub open spec fn spec_targets_level(self, access_level: PhotoKitAccessLevel) -> bool {
        exists|i: int|
            0 <= i < self.listeners@.len() && self.listeners@[i].access_level == access_level
                && self.listeners@[i].active
    }

    /// Creates an empty registry with uninitialized notification wiring.
    pub fn new() -> (r: PhotoKitPermissionListener)
        ensures
            r.listeners@ == Seq::<ListenerInfo>::empty(),
            r.notification_initialized == false,
    {
        PhotoKitPermissionListener { listeners: Vec::new(), notification_initialized: false }
    }

    /// Registers a listener for an access level and returns its fresh id.
    /// The new record is appended active; the change-notification wiring is
    /// initialized if this is the first time. Registration always succeeds:
    /// the caller owns the registry exclusively, so there is no lock to
    /// lose.
    pub fn register_listener(&mut self, access_level: PhotoKitAccessLevel) -> (r: Result<
        String,
        PhotoKitListenerError,
    >)
        ensures
            final(self).notification_initialized == true,
            final(self).listeners@.len() == old(self).listeners@.len() + 1,
            final(self).listeners@.drop_last() == old(self).listeners@,
            r matches Ok(id) && ({
                let info = final(self).listeners@.last();
                &&& info.id@ == id@
                &&& id@.len() == 36
                &&& info.access_level == access_level
                &&& info.active == true
            }),
    {
        let info = ListenerInfo::new(access_level);
        let listener_id = info.id.clone();
        self.listeners.push(info);
        self.initialize_notification_listener();
        proof {
            assert(final(self).listeners@.drop_last() =~= old(self).listeners@);
        }
        Ok(listener_id)
    }

    /// Removes the listener with the given id. Not idempotent by design: an
    /// unknown id — including one already unregistered — is a
    /// `ListenerNotFound` error and leaves the registry unchanged, so
    /// callers can detect logic bugs.
    pub fn unregister_listener(&mut self, listener_id: &str) -> (r: Result<
        (),
        PhotoKitListenerError,
    >)
        ensures
            old(self).spec_has_listener(listener_id@) ==> ({
                &&& r == Ok::<(), PhotoKitListenerError>(())
                &&& final(self).notification_initialized == old(self).notification_initialized
                &&& exists|i: int|
                    0 <= i < old(self).listeners@.len() && old(self).listeners@[i].id@
                        == listener_id@ && final(self).listeners@ == old(self).listeners@.remove(i)
            }),
            !old(self).spec_has_listener(listener_id@) ==> ({
                &&& r matches Err(PhotoKitListenerError::ListenerNotFound(missing)) && missing@
                    == listener_id@
                &&& *final(self) == *old(self)
            }),
    {
        let key = String::from_str(listener_id);
        let mut i: usize = 0;
        while i < self.listeners.len()
            invariant
                i <= self.listeners@.len(),
                key@ == listener_id@,
                *self == *old(self),
                forall|j: int| 0 <= j < i ==> self.listeners@[j].id@ != listener_id@,
            decreases self.listeners@.len() - i,
        {
            if self.listeners[i].id == key {
                proof {
                    assert(old(self).listeners@[i as int].id@ == listener_id@);
                }
                self.listeners.remove(i);
                return Ok(());
            }
            i += 1;
        }
        Err(PhotoKitListenerError::ListenerNotFound(key))
    }

    /// A snapshot of all active listeners (in the current design, all
    /// registered listeners, since nothing deactivates one).
    pub fn get_active_listeners(&self) -> (r: Result<Vec<ListenerInfo>, PhotoKitListenerError>)
        ensures
            r matches Ok(snapshot) && snapshot@ == self.listeners@.filter(
                |l: ListenerInfo| l.active,
            ),
    {
        let mut snapshot: Vec<ListenerInfo> = Vec::new();
        let mut i: usize = 0;
        while i < self.listeners.len()
            invariant
                i <= self.listeners@.len(),
                snapshot@ == self.listeners@.subrange(0, i as int).filter(
                    |l: ListenerInfo| l.active,
                ),
            decreases self.listeners@.len() - i,
        {
            proof {
                reveal(Seq::filter);
                let prefix = self.listeners@.subrange(0, i as int);
                let prefix_next = self.listeners@.subrange(0, i + 1);
                assert(prefix_next.drop_last() =~= prefix);
                assert(prefix_next.last() == self.listeners@[i as int]);
            }
            if self.listeners[i].active {
                snapshot.push(self.listeners[i].clone());
            }
            i += 1;
        }
        proof {
            assert(self.listeners@.subrange(0, self.listeners@.len() as int) =~= self.listeners@);
        }
        Ok(snapshot)
    }

    /// Unconditionally removes every listener. The notification wiring flag
    /// is left as it is.
    pub fn clear_all_listeners(&mut self) -> (r: Result<(), PhotoKitListenerError>)
        ensures
            r == Ok::<(), PhotoKitListenerError>(()),
            final(self).listeners@ == Seq::<ListenerInfo>::empty(),
            final(self).notification_initialized == old(self).notification_initialized,
    {
        self.listeners.clear();
        Ok(())
    }

    /// Decides the fan-out for a detected permission change. When no active
    /// listener targets the level, nothing is emitted and `None` is
    /// returned; otherwise exactly one event carrying the status and level,
    /// stamped with the current wall-clock time, is handed back — however
    /// many listeners target the level — for the embedding layer to deliver
    /// to its event sink. A delivery failure there is its `EventEmitFailed`.
    pub fn handle_permission_change(
        &self,
        new_status: PhotoKitAuthorizationStatus,
        access_level: PhotoKitAccessLevel,
    ) -> (r: Option<PermissionStatusChangeEvent>)
        ensures
            (r is Some) == self.spec_targets_level(access_level),
            r matches Some(event) ==> event.new_status == new_status && event.access_level
                == access_level,
    {
        let mut has_listeners = false;
        let mut i: usize = 0;
        while i < self.listeners.len()
            invariant
                i <= self.listeners@.len(),
                has_listeners == exists|j: int|
                    0 <= j < i && self.listeners@[j].access_level == access_level
                        && self.listeners@[j].active,
            decreases self.listeners@.len() - i,
        {
            if self.listeners[i].access_level == access_level && self.listeners[i].active {
                has_listeners = true;
            }
            i += 1;
        }
        if !has_listeners {
            return None;
        }
        Some(PermissionStatusChangeEvent::new(new_status, access_level))
    }

    /// Marks the change-notification wiring initialized, exactly once: a
    /// second call after the flag is set is a no-op. The native notification
    /// source that would feed [`Self::handle_permission_change`] is the
    /// platform layer's to drive and is not set up here.
    fn initialize_notification_listener(&mut self)
        ensures
            final(self).notification_initialized == true,
            final(self).listeners == old(self).listeners,
    {
        if self.notification_initialized {
            return ;
        }
        self.notification_initialized = true;
    }
}

} // verus!
