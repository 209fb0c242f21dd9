//! Photo-library permission model for macOS-style privacy permissions.
//!
//! The crate exposes the domain model for photo-library access permissions
//! (access levels, authorization statuses, change events), a bridge that
//! decodes replies of the native permission authority, a caching permission
//! manager, and a registry of change-notification listeners.

use vstd::prelude::*;

pub mod commands;
pub mod decimal;
pub mod photokit_bridge;
pub mod photokit_listener;
pub mod photokit_manager;
pub mod sys;

pub use commands::check_photokit_permission;
pub use commands::get_photokit_permission_listeners;
pub use commands::get_photos_count;
pub use commands::register_photokit_permission_listener;
pub use commands::request_photokit_permission;
pub use commands::unregister_photokit_permission_listener;
pub use photokit_bridge::PhotoKitBridge;
pub use photokit_bridge::PhotoKitBridgeError;
pub use photokit_listener::ListenerInfo;
pub use photokit_listener::PhotoKitListenerError;
pub use photokit_listener::PhotoKitPermissionListener;
pub use photokit_manager::CacheEntry;
pub use photokit_manager::PhotoKitManagerError;
pub use photokit_manager::PhotoKitPermissionManager;

verus! {

/// Access level that an application can request for the photo library.
///
/// Each level maps bijectively to a small positive integer understood by the
/// native permission authority.
#[derive(Debug, Clone, Copy, PartialEq, Eq, Hash, Structural)]
pub enum PhotoKitAccessLevel {
    /// Read-only access to photos and videos.
    Read,
    /// Full read and write access.
    ReadWrite,
    /// Permission to add new items only.
    AddOnly,
}

/// The authority's current decision for a given access level.
#[derive(Debug, Clone, Copy, PartialEq, Eq, Structural)]
pub enum PhotoKitAuthorizationStatus {
    /// The user has not been asked yet.
    NotDetermined,
    /// Access is restricted, for example by parental controls.
    Restricted,
    /// The user denied access.
    Denied,
    /// The user granted full access.
    Authorized,
    /// The user granted access to a subset of the library.
    Limited,
}

impl PhotoKitAccessLevel {
    /// The native integer code of this access level.
    pub open spec fn spec_native_value(self) -> i32 {
        match self {
            PhotoKitAccessLevel::Read => 1,
            PhotoKitAccessLevel::ReadWrite => 2,
            PhotoKitAccessLevel::AddOnly => 3,
        }
    }

    /// The access level denoted by a native integer code, if any.
    pub open spec fn spec_from_native_value(value: i32) -> Option<PhotoKitAccessLevel> {
        if value == 1 {
            Some(PhotoKitAccessLevel::Read)
        } else if value == 2 {
            Some(PhotoKitAccessLevel::ReadWrite)
        } else if value == 3 {
            Some(PhotoKitAccessLevel::AddOnly)
        } else {
            None
        }
    }

    /// Converts this access level to the native authority's integer code.
    pub fn to_native_value(self) -> (r: i32)
        ensures
            r == self.spec_native_value(),
    {
        match self {
            PhotoKitAccessLevel::Read => 1,
            PhotoKitAccessLevel::ReadWrite => 2,
            PhotoKitAccessLevel::AddOnly => 3,
        }
    }

    /// Decodes a native integer code; codes outside the declared variant set
    /// yield no value rather than a default variant.
    pub fn from_native_value(value: i32) -> (r: Option<PhotoKitAccessLevel>)
        ensures
            r == PhotoKitAccessLevel::spec_from_native_value(value),
            (value < 1 || value > 3) ==> r is None,
    {
        match value {
            1 => Some(PhotoKitAccessLevel::Read),
            2 => Some(PhotoKitAccessLevel::ReadWrite),
            3 => Some(PhotoKitAccessLevel::AddOnly),
            _ => None,
        }
    }
}

impl PhotoKitAccessLevel {
    /// The wire form of this access level: a stable string tag.
    pub open spec fn spec_wire_tag(self) -> Seq<char> {
        match self {
            PhotoKitAccessLevel::Read => "read"@,
            PhotoKitAccessLevel::ReadWrite => "readWrite"@,
            PhotoKitAccessLevel::AddOnly => "addOnly"@,
        }
    }

    /// The access level denoted by a wire tag, if any.
    pub open spec fn spec_from_wire_tag(s: Seq<char>) -> Option<PhotoKitAccessLevel> {
        if s == "read"@ {
            Some(PhotoKitAccessLevel::Read)
        } else if s == "readWrite"@ {
            Some(PhotoKitAccessLevel::ReadWrite)
        } else if s == "addOnly"@ {
            Some(PhotoKitAccessLevel::AddOnly)
        } else {
            None
        }
    }

    /// The stable string tag under which this access level travels on the
    /// wire. The native integer codes are an internal detail; these tags are
    /// the outward contract.
    pub fn wire_tag(self) -> (r: &'static str)
        ensures
            r@ == self.spec_wire_tag(),
    {
        match self {
            PhotoKitAccessLevel::Read => "read",
            PhotoKitAccessLevel::ReadWrite => "readWrite",
            PhotoKitAccessLevel::AddOnly => "addOnly",
        }
    }

    /// Decodes a wire tag; any string outside the three declared tags yields
    /// no value.
    pub fn from_wire_tag(s: &str) -> (r: Option<PhotoKitAccessLevel>)
        ensures
            r == PhotoKitAccessLevel::spec_from_wire_tag(s@),
    {
        let key = String::from_str(s);
        if key == String::from_str("read") {
            Some(PhotoKitAccessLevel::Read)
        } else if key == String::from_str("readWrite") {
            Some(PhotoKitAccessLevel::ReadWrite)
        } else if key == String::from_str("addOnly") {
            Some(PhotoKitAccessLevel::AddOnly)
        } else {
            None
        }
    }
}

impl PhotoKitAuthorizationStatus {
    /// The native integer code of this authorization status.
    pub open spec fn spec_native_value(self) -> i32 {
        match self {
            PhotoKitAuthorizationStatus::NotDetermined => 0,
            PhotoKitAuthorizationStatus::Restricted => 1,
            PhotoKitAuthorizationStatus::Denied => 2,
            PhotoKitAuthorizationStatus::Authorized => 3,
            PhotoKitAuthorizationStatus::Limited => 4,
        }
    }

    /// The authorization status denoted by a native integer code, if any.
    pub open spec fn spec_from_native_value(value: i32) -> Option<PhotoKitAuthorizationStatus> {
        if value == 0 {
            Some(PhotoKitAuthorizationStatus::NotDetermined)
        } else if value == 1 {
            Some(PhotoKitAuthorizationStatus::Restricted)
        } else if value == 2 {
            Some(PhotoKitAuthorizationStatus::Denied)
        } else if value == 3 {
            Some(PhotoKitAuthorizationStatus::Authorized)
        } else if value == 4 {
            Some(PhotoKitAuthorizationStatus::Limited)
        } else {
            None
        }
    }

    /// Converts this status to the native authority's integer code.
    pub fn to_native_value(self) -> (r: i32)
        ensures
            r == self.spec_native_value(),
    {
        match self {
            PhotoKitAuthorizationStatus::NotDetermined => 0,
            PhotoKitAuthorizationStatus::Restricted => 1,
            PhotoKitAuthorizationStatus::Denied => 2,
            PhotoKitAuthorizationStatus::Authorized => 3,
            PhotoKitAuthorizationStatus::Limited => 4,
        }
    }

    /// Decodes a native integer code; codes outside the declared variant set
    /// yield no value rather than a default variant.
    pub fn from_native_value(value: i32) -> (r: Option<PhotoKitAuthorizationStatus>)
        ensures
            r == PhotoKitAuthorizationStatus::spec_from_native_value(value),
            (value < 0 || value > 4) ==> r is None,
    {
        match value {
            0 => Some(PhotoKitAuthorizationStatus::NotDetermined),
            1 => Some(PhotoKitAuthorizationStatus::Restricted),
            2 => Some(PhotoKitAuthorizationStatus::Denied),
            3 => Some(PhotoKitAuthorizationStatus::Authorized),
            4 => Some(PhotoKitAuthorizationStatus::Limited),
            _ => None,
        }
    }

    /// Whether this status grants any access at all: true exactly for
    /// `Authorized` and `Limited`.
    pub fn is_authorized(self) -> (r: bool)
        ensures
            r == (self is Authorized || self is Limited),
    {
        match self {
            PhotoKitAuthorizationStatus::Authorized => true,
            PhotoKitAuthorizationStatus::Limited => true,
            _ => false,
        }
    }

    /// The wire form of this status: a stable string tag.
    pub open spec fn spec_wire_tag(self) -> Seq<char> {
        match self {
            PhotoKitAuthorizationStatus::NotDetermined => "notDetermined"@,
            PhotoKitAuthorizationStatus::Restricted => "restricted"@,
            PhotoKitAuthorizationStatus::Denied => "denied"@,
            PhotoKitAuthorizationStatus::Authorized => "authorized"@,
            PhotoKitAuthorizationStatus::Limited => "limited"@,
        }
    }

    /// The authorization status denoted by a wire tag, if any.
    pub open spec fn spec_from_wire_tag(s: Seq<char>) -> Option<PhotoKitAuthorizationStatus> {
        if s == "notDetermined"@ {
            Some(PhotoKitAuthorizationStatus::NotDetermined)
        } else if s == "restricted"@ {
            Some(PhotoKitAuthorizationStatus::Restricted)
        } else if s == "denied"@ {
            Some(PhotoKitAuthorizationStatus::Denied)
        } else if s == "authorized"@ {
            Some(PhotoKitAuthorizationStatus::Authorized)
        } else if s == "limited"@ {
            Some(PhotoKitAuthorizationStatus::Limited)
        } else {
            None
        }
    }

    /// The stable string tag under which this status travels on the wire.
    pub fn wire_tag(self) -> (r: &'static str)
        ensures
            r@ == self.spec_wire_tag(),
    {
        match self {
            PhotoKitAuthorizationStatus::NotDetermined => "notDetermined",
            PhotoKitAuthorizationStatus::Restricted => "restricted",
            PhotoKitAuthorizationStatus::Denied => "denied",
            PhotoKitAuthorizationStatus::Authorized => "authorized",
            PhotoKitAuthorizationStatus::Limited => "limited",
        }
    }

    /// Decodes a wire tag; any string outside the five declared tags yields
    /// no value.
    pub fn from_wire_tag(s: &str) -> (r: Option<PhotoKitAuthorizationStatus>)
        ensures
            r == PhotoKitAuthorizationStatus::spec_from_wire_tag(s@),
    {
        let key = String::from_str(s);
        if key == String::from_str("notDetermined") {
            Some(PhotoKitAuthorizationStatus::NotDetermined)
        } else if key == String::from_str("restricted") {
            Some(PhotoKitAuthorizationStatus::Restricted)
        } else if key == String::from_str("denied") {
            Some(PhotoKitAuthorizationStatus::Denied)
        } else if key == String::from_str("authorized") {
            Some(PhotoKitAuthorizationStatus::Authorized)
        } else if key == String::from_str("limited") {
            Some(PhotoKitAuthorizationStatus::Limited)
        } else {
            None
        }
    }
}

/// Event handed to the external event sink when a permission status change
/// is detected. Transient: constructed at the moment of the change, never
/// stored.
#[derive(Debug, Clone, Copy)]
pub struct PermissionStatusChangeEvent {
    /// The newly observed authorization status.
    pub new_status: PhotoKitAuthorizationStatus,
    /// The access level the change concerns.
    pub access_level: PhotoKitAccessLevel,
    /// When the change was detected, in milliseconds since the Unix epoch.
    pub timestamp: u64,
}

impl PermissionStatusChangeEvent {
    /// Builds a change event for the given status and level, stamped with
    /// the current wall-clock time.
    pub fn new(
        new_status: PhotoKitAuthorizationStatus,
        access_level: PhotoKitAccessLevel,
    ) -> (r: PermissionStatusChangeEvent)
        ensures
            r.new_status == new_status,
            r.access_level == access_level,
    {
        PermissionStatusChangeEvent { new_status, access_level, timestamp: sys::unix_time_millis() }
    }
}

/// Encoding an access level to its native code and decoding it again yields
/// the level itself.
pub proof fn lemma_access_level_native_round_trip(level: PhotoKitAccessLevel)
    ensures
        PhotoKitAccessLevel::spec_from_native_value(level.spec_native_value()) == Some(level),
{
}

/// Encoding an authorization status to its native code and decoding it again
/// yields the status itself.
pub proof fn lemma_authorization_status_native_round_trip(status: PhotoKitAuthorizationStatus)
    ensures
        PhotoKitAuthorizationStatus::spec_from_native_value(status.spec_native_value())
            == Some(status),
{
}

/// Encoding an access level to its wire tag and decoding it again yields the
/// level itself.
pub proof fn lemma_access_level_wire_round_trip(level: PhotoKitAccessLevel)
    ensures
        PhotoKitAccessLevel::spec_from_wire_tag(level.spec_wire_tag()) == Some(level),
{
    reveal_strlit("read");
    reveal_strlit("readWrite");
    reveal_strlit("addOnly");
    // The three tags have pairwise distinct lengths, so no two are equal.
    assert("read"@.len() == 4);
    assert("readWrite"@.len() == 9);
    assert("addOnly"@.len() == 7);
}

/// Encoding an authorization status to its wire tag and decoding it again
/// yields the status itself.
pub proof fn lemma_authorization_status_wire_round_trip(status: PhotoKitAuthorizationStatus)
    ensures
        PhotoKitAuthorizationStatus::spec_from_wire_tag(status.spec_wire_tag()) == Some(status),
{
    reveal_strlit("notDetermined");
    reveal_strlit("restricted");
    reveal_strlit("denied");
    reveal_strlit("authorized");
    reveal_strlit("limited");
    // The tags differ pairwise: all lengths differ except "restricted" and
    // "authorized", which differ in their first character.
    assert("notDetermined"@.len() == 13);
    assert("restricted"@.len() == 10);
    assert("denied"@.len() == 6);
    assert("authorized"@.len() == 10);
    assert("limited"@.len() == 7);
    assert("restricted"@[0] == 'r');
    assert("authorized"@[0] == 'a');
}

} // verus!
