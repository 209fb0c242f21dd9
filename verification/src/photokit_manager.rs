//! Caching manager for photo-library permission queries.
//!
//! The manager presents a read-through, time-bounded cache over the bridge:
//! repeated status queries within the ttl are served from the cache with no
//! native call, and every fresh observation overwrites the previous entry
//! unconditionally. Freshness is a read-time check against an explicit
//! timestamp; a stale entry simply occupies its slot until overwritten.
//!
//! On a platform with the native authority, the embedding layer performs the
//! foreign status query and hands the raw reply to
//! [`PhotoKitPermissionManager::record_native_status`]; on this build the
//! authority is absent and every check or request degrades to the explicit
//! platform fallback of `Authorized`, with a photo count of `0`.

use vstd::prelude::*;

use crate::PhotoKitAccessLevel;
use crate::PhotoKitAuthorizationStatus;
use crate::photokit_bridge::PhotoKitBridge;
use crate::photokit_bridge::PhotoKitBridgeError;
use crate::sys;

verus! {

/// One cached observation of the authority's decision for one access level.
#[derive(Debug, Clone, Copy)]
pub struct CacheEntry {
    /// The status that was observed.
    pub status: PhotoKitAuthorizationStatus,
    /// When it was observed, in seconds since the Unix epoch.
    pub observed_at: u64,
}

/// Errors of the permission manager.
#[derive(Debug)]
pub enum PhotoKitManagerError {
    /// The platform does not support the photo-library authority.
    PlatformNotSupported,
    /// A status check failed, with detail.
    CheckFailed(String),
    /// A permission request failed, with detail.
    RequestFailed(String),
    /// The status cache could not be used, with detail.
    CacheError(String),
    /// A bridge-level failure.
    BridgeError(PhotoKitBridgeError),
}

impl PhotoKitManagerError {
    /// The human-readable description of this error.
    pub open spec fn spec_message(self) -> Seq<char> {
        match self {
            PhotoKitManagerError::PlatformNotSupported => "平台不支持 PhotoKit"@,
            PhotoKitManagerError::CheckFailed(detail) => "权限检查失败: "@ + detail@,
            PhotoKitManagerError::RequestFailed(detail) => "权限请求失败: "@ + detail@,
            PhotoKitManagerError::CacheError(detail) => "状态缓存错误: "@ + detail@,
            PhotoKitManagerError::BridgeError(e) => "桥接层错误: "@ + e.spec_message(),
        }
    }

    /// Renders the error for display.
    pub fn message(&self) -> (r: String)
        ensures
            r@ == self.spec_message(),
    {
        match self {
            PhotoKitManagerError::PlatformNotSupported => String::from_str("平台不支持 PhotoKit"),
            PhotoKitManagerError::CheckFailed(detail) => {
                let mut out = String::from_str("权限检查失败: ");
                out.append(detail.as_str());
                out
            },
            PhotoKitManagerError::RequestFailed(detail) => {
                let mut out = String::from_str("权限请求失败: ");
                out.append(detail.as_str());
                out
            },
            PhotoKitManagerError::CacheError(detail) => {
                let mut out = String::from_str("状态缓存错误: ");
                out.append(detail.as_str());
                out
            },
            PhotoKitManagerError::BridgeError(e) => {
                let mut out = String::from_str("桥接层错误: ");
                let inner = e.message();
                out.append(inner.as_str());
                out
            },
        }
    }
}

impl From<PhotoKitBridgeError> for PhotoKitManagerError {
    /// Wraps a bridge-level failure.
    fn from(e: PhotoKitBridgeError) -> (r: PhotoKitManagerError) {
        PhotoKitManagerError::BridgeError(e)
    }
}

impl vstd::std_specs::convert::FromSpecImpl<PhotoKitBridgeError> for PhotoKitManagerError {
    open spec fn obeys_from_spec() -> bool {
        true
    }

    open spec fn from_spec(e: PhotoKitBridgeError) -> PhotoKitManagerError {
        PhotoKitManagerError::BridgeError(e)
    }
}

/// Cached, coordinated view over the bridge: the component callers use for
/// photo-permission queries. One cache slot per access level; the ttl is
/// fixed at construction.
pub struct PhotoKitPermissionManager {
    /// Stateless handle on the native authority.
    pub bridge: PhotoKitBridge,
    /// Cache slot for `Read`.
    pub cache_read: Option<CacheEntry>,
    /// Cache slot for `ReadWrite`.
    pub cache_read_write: Option<CacheEntry>,
    /// Cache slot for `AddOnly`.
    pub cache_add_only: Option<CacheEntry>,
    /// Cache time-to-live in seconds, fixed at construction.
    pub cache_ttl: u64,
}

impl PhotoKitPermissionManager {
    /// The cache slot for one access level.
    pub open spec fn spec_cache_entry(self, access_level: PhotoKitAccessLevel) -> Option<
        CacheEntry,
    > {
        match access_level {
            PhotoKitAccessLevel::Read => self.cache_read,
            PhotoKitAccessLevel::ReadWrite => self.cache_read_write,
            PhotoKitAccessLevel::AddOnly => self.cache_add_only,
        }
    }

    /// The configured cache time-to-live, in seconds.
    pub open spec fn spec_cache_ttl(self) -> u64 {
        self.cache_ttl
    }

    /// This manager with one cache slot replaced.
    pub open spec fn spec_with_slot(
        self,
        access_level: PhotoKitAccessLevel,
        slot: Option<CacheEntry>,
    ) -> Self {
        match access_level {
            PhotoKitAccessLevel::Read => PhotoKitPermissionManager { cache_read: slot, ..self },
            PhotoKitAccessLevel::ReadWrite => PhotoKitPermissionManager {
                cache_read_write: slot,
                ..self
            },
            PhotoKitAccessLevel::AddOnly => PhotoKitPermissionManager {
                cache_add_only: slot,
                ..self
            },
        }
    }

    /// Whether the cache holds an entry for this level that is still fresh
    /// at time `now`: present, not from the future, and younger than the
    /// ttl.
    pub open spec fn cache_fresh_at(
        self,
        access_level: PhotoKitAccessLevel,
        now: u64,
    ) -> bool {
        match self.spec_cache_entry(access_level) {
            Some(e) => e.observed_at <= now && now - e.observed_at < self.cache_ttl,
            None => false,
        }
    }

    /// The status a cache probe yields at time `now`.
    pub open spec fn spec_cached_status(
        self,
        access_level: PhotoKitAccessLevel,
        now: u64,
    ) -> Option<PhotoKitAuthorizationStatus> {
        match self.spec_cache_entry(access_level) {
            Some(e) => if self.cache_fresh_at(access_level, now) {
                Some(e.status)
            } else {
                None
            },
            None => None,
        }
    }

    /// The status the platform probe reports on this build: with no native
    /// authority linked, checks and requests degrade to `Authorized`.
    pub open spec fn spec_platform_status() -> PhotoKitAuthorizationStatus {
        PhotoKitAuthorizationStatus::Authorized
    }

    /// Whether a status check at time `now` performs a native probe: exactly
    /// on a cache miss or an expired entry.
    pub open spec fn spec_check_probes(
        self,
        access_level: PhotoKitAccessLevel,
        now: u64,
    ) -> bool {
        !self.cache_fresh_at(access_level, now)
    }

    /// The status a check at time `now` returns: the cached status on a
    /// fresh hit, the platform probe's status otherwise.
    pub open spec fn spec_check_result(
        self,
        access_level: PhotoKitAccessLevel,
        now: u64,
    ) -> PhotoKitAuthorizationStatus {
        match self.spec_cached_status(access_level, now) {
            Some(status) => status,
            None => Self::spec_platform_status(),
        }
    }

    /// The manager state a check at time `now` leaves behind: unchanged on a
    /// fresh hit, otherwise the probed status overwrites this level's slot.
    pub open spec fn spec_check_next(
        self,
        access_level: PhotoKitAccessLevel,
        now: u64,
    ) -> Self {
        if self.cache_fresh_at(access_level, now) {
            self
        } else {
            self.spec_with_slot(
                access_level,
                Some(CacheEntry { status: Self::spec_platform_status(), observed_at: now }),
            )
        }
    }

    /// The manager state a request at time `now` leaves behind: a request is
    /// never cache-served, so the result always overwrites this level's
    /// slot.
    pub open spec fn spec_request_next(
        self,
        access_level: PhotoKitAccessLevel,
        now: u64,
    ) -> Self {
        self.spec_with_slot(
            access_level,
            Some(CacheEntry { status: Self::spec_platform_status(), observed_at: now }),
        )
    }

    /// The manager state clearing leaves behind: one slot emptied, or all.
    pub open spec fn spec_clear_next(self, access_level: Option<PhotoKitAccessLevel>) -> Self {
        match access_level {
            Some(level) => self.spec_with_slot(level, None),
            None => PhotoKitPermissionManager {
                cache_read: None,
                cache_read_write: None,
                cache_add_only: None,
                ..self
            },
        }
    }

    /// Relation between the states and result of one status check, at some
    /// time `now`.
    pub open spec fn check_transition(
        pre: Self,
        post: Self,
        access_level: PhotoKitAccessLevel,
        r: Result<PhotoKitAuthorizationStatus, PhotoKitManagerError>,
        now: u64,
    ) -> bool {
        &&& r == Ok::<PhotoKitAuthorizationStatus, PhotoKitManagerError>(
            pre.spec_check_result(access_level, now),
        )
        &&& post == pre.spec_check_next(access_level, now)
    }

    /// Relation between the states and result of one authorization request,
    /// at some time `now`.
    pub open spec fn request_transition(
        pre: Self,
        post: Self,
        access_level: PhotoKitAccessLevel,
        r: Result<PhotoKitAuthorizationStatus, PhotoKitManagerError>,
        now: u64,
    ) -> bool {
        &&& r == Ok::<PhotoKitAuthorizationStatus, PhotoKitManagerError>(
            Self::spec_platform_status(),
        )
        &&& post == pre.spec_request_next(access_level, now)
    }

    /// Creates a manager with the given cache ttl in seconds, or the default
    /// of 30 seconds, and an empty cache.
    pub fn new(cache_ttl: Option<u64>) -> (r: PhotoKitPermissionManager)
        ensures
            r.spec_cache_ttl() == (match cache_ttl {
                Some(ttl) => ttl,
                None => 30u64,
            }),
            forall|level: PhotoKitAccessLevel| r.spec_cache_entry(level) is None,
    {
        let ttl: u64 = match cache_ttl {
            Some(ttl) => ttl,
            None => 30,
        };
        PhotoKitPermissionManager {
            bridge: PhotoKitBridge::new(),
            cache_read: None,
            cache_read_write: None,
            cache_add_only: None,
            cache_ttl: ttl,
        }
    }

    /// The configured cache time-to-live, in seconds.
    pub fn cache_ttl(&self) -> (r: u64)
        ensures
            r == self.spec_cache_ttl(),
    {
        self.cache_ttl
    }

    /// The cached status for this level if its entry is fresh at time
    /// `now`; `None` on a miss or an expired entry. Purely a read: the
    /// cache is never evicted in the background.
    pub fn get_cached_status(
        &self,
        access_level: PhotoKitAccessLevel,
        now: u64,
    ) -> (r: Option<PhotoKitAuthorizationStatus>)
        ensures
            r == self.spec_cached_status(access_level, now),
    {
        let slot = match access_level {
            PhotoKitAccessLevel::Read => &self.cache_read,
            PhotoKitAccessLevel::ReadWrite => &self.cache_read_write,
            PhotoKitAccessLevel::AddOnly => &self.cache_add_only,
        };
        match slot {
            Some(e) => {
                if e.observed_at <= now && now - e.observed_at < self.cache_ttl {
                    Some(e.status)
                } else {
                    None
                }
            },
            None => None,
        }
    }

    /// Overwrites this level's cache slot with a fresh observation.
    /// Last-write-wins: the entry is replaced, never merged.
    fn update_cache(
        &mut self,
        access_level: PhotoKitAccessLevel,
        status: PhotoKitAuthorizationStatus,
        now: u64,
    )
        ensures
            *final(self) == old(self).spec_with_slot(
                access_level,
                Some(CacheEntry { status, observed_at: now }),
            ),
    {
        let entry = Some(CacheEntry { status, observed_at: now });
        match access_level {
            PhotoKitAccessLevel::Read => {
                self.cache_read = entry;
            },
            PhotoKitAccessLevel::ReadWrite => {
                self.cache_read_write = entry;
            },
            PhotoKitAccessLevel::AddOnly => {
                self.cache_add_only = entry;
            },
        }
    }

    /// Status for this level as the platform reports it. The native
    /// authority is absent on this build, so this is the explicit platform
    /// fallback, not an accidental default: every check degrades to
    /// `Authorized`.
    fn check_status_from_system(&self, _access_level: PhotoKitAccessLevel) -> (r: Result<
        PhotoKitAuthorizationStatus,
        PhotoKitManagerError,
    >)
        ensures
            r == Ok::<PhotoKitAuthorizationStatus, PhotoKitManagerError>(
                Self::spec_platform_status(),
            ),
    {
        Ok(PhotoKitAuthorizationStatus::Authorized)
    }

    /// Requests authorization from the platform. As with
    /// [`Self::check_status_from_system`], the absent authority degrades the
    /// request to the explicit platform fallback of `Authorized`.
    fn request_authorization_from_system(&self, _access_level: PhotoKitAccessLevel) -> (r: Result<
        PhotoKitAuthorizationStatus,
        PhotoKitManagerError,
    >)
        ensures
            r == Ok::<PhotoKitAuthorizationStatus, PhotoKitManagerError>(
                Self::spec_platform_status(),
            ),
    {
        Ok(PhotoKitAuthorizationStatus::Authorized)
    }

    /// Read-through status check at an explicit time `now` (seconds since
    /// the Unix epoch). On a fresh cache hit the cached value is returned
    /// with no platform probe and no state change; on a miss or an expired
    /// entry the platform is probed and the observation overwrites this
    /// level's slot, stamped `now`.
    pub fn check_authorization_status_at(
        &mut self,
        access_level: PhotoKitAccessLevel,
        now: u64,
    ) -> (r: Result<PhotoKitAuthorizationStatus, PhotoKitManagerError>)
        ensures
            Self::check_transition(*old(self), *final(self), access_level, r, now),
    {
        if let Some(status) = self.get_cached_status(access_level, now) {
            return Ok(status);
        }
        let status = match self.check_status_from_system(access_level) {
            Ok(status) => status,
            Err(e) => {
                return Err(e);
            },
        };
        self.update_cache(access_level, status, now);
        Ok(status)
    }

    /// Read-through status check stamped with the current wall-clock time.
    pub fn check_authorization_status(&mut self, access_level: PhotoKitAccessLevel) -> (r: Result<
        PhotoKitAuthorizationStatus,
        PhotoKitManagerError,
    >)
        ensures
            exists|now: u64|
                Self::check_transition(*old(self), *final(self), access_level, r, now),
    {
        let now: u64 = sys::unix_time_millis() / 1000;
        let r = self.check_authorization_status_at(access_level, now);
        proof {
            assert(Self::check_transition(*old(self), *final(self), access_level, r, now));
        }
        r
    }

    /// Authorization request at an explicit time `now` (seconds since the
    /// Unix epoch). A request is never served from the cache — its intent
    /// is a fresh prompt — and its outcome unconditionally overwrites this
    /// level's slot, stamped `now`.
    pub fn request_authorization_at(
        &mut self,
        access_level: PhotoKitAccessLevel,
        now: u64,
    ) -> (r: Result<PhotoKitAuthorizationStatus, PhotoKitManagerError>)
        ensures
            Self::request_transition(*old(self), *final(self), access_level, r, now),
    {
        let status = match self.request_authorization_from_system(access_level) {
            Ok(status) => status,
            Err(e) => {
                return Err(e);
            },
        };
        self.update_cache(access_level, status, now);
        Ok(status)
    }

    /// Authorization request stamped with the current wall-clock time.
    pub fn request_authorization(&mut self, access_level: PhotoKitAccessLevel) -> (r: Result<
        PhotoKitAuthorizationStatus,
        PhotoKitManagerError,
    >)
        ensures
            exists|now: u64|
                Self::request_transition(*old(self), *final(self), access_level, r, now),
    {
        let now: u64 = sys::unix_time_millis() / 1000;
        let r = self.request_authorization_at(access_level, now);
        proof {
            assert(Self::request_transition(*old(self), *final(self), access_level, r, now));
        }
        r
    }

    /// Stores the decoded outcome of a foreign status query that an
    /// embedding layer with the native authority performed, and returns the
    /// decoded status. A raw reply outside the declared status codes is a
    /// bridge error and leaves the cache untouched.
    pub fn record_native_status(
        &mut self,
        access_level: PhotoKitAccessLevel,
        reply: Option<i32>,
        now: u64,
    ) -> (r: Result<PhotoKitAuthorizationStatus, PhotoKitManagerError>)
        ensures
            match PhotoKitBridge::spec_decode_status_reply(reply) {
                Ok(status) => r == Ok::<PhotoKitAuthorizationStatus, PhotoKitManagerError>(status)
                    && *final(self) == old(self).spec_with_slot(
                    access_level,
                    Some(CacheEntry { status, observed_at: now }),
                ),
                Err(e) => r == Err::<PhotoKitAuthorizationStatus, PhotoKitManagerError>(
                    PhotoKitManagerError::BridgeError(e),
                ) && *final(self) == *old(self),
            },
    {
        match self.bridge.decode_status_reply(reply) {
            Ok(status) => {
                self.update_cache(access_level, status, now);
                Ok(status)
            },
            Err(e) => Err(PhotoKitManagerError::BridgeError(e)),
        }
    }

    /// Removes one level's cache entry, or every entry. Never fails: the
    /// caller owns the manager exclusively, so there is no lock to lose.
    pub fn clear_cache(&mut self, access_level: Option<PhotoKitAccessLevel>) -> (r: Result<
        (),
        PhotoKitManagerError,
    >)
        ensures
            r == Ok::<(), PhotoKitManagerError>(()),
            *final(self) == old(self).spec_clear_next(access_level),
    {
        match access_level {
            Some(level) => {
                match level {
                    PhotoKitAccessLevel::Read => {
                        self.cache_read = None;
                    },
                    PhotoKitAccessLevel::ReadWrite => {
                        self.cache_read_write = None;
                    },
                    PhotoKitAccessLevel::AddOnly => {
                        self.cache_add_only = None;
                    },
                }
            },
            None => {
                self.cache_read = None;
                self.cache_read_write = None;
                self.cache_add_only = None;
            },
        }
        Ok(())
    }

    /// Whether the native photo-library framework is available. Delegates
    /// to the bridge; on this platform the authority is absent, so this
    /// reports `false` by design.
    pub fn is_framework_available(&self) -> (r: bool)
        ensures
            r == false,
    {
        self.bridge.is_framework_available()
    }

    /// Total number of photos in the library. The count is a native query;
    /// with the authority absent it degrades to `0`, keeping the API shape
    /// without claiming a capability that does not exist.
    pub fn get_photos_count(&self) -> (r: Result<u64, PhotoKitManagerError>)
        ensures
            r == Ok::<u64, PhotoKitManagerError>(0u64),
    {
        Ok(0)
    }
}

impl Default for PhotoKitPermissionManager {
    /// Same as `new(None)`: the default 30-second ttl and an empty cache.
    fn default() -> (r: PhotoKitPermissionManager)
        ensures
            r.spec_cache_ttl() == 30u64,
            forall|level: PhotoKitAccessLevel| r.spec_cache_entry(level) is None,
    {
        PhotoKitPermissionManager::new(None)
    }
}

/// Cache idempotence: across two status checks for one level within the ttl
/// of each other, with nothing else intervening, at most one platform probe
/// happens; and unless the statuses came from different probes — a fresh hit
/// followed by an expiry — the two checks return the same status.
pub proof fn lemma_cache_idempotent(
    m: PhotoKitPermissionManager,
    access_level: PhotoKitAccessLevel,
    now1: u64,
    now2: u64,
)
    requires
        now1 <= now2,
        now2 - now1 < m.spec_cache_ttl(),
    ensures
        ({
            let m1 = m.spec_check_next(access_level, now1);
            &&& !(m.spec_check_probes(access_level, now1) && m1.spec_check_probes(
                access_level,
                now2,
            ))
            &&& m.spec_check_probes(access_level, now1) ==> m1.spec_check_result(
                access_level,
                now2,
            ) == m.spec_check_result(access_level, now1)
            &&& !m1.spec_check_probes(access_level, now2) ==> m1.spec_check_result(
                access_level,
                now2,
            ) == m.spec_check_result(access_level, now1)
        }),
{
}

/// Read-after-write consistency for a single caller: an authorization
/// request at `now` leaves a cache entry stamped `now`, so a status check
/// for the same level at any later time within the ttl is served from that
/// entry — it observes the request's result and performs no fresh probe.
pub proof fn lemma_read_after_request(
    m: PhotoKitPermissionManager,
    access_level: PhotoKitAccessLevel,
    now: u64,
    now2: u64,
)
    requires
        now <= now2,
        now2 - now < m.spec_cache_ttl(),
    ensures
        ({
            let m1 = m.spec_request_next(access_level, now);
            &&& !m1.spec_check_probes(access_level, now2)
            &&& m1.spec_check_result(access_level, now2)
                == PhotoKitPermissionManager::spec_platform_status()
        }),
{
}

/// Clearing one level's cache entry forces the next check for that level to
/// probe the platform afresh, at any time, while the entries of every other
/// level are unaffected.
pub proof fn lemma_clear_cache_forces_fresh_probe(
    m: PhotoKitPermissionManager,
    access_level: PhotoKitAccessLevel,
    now: u64,
)
    ensures
        m.spec_clear_next(Some(access_level)).spec_check_probes(access_level, now),
        forall|other: PhotoKitAccessLevel|
            other != access_level ==> m.spec_clear_next(Some(access_level)).spec_cache_entry(other)
                == m.spec_cache_entry(other),
{
}

} // verus!
