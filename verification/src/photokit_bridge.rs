//! Bridge to the native photo-library permission authority.
//!
//! The bridge is the single point of contact with the platform's permission
//! authority. The foreign call itself is unsafe Objective-C messaging that
//! only an Apple platform provides; an embedding layer that links the
//! authority performs the call and hands the raw integer reply to
//! [`PhotoKitBridge::decode_status_reply`]. On this build no authority is
//! linked, so direct queries cannot be completed and fall back to
//! `NotDetermined`: the declared fail-open policy, under which a failed probe
//! never crashes or errors the caller.

use vstd::prelude::*;

use crate::PhotoKitAccessLevel;
use crate::PhotoKitAuthorizationStatus;
use crate::decimal::decimal_string_i32;
use crate::decimal::spec_decimal;

verus! {

/// Failure modes of the native permission call stack. All are terminal for
/// the call that raised them; none is retried internally.
#[derive(Debug)]
pub enum PhotoKitBridgeError {
    /// The native framework is not available.
    FrameworkUnavailable,
    /// A permission request timed out (reserved, not currently raised).
    RequestTimeout,
    /// The native request failed outright, with detail.
    RequestFailed(String),
    /// A native access-level code outside the declared variant set.
    InvalidAccessLevel(i32),
    /// A native status code outside the declared variant set.
    InvalidAuthorizationStatus(i32),
}

impl PhotoKitBridgeError {
    /// The human-readable description of this error.
    pub open spec fn spec_message(self) -> Seq<char> {
        match self {
            PhotoKitBridgeError::FrameworkUnavailable => "PhotoKit 框架不可用"@,
            PhotoKitBridgeError::RequestTimeout => "权限请求超时"@,
            PhotoKitBridgeError::RequestFailed(detail) => "权限请求失败: "@ + detail@,
            PhotoKitBridgeError::InvalidAccessLevel(v) => "无效的权限级别: "@ + spec_decimal(
                v as int,
            ),
            PhotoKitBridgeError::InvalidAuthorizationStatus(v) => "无效的授权状态: "@
                + spec_decimal(v as int),
        }
    }

    /// Renders the error for display.
    pub fn message(&self) -> (r: String)
        ensures
            r@ == self.spec_message(),
    {
        match self {
            PhotoKitBridgeError::FrameworkUnavailable => String::from_str("PhotoKit 框架不可用"),
            PhotoKitBridgeError::RequestTimeout => String::from_str("权限请求超时"),
            PhotoKitBridgeError::RequestFailed(detail) => {
                let mut out = String::from_str("权限请求失败: ");
                out.append(detail.as_str());
                out
            },
            PhotoKitBridgeError::InvalidAccessLevel(v) => {
                let mut out = String::from_str("无效的权限级别: ");
                let digits = decimal_string_i32(*v);
                out.append(digits.as_str());
                out
            },
            PhotoKitBridgeError::InvalidAuthorizationStatus(v) => {
                let mut out = String::from_str("无效的授权状态: ");
                let digits = decimal_string_i32(*v);
                out.append(digits.as_str());
                out
            },
        }
    }
}

/// Stateless handle for queries against the native permission authority.
/// The underlying authority is process-global, so the handle carries no
/// state of its own and is freely constructible.
pub struct PhotoKitBridge;

impl PhotoKitBridge {
    /// What decoding a raw native status reply yields. `None` stands for a
    /// native call that could not be completed at all.
    pub open spec fn spec_decode_status_reply(reply: Option<i32>) -> Result<
        PhotoKitAuthorizationStatus,
        PhotoKitBridgeError,
    > {
        match reply {
            None => Ok(PhotoKitAuthorizationStatus::NotDetermined),
            Some(v) => match PhotoKitAuthorizationStatus::spec_from_native_value(v) {
                Some(status) => Ok(status),
                None => Err(PhotoKitBridgeError::InvalidAuthorizationStatus(v)),
            },
        }
    }

    /// Creates a new bridge handle.
    pub fn new() -> (r: PhotoKitBridge) {
        PhotoKitBridge
    }

    /// Decodes the raw reply of the native "current status for access level"
    /// query. A reply of `None` means the call could not be completed (the
    /// authority missing, or the native call stack aborting); by the
    /// fail-open policy that decodes to success with `NotDetermined`, so a
    /// single probing failure never fails the caller. A reply outside the
    /// declared status codes is an `InvalidAuthorizationStatus` error, never
    /// silently coerced to a default variant.
    pub fn decode_status_reply(&self, reply: Option<i32>) -> (r: Result<
        PhotoKitAuthorizationStatus,
        PhotoKitBridgeError,
    >)
        ensures
            r == PhotoKitBridge::spec_decode_status_reply(reply),
    {
        match reply {
            None => Ok(PhotoKitAuthorizationStatus::NotDetermined),
            Some(v) => match PhotoKitAuthorizationStatus::from_native_value(v) {
                Some(status) => Ok(status),
                None => Err(PhotoKitBridgeError::InvalidAuthorizationStatus(v)),
            },
        }
    }

    /// Current authorization status for an access level. On this build the
    /// native authority is absent, so the query cannot be completed and the
    /// fail-open policy yields `NotDetermined`.
    pub fn check_authorization_status(&self, _access_level: PhotoKitAccessLevel) -> (r: Result<
        PhotoKitAuthorizationStatus,
        PhotoKitBridgeError,
    >)
        ensures
            r == Ok::<PhotoKitAuthorizationStatus, PhotoKitBridgeError>(
                PhotoKitAuthorizationStatus::NotDetermined,
            ),
    {
        self.decode_status_reply(None)
    }

    /// Requests authorization for an access level and re-reads the status.
    /// On this build the native authority is absent: no prompt can be shown,
    /// and the immediate re-read follows the same fail-open policy as
    /// [`Self::check_authorization_status`].
    pub fn request_authorization(&self, _access_level: PhotoKitAccessLevel) -> (r: Result<
        PhotoKitAuthorizationStatus,
        PhotoKitBridgeError,
    >)
        ensures
            r == Ok::<PhotoKitAuthorizationStatus, PhotoKitBridgeError>(
                PhotoKitAuthorizationStatus::NotDetermined,
            ),
    {
        self.decode_status_reply(None)
    }

    /// Best-effort static probe for the native framework. On a platform that
    /// does not link the photo-library authority it reports `false`,
    /// distinguishing "nothing is authorized" from "the authority does not
    /// exist".
    pub fn is_framework_available(&self) -> (r: bool)
        ensures
            r == false,
    {
        false
    }
}

impl Default for PhotoKitBridge {
    /// Same as [`PhotoKitBridge::new`].
    fn default() -> (r: PhotoKitBridge)
        ensures
            r == (PhotoKitBridge),
    {
        PhotoKitBridge::new()
    }
}

} // verus!
