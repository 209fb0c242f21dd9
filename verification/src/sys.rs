//! Trusted access to the process environment: the wall clock and the random
//! listener-id generator. Everything else in the crate is verified against
//! the contracts stated here.

use vstd::prelude::*;

verus! {

/// Relies on std::time::SystemTime::now: reads the wall clock as milliseconds
/// since the Unix epoch. A clock that reads before the epoch yields 0.
/// Nothing is promised of the value: it depends on the machine's clock.
#[verifier::external_body]
pub fn unix_time_millis() -> u64 {
    std::time::SystemTime::now()
        .duration_since(std::time::UNIX_EPOCH)
        .unwrap_or_default()
        .as_millis() as u64
}

/// Relies on uuid::Uuid::new_v4: draws a fresh random version-4 UUID and
/// renders it in the hyphenated form, which is always 36 characters long.
/// The value is random, so nothing more is promised of it; in particular
/// two calls may (with negligible probability) return the same id.
#[verifier::external_body]
pub fn fresh_listener_id() -> (r: String)
    ensures
        r@.len() == 36,
{
    uuid::Uuid::new_v4().to_string()
}

} // verus!
