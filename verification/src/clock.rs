//! Wall-clock access for logical-expiry computations.
//!
//! Bans and mutes expire lazily: activity is computed from a stored
//! timestamp plus a duration, measured in nanoseconds since the Unix
//! epoch, against the current time. Only the raw clock reading is
//! trusted; clamping it into the `u64` nanosecond timeline is
//! verified.

use vstd::prelude::*;

verus! {

/// Relies on std's `SystemTime::now` and
/// `SystemTime::duration_since` together with `Duration::as_nanos`:
/// the number of nanoseconds since the Unix epoch, or `None` when the
/// system clock reads earlier than the epoch (`duration_since`
/// returns an error then; no input panics). Nothing can be promised
/// about the value of a clock reading.
#[verifier::external_body]
fn system_now_nanos() -> (r: Option<u128>) {
    match std::time::SystemTime::now().duration_since(std::time::UNIX_EPOCH) {
        Ok(elapsed) => Some(elapsed.as_nanos()),
        Err(_) => None,
    }
}

/// The current wall-clock time in nanoseconds since the Unix epoch.
///
/// Readings from before the epoch clamp to `0`; readings beyond the
/// `u64` range clamp to `u64::MAX`. No caller can rely on the value
/// itself: activity rules take the time as an argument.
pub fn now_nanos() -> u64 {
    match system_now_nanos() {
        Some(n) => if n <= u64::MAX as u128 {
            n as u64
        } else {
            u64::MAX
        },
        None => 0u64,
    }
}

} // verus!
