//! Wall-clock time, in whole seconds since the Unix epoch.
use vstd::prelude::*;

verus! {

/// Relies on `std::time::SystemTime::elapsed` from the Unix epoch: the whole
/// seconds since then, or nothing when the system clock reads earlier. Nothing
/// is known of the value.
#[verifier::external_body]
fn seconds_since_epoch() -> (r: Option<u64>) {
    std::time::UNIX_EPOCH.elapsed().ok().map(|d| d.as_secs())
}

/// The current time; a clock set before the epoch reads as the epoch.
pub fn now_unix_seconds() -> (r: u64) {
    match seconds_since_epoch() {
        Some(s) => s,
        None => 0,
    }
}

} // verus!
