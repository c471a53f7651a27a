//! Wall-clock and monotonic time, read from the operating system.
use vstd::prelude::*;

verus! {

#[verifier::external_type_specification]
#[verifier::external_body]
pub struct ExInstant(std::time::Instant);

/// Seconds since the Unix epoch, or 0 when the system clock reads before it
/// (`SystemTime::now().duration_since(UNIX_EPOCH)`). The value depends on
/// the clock, so nothing is stated of it.
#[verifier::external_body]
pub fn unix_timestamp_secs() -> u64 {
    std::time::SystemTime::now().duration_since(std::time::UNIX_EPOCH).unwrap_or_default().as_secs()
}

/// The current monotonic instant (`Instant::now`); nothing is stated of it.
#[verifier::external_body]
pub(crate) fn instant_now() -> std::time::Instant {
    std::time::Instant::now()
}

} // verus!
