//! Wall-clock time.

use vstd::prelude::*;

verus! {

#[verifier::external_type_specification]
#[verifier::external_body]
pub struct ExSystemTime(std::time::SystemTime);

#[verifier::external_type_specification]
#[verifier::external_body]
pub struct ExSystemTimeError(std::time::SystemTimeError);

/// Calls `std::time::SystemTime::now`. Trusted for nothing: the clock's reading
/// depends on the machine and the moment.
#[verifier::external_body]
fn system_now() -> std::time::SystemTime {
    std::time::SystemTime::now()
}

/// Calls `std::time::SystemTime::duration_since` with the Unix epoch. Trusted for
/// nothing: it fails where the clock reads before the epoch.
#[verifier::external_body]
fn since_unix_epoch(now: std::time::SystemTime) -> Result<
    std::time::Duration,
    std::time::SystemTimeError,
> {
    now.duration_since(std::time::UNIX_EPOCH)
}

/// Calls `std::time::Duration::as_secs`. Trusted for nothing beyond its type.
#[verifier::external_body]
fn whole_seconds(duration: std::time::Duration) -> u64 {
    duration.as_secs()
}

/// Current Unix timestamp in seconds (0 where the clock reads before 1970).
pub fn timestamp() -> u64 {
    match since_unix_epoch(system_now()) {
        Ok(duration) => whole_seconds(duration),
        Err(_) => 0,
    }
}

} // verus!
