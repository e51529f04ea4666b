use vstd::prelude::*;

verus! {

/// Relies on `SystemTime::elapsed`, called on `UNIX_EPOCH`: the time passed
/// since the epoch, or `None` where the system clock stands before it.
#[verifier::external_body]
fn elapsed_since_epoch() -> (r: Option<core::time::Duration>) {
    std::time::UNIX_EPOCH.elapsed().ok()
}

/// Relies on `Duration::as_secs`: the whole seconds of a duration.
pub assume_specification[ core::time::Duration::as_secs ](d: &core::time::Duration) -> u64;

/// The current time in whole seconds since the Unix epoch; `0` where the
/// system clock stands before the epoch. The value depends on the clock, so
/// nothing is promised of it.
pub fn current_unix_time() -> u64 {
    match elapsed_since_epoch() {
        Some(d) => d.as_secs(),
        None => 0,
    }
}

} // verus!
