use vstd::prelude::*;

verus! {

/// Relies on rand's `random`: a value drawn from the standard distribution of
/// its type from the thread-local generator. Nothing is promised of the value.
pub assume_specification<T>[ rand::random::<T> ]() -> T
    where
        rand::distributions::Standard: rand::distributions::Distribution<T>,
;

/// A fair coin.
pub fn coin() -> bool {
    rand::random::<bool>()
}

/// The jitter, in whole seconds, that is added to a rescheduled card's next
/// review time. A factor drawn uniformly from `[0.8, 1.2)` and truncated to an
/// integer number of seconds is `0` or `1` with equal chance; this draws that
/// value directly. A caller that wants a wider spread passes its own jitter to
/// `Card::schedule`.
pub fn draw_jitter() -> (r: u64)
    ensures
        r <= 1,
{
    if coin() {
        1
    } else {
        0
    }
}

} // verus!
