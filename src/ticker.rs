use vstd::prelude::*;

verus! {

/// How long the input reader may wait for a key, in milliseconds, when
/// `elapsed` milliseconds of a tick of `tick_rate` milliseconds have passed:
/// what is left of the tick, or nothing once it is over.
pub fn poll_timeout(tick_rate: u64, elapsed: u64) -> (r: u64)
    ensures
        r == (if elapsed <= tick_rate { tick_rate - elapsed } else { 0 }),
{
    match tick_rate.checked_sub(elapsed) {
        Some(left) => left,
        None => 0,
    }
}

/// Whether a tick is owed once `elapsed` milliseconds have passed since the
/// last one.
pub fn tick_due(tick_rate: u64, elapsed: u64) -> (r: bool)
    ensures
        r == (elapsed >= tick_rate),
{
    elapsed >= tick_rate
}

} // verus!
