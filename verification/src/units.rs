use vstd::prelude::*;

verus! {

/// A per-second rate from a counter and a wall-clock duration in
/// milliseconds, rounded down: messages or bytes per second for a scenario
/// report. A zero duration reports a zero rate rather than failing, and a
/// rate beyond `u64::MAX` saturates.
pub fn rate_per_sec(count: u64, duration_ms: u64) -> (r: u64)
    ensures
        duration_ms == 0 ==> r == 0,
        duration_ms > 0 ==> r == if (count as int) * 1000 / (duration_ms as int) <= u64::MAX {
            (count as int) * 1000 / (duration_ms as int)
        } else {
            u64::MAX as int
        },
{
    if duration_ms == 0 {
        return 0;
    }
    let scaled: u128 = (count as u128) * 1000 / (duration_ms as u128);
    if scaled > u64::MAX as u128 {
        u64::MAX
    } else {
        scaled as u64
    }
}

} // verus!
