//! Bounded player statistics.

use vstd::prelude::*;

verus! {

/// The least value a stat can hold.
pub const STAT_MIN: i64 = 0;

/// The greatest value a stat can hold.
pub const STAT_MAX: i64 = 100;

/// A stat value within its bounds.
pub open spec fn stat_ok(x: int) -> bool {
    STAT_MIN <= x <= STAT_MAX
}

/// `x` clamped to the stat bounds.
pub open spec fn spec_clamp(x: int) -> int {
    if x < STAT_MIN {
        STAT_MIN as int
    } else if x > STAT_MAX {
        STAT_MAX as int
    } else {
        x
    }
}

/// Brings any value into the stat bounds.
pub fn clamp_stat(x: i64) -> (r: i64)
    ensures
        r == spec_clamp(x as int),
        stat_ok(r as int),
{
    if x < STAT_MIN {
        STAT_MIN
    } else if x > STAT_MAX {
        STAT_MAX
    } else {
        x
    }
}

/// Adds `delta` to the stat `x` and clamps the sum to `[0, 100]`, for a delta
/// of any size.
pub fn add_stat(x: i64, delta: i64) -> (r: i64)
    requires
        stat_ok(x as int),
    ensures
        r == spec_clamp(x + delta),
        stat_ok(r as int),
{
    if delta >= STAT_MAX - x {
        STAT_MAX
    } else if delta <= STAT_MIN - x {
        STAT_MIN
    } else {
        x + delta
    }
}

/// A stat changed by any amount stays within `[0, 100]`, and a change that
/// keeps the sum in range is applied exactly.
pub proof fn lemma_stat_change_bounded(x: int, delta: int)
    requires
        stat_ok(x),
    ensures
        stat_ok(spec_clamp(x + delta)),
        stat_ok(x + delta) ==> spec_clamp(x + delta) == x + delta,
{
}

} // verus!
