use vstd::prelude::*;

verus! {

/// Saturating addition of two millisecond durations.
pub open spec fn sat_add(a: int, b: int) -> int {
    if a + b > u64::MAX {
        u64::MAX as int
    } else {
        a + b
    }
}

/// Saturating subtraction of two millisecond durations: never negative,
/// so a clock reading slightly behind an offset yields zero rather than
/// an underflow.
pub open spec fn sat_sub(a: int, b: int) -> int {
    if a >= b {
        a - b
    } else {
        0
    }
}

/// Add two durations, clamping at the largest representable value.
pub fn dur_add(a: u64, b: u64) -> (r: u64)
    ensures
        r == sat_add(a as int, b as int),
{
    if b > u64::MAX - a {
        u64::MAX
    } else {
        a + b
    }
}

/// Subtract two durations, clamping at zero.
pub fn dur_sub(a: u64, b: u64) -> (r: u64)
    ensures
        r == sat_sub(a as int, b as int),
{
    if a >= b {
        a - b
    } else {
        0
    }
}

} // verus!
