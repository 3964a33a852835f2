//! Clamped 64-bit arithmetic for cumulative counters and lengths.

use vstd::prelude::*;

verus! {

/// The nearest representable i64 to an unbounded integer.
pub open spec fn clamp_i64(v: int) -> i64 {
    if v > i64::MAX {
        i64::MAX
    } else if v < i64::MIN {
        i64::MIN
    } else {
        v as i64
    }
}

/// Signed addition that sticks at the representable extremes.
pub fn sat_add_i64(a: i64, b: i64) -> (r: i64)
    ensures
        r == clamp_i64(a + b),
{
    match a.checked_add(b) {
        Some(v) => v,
        None => if b > 0 {
            i64::MAX
        } else {
            i64::MIN
        },
    }
}

/// The larger of a signed value and zero.
pub open spec fn spec_nonneg(v: i64) -> i64 {
    if v < 0 {
        0i64
    } else {
        v
    }
}

/// Clamp a signed value from below at zero.
pub fn nonneg(v: i64) -> (r: i64)
    ensures
        r == spec_nonneg(v),
{
    if v < 0 {
        0
    } else {
        v
    }
}

} // verus!
