//! The fixed-point unit in which intensities are counted.

use vstd::prelude::*;

verus! {

/// Full scale: the integer that stands for an intensity of one.
pub const FULL_SCALE: i64 = 1_000_000;

/// Confines a value to the closed interval from zero to full scale.
pub open spec fn clamp_unit(v: int) -> int {
    if v < 0 {
        0
    } else if v > FULL_SCALE as int {
        FULL_SCALE as int
    } else {
        v
    }
}

/// Confines `v` to the closed interval from zero to full scale.
pub fn clamp_to_unit(v: i64) -> (r: i64)
    ensures
        r as int == clamp_unit(v as int),
        0 <= r <= FULL_SCALE,
{
    if v < 0 {
        0
    } else if v > FULL_SCALE {
        FULL_SCALE
    } else {
        v
    }
}

} // verus!
