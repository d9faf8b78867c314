//! Small integer helpers.
use vstd::prelude::*;

verus! {

/// `x` limited to the range from `min` to `max`: `min` when below it, `max`
/// when above it.
pub open spec fn clamped(x: int, min: int, max: int) -> int {
    if x < min {
        min
    } else if x > max {
        max
    } else {
        x
    }
}

pub fn clamp_us(x: usize, min: usize, max: usize) -> (r: usize)
    ensures
        r == clamped(x as int, min as int, max as int),
{
    if x < min {
        min
    } else if x > max {
        max
    } else {
        x
    }
}

} // verus!
