//! Turning a signed request into an unsigned offset.
use vstd::prelude::*;

verus! {

/// `x` floored at zero.
pub open spec fn floor_zero(x: int) -> int {
    if x < 0 {
        0
    } else {
        x
    }
}

/// `x` when it lies in `[0, bound]`, otherwise `bound`.
pub open spec fn clamp_or(x: int, bound: int) -> int {
    if x < 0 || x > bound {
        bound
    } else {
        x
    }
}

/// Floors a negative value at zero and keeps any other value as it is.
pub fn saturation_cast(x: isize) -> (r: usize)
    ensures
        r == floor_zero(x as int),
        x >= 0 ==> r == x,
        x < 0 ==> r == 0,
{
    if x < 0 {
        0usize
    } else {
        x as usize
    }
}

/// Keeps `x` when it is a position in `[0, or]`; any request out of that
/// range, below or above, collapses to `or`.
pub fn cast_or(x: isize, or: usize) -> (r: usize)
    ensures
        r == clamp_or(x as int, or as int),
        0 <= x <= or ==> r == x,
        x < 0 ==> r == or,
        x > or ==> r == or,
{
    if x < 0 || x as usize > or {
        or
    } else {
        x as usize
    }
}

} // verus!
