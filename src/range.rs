//! Resolving a pair of optional signed bounds into a half-open range.
use vstd::prelude::*;

use crate::normalize::{cast_or, clamp_or, floor_zero, saturation_cast};

verus! {

/// The position a signed index names in a sequence of length `len`:
/// counted back from `len` when negative (floored at zero), as given otherwise.
pub open spec fn signed_position(x: int, len: int) -> int {
    if x < 0 {
        floor_zero(len + x)
    } else {
        x
    }
}

/// A present slice bound as a position in `[0, len]`: counted back from the
/// end when negative, clamped to `len` when past it.
pub open spec fn bound_position(x: int, len: int) -> int {
    if x < 0 {
        floor_zero(len + x)
    } else {
        clamp_or(x, len)
    }
}

/// Where a range starts: `0` when no start is given.
pub open spec fn start_position(raw: Option<isize>, len: int) -> int {
    match raw {
        Some(x) => bound_position(x as int, len),
        None => 0,
    }
}

/// Where a range ends before it is made non-empty: `len` when no end is given.
pub open spec fn end_position(raw: Option<isize>, len: int) -> int {
    match raw {
        Some(x) => bound_position(x as int, len),
        None => len,
    }
}

/// The half-open range that a pair of optional signed bounds selects in a
/// sequence of length `len`; an end before the start gives an empty range at
/// the start.
pub open spec fn resolve_spec(start: Option<isize>, end: Option<isize>, len: int) -> (int, int) {
    let s = start_position(start, len);
    let e = end_position(end, len);
    if e < s {
        (s, s)
    } else {
        (s, e)
    }
}

/// Counts a signed index back from `len` when it is negative, flooring at
/// zero; a non-negative index is returned as it is.
pub fn from_end(x: isize, len: usize) -> (r: usize)
    ensures
        r == signed_position(x as int, len as int),
{
    if x >= 0 {
        saturation_cast(x)
    } else {
        // the distance back from the end, which fits since -x <= isize::MAX + 1
        let back: usize = ((-(x + 1)) as usize) + 1;
        if back >= len {
            0
        } else {
            len - back
        }
    }
}

/// Normalizes one present slice bound against `len`.
fn bound_of(x: isize, len: usize) -> (r: usize)
    ensures
        r == bound_position(x as int, len as int),
        r <= len,
{
    if x < 0 {
        from_end(x, len)
    } else {
        cast_or(x, len)
    }
}

/// Resolves optional signed slice bounds into a range `(start, end)` with
/// `start <= end <= len`.
pub fn resolve(start: Option<isize>, end: Option<isize>, len: usize) -> (r: (usize, usize))
    ensures
        (r.0 as int, r.1 as int) == resolve_spec(start, end, len as int),
        r.0 <= r.1 <= len,
{
    let s: usize = match start {
        Some(x) => bound_of(x, len),
        None => 0,
    };
    let e: usize = match end {
        Some(x) => bound_of(x, len),
        None => len,
    };
    if e < s {
        (s, s)
    } else {
        (s, e)
    }
}

/// With neither bound given, the range is the whole sequence.
pub proof fn lemma_resolve_unbounded(len: usize)
    ensures
        resolve_spec(None, None, len as int) == (0int, len as int),
{
}

} // verus!
