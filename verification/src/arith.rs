//! Saturating arithmetic on SVG coordinates.

use vstd::prelude::*;

verus! {

/// `x` clamped to the range of `i32`.
pub open spec fn clamp_i32(x: int) -> int {
    if x > i32::MAX {
        i32::MAX as int
    } else if x < i32::MIN {
        i32::MIN as int
    } else {
        x
    }
}

/// Saturating addition on `i32` (std's `i32::saturating_add`).
pub fn sat_add(a: i32, b: i32) -> (r: i32)
    ensures
        r == clamp_i32(a + b),
{
    let s: i64 = a as i64 + b as i64;
    if s > i32::MAX as i64 {
        i32::MAX
    } else if s < i32::MIN as i64 {
        i32::MIN
    } else {
        s as i32
    }
}

/// Saturating subtraction on `i32` (std's `i32::saturating_sub`).
pub fn sat_sub(a: i32, b: i32) -> (r: i32)
    ensures
        r == clamp_i32(a - b),
{
    let s: i64 = a as i64 - b as i64;
    if s > i32::MAX as i64 {
        i32::MAX
    } else if s < i32::MIN as i64 {
        i32::MIN
    } else {
        s as i32
    }
}

/// Absolute value of an `i32` (std's `i32::abs`, which overflows on `i32::MIN`).
pub open spec fn abs_int(x: int) -> int {
    if x < 0 { -x } else { x }
}

/// Absolute value on `i32`; `i32::MIN` has none.
pub fn abs_i32(x: i32) -> (r: i32)
    requires
        x != i32::MIN,
    ensures
        r == abs_int(x as int),
{
    if x < 0 { -x } else { x }
}

/// Larger of two `i32`.
pub fn max_i32(a: i32, b: i32) -> (r: i32)
    ensures
        r == (if a >= b { a } else { b }),
{
    if a >= b { a } else { b }
}

/// Smaller of two `i32`.
pub fn min_i32(a: i32, b: i32) -> (r: i32)
    ensures
        r == (if a <= b { a } else { b }),
{
    if a <= b { a } else { b }
}

} // verus!
