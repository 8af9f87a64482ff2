//! Offsets that information texts may need the `viewBox` to reach.

use vstd::prelude::*;
use crate::arith::{clamp_i32, abs_int, sat_add, sat_sub, abs_i32, min_i32, max_i32};
use crate::geometry::CoordinateT;

verus! {

/// The furthest left, top, right and bottom coordinates some drawing reaches.
#[derive(Clone, Copy, Debug, PartialEq, Eq)]
pub struct Offsets {
    pub left: CoordinateT,
    pub top: CoordinateT,
    pub right: CoordinateT,
    pub bottom: CoordinateT,
}

/// The offsets that cover both `a` and `b`.
pub open spec fn merged(a: Offsets, b: Offsets) -> Offsets {
    Offsets {
        left: if a.left <= b.left { a.left } else { b.left },
        top: if a.top <= b.top { a.top } else { b.top },
        right: if a.right >= b.right { a.right } else { b.right },
        bottom: if a.bottom >= b.bottom { a.bottom } else { b.bottom },
    }
}

/// `a` reaches at least as far as `b` on every side.
pub open spec fn covers(a: Offsets, b: Offsets) -> bool {
    a.left <= b.left && a.top <= b.top && a.right >= b.right && a.bottom >= b.bottom
}

impl Offsets {
    /// Offsets with the given sides.
    pub fn new(left: CoordinateT, top: CoordinateT, right: CoordinateT, bottom: CoordinateT) -> (r: Self)
        ensures
            r == (Offsets { left, top, right, bottom }),
    {
        Offsets { left, top, right, bottom }
    }

    /// All sides at zero.
    pub fn zero() -> (r: Self)
        ensures
            r == (Offsets { left: 0, top: 0, right: 0, bottom: 0 }),
    {
        Offsets { left: 0, top: 0, right: 0, bottom: 0 }
    }

    /// Left side.
    pub fn left(&self) -> (r: CoordinateT)
        ensures
            r == self.left,
    {
        self.left
    }

    /// Top side.
    pub fn top(&self) -> (r: CoordinateT)
        ensures
            r == self.top,
    {
        self.top
    }

    /// Right side.
    pub fn right(&self) -> (r: CoordinateT)
        ensures
            r == self.right,
    {
        self.right
    }

    /// Bottom side.
    pub fn bottom(&self) -> (r: CoordinateT)
        ensures
            r == self.bottom,
    {
        self.bottom
    }

    /// Grows these offsets so that they also cover `other`.
    pub fn update(&mut self, other: Offsets)
        ensures
            *final(self) == merged(*old(self), other),
    {
        self.left = min_i32(self.left, other.left);
        self.top = min_i32(self.top, other.top);
        self.right = max_i32(self.right, other.right);
        self.bottom = max_i32(self.bottom, other.bottom);
    }
}

} // verus!
