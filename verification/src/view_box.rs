//! The SVG `viewBox` and the offsets that may extend it.

use vstd::prelude::*;
use crate::arith::{clamp_i32, abs_int, sat_add, sat_sub, abs_i32, min_i32, max_i32};
use crate::geometry::CoordinateT;
use crate::offsets::Offsets;
use crate::text::{push_int, push_char, int_str};

verus! {

/// Top left corner of the drawing, from which every path is placed.
#[derive(Clone, Copy, Debug, PartialEq, Eq)]
pub struct TopLeft {
    pub x: CoordinateT,
    pub y: CoordinateT,
}

/// The SVG `viewBox` attribute: a rectangle given by its top left corner and size.
#[derive(Clone, Copy, Debug, PartialEq, Eq)]
pub struct ViewBox {
    pub x: CoordinateT,
    pub y: CoordinateT,
    pub width: CoordinateT,
    pub height: CoordinateT,
}

/// The `viewBox` attribute text: `"x y width height"`.
pub open spec fn view_box_str(v: ViewBox) -> Seq<char> {
    int_str(v.x as int) + seq![' '] + int_str(v.y as int) + seq![' '] + int_str(v.width as int)
        + seq![' '] + int_str(v.height as int)
}

/// What extending the left side by `left` gives.
pub open spec fn extended_left(v: ViewBox, left: i32) -> ViewBox {
    ViewBox { x: clamp_i32(v.x - left) as i32, width: clamp_i32(v.width + left) as i32, ..v }
}

/// What extending the right side by `right` gives.
pub open spec fn extended_right(v: ViewBox, right: i32) -> ViewBox {
    ViewBox { width: clamp_i32(v.width + right) as i32, ..v }
}

/// What extending the top by `top` gives.
pub open spec fn extended_top(v: ViewBox, top: i32) -> ViewBox {
    ViewBox { y: clamp_i32(v.y - top) as i32, height: clamp_i32(v.height + top) as i32, ..v }
}

/// What extending the bottom by `bottom` gives.
pub open spec fn extended_bottom(v: ViewBox, bottom: i32) -> ViewBox {
    ViewBox { height: clamp_i32(v.height + bottom) as i32, ..v }
}

/// The `viewBox` that also shows everything within `o`: each side that `o` passes is
/// pushed out by the amount it passes it, distances being taken between absolute values.
pub open spec fn fitted(v: ViewBox, o: Offsets) -> ViewBox {
    let far_end = clamp_i32(v.width - abs_int(v.x as int));
    let far_bottom = clamp_i32(v.height - abs_int(v.y as int));
    let a = if v.x > o.left {
        extended_left(v, clamp_i32(abs_int(o.left as int) - abs_int(v.x as int)) as i32)
    } else {
        v
    };
    let b = if far_end < o.right {
        extended_right(a, clamp_i32(o.right - far_end) as i32)
    } else {
        a
    };
    let c = if v.y > o.top {
        extended_top(b, clamp_i32(abs_int(o.top as int) - abs_int(v.y as int)) as i32)
    } else {
        b
    };
    if far_bottom < o.bottom {
        extended_bottom(c, clamp_i32(o.bottom - far_bottom) as i32)
    } else {
        c
    }
}

/// The `viewBox` that exactly covers the offsets `o`.
pub open spec fn from_offsets_spec(o: Offsets) -> ViewBox {
    ViewBox {
        x: o.left,
        y: o.top,
        width: clamp_i32(o.right + abs_int(o.left as int)) as i32,
        height: clamp_i32(o.bottom + abs_int(o.top as int)) as i32,
    }
}

impl ViewBox {
    /// A `viewBox` of the given size whose top left corner is `top_left`.
    pub fn new(width: CoordinateT, height: CoordinateT, top_left: &TopLeft) -> (r: Self)
        ensures
            r == (ViewBox { x: top_left.x, y: top_left.y, width, height }),
    {
        ViewBox { x: top_left.x, y: top_left.y, width, height }
    }

    /// The left coordinate.
    pub fn x(&self) -> (r: CoordinateT)
        ensures
            r == self.x,
    {
        self.x
    }

    /// The top coordinate.
    pub fn y(&self) -> (r: CoordinateT)
        ensures
            r == self.y,
    {
        self.y
    }

    /// The width.
    pub fn width(&self) -> (r: CoordinateT)
        ensures
            r == self.width,
    {
        self.width
    }

    /// The height.
    pub fn height(&self) -> (r: CoordinateT)
        ensures
            r == self.height,
    {
        self.height
    }

    /// Sets the left coordinate.
    pub fn set_x(&mut self, x: CoordinateT) -> (r: &mut Self)
        ensures
            *r == (ViewBox { x, ..*old(self) }),
            *final(self) == *final(r),
    {
        self.x = x;
        self
    }

    /// Sets the top coordinate.
    pub fn set_y(&mut self, y: CoordinateT) -> (r: &mut Self)
        ensures
            *r == (ViewBox { y, ..*old(self) }),
            *final(self) == *final(r),
    {
        self.y = y;
        self
    }

    /// Sets the width.
    pub fn set_width(&mut self, width: CoordinateT) -> (r: &mut Self)
        ensures
            *r == (ViewBox { width, ..*old(self) }),
            *final(self) == *final(r),
    {
        self.width = width;
        self
    }

    /// Sets the height.
    pub fn set_height(&mut self, height: CoordinateT) -> (r: &mut Self)
        ensures
            *r == (ViewBox { height, ..*old(self) }),
            *final(self) == *final(r),
    {
        self.height = height;
        self
    }

    /// Replaces every field with the given ones and returns the `viewBox` as it was before.
    pub fn swap(&mut self, x: CoordinateT, y: CoordinateT, width: CoordinateT, height: CoordinateT) -> (r: Self)
        ensures
            r == *old(self),
            *final(self) == (ViewBox { x, y, width, height }),
    {
        let old = *self;
        self.x = x;
        self.y = y;
        self.width = width;
        self.height = height;
        old
    }

    /// Makes this `viewBox` equal to `from`.
    pub fn restore_from(&mut self, from: &ViewBox)
        ensures
            *final(self) == *from,
    {
        *self = *from;
    }

    /// Extends the `viewBox` to the left and widens it by as much (saturating).
    pub fn extend_left(&mut self, left: CoordinateT)
        ensures
            *final(self) == extended_left(*old(self), left),
    {
        self.x = sat_sub(self.x, left);
        self.width = sat_add(self.width, left);
    }

    /// Widens the `viewBox` to the right (saturating).
    pub fn extend_right(&mut self, right: CoordinateT)
        ensures
            *final(self) == extended_right(*old(self), right),
    {
        self.width = sat_add(self.width, right);
    }

    /// Extends the `viewBox` downwards (saturating).
    pub fn extend_bottom(&mut self, bottom: CoordinateT)
        ensures
            *final(self) == extended_bottom(*old(self), bottom),
    {
        self.height = sat_add(self.height, bottom);
    }

    /// Extends the `viewBox` upwards and heightens it by as much (saturating).
    pub fn extend_top(&mut self, top: CoordinateT)
        ensures
            *final(self) == extended_top(*old(self), top),
    {
        self.y = sat_sub(self.y, top);
        self.height = sat_add(self.height, top);
    }

    /// Extends the `viewBox` so that it also shows what lies within `offsets`.
    /// No coordinate involved may be `i32::MIN`, whose absolute value does not exist.
    pub fn fit_offsets(&mut self, offsets: &Offsets)
        requires
            old(self).x != i32::MIN,
            old(self).y != i32::MIN,
            offsets.left != i32::MIN,
            offsets.top != i32::MIN,
        ensures
            *final(self) == fitted(*old(self), *offsets),
    {
        let mut updated = *self;
        if self.x > offsets.left {
            updated.extend_left(sat_sub(abs_i32(offsets.left), abs_i32(self.x)));
        }
        let far_end = sat_sub(self.width, abs_i32(self.x));
        if far_end < offsets.right {
            updated.extend_right(sat_sub(offsets.right, far_end));
        }
        if self.y > offsets.top {
            updated.extend_top(sat_sub(abs_i32(offsets.top), abs_i32(self.y)));
        }
        let far_bottom = sat_sub(self.height, abs_i32(self.y));
        if far_bottom < offsets.bottom {
            updated.extend_bottom(sat_sub(offsets.bottom, far_bottom));
        }
        if self.x != updated.x || self.y != updated.y || self.width != updated.width
            || self.height != updated.height {
            self.restore_from(&updated);
        }
    }

    /// The `viewBox` that exactly covers `offsets`: its top left corner is the offsets'
    /// top left and its size reaches the right and bottom offsets (saturating).
    pub fn from_offsets(offsets: &Offsets) -> (r: Self)
        requires
            offsets.left != i32::MIN,
            offsets.top != i32::MIN,
        ensures
            r == from_offsets_spec(*offsets),
    {
        let left = offsets.left;
        let top = offsets.top;
        ViewBox {
            x: left,
            y: top,
            width: sat_add(offsets.right, abs_i32(left)),
            height: sat_add(offsets.bottom, abs_i32(top)),
        }
    }

    /// The `viewBox` attribute text, `"x y width height"`.
    pub fn to_attribute(&self) -> (r: String)
        ensures
            r@ == view_box_str(*self),
    {
        let mut s = String::new();
        push_int(&mut s, self.x as i64);
        push_char(&mut s, ' ');
        push_int(&mut s, self.y as i64);
        push_char(&mut s, ' ');
        push_int(&mut s, self.width as i64);
        push_char(&mut s, ' ');
        push_int(&mut s, self.height as i64);
        proof {
            assert(s@ =~= view_box_str(*self));
        }
        s
    }
}

} // verus!
