//! `<clipPath>` elements: the freeform export crop and the clips of each core and router.

use vstd::prelude::*;
use crate::arith::{clamp_i32, sat_add, sat_sub};
use crate::geometry::{CoordinateT, ROUTER_OFFSET, SIDE_LENGTH};
use crate::text::{push_int, push_nat, push_str, string_of, int_str, nat_str};

verus! {

/// Id of the clip path used when exporting a freeform selection.
pub const FREEFORM_CLIP_PATH_ID: &'static str = "crop";
/// Reference to the freeform clip path, as used in `clip-path` attributes.
pub const USE_FREEFORM_CLIP_PATH: &'static str = "url(#crop)";

/// An SVG `<polygon>`, given by its `points` attribute.
#[derive(Debug)]
pub struct Polygon {
    pub points: String,
}

/// An SVG `<clipPath>` holding one polygon.
#[derive(Debug)]
pub struct ClipPath {
    pub id: String,
    pub polygon: Polygon,
}

/// Id of the clip path of core `id`: `clip-c-<id>`.
pub open spec fn core_clip_id(id: u8) -> Seq<char> {
    "clip-c-"@ + nat_str(id as nat)
}

/// Id of the clip path of router `id`: `clip-r-<id>`.
pub open spec fn router_clip_id(id: u8) -> Seq<char> {
    "clip-r-"@ + nat_str(id as nat)
}

/// `"<a> <b>"`.
pub open spec fn point(a: int, b: int) -> Seq<char> {
    int_str(a) + " "@ + int_str(b)
}

/// Points of the polygon that clips a core drawn at `(x, y)`: the core's square without
/// its cut top right corner.
pub open spec fn core_clip_points(x: i32, y: i32) -> Seq<char> {
    let full_y = clamp_i32(y + SIDE_LENGTH);
    let full_x = clamp_i32(x + SIDE_LENGTH);
    point(x as int, y as int) + ", "@ + point(x as int, full_y) + ", "@ + point(full_x, full_y)
        + ", "@ + point(full_x, clamp_i32(full_y - ROUTER_OFFSET)) + ", "@
        + point(clamp_i32(x + ROUTER_OFFSET), y as int)
}

/// Points of the polygon that clips a router drawn at `(x, y)`.
pub open spec fn router_clip_points(x: i32, y: i32) -> Seq<char> {
    let min_y = clamp_i32(y - ROUTER_OFFSET);
    let full_x = clamp_i32(x + SIDE_LENGTH);
    let full_y = clamp_i32(min_y + SIDE_LENGTH);
    point(x as int, y as int) + ", "@ + point(x as int, min_y) + ", "@ + point(full_x, min_y)
        + ", "@ + point(full_x, full_y) + ", "@ + point(clamp_i32(full_x - ROUTER_OFFSET), full_y)
}

fn push_point(s: &mut String, a: i32, b: i32)
    ensures
        final(s)@ == old(s)@ + point(a as int, b as int),
{
    push_int(s, a as i64);
    push_str(s, " ");
    push_int(s, b as i64);
    proof {
        assert(final(s)@ =~= old(s)@ + point(a as int, b as int)) by {
            lemma_concat_assoc4(old(s)@, int_str(a as int), " "@, int_str(b as int));
        }
    }
}

proof fn lemma_concat_assoc4(a: Seq<char>, b: Seq<char>, c: Seq<char>, d: Seq<char>)
    ensures
        a + b + c + d == a + (b + c + d),
{
    assert(a + b + c + d =~= a + (b + c + d));
}

impl ClipPath {
    /// The freeform clip path, with the given polygon points (already formatted for SVG).
    pub fn new(polygon_points: String) -> (r: Self)
        ensures
            r.id@ == FREEFORM_CLIP_PATH_ID@,
            r.polygon.points == polygon_points,
    {
        ClipPath { id: string_of(FREEFORM_CLIP_PATH_ID), polygon: Polygon { points: polygon_points } }
    }

    /// The id of the clip path of core `id`.
    pub fn make_core_id(id: &u8) -> (r: String)
        ensures
            r@ == core_clip_id(*id),
    {
        let mut s = string_of("clip-c-");
        push_nat(&mut s, *id as u64);
        s
    }

    /// The id of the clip path of router `id`.
    pub fn make_router_id(id: &u8) -> (r: String)
        ensures
            r@ == router_clip_id(*id),
    {
        let mut s = string_of("clip-r-");
        push_nat(&mut s, *id as u64);
        s
    }

    /// The clip path of core `id` drawn at `(x, y)`.
    pub fn for_core(id: u8, x: CoordinateT, y: CoordinateT) -> (r: Self)
        ensures
            r.id@ == core_clip_id(id),
            r.polygon.points@ == core_clip_points(x, y),
    {
        let full_y = sat_add(y, SIDE_LENGTH);
        let full_x = sat_add(x, SIDE_LENGTH);
        let mut p = String::new();
        push_point(&mut p, x, y);
        push_str(&mut p, ", ");
        push_point(&mut p, x, full_y);
        push_str(&mut p, ", ");
        push_point(&mut p, full_x, full_y);
        push_str(&mut p, ", ");
        push_point(&mut p, full_x, sat_sub(full_y, ROUTER_OFFSET));
        push_str(&mut p, ", ");
        push_point(&mut p, sat_add(x, ROUTER_OFFSET), y);
        proof {
            assert(p@ =~= core_clip_points(x, y));
        }
        ClipPath { id: ClipPath::make_core_id(&id), polygon: Polygon { points: p } }
    }

    /// The clip path of router `id` drawn at `(x, y)`.
    pub fn for_router(id: u8, x: CoordinateT, y: CoordinateT) -> (r: Self)
        ensures
            r.id@ == router_clip_id(id),
            r.polygon.points@ == router_clip_points(x, y),
    {
        let min_y = sat_sub(y, ROUTER_OFFSET);
        let full_x = sat_add(x, SIDE_LENGTH);
        let full_y = sat_add(min_y, SIDE_LENGTH);
        let mut p = String::new();
        push_point(&mut p, x, y);
        push_str(&mut p, ", ");
        push_point(&mut p, x, min_y);
        push_str(&mut p, ", ");
        push_point(&mut p, full_x, min_y);
        push_str(&mut p, ", ");
        push_point(&mut p, full_x, full_y);
        push_str(&mut p, ", ");
        push_point(&mut p, sat_sub(full_x, ROUTER_OFFSET), full_y);
        proof {
            assert(p@ =~= router_clip_points(x, y));
        }
        ClipPath { id: ClipPath::make_router_id(&id), polygon: Polygon { points: p } }
    }
}

} // verus!
