//! Cores and routers: the `<path>`s that draw them and the groups that hold them.

use vstd::prelude::*;
use crate::clip_path::{ClipPath, USE_FREEFORM_CLIP_PATH, core_clip_id, router_clip_id, core_clip_points, router_clip_points};
use crate::geometry::{CoordinateT, BLOCK_DISTANCE, BLOCK_LENGTH, CORE_ROUTER_STROKE_WIDTH, ROUTER_OFFSET};
use crate::text::{push_int, push_nat, push_str, string_of, int_str, nat_str};
use crate::view_box::TopLeft;
use crate::error::SVGError;
use crate::style::BASE_FILL_CLASS_NAME;

verus! {

/// Stroke width of cores and routers, as an attribute value.
pub const CORE_ROUTER_STROKE_WIDTH_STR: &'static str = "1";
/// Relative path of a core, after its move command.
pub const PROCESSOR_PATH: &'static str = "l0,100 l100,0 l0,-75 l-25,-25 l-75,0 Z";
/// Relative path of a router, after its move command.
pub const ROUTER_PATH: &'static str = "l0,-75 l100,0 l0,100 l-75,0 Z";

/// Attributes shared by cores, routers, markers and connections.
#[derive(Debug)]
pub struct CommonAttributes {
    pub class: Option<&'static str>,
    pub fill_rule: &'static str,
    pub stroke: &'static str,
    pub stroke_linecap: &'static str,
    pub stroke_width: &'static str,
}

/// The attributes every core and router starts with.
pub open spec fn default_attributes_spec(a: CommonAttributes) -> bool {
    &&& a.class == Some(BASE_FILL_CLASS_NAME)
    &&& a.fill_rule == "evenodd"
    &&& a.stroke == "black"
    &&& a.stroke_linecap == "butt"
    &&& a.stroke_width == CORE_ROUTER_STROKE_WIDTH_STR
}

/// The attributes of elements drawn without a class.
pub open spec fn no_class_attributes_spec(a: CommonAttributes) -> bool {
    &&& a.class.is_none()
    &&& a.fill_rule == "evenodd"
    &&& a.stroke == "black"
    &&& a.stroke_linecap == "butt"
    &&& a.stroke_width == CORE_ROUTER_STROKE_WIDTH_STR
}

impl CommonAttributes {
    /// Attributes with the base fill class.
    pub fn base() -> (r: Self)
        ensures
            default_attributes_spec(r),
    {
        CommonAttributes {
            class: Some(BASE_FILL_CLASS_NAME),
            fill_rule: "evenodd",
            stroke: "black",
            stroke_linecap: "butt",
            stroke_width: CORE_ROUTER_STROKE_WIDTH_STR,
        }
    }

    /// Attributes with no class.
    pub fn with_no_class() -> (r: Self)
        ensures
            no_class_attributes_spec(r),
    {
        CommonAttributes {
            class: None,
            fill_rule: "evenodd",
            stroke: "black",
            stroke_linecap: "butt",
            stroke_width: CORE_ROUTER_STROKE_WIDTH_STR,
        }
    }
}

/// `x` fits in an `i32`.
pub open spec fn in_i32(x: int) -> bool {
    i32::MIN <= x <= i32::MAX
}

/// Every intermediate sum of a router's move coordinates fits in an `i32`.
pub open spec fn router_move_fits(row: int, column: int, top_left: TopLeft) -> bool {
    &&& in_i32(column * BLOCK_LENGTH) && in_i32(column * BLOCK_LENGTH + ROUTER_OFFSET)
    &&& in_i32(column * BLOCK_DISTANCE)
    &&& in_i32(column * BLOCK_LENGTH + ROUTER_OFFSET + column * BLOCK_DISTANCE)
    &&& in_i32(column * BLOCK_LENGTH + ROUTER_OFFSET + column * BLOCK_DISTANCE + top_left.x)
    &&& in_i32(column * BLOCK_LENGTH + ROUTER_OFFSET + column * BLOCK_DISTANCE + top_left.x + 1)
    &&& in_i32(row * BLOCK_LENGTH) && in_i32(row * BLOCK_LENGTH + ROUTER_OFFSET)
    &&& in_i32(row * BLOCK_DISTANCE)
    &&& in_i32(row * BLOCK_LENGTH + ROUTER_OFFSET + row * BLOCK_DISTANCE)
    &&& in_i32(row * BLOCK_LENGTH + ROUTER_OFFSET + row * BLOCK_DISTANCE + top_left.y)
    &&& in_i32(row * BLOCK_LENGTH + ROUTER_OFFSET + row * BLOCK_DISTANCE + top_left.y + 1)
}

/// Every intermediate sum of a core's move coordinates fits in an `i32`.
pub open spec fn core_move_fits(row: int, column: int, top_left: TopLeft) -> bool {
    &&& in_i32(column * BLOCK_LENGTH) && in_i32(column * BLOCK_DISTANCE)
    &&& in_i32(column * BLOCK_LENGTH + column * BLOCK_DISTANCE)
    &&& in_i32(column * BLOCK_LENGTH + column * BLOCK_DISTANCE + top_left.x)
    &&& in_i32(column * BLOCK_LENGTH + column * BLOCK_DISTANCE + top_left.x + 1)
    &&& in_i32(row * BLOCK_LENGTH) && in_i32(row * BLOCK_LENGTH + ROUTER_OFFSET)
    &&& in_i32(row * BLOCK_DISTANCE)
    &&& in_i32(row * BLOCK_LENGTH + ROUTER_OFFSET + row * BLOCK_DISTANCE)
    &&& in_i32(row * BLOCK_LENGTH + ROUTER_OFFSET + row * BLOCK_DISTANCE + top_left.y)
    &&& in_i32(row * BLOCK_LENGTH + ROUTER_OFFSET + row * BLOCK_DISTANCE + top_left.y + 1)
}

/// Where the path of the router at `(row, column)` starts: the router's bottom left corner.
pub open spec fn router_move(row: int, column: int, top_left: TopLeft) -> (int, int) {
    (
        column * (BLOCK_LENGTH + BLOCK_DISTANCE) + ROUTER_OFFSET + top_left.x + CORE_ROUTER_STROKE_WIDTH,
        row * (BLOCK_LENGTH + BLOCK_DISTANCE) + ROUTER_OFFSET + top_left.y + CORE_ROUTER_STROKE_WIDTH,
    )
}

/// Where the path of the core at `(row, column)` starts: the core's top left corner.
pub open spec fn core_move(row: int, column: int, top_left: TopLeft) -> (int, int) {
    (
        column * (BLOCK_LENGTH + BLOCK_DISTANCE) + top_left.x + CORE_ROUTER_STROKE_WIDTH,
        row * (BLOCK_LENGTH + BLOCK_DISTANCE) + ROUTER_OFFSET + top_left.y + CORE_ROUTER_STROKE_WIDTH,
    )
}

/// `d` attribute of a path that starts at `(x, y)` and continues with `rest`.
pub open spec fn path_d(x: int, y: int, rest: Seq<char>) -> Seq<char> {
    "M"@ + int_str(x) + ","@ + int_str(y) + " "@ + rest
}

/// The `<path>` that draws a router.
#[derive(Debug)]
pub struct Router {
    pub move_coordinates: (CoordinateT, CoordinateT),
    pub id: String,
    pub d: String,
    pub attributes: CommonAttributes,
}

/// The `<path>` that draws a core.
#[derive(Debug)]
pub struct Core {
    pub move_coordinates: (CoordinateT, CoordinateT),
    pub id: String,
    pub d: String,
    pub attributes: CommonAttributes,
}

fn move_path(x: i32, y: i32, rest: &str) -> (r: String)
    ensures
        r@ == path_d(x as int, y as int, rest@),
{
    let mut s = string_of("M");
    push_int(&mut s, x as i64);
    push_str(&mut s, ",");
    push_int(&mut s, y as i64);
    push_str(&mut s, " ");
    push_str(&mut s, rest);
    proof {
        assert(s@ =~= path_d(x as int, y as int, rest@));
    }
    s
}

fn prefixed_id(prefix: &str, id: u8) -> (r: String)
    ensures
        r@ == prefix@ + nat_str(id as nat),
{
    let mut s = string_of(prefix);
    push_nat(&mut s, id as u64);
    s
}

impl Router {
    /// Where the router at `(row, column)` is drawn from.
    pub fn get_move_coordinates(row: &CoordinateT, column: &CoordinateT, top_left: &TopLeft) -> (r: (CoordinateT, CoordinateT))
        requires
            router_move_fits(*row as int, *column as int, *top_left),
        ensures
            (r.0 as int, r.1 as int) == router_move(*row as int, *column as int, *top_left),
    {
        let move_x = (*column * BLOCK_LENGTH) + ROUTER_OFFSET + *column * BLOCK_DISTANCE + top_left.x + CORE_ROUTER_STROKE_WIDTH;
        let move_y = *row * BLOCK_LENGTH + ROUTER_OFFSET + *row * BLOCK_DISTANCE + top_left.y + CORE_ROUTER_STROKE_WIDTH;
        (move_x, move_y)
    }

    /// The router of core `id` at `(row, column)`: id `r<id>`, drawn from its move coordinates.
    pub fn new(row: &CoordinateT, column: &CoordinateT, id: &u8, top_left: &TopLeft) -> (r: Self)
        requires
            router_move_fits(*row as int, *column as int, *top_left),
        ensures
            (r.move_coordinates.0 as int, r.move_coordinates.1 as int) == router_move(*row as int, *column as int, *top_left),
            r.id@ == "r"@ + nat_str(*id as nat),
            r.d@ == path_d(r.move_coordinates.0 as int, r.move_coordinates.1 as int, ROUTER_PATH@),
            default_attributes_spec(r.attributes),
    {
        let (move_x, move_y) = Router::get_move_coordinates(row, column, top_left);
        Router {
            move_coordinates: (move_x, move_y),
            id: prefixed_id("r", *id),
            d: move_path(move_x, move_y, ROUTER_PATH),
            attributes: CommonAttributes::base(),
        }
    }
}

impl Core {
    /// Where the core at `(row, column)` is drawn from.
    pub fn get_move_coordinates(row: &CoordinateT, column: &CoordinateT, top_left: &TopLeft) -> (r: (CoordinateT, CoordinateT))
        requires
            core_move_fits(*row as int, *column as int, *top_left),
        ensures
            (r.0 as int, r.1 as int) == core_move(*row as int, *column as int, *top_left),
    {
        let move_x = *column * BLOCK_LENGTH + *column * BLOCK_DISTANCE + top_left.x + CORE_ROUTER_STROKE_WIDTH;
        let move_y = *row * BLOCK_LENGTH + ROUTER_OFFSET + *row * BLOCK_DISTANCE + top_left.y + CORE_ROUTER_STROKE_WIDTH;
        (move_x, move_y)
    }

    /// The core `id` at `(row, column)`: id `c<id>`, drawn from its move coordinates.
    pub fn new(row: &CoordinateT, column: &CoordinateT, id: &u8, top_left: &TopLeft) -> (r: Self)
        requires
            core_move_fits(*row as int, *column as int, *top_left),
        ensures
            (r.move_coordinates.0 as int, r.move_coordinates.1 as int) == core_move(*row as int, *column as int, *top_left),
            r.id@ == "c"@ + nat_str(*id as nat),
            r.d@ == path_d(r.move_coordinates.0 as int, r.move_coordinates.1 as int, PROCESSOR_PATH@),
            default_attributes_spec(r.attributes),
    {
        let (move_x, move_y) = Core::get_move_coordinates(row, column, top_left);
        Core {
            move_coordinates: (move_x, move_y),
            id: prefixed_id("c", *id),
            d: move_path(move_x, move_y, PROCESSOR_PATH),
            attributes: CommonAttributes::base(),
        }
    }
}

/// The `<g>` that holds a core and its router.
#[derive(Debug)]
pub struct ProcessingGroup {
    /// `(row, column)` of the group in the matrix.
    pub coordinates: (CoordinateT, CoordinateT),
    pub id: u8,
    pub core: Core,
    pub router: Router,
}

/// Both move computations of the block at `(row, column)` fit in an `i32`.
pub open spec fn block_fits(row: int, column: int, top_left: TopLeft) -> bool {
    router_move_fits(row, column, top_left) && core_move_fits(row, column, top_left)
}

impl ProcessingGroup {
    /// The group of core `id` at `(row, column)`. The clip paths of its core and of its
    /// router are appended, in that order, to `clip_paths`.
    pub fn new(
        row: &CoordinateT,
        column: &CoordinateT,
        id: &u8,
        top_left: &TopLeft,
        clip_paths: &mut Vec<ClipPath>,
    ) -> (r: Result<Self, SVGError>)
        requires
            block_fits(*row as int, *column as int, *top_left),
        ensures
            r matches Ok(g) && {
                &&& g.coordinates == (*row, *column)
                &&& g.id == *id
                &&& (g.core.move_coordinates.0 as int, g.core.move_coordinates.1 as int) == core_move(*row as int, *column as int, *top_left)
                &&& (g.router.move_coordinates.0 as int, g.router.move_coordinates.1 as int) == router_move(*row as int, *column as int, *top_left)
                &&& g.core.id@ == "c"@ + nat_str(*id as nat)
                &&& g.router.id@ == "r"@ + nat_str(*id as nat)
                &&& g.core.d@ == path_d(g.core.move_coordinates.0 as int, g.core.move_coordinates.1 as int, PROCESSOR_PATH@)
                &&& g.router.d@ == path_d(g.router.move_coordinates.0 as int, g.router.move_coordinates.1 as int, ROUTER_PATH@)
                &&& default_attributes_spec(g.core.attributes)
                &&& default_attributes_spec(g.router.attributes)
                &&& final(clip_paths)@.len() == old(clip_paths)@.len() + 2
                &&& final(clip_paths)@.subrange(0, old(clip_paths)@.len() as int) == old(clip_paths)@
                &&& final(clip_paths)@[old(clip_paths)@.len() as int].id@ == core_clip_id(*id)
                &&& final(clip_paths)@[old(clip_paths)@.len() as int].polygon.points@
                    == core_clip_points(g.core.move_coordinates.0, g.core.move_coordinates.1)
                &&& final(clip_paths)@[old(clip_paths)@.len() + 1int].id@ == router_clip_id(*id)
                &&& final(clip_paths)@[old(clip_paths)@.len() + 1int].polygon.points@
                    == router_clip_points(g.router.move_coordinates.0, g.router.move_coordinates.1)
            },
    {
        let core = Core::new(row, column, id, top_left);
        let (core_x, core_y) = core.move_coordinates;
        clip_paths.push(ClipPath::for_core(*id, core_x, core_y));
        let router = Router::new(row, column, id, top_left);
        let (router_x, router_y) = router.move_coordinates;
        clip_paths.push(ClipPath::for_router(*id, router_x, router_y));
        proof {
            assert(clip_paths@.subrange(0, old(clip_paths)@.len() as int) =~= old(clip_paths)@);
        }
        Ok(ProcessingGroup { coordinates: (*row, *column), id: *id, core, router })
    }

    /// `(row, column)` of the group.
    pub fn coordinates(&self) -> (r: &(CoordinateT, CoordinateT))
        ensures
            *r == self.coordinates,
    {
        &self.coordinates
    }

    /// The core of the group.
    pub fn core_path(&self) -> (r: &Core)
        ensures
            *r == self.core,
    {
        &self.core
    }

    /// The router of the group.
    pub fn router_path(&self) -> (r: &Router)
        ensures
            *r == self.router,
    {
        &self.router
    }
}

/// The `<g>` that wraps every processing group.
#[derive(Debug)]
pub struct ProcessingParentGroup {
    pub id: &'static str,
    pub clip_path: &'static str,
    pub g: Vec<ProcessingGroup>,
}

impl ProcessingParentGroup {
    /// An empty parent group, clipped by the freeform clip path.
    pub fn new(number_of_cores: &usize) -> (r: Self)
        ensures
            r.id == "processingGroup",
            r.clip_path == USE_FREEFORM_CLIP_PATH,
            r.g@.len() == 0,
    {
        ProcessingParentGroup {
            id: "processingGroup",
            g: Vec::with_capacity(*number_of_cores),
            clip_path: USE_FREEFORM_CLIP_PATH,
        }
    }
}

} // verus!
