//! Fixed dimensions of the SVG drawing, in SVG user units.

use vstd::prelude::*;

verus! {

/// Coordinate type of every SVG element.
pub type CoordinateT = i32;

/// Side of a core square.
pub const SIDE_LENGTH: i32 = 100;
/// Three quarters of [`SIDE_LENGTH`]: height of a router and of a core's cut corner.
pub const ROUTER_OFFSET: i32 = 75;
/// [`SIDE_LENGTH`] plus [`ROUTER_OFFSET`].
pub const BLOCK_LENGTH: i32 = 175;
/// Half of [`SIDE_LENGTH`].
pub const HALF_SIDE_LENGTH: i32 = 50;
/// Half of [`ROUTER_OFFSET`], rounded down.
pub const HALF_ROUTER_OFFSET: i32 = 37;
/// Height of the arrow head marker.
pub const MARKER_HEIGHT: i32 = 8;
/// Length of an inner channel: four router offsets.
pub const CONNECTION_LENGTH: i32 = 300;
/// Distance between two blocks: channel length minus router offset plus marker.
pub const BLOCK_DISTANCE: i32 = 233;
/// Gap between the two parallel channels that join neighbouring routers.
pub const CONNECTION_GAP: i32 = 22;
/// Stroke width of cores and routers.
pub const CORE_ROUTER_STROKE_WIDTH: i32 = 1;
/// Length of a channel to an edge router: three router offsets.
pub const SINKS_SOURCES_CONNECTION_LENGTH: i32 = 225;
/// Short side of an edge router rectangle.
pub const SINKS_SOURCES_SHORT_SIDE_LENGTH: i32 = 70;
/// Half of [`SINKS_SOURCES_SHORT_SIDE_LENGTH`].
pub const SINKS_SOURCES_HALF_SHORT_SIDE_LENGTH: i32 = 35;
/// Space taken around the matrix by edge routers and their channels.
pub const SINKS_SOURCES_GROUP_OFFSET: i32 = 304;
/// Vertical padding added to a text height.
pub const CHAR_V_PADDING: i32 = 3;
/// Half of [`CHAR_V_PADDING`], rounded down.
pub const HALF_CHAR_V_PADDING: i32 = 1;
/// Height of a character at 22px.
pub const CHAR_HEIGHT_AT_22_PX: i32 = 30;
/// Stroke of task rectangles.
pub const TASK_RECT_STROKE: i32 = 1;
/// Horizontal offset of task rectangles from the block's left side.
pub const TASK_RECT_X_OFFSET: i32 = 10;

} // verus!
