//! Edge routers: the sinks and sources around the matrix, drawn as rounded rectangles.

use vstd::prelude::*;
use crate::arith::{clamp_i32, sat_add, sat_sub, max_i32};
use crate::geometry::{
    CoordinateT, HALF_ROUTER_OFFSET, MARKER_HEIGHT, ROUTER_OFFSET, SIDE_LENGTH, SINKS_SOURCES_CONNECTION_LENGTH,
    SINKS_SOURCES_HALF_SHORT_SIDE_LENGTH, SINKS_SOURCES_SHORT_SIDE_LENGTH,
};
use crate::information_layer::text_information::{TextInformation, calculate_length_util, is_text, text_width};
use crate::render_settings::{ProcessedBaseConfiguration, TEXT_WIDTH_TABLE_LEN};
use crate::style::{DEFAULT_FILL, EDGE_DATA_CLASS_NAME};
use crate::system::{BorderEntry, EdgePosition, SinkSourceDirection};
use crate::text::{push_nat, string_of, nat_str};

verus! {

/// Id of the group of edge routers.
pub const SINK_SOURCES_ID: &'static str = "sinksSources";
/// Fill of sinks.
pub const SINK_FILL: &'static str = "#fb923c";
/// Fill of sources.
pub const SOURCE_FILL: &'static str = "#fbbf24";
/// Height of an edge router rectangle, as an attribute value.
pub const SINKS_SOURCES_SHORT_SIDE_LENGTH_STR: &'static str = "70";
/// Corner radius of an edge router rectangle.
pub const SINKS_SOURCES_RX: &'static str = "15";
/// Stroke width of an edge router rectangle.
pub const SINKS_SOURCES_STROKE_WIDTH_STR: &'static str = "1";
/// Vertical distance from a router's start to the centre of its north edge router.
pub const NORTH_DELTA_Y: i32 = -343;
/// Vertical distance from a router's start to the centre of its south edge router.
pub const SOUTH_DELTA_Y: i32 = 368;
/// Horizontal distance from a router's start to the centre of its north or south edge router.
pub const NORTH_SOUTH_DELTA_X: i32 = 63;
/// Vertical distance from a router's start to the centre of its east or west edge router.
pub const EAST_WEST_DELTA_Y: i32 = -38;
/// Horizontal distance from a router's start to the near side of its east edge router.
pub const EAST_DELTA_X: i32 = 333;
/// Horizontal distance from a router's start to the near side of its west edge router.
pub const WEST_DELTA_X: i32 = -308;

/// Half of `x`, rounded toward zero (std's `i32::saturating_div(x, 2)`).
pub open spec fn half_toward_zero(x: int) -> int {
    if x >= 0 { x / 2 } else { -((-x) / 2) }
}

/// Half of `x`, rounded toward zero.
pub fn half(x: i32) -> (r: i32)
    ensures
        r as int == half_toward_zero(x as int),
{
    if x >= 0 {
        x / 2
    } else if x == i32::MIN {
        -1073741824
    } else {
        -((-x) / 2)
    }
}

/// The rounded `<rect>` of an edge router.
#[derive(Debug)]
pub struct Rect {
    pub x: i32,
    pub y: i32,
    pub width: CoordinateT,
    pub height: &'static str,
    pub rx: &'static str,
    pub fill: &'static str,
    pub stroke: &'static str,
    pub stroke_width: &'static str,
}

/// What an edge router shows: a sink or source of a task, or nothing.
#[derive(Clone, Copy, Debug, PartialEq, Eq, Structural)]
pub enum SinkSourceVariant {
    Sink(u16),
    Source(u16),
    Neither,
}

impl SinkSourceVariant {
    /// The variant of a border entry.
    pub fn from_border(input: &BorderEntry) -> (r: Self)
        ensures
            r == variant_of_entry(*input),
    {
        match input {
            BorderEntry::Sink(task_id) => SinkSourceVariant::Sink(*task_id),
            BorderEntry::Source(task_id) => SinkSourceVariant::Source(*task_id),
        }
    }
}

/// The variant of a border entry.
pub open spec fn variant_of_entry(e: BorderEntry) -> SinkSourceVariant {
    match e {
        BorderEntry::Sink(t) => SinkSourceVariant::Sink(t),
        BorderEntry::Source(t) => SinkSourceVariant::Source(t),
    }
}

/// Fill of an edge router of the given variant.
pub open spec fn variant_fill(v: SinkSourceVariant) -> &'static str {
    match v {
        SinkSourceVariant::Source(_) => SOURCE_FILL,
        SinkSourceVariant::Sink(_) => SINK_FILL,
        SinkSourceVariant::Neither => DEFAULT_FILL,
    }
}

/// `r` is the rectangle centred on `(cx, cy)`, `width` wide, of the given variant.
pub open spec fn rect_matches(r: Rect, cx: int, cy: int, variant: SinkSourceVariant, width: int) -> bool {
    &&& r.x as int == clamp_i32(cx - half_toward_zero(width))
    &&& r.y as int == cy - SINKS_SOURCES_HALF_SHORT_SIDE_LENGTH
    &&& r.width as int == width
    &&& r.height == SINKS_SOURCES_SHORT_SIDE_LENGTH_STR
    &&& r.rx == SINKS_SOURCES_RX
    &&& r.fill == variant_fill(variant)
    &&& r.stroke == "black"
    &&& r.stroke_width == SINKS_SOURCES_STROKE_WIDTH_STR
}

impl Rect {
    /// The rectangle centred on `(centre_x, centre_y)`, `text_width` wide, filled by variant.
    pub fn new(centre_x: CoordinateT, centre_y: CoordinateT, variant: SinkSourceVariant, text_width: CoordinateT) -> (r: Self)
        requires
            centre_y - SINKS_SOURCES_HALF_SHORT_SIDE_LENGTH >= i32::MIN,
        ensures
            rect_matches(r, centre_x as int, centre_y as int, variant, text_width as int),
    {
        Rect {
            x: sat_sub(centre_x, half(text_width)),
            y: centre_y - SINKS_SOURCES_HALF_SHORT_SIDE_LENGTH,
            width: text_width,
            height: SINKS_SOURCES_SHORT_SIDE_LENGTH_STR,
            rx: SINKS_SOURCES_RX,
            fill: match variant {
                SinkSourceVariant::Source(_) => SOURCE_FILL,
                SinkSourceVariant::Sink(_) => SINK_FILL,
                SinkSourceVariant::Neither => DEFAULT_FILL,
            },
            stroke: "black",
            stroke_width: SINKS_SOURCES_STROKE_WIDTH_STR,
        }
    }
}

/// An edge router: its rectangle and, for a sink or source, its task's id.
#[derive(Debug)]
pub struct SinkSource {
    pub rect: Rect,
    pub text: Option<TextInformation>,
}

/// The text of an edge router: `T<task>` for sinks and sources.
pub open spec fn variant_text(v: SinkSourceVariant) -> Option<Seq<char>> {
    match v {
        SinkSourceVariant::Sink(t) => Some("T"@ + nat_str(t as nat)),
        SinkSourceVariant::Source(t) => Some("T"@ + nat_str(t as nat)),
        SinkSourceVariant::Neither => None,
    }
}

/// Width of an edge router: its text's width at the task font, at least its short side.
pub open spec fn variant_width(v: SinkSourceVariant, widths: Seq<CoordinateT>) -> int {
    match variant_text(v) {
        Some(t) => match text_width(widths, t) {
            Some(w) => if w >= SINKS_SOURCES_SHORT_SIDE_LENGTH { w as int } else { SINKS_SOURCES_SHORT_SIDE_LENGTH as int },
            None => SINKS_SOURCES_SHORT_SIDE_LENGTH as int,
        },
        None => SINKS_SOURCES_SHORT_SIDE_LENGTH as int,
    }
}

/// Offset from a router's start to the centre of its edge router on `side`, for an edge
/// router `width` wide.
pub open spec fn side_delta(side: SinkSourceDirection, width: int) -> (i32, i32) {
    match side {
        SinkSourceDirection::North => (NORTH_SOUTH_DELTA_X, NORTH_DELTA_Y),
        SinkSourceDirection::East => (clamp_i32(EAST_DELTA_X + half_toward_zero(width)) as i32, EAST_WEST_DELTA_Y),
        SinkSourceDirection::South => (NORTH_SOUTH_DELTA_X, SOUTH_DELTA_Y),
        SinkSourceDirection::West => (clamp_i32(WEST_DELTA_X - half_toward_zero(width)) as i32, EAST_WEST_DELTA_Y),
    }
}

/// Centre of the edge router on `side` of the router drawn from `(rx, ry)`; the sums wrap.
pub open spec fn sink_source_centre(rx: i32, ry: i32, side: SinkSourceDirection, width: int) -> (i32, i32) {
    let (dx, dy) = side_delta(side, width);
    (dx.wrapping_add(rx), dy.wrapping_add(ry))
}

/// The edge router on `side` of a router can be drawn without overflow.
pub open spec fn sink_source_fits(rx: i32, ry: i32, side: SinkSourceDirection) -> bool {
    sink_source_centre(rx, ry, side, 0).1 - SINKS_SOURCES_HALF_SHORT_SIDE_LENGTH >= i32::MIN
}

/// `s` is the edge router of `variant` on `side` of the router drawn from `(rx, ry)`.
pub open spec fn sink_source_matches(s: SinkSource, rx: i32, ry: i32, side: SinkSourceDirection, variant: SinkSourceVariant, pbc: ProcessedBaseConfiguration) -> bool {
    let width = variant_width(variant, pbc.task_text_widths@);
    let (cx, cy) = sink_source_centre(rx, ry, side, width);
    &&& rect_matches(s.rect, cx as int, cy as int, variant, width)
    &&& match variant_text(variant) {
        Some(t) => s.text matches Some(ti) && is_text(ti, cx as int, cy as int, pbc.task_font_size, "middle", "central", "black"@, Some(EDGE_DATA_CLASS_NAME), t),
        None => s.text is None,
    }
}

fn task_label(task_id: u16) -> (r: String)
    ensures
        r@ == "T"@ + nat_str(task_id as nat),
{
    let mut s = string_of("T");
    push_nat(&mut s, task_id as u64);
    s
}

impl SinkSource {
    /// The edge router of `variant` on the `direction` side of the router drawn from
    /// `(router_x, router_y)`.
    pub fn new(
        router_x: &CoordinateT,
        router_y: &CoordinateT,
        direction: &SinkSourceDirection,
        variant: SinkSourceVariant,
        processed_base_configuration: &ProcessedBaseConfiguration,
    ) -> (r: Self)
        requires
            processed_base_configuration.wf(),
            sink_source_fits(*router_x, *router_y, *direction),
        ensures
            sink_source_matches(r, *router_x, *router_y, *direction, variant, *processed_base_configuration),
    {
        let text_content = match variant {
            SinkSourceVariant::Sink(task_id) => Some(task_label(task_id)),
            SinkSourceVariant::Source(task_id) => Some(task_label(task_id)),
            SinkSourceVariant::Neither => None,
        };
        let text_width = match &text_content {
            Some(text) => {
                let w = match calculate_length_util(&processed_base_configuration.task_text_widths, text.as_str()) {
                    Ok(w) => w,
                    Err(_) => SINKS_SOURCES_SHORT_SIDE_LENGTH,
                };
                max_i32(w, SINKS_SOURCES_SHORT_SIDE_LENGTH)
            },
            None => SINKS_SOURCES_SHORT_SIDE_LENGTH,
        };
        let (delta_x, delta_y) = match direction {
            SinkSourceDirection::North => (NORTH_SOUTH_DELTA_X, NORTH_DELTA_Y),
            SinkSourceDirection::East => (sat_add(EAST_DELTA_X, half(text_width)), EAST_WEST_DELTA_Y),
            SinkSourceDirection::South => (NORTH_SOUTH_DELTA_X, SOUTH_DELTA_Y),
            SinkSourceDirection::West => (sat_sub(WEST_DELTA_X, half(text_width)), EAST_WEST_DELTA_Y),
        };
        let centre_x = delta_x.wrapping_add(*router_x);
        let centre_y = delta_y.wrapping_add(*router_y);
        SinkSource {
            rect: Rect::new(centre_x, centre_y, variant, text_width),
            text: TextInformation::sink_source_text(centre_x, centre_y, text_content, processed_base_configuration),
        }
    }
}

/// The sides of a router at `pos` that have an edge router, in the order they are drawn.
pub open spec fn edge_router_sides(pos: EdgePosition) -> Seq<SinkSourceDirection> {
    match pos {
        EdgePosition::Top => seq![SinkSourceDirection::North],
        EdgePosition::TopLeft => seq![SinkSourceDirection::North, SinkSourceDirection::West],
        EdgePosition::TopRight => seq![SinkSourceDirection::North, SinkSourceDirection::East],
        EdgePosition::Left => seq![SinkSourceDirection::West],
        EdgePosition::Right => seq![SinkSourceDirection::East],
        EdgePosition::Bottom => seq![SinkSourceDirection::South],
        EdgePosition::BottomLeft => seq![SinkSourceDirection::South, SinkSourceDirection::West],
        EdgePosition::BottomRight => seq![SinkSourceDirection::South, SinkSourceDirection::East],
    }
}

/// The variant of the edge router on `side`, from the border entries of a core.
pub open spec fn variant_on(borders: Option<Seq<(SinkSourceDirection, BorderEntry)>>, side: SinkSourceDirection) -> SinkSourceVariant {
    match borders {
        Some(b) => if exists|i: int| 0 <= i < b.len() && (#[trigger] b[i]).0 == side {
            variant_of_entry(b[choose|i: int| 0 <= i < b.len() && (#[trigger] b[i]).0 == side].1)
        } else {
            SinkSourceVariant::Neither
        },
        None => SinkSourceVariant::Neither,
    }
}

/// Each side appears at most once among the border entries.
pub open spec fn borders_wf(borders: Option<Seq<(SinkSourceDirection, BorderEntry)>>) -> bool {
    match borders {
        Some(b) => forall|i: int, j: int| 0 <= i < j < b.len() ==> (#[trigger] b[i]).0 != (#[trigger] b[j]).0,
        None => true,
    }
}

/// Every edge router of a router at `pos` drawn from `(rx, ry)` fits.
pub open spec fn edge_routers_fit(pos: EdgePosition, rx: i32, ry: i32) -> bool {
    forall|i: int| 0 <= i < edge_router_sides(pos).len() ==> sink_source_fits(rx, ry, #[trigger] edge_router_sides(pos)[i])
}

/// The `<g>` holding every edge router.
#[derive(Debug)]
pub struct SinksSourcesGroup {
    pub id: &'static str,
    pub class: &'static str,
    pub g: Vec<SinkSource>,
}

impl SinksSourcesGroup {
    /// An empty group with room for the edge routers of a `rows` by `columns` matrix.
    pub fn new(rows: u8, columns: u8) -> (r: Self)
        requires
            (rows + columns) * 2 <= u8::MAX,
        ensures
            r.id == SINK_SOURCES_ID,
            r.class == EDGE_DATA_CLASS_NAME,
            r.g@.len() == 0,
    {
        SinksSourcesGroup { id: SINK_SOURCES_ID, class: EDGE_DATA_CLASS_NAME, g: Vec::with_capacity(((rows + columns) * 2) as usize) }
    }

    /// The variant of the edge router on `direction`, from a core's border entries.
    pub fn get_variant(&self, core_borders: Option<&Vec<(SinkSourceDirection, BorderEntry)>>, direction: SinkSourceDirection) -> (r: SinkSourceVariant)
        requires
            borders_wf(match core_borders { Some(b) => Some(b@), None => None }),
        ensures
            r == variant_on(match core_borders { Some(b) => Some(b@), None => None }, direction),
    {
        match core_borders {
            Some(b) => {
                let n = b.len();
                let mut i: usize = 0;
                while i < n
                    invariant
                        n == b@.len(),
                        core_borders == Some(b),
                        i <= n,
                        forall|j: int| 0 <= j < i ==> (#[trigger] b@[j]).0 != direction,
                        forall|x: int, y: int| 0 <= x < y < b@.len() ==> (#[trigger] b@[x]).0 != (#[trigger] b@[y]).0,
                    decreases n - i,
                {
                    if b[i].0 == direction {
                        let entry = b[i].1;
                        proof {
                            assert(b@[i as int].0 == direction);
                            let k = choose|k: int| 0 <= k < b@.len() && (#[trigger] b@[k]).0 == direction;
                            if k < i as int {
                                assert(b@[k].0 != b@[i as int].0);
                            } else if k > i as int {
                                assert(b@[i as int].0 != b@[k].0);
                            }
                            assert(k == i as int);
                            assert(entry == b@[k].1);
                            assert(variant_on(Some(b@), direction) == variant_of_entry(entry));
                        }
                        return SinkSourceVariant::from_border(&entry);
                    }
                    i = i + 1;
                }
                SinkSourceVariant::Neither
            },
            None => SinkSourceVariant::Neither,
        }
    }

    fn push_side(
        &mut self,
        direction: SinkSourceDirection,
        router_x: &CoordinateT,
        router_y: &CoordinateT,
        core_borders: Option<&Vec<(SinkSourceDirection, BorderEntry)>>,
        processed_base_configuration: &ProcessedBaseConfiguration,
    )
        requires
            processed_base_configuration.wf(),
            sink_source_fits(*router_x, *router_y, direction),
            borders_wf(match core_borders { Some(b) => Some(b@), None => None }),
        ensures
            final(self).g@.len() == old(self).g@.len() + 1,
            final(self).g@.drop_last() == old(self).g@,
            sink_source_matches(final(self).g@.last(), *router_x, *router_y, direction,
                variant_on(match core_borders { Some(b) => Some(b@), None => None }, direction), *processed_base_configuration),
            final(self).id == old(self).id,
            final(self).class == old(self).class,
    {
        let variant = self.get_variant(core_borders, direction);
        self.g.push(SinkSource::new(router_x, router_y, &direction, variant, processed_base_configuration));
        proof {
            assert(self.g@.drop_last() =~= old(self).g@);
        }
    }

    /// Adds the edge routers of the router drawn from `(router_x, router_y)` at border
    /// position `edge_position`: one per side of [`edge_router_sides`], in that order.
    pub fn insert(
        &mut self,
        edge_position: &EdgePosition,
        router_x: &CoordinateT,
        router_y: &CoordinateT,
        core_borders: Option<&Vec<(SinkSourceDirection, BorderEntry)>>,
        processed_base_configuration: &ProcessedBaseConfiguration,
    )
        requires
            processed_base_configuration.wf(),
            edge_routers_fit(*edge_position, *router_x, *router_y),
            borders_wf(match core_borders { Some(b) => Some(b@), None => None }),
        ensures
            final(self).id == old(self).id,
            final(self).class == old(self).class,
            final(self).g@.len() == old(self).g@.len() + edge_router_sides(*edge_position).len(),
            final(self).g@.subrange(0, old(self).g@.len() as int) == old(self).g@,
            forall|i: int| 0 <= i < edge_router_sides(*edge_position).len() ==>
                sink_source_matches(#[trigger] final(self).g@[old(self).g@.len() + i], *router_x, *router_y, edge_router_sides(*edge_position)[i],
                    variant_on(match core_borders { Some(b) => Some(b@), None => None }, edge_router_sides(*edge_position)[i]),
                    *processed_base_configuration),
    {
        let ghost sides = edge_router_sides(*edge_position);
        let (first, second): (SinkSourceDirection, Option<SinkSourceDirection>) = match edge_position {
            EdgePosition::Top => (SinkSourceDirection::North, None),
            EdgePosition::TopLeft => (SinkSourceDirection::North, Some(SinkSourceDirection::West)),
            EdgePosition::TopRight => (SinkSourceDirection::North, Some(SinkSourceDirection::East)),
            EdgePosition::Left => (SinkSourceDirection::West, None),
            EdgePosition::Right => (SinkSourceDirection::East, None),
            EdgePosition::Bottom => (SinkSourceDirection::South, None),
            EdgePosition::BottomLeft => (SinkSourceDirection::South, Some(SinkSourceDirection::West)),
            EdgePosition::BottomRight => (SinkSourceDirection::South, Some(SinkSourceDirection::East)),
        };
        proof {
            assert(sides[0] == first);
            assert(sink_source_fits(*router_x, *router_y, sides[0]));
            if second is Some {
                assert(sides[1] == second.unwrap());
                assert(sink_source_fits(*router_x, *router_y, sides[1]));
            }
        }
        self.push_side(first, router_x, router_y, core_borders, processed_base_configuration);
        let ghost mid = self.g@;
        if let Some(s) = second {
            self.push_side(s, router_x, router_y, core_borders, processed_base_configuration);
        }
        proof {
            let n = old(self).g@.len();
            assert(self.g@.subrange(0, n as int) =~= old(self).g@);
            if second is Some {
                assert(self.g@[n as int] == mid[n as int]);
            }
        }
    }
}

} // verus!
