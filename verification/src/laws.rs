//! Properties that hold across the operations of the library.

use vstd::prelude::*;
use crate::arith::{abs_int, clamp_i32};
use crate::information_layer::channel_data::flip;
use crate::information_layer::coordinates::{coordinates_model, coordinates_pair};
use crate::geometry::HALF_SIDE_LENGTH;
use crate::render_settings::FontSize;
use crate::information_layer::utils::{all_digits, digit_value, digits_value, is_digit, parse_u64_spec, unsigned_digits};
use crate::offsets::{Offsets, covers, merged};
use crate::render_settings::{CoordinatesOrientation, FieldConfiguration};
use crate::svg_conversions::{edge_offsets, sink_source_offsets};
use crate::sinks_sources_layer::SinkSource;
use crate::system::{BorderEntry, Channel, Directions, SinkSourceDirection};
use crate::text::{digit_char, nat_str};
use crate::view_box::{TopLeft, ViewBox, fitted, from_offsets_spec};
use crate::connections_group::{PathSpec, inner_path_spec};
use crate::geometry::{CONNECTION_LENGTH, MARKER_HEIGHT, ROUTER_OFFSET, SIDE_LENGTH};
use crate::processing_group::{path_d, router_move};
use crate::text::int_str;
use crate::sinks_sources_layer::{SINK_FILL, SOURCE_FILL, borders_wf, sink_source_matches, variant_on};
use crate::render_settings::{ColourSettings, FieldKeys, LoadConfiguration, ProcessedBaseConfiguration, RoutingConfiguration};
use crate::information_layer::text_information::load_data_spec;
use crate::information_layer::utils::{attribute_lines, insertion_point, is_reserved};
use crate::information_layer::channel_data::primary_attribute_model;
use crate::system::attr_get;

verus! {

/// Growing offsets by other offsets gives the smallest offsets that cover both; the
/// order and the grouping of the updates do not matter, and updating by what is already
/// covered changes nothing.
pub proof fn law_merged_is_least_cover(a: Offsets, b: Offsets, c: Offsets)
    ensures
        covers(merged(a, b), a),
        covers(merged(a, b), b),
        covers(c, a) && covers(c, b) ==> covers(c, merged(a, b)),
        merged(a, b) == merged(b, a),
        merged(merged(a, b), c) == merged(a, merged(b, c)),
        merged(a, a) == a,
        covers(a, b) ==> merged(a, b) == a,
{
}

/// Right side of a `viewBox` that starts left of the origin.
pub open spec fn right_side(v: ViewBox) -> int {
    v.x + v.width
}

/// Bottom side of a `viewBox` that starts above the origin.
pub open spec fn bottom_side(v: ViewBox) -> int {
    v.y + v.height
}

/// `v` holds everything within `o`.
pub open spec fn holds(v: ViewBox, o: Offsets) -> bool {
    v.x <= o.left && v.y <= o.top && right_side(v) >= o.right && bottom_side(v) >= o.bottom
}

/// `v` holds `w`.
pub open spec fn holds_box(v: ViewBox, w: ViewBox) -> bool {
    v.x <= w.x && v.y <= w.y && right_side(v) >= right_side(w) && bottom_side(v) >= bottom_side(w)
}

/// Values within `2^28` of the origin, where nothing saturates.
pub open spec fn moderate(x: int) -> bool {
    -0x1000_0000 <= x <= 0x1000_0000
}

/// A `viewBox` around the origin, and offsets reaching left of and above it, of moderate size.
pub open spec fn fitting_case(v: ViewBox, o: Offsets) -> bool {
    &&& v.x <= 0 && v.y <= 0 && v.width >= 0 && v.height >= 0
    &&& moderate(v.x as int) && moderate(v.y as int) && moderate(v.width as int) && moderate(v.height as int)
    &&& o.left <= 0 && o.top <= 0
    &&& moderate(o.left as int) && moderate(o.top as int) && moderate(o.right as int) && moderate(o.bottom as int)
}

/// Fitting a `viewBox` around the origin to offsets reaching left of and above it gives
/// a `viewBox` that holds both the original one and the offsets.
pub proof fn law_fitted_holds_offsets(v: ViewBox, o: Offsets)
    requires
        fitting_case(v, o),
    ensures
        holds(fitted(v, o), o),
        holds_box(fitted(v, o), v),
{
}

/// Fitting changes nothing when the `viewBox` already holds the offsets.
pub proof fn law_fitted_unchanged_when_held(v: ViewBox, o: Offsets)
    requires
        v.x <= 0 && v.y <= 0,
        -0x4000_0000 <= v.x && -0x4000_0000 <= v.y && v.width <= 0x4000_0000 && v.height <= 0x4000_0000,
        holds(v, o),
    ensures
        fitted(v, o) == v,
{
}

/// Fitting twice to the same offsets is fitting once.
pub proof fn law_fitted_idempotent(v: ViewBox, o: Offsets)
    requires
        fitting_case(v, o),
    ensures
        fitted(fitted(v, o), o) == fitted(v, o),
{
    law_fitted_holds_offsets(v, o);
    law_fitted_unchanged_when_held(fitted(v, o), o);
}

/// `swap` hands back the `viewBox` it replaces, so restoring from what it handed back
/// gives the original `viewBox` again.
pub proof fn law_restore_after_swap(original: ViewBox, x: i32, y: i32, width: i32, height: i32, handed_back: ViewBox, restored: ViewBox)
    requires
        handed_back == original,
        restored == handed_back,
    ensures
        restored == original,
        (ViewBox { x, y, width, height }) != original ==> restored != (ViewBox { x, y, width, height }),
{
}

/// Adding the freeform clip path and then clearing it leaves the clip paths as they were.
pub proof fn law_freeform_clip_path_round_trip(before: Seq<crate::clip_path::ClipPath>, added: Seq<crate::clip_path::ClipPath>, cleared: Seq<crate::clip_path::ClipPath>)
    requires
        added.len() == before.len() + 1,
        added.drop_last() == before,
        added.last().id@ == crate::clip_path::FREEFORM_CLIP_PATH_ID@,
        cleared == (if crate::defs::ends_with_freeform(added) { added.drop_last() } else { added }),
    ensures
        cleared == before,
{
}

/// Counting rows from the bottom (`B`) mirrors counting them from the top (`T`): both
/// give the same column, and their rows add up to one more than the number of rows.
pub proof fn law_coordinates_orientations_mirror(rows: u8, r: int, c: int)
    ensures
        ({
            let b = coordinates_pair(FieldConfiguration::Coordinates { orientation: CoordinatesOrientation::B }, rows, r, c).unwrap();
            let t = coordinates_pair(FieldConfiguration::Coordinates { orientation: CoordinatesOrientation::T }, rows, r, c).unwrap();
            b.0 == t.0 && b.1 + t.1 == rows + 1
        }),
{
}

/// Coordinates count columns from 1 at the left; `T` counts rows from 1 at the top,
/// one more for each row further down, and `B` counts rows from 1 at the bottom, one
/// more for each row further up.
pub proof fn law_coordinates_count_from_the_chosen_side(rows: u8, r: int, c: int)
    requires
        rows >= 1,
    ensures
        ({
            let b = FieldConfiguration::Coordinates { orientation: CoordinatesOrientation::B };
            let t = FieldConfiguration::Coordinates { orientation: CoordinatesOrientation::T };
            &&& coordinates_pair(t, rows, r, 0).unwrap().0 == 1
            &&& coordinates_pair(b, rows, r, 0).unwrap().0 == 1
            &&& coordinates_pair(t, rows, r, c + 1).unwrap().0 == coordinates_pair(t, rows, r, c).unwrap().0 + 1
            &&& coordinates_pair(b, rows, r, c + 1).unwrap().0 == coordinates_pair(b, rows, r, c).unwrap().0 + 1
            &&& coordinates_pair(t, rows, 0, c).unwrap().1 == 1
            &&& coordinates_pair(t, rows, r + 1, c).unwrap().1 == coordinates_pair(t, rows, r, c).unwrap().1 + 1
            &&& coordinates_pair(b, rows, rows - 1, c).unwrap().1 == 1
            &&& coordinates_pair(b, rows, r - 1, c).unwrap().1 == coordinates_pair(b, rows, r, c).unwrap().1 + 1
        }),
{
}

/// The coordinates text sits centred under its core and reads `(<column>,<row>)`, each
/// number reading back as the shown column and row.
pub proof fn law_coordinates_text_reads_column_then_row(core_x: int, core_y: int, col: u32, row: u32, font: FontSize)
    ensures
        ({
            let m = coordinates_model(core_x, core_y, (col as int, row as int), font);
            &&& m.x as int == (core_x + HALF_SIDE_LENGTH) as i32
            &&& m.y as int == (core_y + SIDE_LENGTH) as i32
            &&& m.text_anchor == "middle"
            &&& exists|a: Seq<char>, b: Seq<char>| #[trigger] parse_u64_spec(a) == Some(col as u64) && #[trigger] parse_u64_spec(b) == Some(row as u64)
                && m.value == "("@ + a + ","@ + b + ")"@
        }),
{
    law_written_numbers_read_back(col as u64);
    law_written_numbers_read_back(row as u64);
    assert(parse_u64_spec(nat_str(col as nat)) == Some(col as u64));
    assert(parse_u64_spec(nat_str(row as nat)) == Some(row as u64));
}

/// The direction a source sees its channel in is the opposite one, and flipping twice
/// gives the direction back.
pub proof fn law_flip_involution(d: Directions)
    ensures
        flip(flip(d)) == d,
        flip(d) != d,
{
}

proof fn lemma_digit_round_trip(d: int)
    requires
        0 <= d < 10,
    ensures
        is_digit(digit_char(d)),
        digit_value(digit_char(d)) == d,
{
}

proof fn lemma_nat_str_digits(n: nat)
    ensures
        nat_str(n).len() > 0,
        all_digits(nat_str(n)),
        digits_value(nat_str(n)) == n,
        nat_str(n)[0] != '+',
    decreases n,
{
    if n < 10 {
        lemma_digit_round_trip(n as int);
        assert(nat_str(n).drop_last() =~= Seq::<char>::empty());
        assert(digits_value(Seq::<char>::empty()) == 0);
    } else {
        lemma_nat_str_digits(n / 10);
        lemma_digit_round_trip((n % 10) as int);
        let s = nat_str(n);
        assert(s.drop_last() =~= nat_str(n / 10));
        assert(n == (n / 10) * 10 + n % 10) by (nonlinear_arith);
        assert forall|i: int| 0 <= i < s.len() implies is_digit(#[trigger] s[i]) by {
            if i < s.len() - 1 {
                assert(s[i] == nat_str(n / 10)[i]);
            }
        }
        assert(s[0] == nat_str(n / 10)[0]);
    }
}

/// Every number the library writes in decimal reads back, as a `u64`, as itself.
pub proof fn law_written_numbers_read_back(n: u64)
    ensures
        parse_u64_spec(nat_str(n as nat)) == Some(n),
{
    lemma_nat_str_digits(n as nat);
    assert(unsigned_digits(nat_str(n as nat)) == nat_str(n as nat));
}

proof fn lemma_edge_offsets_cover(o: Offsets, gs: Seq<SinkSource>)
    ensures
        covers(edge_offsets(o, gs), o),
        forall|k: int| 0 <= k < gs.len() ==> covers(edge_offsets(o, gs), sink_source_offsets(#[trigger] gs[k])),
    decreases gs.len(),
{
    if gs.len() > 0 {
        lemma_edge_offsets_cover(o, gs.drop_last());
        assert forall|k: int| 0 <= k < gs.len() implies covers(edge_offsets(o, gs), sink_source_offsets(#[trigger] gs[k])) by {
            if k < gs.len() - 1 {
                assert(gs[k] == gs.drop_last()[k]);
            }
        }
    }
}

/// The `viewBox` computed for the edge routers holds the origin and the rectangle of
/// every edge router.
pub proof fn law_borders_view_box_holds_edge_routers(gs: Seq<SinkSource>)
    requires
        forall|k: int| 0 <= k < gs.len() ==> moderate((#[trigger] gs[k]).rect.x as int) && moderate(gs[k].rect.y as int)
            && 0 <= gs[k].rect.width <= 0x0100_0000,
    ensures
        ({
            let b = from_offsets_spec(edge_offsets(Offsets { left: 0, top: 0, right: 0, bottom: 0 }, gs));
            &&& b.x <= 0 && b.y <= 0 && right_side(b) >= 0 && bottom_side(b) >= 0
            &&& forall|k: int| 0 <= k < gs.len() ==> b.x <= (#[trigger] gs[k]).rect.x && b.y <= gs[k].rect.y
                && right_side(b) >= gs[k].rect.x + gs[k].rect.width
                && bottom_side(b) >= gs[k].rect.y + crate::geometry::SINKS_SOURCES_SHORT_SIDE_LENGTH
        }),
{
    let zero = Offsets { left: 0, top: 0, right: 0, bottom: 0 };
    lemma_edge_offsets_cover(zero, gs);
    lemma_edge_offsets_moderate(zero, gs);
}

proof fn lemma_edge_offsets_moderate(o: Offsets, gs: Seq<SinkSource>)
    requires
        moderate(o.left as int) && moderate(o.top as int) && moderate(o.right as int) && moderate(o.bottom as int),
        forall|k: int| 0 <= k < gs.len() ==> moderate((#[trigger] gs[k]).rect.x as int) && moderate(gs[k].rect.y as int)
            && 0 <= gs[k].rect.width <= 0x0100_0000,
    ensures
        -0x1000_0000 <= edge_offsets(o, gs).left && -0x1000_0000 <= edge_offsets(o, gs).top,
        edge_offsets(o, gs).right <= 0x1100_0000 && edge_offsets(o, gs).bottom <= 0x1100_0000,
    decreases gs.len(),
{
    if gs.len() > 0 {
        assert forall|k: int| 0 <= k < gs.len() - 1 implies moderate((#[trigger] gs.drop_last()[k]).rect.x as int)
            && moderate(gs.drop_last()[k].rect.y as int) && 0 <= gs.drop_last()[k].rect.width <= 0x0100_0000 by {
            assert(gs.drop_last()[k] == gs[k]);
        }
        lemma_edge_offsets_moderate(o, gs.drop_last());
        assert(gs.last() == gs[gs.len() - 1]);
    }
}

/// An update that shows nothing restores the base drawing: with no offsets to fit, a
/// `viewBox` that holds the origin, as the base one does, stays as it is.
pub proof fn law_nothing_to_fit_keeps_view_box(v: ViewBox)
    requires
        v.x <= 0 && v.y <= 0,
        -0x4000_0000 <= v.x && -0x4000_0000 <= v.y && v.width <= 0x4000_0000 && v.height <= 0x4000_0000,
        right_side(v) >= 0 && bottom_side(v) >= 0,
    ensures
        fitted(v, crate::svg::zero_offsets()) == v,
{
    law_fitted_unchanged_when_held(v, crate::svg::zero_offsets());
}

/// Toggling a task's bubble to its cost variant and back puts it where it was: the base
/// placement depends only on the width of the task's id, which toggling keeps.
pub proof fn law_toggle_back_restores_bubble(
    bubble: crate::tasks_group::Task,
    with_cost: crate::tasks_group::Task,
    back: crate::tasks_group::Task,
    row: int,
    column: int,
    task: crate::system::TaskDescription,
    top_left: crate::view_box::TopLeft,
    pbc: crate::render_settings::ProcessedBaseConfiguration,
)
    requires
        crate::tasks_group::base_bubble(bubble, row, column, task, top_left, pbc),
        with_cost.task_width == bubble.task_width,
        back.task_width == with_cost.task_width,
        ({
            let (cx, cy) = crate::tasks_group::task_centre(row, column, with_cost.task_width as int, top_left, pbc.task_rect);
            &&& crate::tasks_group::task_rect_placed(back.rect, cx, cy, with_cost.task_width as int, pbc.task_rect)
            &&& back.task_text.x as int == cx && back.task_text.y as int == cy
        }),
    ensures
        back.rect.x == bubble.rect.x,
        back.rect.y == bubble.rect.y,
        back.rect.width == bubble.rect.width,
        back.rect.height == bubble.rect.height,
        back.task_text.x == bubble.task_text.x,
        back.task_text.y == bubble.task_text.y,
{
}

/// An update leaves everything that the next update reads as it was: the matrix, its
/// groups and channels, the derived measurements, the base `viewBox`es and the font. So
/// the next update gives the same result whatever updates came before it.
pub proof fn law_updates_read_only_the_drawing(before: crate::svg::SVG, after: crate::svg::SVG)
    requires
        crate::svg::updated(after, before),
    ensures
        after.rows == before.rows,
        after.root.processing_group == before.root.processing_group,
        after.root.connections_group == before.root.connections_group,
        after.root.sinks_sources_group == before.root.sinks_sources_group,
        after.root.tasks_group == before.root.tasks_group,
        after.defs == before.defs,
        after.processed_base_configuration == before.processed_base_configuration,
        after.base_view_box == before.base_view_box,
        after.borders_view_box == before.borders_view_box,
        after.font_base64 == before.font_base64,
        after.wf() == before.wf(),
{
}

/// The `viewBox` of the matrix holds every core and router: each block lies within it.
pub proof fn law_matrix_view_box_holds_blocks(rows: u8, columns: u8, r: int, c: int)
    requires
        0 <= r < rows,
        0 <= c < columns,
    ensures
        ({
            let width = crate::svg_conversions::matrix_width(columns);
            let height = crate::svg_conversions::matrix_height(rows);
            let tl = crate::svg_conversions::centred_top_left(width, height);
            let (core_x, core_y) = crate::processing_group::core_move(r, c, tl);
            let (router_x, router_y) = crate::processing_group::router_move(r, c, tl);
            &&& tl.x <= core_x && core_x + crate::geometry::SIDE_LENGTH <= tl.x + width
            &&& tl.y <= core_y && core_y + crate::geometry::SIDE_LENGTH <= tl.y + height
            &&& tl.x <= router_x && router_x + crate::geometry::SIDE_LENGTH <= tl.x + width
            &&& tl.y <= router_y - crate::geometry::ROUTER_OFFSET && router_y - crate::geometry::ROUTER_OFFSET + crate::geometry::SIDE_LENGTH <= tl.y + height
        }),
{
}


/// A path that is one straight move from its start: `dx` across (`h`) or `dy` down (`v`),
/// a negative amount going left or up.
pub open spec fn straight_move(p: PathSpec, dx: int, dy: int) -> bool {
    ||| dy == 0 && p.2 == path_d(p.0, p.1, "h"@ + int_str(dx))
    ||| dx == 0 && p.2 == path_d(p.0, p.1, "v"@ + int_str(dy))
}

/// The router one step from `(r, c)` in direction `d` (north is up a row).
pub open spec fn neighbour(d: Directions, r: int, c: int) -> (int, int) {
    match d {
        Directions::North => (r - 1, c),
        Directions::East => (r, c + 1),
        Directions::South => (r + 1, c),
        Directions::West => (r, c - 1),
    }
}

/// An inner channel leaves its router from the side facing its direction and runs
/// straight towards the router next to it in that direction, stopping an arrow head
/// short of that router's facing side. A router drawn from `(x, y)` spans `x` to
/// `x + SIDE_LENGTH` across and `y - ROUTER_OFFSET` to `y - ROUTER_OFFSET + SIDE_LENGTH` down.
pub proof fn law_inner_channels_run_to_the_neighbour(d: Directions, r: int, c: int, top_left: TopLeft)
    ensures
        ({
            let (rx, ry) = router_move(r, c, top_left);
            let (nx, ny) = router_move(neighbour(d, r, c).0, neighbour(d, r, c).1, top_left);
            let p = inner_path_spec(d, rx, ry);
            match d {
                Directions::East => p.0 == rx + SIDE_LENGTH && ry - ROUTER_OFFSET <= p.1 <= ry - ROUTER_OFFSET + SIDE_LENGTH
                    && straight_move(p, (nx - MARKER_HEIGHT) - p.0, 0) && p.0 < nx - MARKER_HEIGHT,
                Directions::West => p.0 == rx && ry - ROUTER_OFFSET <= p.1 <= ry - ROUTER_OFFSET + SIDE_LENGTH
                    && straight_move(p, (nx + SIDE_LENGTH + MARKER_HEIGHT) - p.0, 0) && nx + SIDE_LENGTH + MARKER_HEIGHT < p.0,
                Directions::North => p.1 == ry - ROUTER_OFFSET && rx <= p.0 <= rx + SIDE_LENGTH
                    && straight_move(p, 0, (ny - ROUTER_OFFSET + SIDE_LENGTH + MARKER_HEIGHT) - p.1)
                    && ny - ROUTER_OFFSET + SIDE_LENGTH + MARKER_HEIGHT < p.1,
                Directions::South => p.1 == ry - ROUTER_OFFSET + SIDE_LENGTH && rx <= p.0 <= rx + SIDE_LENGTH
                    && straight_move(p, 0, (ny - ROUTER_OFFSET - MARKER_HEIGHT) - p.1)
                    && p.1 < ny - ROUTER_OFFSET - MARKER_HEIGHT,
            }
        }),
{
    reveal_strlit("h");
    reveal_strlit("h-");
    reveal_strlit("v");
    reveal_strlit("v-");
    let (rx, ry) = router_move(r, c, top_left);
    let p = inner_path_spec(d, rx, ry);
    match d {
        Directions::West => {
            assert("h-"@ + int_str(CONNECTION_LENGTH as int) =~= "h"@ + int_str(-CONNECTION_LENGTH));
        },
        Directions::North => {
            assert("v-"@ + int_str(CONNECTION_LENGTH as int) =~= "v"@ + int_str(-CONNECTION_LENGTH));
        },
        _ => {},
    }
}

/// An edge router drawn on a side whose border entry is a source is filled with the
/// source colour, one whose entry is a sink with the sink colour; either way it shows
/// `T` followed by the entry's task.
pub proof fn law_edge_router_shows_its_entry(
    s: SinkSource,
    rx: i32,
    ry: i32,
    borders: Seq<(SinkSourceDirection, BorderEntry)>,
    i: int,
    pbc: ProcessedBaseConfiguration,
)
    requires
        borders_wf(Some(borders)),
        0 <= i < borders.len(),
        sink_source_matches(s, rx, ry, borders[i].0, variant_on(Some(borders), borders[i].0), pbc),
    ensures
        borders[i].1 is Source ==> s.rect.fill == SOURCE_FILL,
        borders[i].1 is Sink ==> s.rect.fill == SINK_FILL,
        s.text matches Some(t) && t.value@ == "T"@ + nat_str(match borders[i].1 {
            BorderEntry::Source(task) => task as nat,
            BorderEntry::Sink(task) => task as nat,
        }),
{
    let side = borders[i].0;
    let k = choose|k: int| 0 <= k < borders.len() && (#[trigger] borders[k]).0 == side;
    assert(borders[i].0 == side);
    assert(k == i);
}

/// With the percentage configuration and a known percentage, a load reads
/// `"<display>: <p>%"` whatever the load and bandwidth, where `<p>` reads back as the
/// percentage; otherwise it reads `"<display>: <load>/<bandwidth>"`, both numbers reading
/// back as themselves.
pub proof fn law_load_text_shows_the_asked_quantity(load: u16, bandwidth: u16, percentage: Option<u16>, rc: RoutingConfiguration, other_load: u16, other_bandwidth: u16)
    ensures
        ({
            let text = load_data_spec(load, bandwidth, percentage, rc);
            match (rc.load_configuration, percentage) {
                (LoadConfiguration::Percentage, Some(p)) => {
                    &&& text == load_data_spec(other_load, other_bandwidth, percentage, rc)
                    &&& exists|n: Seq<char>| #[trigger] parse_u64_spec(n) == Some(p as u64) && text == rc.display@ + ": "@ + n + "%"@
                },
                _ => exists|a: Seq<char>, b: Seq<char>| #[trigger] parse_u64_spec(a) == Some(load as u64) && #[trigger] parse_u64_spec(b) == Some(bandwidth as u64)
                    && text == rc.display@ + ": "@ + a + "/"@ + b,
            }
        }),
{
    match (rc.load_configuration, percentage) {
        (LoadConfiguration::Percentage, Some(p)) => {
            law_written_numbers_read_back(p as u64);
            assert(parse_u64_spec(nat_str(p as nat)) == Some(p as u64));
        },
        _ => {
            law_written_numbers_read_back(load as u64);
            law_written_numbers_read_back(bandwidth as u64);
            assert(parse_u64_spec(nat_str(load as nat)) == Some(load as u64));
            assert(parse_u64_spec(nat_str(bandwidth as nat)) == Some(bandwidth as u64));
        },
    }
}

/// A core or router attribute configured as coloured text, with a numeric value `n`,
/// adds the line `"<display>: <value>"` in the colour that the configured bounds give
/// `n`, the same colour as a channel text of that configuration.
pub proof fn law_coloured_attributes_take_their_colour(
    entries: Seq<(String, FieldConfiguration)>,
    key: String,
    display: String,
    colour_settings: ColourSettings,
    attrs: Seq<(String, String)>,
    keys: FieldKeys,
    v: Seq<char>,
    n: u64,
    x: int,
    y: int,
    ch: Channel,
    d: Directions,
)
    requires
        !is_reserved(key@, keys),
        attr_get(attrs, key@) == Some(v),
        parse_u64_spec(v) == Some(n),
        attr_get(ch.attributes@, key@) == Some(v),
    ensures
        ({
            let entry = (key, FieldConfiguration::ColouredText { display, colour_settings });
            let colour = colour_settings.colours@[insertion_point(colour_settings.bounds@, n)]@;
            &&& attribute_lines(entries.push(entry), attrs, keys) == attribute_lines(entries, attrs, keys).push((colour, display@ + ": "@ + v))
            &&& primary_attribute_model(x, y, Some(entry), ch, d).unwrap().fill == colour
        }),
{
    let entry = (key, FieldConfiguration::ColouredText { display, colour_settings });
    assert(entries.push(entry).drop_last() =~= entries);
}

} // verus!
