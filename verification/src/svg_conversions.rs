//! Generating the SVG of a many-core system.

use vstd::prelude::*;
use crate::arith::{abs_i32, abs_int, clamp_i32, min_i32, sat_add, sat_sub};
use crate::connections_group::{ConnectionsParentGroup, router_near};
use crate::error::{SVGError, SVGErrorKind};
use crate::geometry::{
    CoordinateT, BLOCK_DISTANCE, BLOCK_LENGTH, CORE_ROUTER_STROKE_WIDTH, TASK_RECT_STROKE,
};
use crate::information_layer::layer_fits;
use crate::information_layer::text_information::is_length_error;
use crate::offsets::{Offsets, merged};
use crate::processing_group::{ProcessingGroup, block_fits, core_move, router_move};
use crate::render_settings::{ProcessedBaseConfiguration, task_rect_spec};
use crate::sinks_sources_layer::{SinkSource, borders_wf, edge_routers_fit, half, half_toward_zero, sink_source_matches};
use crate::svg::SVG;
use crate::system::{CoreDescription, ManycoreDescription, TaskDescription};
use crate::tasks_group::{bubble_fits, missing_task, task_width_spec, cost_width_spec, task_widths_known};
use crate::text::nat_str;
use crate::view_box::{TopLeft, ViewBox, from_offsets_spec};

verus! {

/// Width of the matrix of `columns` columns: its blocks, the distances between them and
/// the stroke on both sides.
pub open spec fn matrix_width(columns: u8) -> int {
    columns * BLOCK_LENGTH + (columns - 1) * BLOCK_DISTANCE + 2 * CORE_ROUTER_STROKE_WIDTH
}

/// Height of the matrix of `rows` rows.
pub open spec fn matrix_height(rows: u8) -> int {
    rows * BLOCK_LENGTH + (rows - 1) * BLOCK_DISTANCE + 2 * CORE_ROUTER_STROKE_WIDTH
}

/// The top left corner of a drawing `width` by `height` centred on the origin.
pub open spec fn centred_top_left(width: int, height: int) -> TopLeft {
    TopLeft { x: (-half_toward_zero(width)) as i32, y: (-half_toward_zero(height)) as i32 }
}

/// The task of the task graph with id `id` (the first one), if any.
pub open spec fn task_of(tasks: Seq<TaskDescription>, id: u16) -> Option<TaskDescription>
    decreases tasks.len(),
{
    if tasks.len() == 0 {
        None
    } else if tasks[0].id == id {
        Some(tasks[0])
    } else {
        task_of(tasks.drop_first(), id)
    }
}

proof fn lemma_task_of_id(tasks: Seq<TaskDescription>, id: u16)
    ensures
        task_of(tasks, id) matches Some(d) ==> d.id == id,
    decreases tasks.len(),
{
    if tasks.len() > 0 && tasks[0].id != id {
        lemma_task_of_id(tasks.drop_first(), id);
    }
}

/// The task of the task graph with id `id`, if any.
pub fn find_task(tasks: &Vec<TaskDescription>, id: u16) -> (r: Option<&TaskDescription>)
    ensures
        match r {
            Some(t) => task_of(tasks@, id) == Some(*t),
            None => task_of(tasks@, id) is None,
        },
{
    let mut i: usize = 0;
    proof {
        assert(tasks@.skip(0) =~= tasks@);
    }
    while i < tasks.len()
        invariant
            i <= tasks@.len(),
            task_of(tasks@, id) == task_of(tasks@.skip(i as int), id),
        decreases tasks@.len() - i,
    {
        proof {
            assert(tasks@.skip(i as int)[0] == tasks@[i as int]);
            assert(tasks@.skip(i as int).drop_first() =~= tasks@.skip(i + 1));
        }
        if tasks[i].id == id {
            return Some(&tasks[i]);
        }
        i = i + 1;
    }
    proof {
        assert(tasks@.skip(i as int).len() == 0);
    }
    None
}

/// The bubble of the task allocated to core `i` cannot be drawn: the task is missing from
/// the task graph, or one of its texts cannot be measured.
pub open spec fn core_task_fails(m: ManycoreDescription, i: int, pbc: ProcessedBaseConfiguration) -> bool {
    match m.cores@[i].allocated_task {
        Some(t) => match task_of(m.tasks@, t) {
            None => true,
            Some(d) => !task_widths_known(d, pbc),
        },
        None => false,
    }
}

/// `e` is the error that drawing the bubble of the task of core `i` raises.
pub open spec fn core_task_error(e: SVGError, m: ManycoreDescription, i: int) -> bool {
    match m.cores@[i].allocated_task {
        Some(t) => match task_of(m.tasks@, t) {
            None => e.error_kind matches SVGErrorKind::ManycoreMismatch(msg) && msg@ == "Core "@ + nat_str(m.cores@[i].id as nat)
                + " has Task "@ + nat_str(t as nat) + " allocated but the task is not in the TaskGraph."@,
            Some(_) => is_length_error(e),
        },
        None => false,
    }
}

/// The system can be drawn: a core needs a column; the edge routers' group is sized in
/// a `u8`; rows are counted in a `u8`; the bottom row of a core with a task exists; each
/// core has each channel and each edge router side once.
pub open spec fn drawable(m: ManycoreDescription) -> bool {
    &&& m.cores@.len() > 0 ==> m.columns >= 1
    &&& (m.rows + m.columns) * 2 <= u8::MAX
    &&& m.cores@.len() <= 256 * m.columns
    &&& (exists|i: int| 0 <= i < m.cores@.len() && (#[trigger] m.cores@[i]).allocated_task is Some) ==> m.rows >= 1
    &&& forall|i: int| 0 <= i < m.cores@.len() ==> (#[trigger] m.cores@[i]).wf()
        && borders_wf(match m.cores@[i].borders { Some(b) => Some(b@), None => None })
}

/// A core has at most one channel per direction, so at most four.
proof fn lemma_four_channels(core: CoreDescription)
    requires
        core.wf(),
    ensures
        core.channels@.len() <= 4,
{
    if core.channels@.len() > 4 {
        let d0 = core.channels@[0].direction;
        let d1 = core.channels@[1].direction;
        let d2 = core.channels@[2].direction;
        let d3 = core.channels@[3].direction;
        let d4 = core.channels@[4].direction;
        assert(d0 != d1 && d0 != d2 && d0 != d3 && d0 != d4 && d1 != d2 && d1 != d3 && d1 != d4 && d2 != d3 && d2 != d4 && d3 != d4);
    }
}

/// The group `g` is that of core `id`, drawn at `(row, column)`.
#[verifier::opaque]
pub open spec fn group_placed(g: ProcessingGroup, row: int, column: int, id: u8, top_left: TopLeft) -> bool {
    &&& g.coordinates.0 as int == row && g.coordinates.1 as int == column
    &&& g.id == id
    &&& (g.core.move_coordinates.0 as int, g.core.move_coordinates.1 as int) == core_move(row, column, top_left)
    &&& (g.router.move_coordinates.0 as int, g.router.move_coordinates.1 as int) == router_move(row, column, top_left)
    &&& g.core.id@ == "c"@ + nat_str(id as nat)
    &&& g.router.id@ == "r"@ + nat_str(id as nat)
    &&& g.core.d@ == crate::processing_group::path_d(g.core.move_coordinates.0 as int, g.core.move_coordinates.1 as int,
        crate::processing_group::PROCESSOR_PATH@)
    &&& g.router.d@ == crate::processing_group::path_d(g.router.move_coordinates.0 as int, g.router.move_coordinates.1 as int,
        crate::processing_group::ROUTER_PATH@)
    &&& crate::processing_group::default_attributes_spec(g.core.attributes)
    &&& crate::processing_group::default_attributes_spec(g.router.attributes)
}

/// The top left corner lies within `2^20` of the origin.
pub open spec fn top_left_near(top_left: TopLeft) -> bool {
    -0x10_0000 <= top_left.x <= 0x10_0000 && -0x10_0000 <= top_left.y <= 0x10_0000
}

/// The rectangle of an edge router lies within `2^28` of the origin.
pub open spec fn sink_source_near(s: SinkSource) -> bool {
    -0x1000_0000 <= s.rect.x <= 0x1000_0000 && -0x1000_0000 <= s.rect.y <= 0x1000_0000
}

/// The rectangle of a task bubble lies within `2^28` of the origin.
pub open spec fn bubble_near(t: crate::tasks_group::Task) -> bool {
    -0x1000_0000 <= t.rect.x <= 0x1000_0000
}

/// The sides of the router of `core` that have an edge router, in drawing order.
pub open spec fn core_edge_sides(core: CoreDescription) -> Seq<crate::system::SinkSourceDirection> {
    match core.matrix_edge {
        Some(p) => crate::sinks_sources_layer::edge_router_sides(p),
        None => Seq::empty(),
    }
}

/// The border entries of `core`, as a sequence.
pub open spec fn core_borders(core: CoreDescription) -> Option<Seq<(crate::system::SinkSourceDirection, crate::system::BorderEntry)>> {
    match core.borders {
        Some(b) => Some(b@),
        None => None,
    }
}

/// The clip paths `cp` and `rp` are those of core `id` drawn as group `g`.
pub open spec fn clip_paths_of(cp: crate::clip_path::ClipPath, rp: crate::clip_path::ClipPath, g: ProcessingGroup, id: u8) -> bool {
    &&& cp.id@ == crate::clip_path::core_clip_id(id)
    &&& cp.polygon.points@ == crate::clip_path::core_clip_points(g.core.move_coordinates.0, g.core.move_coordinates.1)
    &&& rp.id@ == crate::clip_path::router_clip_id(id)
    &&& rp.polygon.points@ == crate::clip_path::router_clip_points(g.router.move_coordinates.0, g.router.move_coordinates.1)
}

/// When `core` brings a task that `before` has no bubble for, `after` holds its bubble,
/// drawn under the core at `(r, c)`.
pub open spec fn new_bubble_placed(
    core: CoreDescription, before: Map<u16, crate::tasks_group::Task>, after: Map<u16, crate::tasks_group::Task>, r: int, c: int,
    tasks: Seq<TaskDescription>, top_left: TopLeft, pbc: ProcessedBaseConfiguration,
) -> bool {
    match core.allocated_task {
        Some(t) => !before.contains_key(t) ==> crate::tasks_group::base_bubble(after[t], r, c, task_of(tasks, t).unwrap(), top_left, pbc),
        None => true,
    }
}

/// What drawing the cores keeps valid in `svg`.
pub open spec fn drawing(svg: SVG) -> bool {
    &&& svg.root.connections_group.wf()
    &&& svg.root.connections_group.coords_ok()
    &&& svg.processed_base_configuration.wf()
    &&& svg.processed_base_configuration.consistent()
    &&& top_left_near(svg.top_left)
    &&& forall|k: int| 0 <= k < svg.root.sinks_sources_group.g@.len() ==> sink_source_near(#[trigger] svg.root.sinks_sources_group.g@[k])
    &&& forall|t: u16| #[trigger] svg.root.tasks_group.tasks@.contains_key(t) ==> bubble_near(svg.root.tasks_group.tasks@[t])
}

impl SVG {
    /// Draws core `core` at `(r, c)`: its processing group (and clip paths), the bubble of
    /// its task, its channels and its edge routers. Returns the left side of its task's
    /// bubble, when it has a task; fails when that bubble cannot be drawn.
    fn add_core(&mut self, core: &CoreDescription, r: CoordinateT, c: CoordinateT, tasks: &Vec<TaskDescription>) -> (res: Result<Option<CoordinateT>, SVGError>)
        requires
            drawing(*old(self)),
            0 <= r <= 255,
            0 <= c <= 126,
            core.wf(),
            borders_wf(match core.borders { Some(b) => Some(b@), None => None }),
            old(self).root.connections_group.connections.path@.len() + old(self).root.connections_group.edge_connections.sink@.len() <= 0x1000_0000,
        ensures
            match res {
                Ok(x) => {
                    &&& !(match core.allocated_task {
                        Some(t) => match task_of(tasks@, t) { None => true, Some(d) => !task_widths_known(d, old(self).processed_base_configuration) },
                        None => false,
                    })
                    &&& drawing(*final(self))
                    &&& final(self).root.processing_group.g@.len() == old(self).root.processing_group.g@.len() + 1
                    &&& final(self).root.processing_group.g@.drop_last() == old(self).root.processing_group.g@
                    &&& group_placed(final(self).root.processing_group.g@.last(), r as int, c as int, core.id, old(self).top_left)
                    &&& layer_fits(final(self).root.processing_group.g@.last(), old(self).rows)
                    &&& final(self).root.connections_group.connections.path@.len() + final(self).root.connections_group.edge_connections.sink@.len()
                        == old(self).root.connections_group.connections.path@.len() + old(self).root.connections_group.edge_connections.sink@.len()
                            + core.channels@.len()
                    &&& (x is Some <==> core.allocated_task is Some)
                    &&& x matches Some(v) ==> -0x1000_0000 <= v <= 0x1000_0000
                    &&& forall|t: u16| #[trigger] old(self).root.tasks_group.tasks@.contains_key(t) ==>
                        final(self).root.tasks_group.tasks@.contains_key(t) && final(self).root.tasks_group.tasks@[t] == old(self).root.tasks_group.tasks@[t]
                    &&& core.allocated_task matches Some(t) ==> final(self).root.tasks_group.tasks@.contains_key(t)
                        && x == Some(final(self).root.tasks_group.tasks@[t].rect.x)
                    &&& final(self).rows == old(self).rows
                    &&& final(self).top_left == old(self).top_left
                    &&& final(self).processed_base_configuration == old(self).processed_base_configuration
                    &&& final(self).view_box == old(self).view_box
                    &&& final(self).base_view_box == old(self).base_view_box
                    &&& final(self).borders_view_box == old(self).borders_view_box
                    &&& final(self).width == old(self).width
                    &&& final(self).height == old(self).height
                    &&& final(self).style == old(self).style
                    &&& final(self).root.tasks_group.variant == old(self).root.tasks_group.variant
                    &&& final(self).font_base64 == old(self).font_base64
                    &&& final(self).root.information_group == old(self).root.information_group
                    &&& final(self).defs.clip_paths@.len() == old(self).defs.clip_paths@.len() + 2
                    &&& final(self).defs.clip_paths@.subrange(0, old(self).defs.clip_paths@.len() as int) == old(self).defs.clip_paths@
                    &&& clip_paths_of(final(self).defs.clip_paths@[old(self).defs.clip_paths@.len() as int],
                        final(self).defs.clip_paths@[old(self).defs.clip_paths@.len() + 1int],
                        final(self).root.processing_group.g@.last(), core.id)
                    &&& ConnectionsParentGroup::extends(final(self).root.connections_group, old(self).root.connections_group)
                    &&& forall|j: int| 0 <= j < core.channels@.len() ==> final(self).root.connections_group.channel_recorded(
                        core.id, core.matrix_edge, #[trigger] core.channels@[j].direction, r as int, c as int, old(self).top_left)
                    &&& forall|other: u8, t: crate::connections_group::DirectionType| other != core.id ==>
                        #[trigger] final(self).root.connections_group.lookup(other, t) == old(self).root.connections_group.lookup(other, t)
                    &&& final(self).root.sinks_sources_group.g@.len() == old(self).root.sinks_sources_group.g@.len() + core_edge_sides(*core).len()
                    &&& final(self).root.sinks_sources_group.g@.subrange(0, old(self).root.sinks_sources_group.g@.len() as int)
                        == old(self).root.sinks_sources_group.g@
                    &&& forall|k: int| 0 <= k < core_edge_sides(*core).len() ==> sink_source_matches(
                        #[trigger] final(self).root.sinks_sources_group.g@[old(self).root.sinks_sources_group.g@.len() + k],
                        router_move(r as int, c as int, old(self).top_left).0 as i32, router_move(r as int, c as int, old(self).top_left).1 as i32,
                        core_edge_sides(*core)[k], crate::sinks_sources_layer::variant_on(core_borders(*core), core_edge_sides(*core)[k]),
                        old(self).processed_base_configuration)
                    &&& final(self).root.tasks_group.tasks@.dom() == (match core.allocated_task {
                        Some(t) => old(self).root.tasks_group.tasks@.dom().insert(t),
                        None => old(self).root.tasks_group.tasks@.dom(),
                    })
                    &&& new_bubble_placed(*core, old(self).root.tasks_group.tasks@, final(self).root.tasks_group.tasks@, r as int, c as int,
                        tasks@, old(self).top_left, old(self).processed_base_configuration)
                },
                Err(e) => match core.allocated_task {
                    Some(t) => match task_of(tasks@, t) {
                        None => e.error_kind matches SVGErrorKind::ManycoreMismatch(msg) && msg@ == "Core "@ + nat_str(core.id as nat)
                            + " has Task "@ + nat_str(t as nat) + " allocated but the task is not in the TaskGraph."@,
                        Some(d) => !task_widths_known(d, old(self).processed_base_configuration) && is_length_error(e),
                    },
                    None => false,
                },
            },
    {
        let ghost tl = self.top_left;
        proof {
            assert(block_fits(r as int, c as int, tl));
        }
        let processing_group = ProcessingGroup::new(&r, &c, &core.id, &self.top_left, &mut self.defs.clip_paths)?;
        let mut task_x: Option<CoordinateT> = None;
        if let Some(task_id) = core.allocated_task {
            let allocated_task = match find_task(tasks, task_id) {
                Some(t) => t,
                None => {
                    return Err(missing_task(&core.id, &task_id));
                },
            };
            proof {
                if task_widths_known(*allocated_task, self.processed_base_configuration) {
                    let w = task_width_spec(*allocated_task, self.processed_base_configuration);
                    let cw = cost_width_spec(*allocated_task, self.processed_base_configuration);
                    assert(0 <= w <= 0x0100_0000);
                    assert(0 <= cw <= 0x0100_0000);
                    assert(bubble_fits(r as int, c as int, w, cw, tl, self.processed_base_configuration));
                }
            }
            let ghost tasks_before = self.root.tasks_group.tasks@;
            proof {
                lemma_task_of_id(tasks@, task_id);
            }
            let task = self.root.tasks_group.add_task(&r, &c, allocated_task, &self.top_left, &self.processed_base_configuration)?;
            task_x = Some(task.rect.x);
            proof {
                if tasks_before.contains_key(task_id) {
                    assert(bubble_near(tasks_before[task_id]));
                } else {
                    let w = task_width_spec(*allocated_task, self.processed_base_configuration);
                    assert(0 <= w <= 0x0100_0000);
                    assert(bubble_near(self.root.tasks_group.tasks@[task_id]));
                }
                assert forall|t: u16| #[trigger] self.root.tasks_group.tasks@.contains_key(t) implies bubble_near(self.root.tasks_group.tasks@[t]) by {
                    if t != task_id {
                        assert(tasks_before.contains_key(t));
                    }
                }
            }
        }
        proof {
            lemma_four_channels(*core);
            assert(router_near(r as int, c as int, tl));
            assert(ConnectionsParentGroup::channels_fit(*core, r as int, c as int, tl));
        }
        self.root.connections_group.add_connections(core, &r, &c, &self.top_left);
        if let Some(edge_position) = core.matrix_edge {
            let (router_x, router_y) = processing_group.router.move_coordinates;
            proof {
                assert(edge_routers_fit(edge_position, router_x, router_y));
            }
            let ghost sinks_before = self.root.sinks_sources_group.g@;
            self.root.sinks_sources_group.insert(&edge_position, &router_x, &router_y, core.borders.as_ref(), &self.processed_base_configuration);
            proof {
                let n = sinks_before.len();
                let sides = crate::sinks_sources_layer::edge_router_sides(edge_position);
                let borders = match &core.borders { Some(b) => Some(b@), None => None };
                assert forall|k: int| 0 <= k < self.root.sinks_sources_group.g@.len() implies sink_source_near(#[trigger] self.root.sinks_sources_group.g@[k]) by {
                    if k < n {
                        assert(self.root.sinks_sources_group.g@[k] == self.root.sinks_sources_group.g@.subrange(0, n as int)[k]);
                        assert(sink_source_near(sinks_before[k]));
                    } else {
                        let side = sides[k - n];
                        let variant = crate::sinks_sources_layer::variant_on(borders, side);
                        let width = crate::sinks_sources_layer::variant_width(variant, self.processed_base_configuration.task_text_widths@);
                        assert(sink_source_matches(self.root.sinks_sources_group.g@[n + (k - n)], router_x, router_y, side, variant, self.processed_base_configuration));
                        match crate::sinks_sources_layer::variant_text(variant) {
                            Some(t) => {
                                match crate::information_layer::text_information::text_width(self.processed_base_configuration.task_text_widths@, t) {
                                    Some(w) => {
                                        let idx = crate::information_layer::text_information::byte_len(t) as int;
                                        assert(0 <= self.processed_base_configuration.task_text_widths@[idx] <= 0x0100_0000);
                                    },
                                    None => {},
                                }
                            },
                            None => {},
                        }
                        assert(0 <= width <= 0x0100_0000);
                    }
                }
            }
        }
        self.root.processing_group.g.push(processing_group);
        proof {
            reveal(group_placed);
            assert(self.root.processing_group.g@.drop_last() =~= old(self).root.processing_group.g@);
            assert(self.root.connections_group.wf());
            assert(self.root.connections_group.coords_ok());
            assert(forall|k: int| 0 <= k < self.root.sinks_sources_group.g@.len() ==> sink_source_near(#[trigger] self.root.sinks_sources_group.g@[k]));
            assert(layer_fits(self.root.processing_group.g@.last(), old(self).rows));
            assert(task_x matches Some(v) ==> -0x1000_0000 <= v <= 0x1000_0000);
        }
        Ok(task_x)
    }
}

/// The offsets that the rectangle of edge router `s` covers.
pub open spec fn sink_source_offsets(s: SinkSource) -> Offsets {
    Offsets {
        left: s.rect.x,
        top: s.rect.y,
        right: clamp_i32(s.rect.x + s.rect.width) as i32,
        bottom: clamp_i32(s.rect.y + crate::geometry::SINKS_SOURCES_SHORT_SIDE_LENGTH) as i32,
    }
}

/// `o` grown to cover every edge router of `gs`.
pub open spec fn edge_offsets(o: Offsets, gs: Seq<SinkSource>) -> Offsets
    decreases gs.len(),
{
    if gs.len() == 0 {
        o
    } else {
        merged(edge_offsets(o, gs.drop_last()), sink_source_offsets(gs.last()))
    }
}

/// The leftmost side of the bubbles of the tasks in the first column, among the first
/// `n` cores (drawn in `columns` columns), whose bubbles `tasks` holds.
pub open spec fn min_task_start(cores: Seq<CoreDescription>, n: int, columns: int, tasks: Map<u16, crate::tasks_group::Task>) -> Option<i32>
    decreases n,
{
    if n <= 0 {
        None
    } else {
        let prev = min_task_start(cores, n - 1, columns, tasks);
        match cores[n - 1].allocated_task {
            Some(t) => if (n - 1) % columns == 0 {
                let x = tasks[t].rect.x;
                match prev {
                    Some(m) => Some(if m <= x { m } else { x }),
                    None => Some(x),
                }
            } else {
                prev
            },
            None => prev,
        }
    }
}

/// The bubble of the task of `core`, if it has one, is in both maps, the same.
pub open spec fn task_kept(core: CoreDescription, a: Map<u16, crate::tasks_group::Task>, b: Map<u16, crate::tasks_group::Task>) -> bool {
    match core.allocated_task {
        Some(t) => a.contains_key(t) && b.contains_key(t) && a[t] == b[t],
        None => true,
    }
}

/// The bubble of the task of `core`, if it has one, is in `a`.
pub open spec fn task_present(core: CoreDescription, a: Map<u16, crate::tasks_group::Task>) -> bool {
    match core.allocated_task {
        Some(t) => a.contains_key(t),
        None => true,
    }
}

proof fn lemma_min_task_start_stable(cores: Seq<CoreDescription>, n: int, columns: int, a: Map<u16, crate::tasks_group::Task>, b: Map<u16, crate::tasks_group::Task>)
    requires
        n <= cores.len(),
        forall|j: int| 0 <= j < n ==> task_kept(#[trigger] cores[j], a, b),
    ensures
        min_task_start(cores, n, columns, a) == min_task_start(cores, n, columns, b),
    decreases n,
{
    if n > 0 {
        lemma_min_task_start_stable(cores, n - 1, columns, a, b);
        assert(task_kept(cores[n - 1], a, b));
    }
}

/// No core after core `i`, among the first `n`, has its id.
pub open spec fn last_with_id(cores: Seq<CoreDescription>, i: int, n: int) -> bool {
    forall|k: int| i < k < n ==> (#[trigger] cores[k]).id != cores[i].id
}

/// No core before core `i` has its task.
pub open spec fn first_with_task(cores: Seq<CoreDescription>, i: int) -> bool {
    forall|k: int| 0 <= k < i ==> (#[trigger] cores[k]).allocated_task != cores[i].allocated_task
}

/// The tasks allocated to the first `n` cores.
pub open spec fn allocated_tasks(cores: Seq<CoreDescription>, n: int) -> Set<u16>
    decreases n,
{
    if n <= 0 {
        Set::empty()
    } else {
        match cores[n - 1].allocated_task {
            Some(t) => allocated_tasks(cores, n - 1).insert(t),
            None => allocated_tasks(cores, n - 1),
        }
    }
}

/// The edge routers of the first `n` cores, drawn in `columns` columns from `top_left`:
/// router start, side and variant of each, in drawing order.
pub open spec fn edge_router_specs(cores: Seq<CoreDescription>, n: int, columns: int, top_left: TopLeft)
    -> Seq<(i32, i32, crate::system::SinkSourceDirection, crate::sinks_sources_layer::SinkSourceVariant)>
    decreases n,
{
    if n <= 0 {
        Seq::empty()
    } else {
        let core = cores[n - 1];
        let (rx, ry) = router_move((n - 1) / columns, (n - 1) % columns, top_left);
        edge_router_specs(cores, n - 1, columns, top_left) + core_edge_sides(core).map_values(
            |s: crate::system::SinkSourceDirection| (rx as i32, ry as i32, s, crate::sinks_sources_layer::variant_on(core_borders(core), s)))
    }
}

proof fn lemma_allocated_tasks(cores: Seq<CoreDescription>, n: int, t: u16)
    requires
        0 <= n <= cores.len(),
    ensures
        allocated_tasks(cores, n).contains(t) <==> exists|k: int| 0 <= k < n && (#[trigger] cores[k]).allocated_task == Some(t),
    decreases n,
{
    if n > 0 {
        lemma_allocated_tasks(cores, n - 1, t);
        if allocated_tasks(cores, n).contains(t) && cores[n - 1].allocated_task != Some(t) {
            let k = choose|k: int| 0 <= k < n - 1 && (#[trigger] cores[k]).allocated_task == Some(t);
            assert(cores[k].allocated_task == Some(t));
        }
        if exists|k: int| 0 <= k < n && (#[trigger] cores[k]).allocated_task == Some(t) {
            let k = choose|k: int| 0 <= k < n && (#[trigger] cores[k]).allocated_task == Some(t);
            if k < n - 1 {
                assert(allocated_tasks(cores, n - 1).contains(t));
            }
        }
    }
}

proof fn lemma_recorded_kept(
    new: ConnectionsParentGroup, old: ConnectionsParentGroup, id: u8, edge: Option<crate::system::EdgePosition>,
    d: crate::system::Directions, r: int, c: int, top_left: TopLeft,
)
    requires
        old.wf(),
        ConnectionsParentGroup::extends(new, old),
        forall|t: crate::connections_group::DirectionType| #[trigger] new.lookup(id, t) == old.lookup(id, t),
        old.channel_recorded(id, edge, d, r, c, top_left),
    ensures
        new.channel_recorded(id, edge, d, r, c, top_left),
{
    let (rx, ry) = router_move(r, c, top_left);
    if crate::system::leaves_matrix(edge, d) {
        let k = choose|k: usize| {
            &&& #[trigger] old.lookup(id, crate::connections_group::DirectionType::Out(d)) == Some(crate::connections_group::ConnectionType::EdgeConnection(k))
            &&& old.lookup(id, crate::connections_group::DirectionType::Source(d)) == Some(crate::connections_group::ConnectionType::EdgeConnection(k))
            &&& k < old.edge_connections.sink@.len()
            &&& crate::connections_group::connection_matches(old.edge_connections.source@[k as int], crate::connections_group::edge_paths_spec(d, rx, ry).0)
            &&& crate::connections_group::connection_matches(old.edge_connections.sink@[k as int], crate::connections_group::edge_paths_spec(d, rx, ry).1)
        };
        assert(new.edge_connections.sink@[k as int] == new.edge_connections.sink@.subrange(0, old.edge_connections.sink@.len() as int)[k as int]);
        assert(new.edge_connections.source@[k as int] == new.edge_connections.source@.subrange(0, old.edge_connections.source@.len() as int)[k as int]);
        assert(new.lookup(id, crate::connections_group::DirectionType::Out(d)) == Some(crate::connections_group::ConnectionType::EdgeConnection(k)));
        assert(new.lookup(id, crate::connections_group::DirectionType::Source(d)) == old.lookup(id, crate::connections_group::DirectionType::Source(d)));
    } else {
        let k = choose|k: usize| {
            &&& #[trigger] old.lookup(id, crate::connections_group::DirectionType::Out(d)) == Some(crate::connections_group::ConnectionType::Connection(k))
            &&& k < old.connections.path@.len()
            &&& crate::connections_group::connection_matches(old.connections.path@[k as int], crate::connections_group::inner_path_spec(d, rx, ry))
        };
        assert(new.connections.path@[k as int] == new.connections.path@.subrange(0, old.connections.path@.len() as int)[k as int]);
        assert(new.lookup(id, crate::connections_group::DirectionType::Out(d)) == Some(crate::connections_group::ConnectionType::Connection(k)));
    }
}

/// Some core of the bottom row has a task.
pub open spec fn has_bottom_task(m: ManycoreDescription) -> bool {
    exists|i: int| 0 <= i < m.cores@.len() && (#[trigger] m.cores@[i]).allocated_task is Some
        && i / (m.columns as int) == m.rows - 1
}

/// How far the drawing extends left of the matrix to hold the bubbles starting at `m`.
pub open spec fn left_extension(m: i32, top_left: TopLeft) -> i32 {
    clamp_i32(clamp_i32(abs_int(m as int) - abs_int(top_left.x as int)) + TASK_RECT_STROKE) as i32
}

fn edge_router_offsets(s: &SinkSource) -> (r: Offsets)
    ensures
        r == sink_source_offsets(*s),
{
    Offsets::new(s.rect.x, s.rect.y, sat_add(s.rect.x, s.rect.width), sat_add(s.rect.y, crate::geometry::SINKS_SOURCES_SHORT_SIDE_LENGTH))
}

impl SVG {
    /// The SVG of `manycore`, drawn with the values derived from the base configuration
    /// and the given font: the matrix, `columns` by `rows` blocks centred on the origin;
    /// each core, in order, at `(i / columns, i % columns)` with its router, clip paths,
    /// task bubble, channels and edge routers. The `viewBox` extends left to the leftmost
    /// bubble of the first column and down by the bubbles' padding when the bottom row has
    /// a task; the `viewBox` with edge routers covers every edge router from the origin.
    /// Fails at the first core whose task bubble cannot be drawn.
    #[verifier::rlimit(60)]
    pub fn try_from_manycore_with_base_config(
        manycore: &ManycoreDescription,
        processed_base_configuration: ProcessedBaseConfiguration,
        font_base64: String,
    ) -> (r: Result<SVG, SVGError>)
        requires
            drawable(*manycore),
            processed_base_configuration.wf(),
            processed_base_configuration.consistent(),
        ensures
            match r {
                Ok(svg) => {
                    let n = manycore.cores@.len();
                    let columns = manycore.columns as int;
                    let top_left = centred_top_left(matrix_width(manycore.columns), matrix_height(manycore.rows));
                    let tasks = svg.root.tasks_group.tasks@;
                    let base = ViewBox { x: top_left.x, y: top_left.y, width: matrix_width(manycore.columns) as i32, height: matrix_height(manycore.rows) as i32 };
                    let left = match min_task_start(manycore.cores@, n as int, columns, tasks) {
                        Some(m) => extended_left_spec(base, left_extension(m, top_left)),
                        None => base,
                    };
                    &&& svg.wf()
                    &&& forall|i: int| 0 <= i < n ==> !core_task_fails(*manycore, i, processed_base_configuration)
                    &&& svg.rows == manycore.rows
                    &&& svg.top_left == top_left
                    &&& svg.processed_base_configuration == processed_base_configuration
                    &&& svg.font_base64 == font_base64
                    &&& svg.root.processing_group.g@.len() == n
                    &&& forall|i: int| 0 <= i < n ==> group_placed(#[trigger] svg.root.processing_group.g@[i], i / columns, i % columns,
                        manycore.cores@[i].id, top_left)
                    &&& svg.base_view_box == (if has_bottom_task(*manycore) {
                        crate::view_box::extended_bottom(left, processed_base_configuration.task_rect.task_rect_bottom_padding)
                    } else {
                        left
                    })
                    &&& svg.view_box == svg.base_view_box
                    &&& svg.width == svg.base_view_box.width
                    &&& svg.height == svg.base_view_box.height
                    &&& svg.borders_view_box == from_offsets_spec(edge_offsets(Offsets { left: 0, top: 0, right: 0, bottom: 0 },
                        svg.root.sinks_sources_group.g@))
                    &&& svg.root.information_group.groups@.len() == 0
                    &&& svg.style.css@ == crate::style::default_style(font_base64@)
                    &&& svg.root.tasks_group.variant.0
                    &&& svg.defs.clip_paths@.len() == 2 * n
                    &&& forall|i: int| 0 <= i < n ==> clip_paths_of(#[trigger] svg.defs.clip_paths@[2 * i], svg.defs.clip_paths@[2 * i + 1],
                        svg.root.processing_group.g@[i], manycore.cores@[i].id)
                    &&& forall|i: int, ch: int| 0 <= i < n && 0 <= ch < manycore.cores@[i].channels@.len() && last_with_id(manycore.cores@, i, n as int)
                        ==> svg.root.connections_group.channel_recorded(manycore.cores@[i].id, manycore.cores@[i].matrix_edge,
                            #[trigger] manycore.cores@[i].channels@[ch].direction, i / columns, i % columns, top_left)
                    &&& tasks.dom() == allocated_tasks(manycore.cores@, n as int)
                    &&& forall|i: int| 0 <= i < n && first_with_task(manycore.cores@, i) ==> new_bubble_placed(#[trigger] manycore.cores@[i],
                        Map::empty(), tasks, i / columns, i % columns, manycore.tasks@, top_left, processed_base_configuration)
                    &&& svg.root.sinks_sources_group.g@.len() == edge_router_specs(manycore.cores@, n as int, columns, top_left).len()
                    &&& forall|k: int| 0 <= k < svg.root.sinks_sources_group.g@.len() ==> {
                        let e = edge_router_specs(manycore.cores@, n as int, columns, top_left)[k];
                        sink_source_matches(#[trigger] svg.root.sinks_sources_group.g@[k], e.0, e.1, e.2, e.3, processed_base_configuration)
                    }
                },
                Err(e) => exists|i: int| 0 <= i < manycore.cores@.len() && core_task_fails(*manycore, i, processed_base_configuration)
                    && (forall|j: int| 0 <= j < i ==> !core_task_fails(*manycore, j, processed_base_configuration))
                    && core_task_error(e, *manycore, i),
            },
    {
        let columns = manycore.columns;
        let rows = manycore.rows;
        let columns_coord = columns as i32;
        let rows_coord = rows as i32;
        let width = columns_coord * BLOCK_LENGTH + (columns_coord - 1) * BLOCK_DISTANCE + 2 * CORE_ROUTER_STROKE_WIDTH;
        let height = rows_coord * BLOCK_LENGTH + (rows_coord - 1) * BLOCK_DISTANCE + 2 * CORE_ROUTER_STROKE_WIDTH;
        let top_left = TopLeft { x: -half(width), y: -half(height) };
        let ghost font = font_base64;
        let mut ret = SVG::new(&manycore.cores.len(), rows, columns, width, height, top_left, processed_base_configuration, font_base64);
        let ghost n = manycore.cores@.len();
        let ghost cols = columns as int;
        let mut r: CoordinateT = 0;
        let mut c: CoordinateT = 0;
        let mut min_start: Option<CoordinateT> = None;
        let mut has_bottom = false;
        let mut i: usize = 0;
        while i < manycore.cores.len()
            invariant
                n == manycore.cores@.len(),
                cols == columns as int,
                columns == manycore.columns,
                rows == manycore.rows,
                drawable(*manycore),
                drawing(ret),
                i <= n,
                n > 0 ==> cols >= 1,
                i as int == r as int * cols + c as int,
                0 <= r,
                0 <= c,
                n > 0 ==> c < cols,
                ret.rows == rows,
                ret.top_left == top_left,
                top_left == centred_top_left(matrix_width(manycore.columns), matrix_height(manycore.rows)),
                ret.processed_base_configuration == processed_base_configuration,
                ret.view_box == (ViewBox { x: top_left.x, y: top_left.y, width, height }),
                ret.base_view_box == ret.view_box,
                ret.borders_view_box == ret.view_box,
                width as int == matrix_width(columns),
                height as int == matrix_height(rows),
                ret.width == width,
                ret.height == height,
                ret.root.information_group.groups@.len() == 0,
                ret.root.tasks_group.variant.0,
                ret.style.css@ == crate::style::default_style(font@),
                ret.font_base64 == font,
                ret.root.processing_group.g@.len() == i,
                forall|j: int| 0 <= j < i ==> group_placed(#[trigger] ret.root.processing_group.g@[j], j / cols, j % cols,
                    manycore.cores@[j].id, top_left),
                forall|j: int| 0 <= j < i ==> layer_fits(#[trigger] ret.root.processing_group.g@[j], rows),
                forall|j: int| 0 <= j < i ==> !core_task_fails(*manycore, j, processed_base_configuration),
                ret.root.connections_group.connections.path@.len() + ret.root.connections_group.edge_connections.sink@.len() <= 4 * i,
                min_start == min_task_start(manycore.cores@, i as int, cols, ret.root.tasks_group.tasks@),
                forall|j: int| 0 <= j < i ==> task_present(#[trigger] manycore.cores@[j], ret.root.tasks_group.tasks@),
                min_start matches Some(m) ==> -0x1000_0000 <= m <= 0x1000_0000,
                has_bottom == exists|j: int| 0 <= j < i && (#[trigger] manycore.cores@[j]).allocated_task is Some && j / cols == rows - 1,
                ret.defs.clip_paths@.len() == 2 * i,
                forall|j: int| 0 <= j < i ==> clip_paths_of(#[trigger] ret.defs.clip_paths@[2 * j], ret.defs.clip_paths@[2 * j + 1],
                    ret.root.processing_group.g@[j], manycore.cores@[j].id),
                forall|j: int, ch: int| 0 <= j < i && 0 <= ch < manycore.cores@[j].channels@.len() && last_with_id(manycore.cores@, j, i as int)
                    ==> ret.root.connections_group.channel_recorded(manycore.cores@[j].id, manycore.cores@[j].matrix_edge,
                        #[trigger] manycore.cores@[j].channels@[ch].direction, j / cols, j % cols, top_left),
                ret.root.tasks_group.tasks@.dom() == allocated_tasks(manycore.cores@, i as int),
                forall|j: int| 0 <= j < i && first_with_task(manycore.cores@, j) ==> new_bubble_placed(#[trigger] manycore.cores@[j],
                    Map::empty(), ret.root.tasks_group.tasks@, j / cols, j % cols, manycore.tasks@, top_left, processed_base_configuration),
                ret.root.sinks_sources_group.g@.len() == edge_router_specs(manycore.cores@, i as int, cols, top_left).len(),
                forall|k: int| 0 <= k < ret.root.sinks_sources_group.g@.len() ==> {
                    let e = edge_router_specs(manycore.cores@, i as int, cols, top_left)[k];
                    sink_source_matches(#[trigger] ret.root.sinks_sources_group.g@[k], e.0, e.1, e.2, e.3, processed_base_configuration)
                },
            decreases n - i,
        {
            let core = &manycore.cores[i];
            proof {
                assert(r < 256) by (nonlinear_arith)
                    requires
                        i as int == r as int * cols + c as int,
                        i < n,
                        n <= 256 * cols,
                        0 <= c,
                        0 <= r,
                        cols >= 1,
                {
                }
                assert(manycore.cores@[i as int].wf());
                vstd::arithmetic::div_mod::lemma_fundamental_div_mod_converse(i as int, cols, r as int, c as int);
            }
            let ghost tasks_before = ret.root.tasks_group.tasks@;
            let ghost groups_before = ret.root.processing_group.g@;
            let ghost clips_before = ret.defs.clip_paths@;
            let ghost cg_before = ret.root.connections_group;
            let ghost sinks_before = ret.root.sinks_sources_group.g@;
            let placed = ret.add_core(core, r, c, &manycore.tasks);
            match placed {
                Err(e) => {
                    proof {
                        assert(core_task_fails(*manycore, i as int, processed_base_configuration));
                        assert(core_task_error(e, *manycore, i as int));
                    }
                    return Err(e);
                },
                Ok(task_x) => {
                    proof {
                        lemma_four_channels(*core);
                        assert forall|j: int| 0 <= j < i + 1 implies task_present(#[trigger] manycore.cores@[j], ret.root.tasks_group.tasks@) by {
                            if j < i {
                                assert(task_present(manycore.cores@[j], tasks_before));
                                if let Some(t) = manycore.cores@[j].allocated_task {
                                    assert(tasks_before.contains_key(t));
                                }
                            }
                        }
                        assert forall|j: int| 0 <= j < i implies task_kept(#[trigger] manycore.cores@[j], tasks_before, ret.root.tasks_group.tasks@) by {
                            assert(task_present(manycore.cores@[j], tasks_before));
                            if let Some(t) = manycore.cores@[j].allocated_task {
                                assert(tasks_before.contains_key(t));
                            }
                        }
                        lemma_min_task_start_stable(manycore.cores@, i as int, cols, tasks_before, ret.root.tasks_group.tasks@);
                    }
                    if let Some(x) = task_x {
                        if c == 0 {
                            min_start = Some(match min_start {
                                Some(m) => min_i32(m, x),
                                None => x,
                            });
                        }
                        if r == rows as i32 - 1 {
                            has_bottom = true;
                        }
                    }
                },
            }
            proof {
                let cores = manycore.cores@;
                assert forall|j: int| 0 <= j < i + 1 implies clip_paths_of(#[trigger] ret.defs.clip_paths@[2 * j], ret.defs.clip_paths@[2 * j + 1],
                    ret.root.processing_group.g@[j], cores[j].id) by {
                    if j < i {
                        assert(ret.defs.clip_paths@[2 * j] == ret.defs.clip_paths@.subrange(0, clips_before.len() as int)[2 * j]);
                        assert(ret.defs.clip_paths@[2 * j + 1] == ret.defs.clip_paths@.subrange(0, clips_before.len() as int)[2 * j + 1]);
                        assert(ret.root.processing_group.g@[j] == groups_before[j]);
                    }
                }
                assert forall|j: int, ch: int| 0 <= j < i + 1 && 0 <= ch < cores[j].channels@.len() && last_with_id(cores, j, i + 1)
                    implies ret.root.connections_group.channel_recorded(cores[j].id, cores[j].matrix_edge,
                        #[trigger] cores[j].channels@[ch].direction, j / cols, j % cols, top_left) by {
                    if j < i {
                        assert(cores[i as int].id != cores[j].id);
                        assert(last_with_id(cores, j, i as int));
                        assert(cg_before.channel_recorded(cores[j].id, cores[j].matrix_edge, cores[j].channels@[ch].direction, j / cols, j % cols, top_left));
                        assert forall|t: crate::connections_group::DirectionType| #[trigger] ret.root.connections_group.lookup(cores[j].id, t)
                            == cg_before.lookup(cores[j].id, t) by {}
                        lemma_recorded_kept(ret.root.connections_group, cg_before, cores[j].id, cores[j].matrix_edge,
                            cores[j].channels@[ch].direction, j / cols, j % cols, top_left);
                    }
                }
                assert(ret.root.tasks_group.tasks@.dom() =~= allocated_tasks(cores, i + 1));
                assert forall|j: int| 0 <= j < i + 1 && first_with_task(cores, j) implies new_bubble_placed(#[trigger] cores[j],
                    Map::empty(), ret.root.tasks_group.tasks@, j / cols, j % cols, manycore.tasks@, top_left, processed_base_configuration) by {
                    if let Some(t) = cores[j].allocated_task {
                        if j < i {
                            assert(tasks_before.contains_key(t)) by {
                                lemma_allocated_tasks(cores, i as int, t);
                            }
                            assert(task_kept(cores[j], tasks_before, ret.root.tasks_group.tasks@));
                        } else {
                            assert(!tasks_before.contains_key(t)) by {
                                lemma_allocated_tasks(cores, i as int, t);
                                if tasks_before.contains_key(t) {
                                    let k = choose|k: int| 0 <= k < i && (#[trigger] cores[k]).allocated_task == Some(t);
                                    assert(cores[k].allocated_task != cores[j].allocated_task);
                                }
                            }
                        }
                    }
                }
                let specs_before = edge_router_specs(cores, i as int, cols, top_left);
                let specs = edge_router_specs(cores, i + 1, cols, top_left);
                assert(specs.len() == specs_before.len() + core_edge_sides(cores[i as int]).len());
                assert forall|k: int| 0 <= k < ret.root.sinks_sources_group.g@.len() implies {
                    let e = specs[k];
                    sink_source_matches(#[trigger] ret.root.sinks_sources_group.g@[k], e.0, e.1, e.2, e.3, processed_base_configuration)
                } by {
                    if k < sinks_before.len() {
                        assert(ret.root.sinks_sources_group.g@[k] == ret.root.sinks_sources_group.g@.subrange(0, sinks_before.len() as int)[k]);
                        assert(specs[k] == specs_before[k]);
                    } else {
                        let m = k - sinks_before.len();
                        assert(ret.root.sinks_sources_group.g@[sinks_before.len() + m] == ret.root.sinks_sources_group.g@[k]);
                    }
                }
                assert forall|j: int| 0 <= j < i + 1 implies group_placed(#[trigger] ret.root.processing_group.g@[j], j / cols, j % cols,
                    manycore.cores@[j].id, top_left) by {
                    if j < i {
                        assert(ret.root.processing_group.g@[j] == groups_before[j]);
                    }
                }
                assert forall|j: int| 0 <= j < i + 1 implies layer_fits(#[trigger] ret.root.processing_group.g@[j], rows) by {
                    if j < i {
                        assert(ret.root.processing_group.g@[j] == groups_before[j]);
                    }
                }
            }
            if c + 1 == columns as i32 {
                proof {
                    assert((i + 1) as int == (r + 1) as int * cols + 0) by (nonlinear_arith)
                        requires
                            i as int == r as int * cols + c as int,
                            c + 1 == cols;
                }
                c = 0;
                r = r + 1;
            } else {
                c = c + 1;
            }
            i = i + 1;
        }
        if let Some(m) = min_start {
            let extension = sat_add(sat_sub(abs_i32(m), abs_i32(ret.top_left.x)), TASK_RECT_STROKE);
            ret.extend_base_view_box_left(extension);
        }
        if has_bottom {
            let padding = ret.processed_base_configuration.task_rect.task_rect_bottom_padding;
            ret.extend_base_view_box_bottom(padding);
        }
        proof {
            assert(forall|j: int| 0 <= j < n ==> #[trigger] manycore.cores@[j].id == manycore.cores@[j].id);
        }
        let mut borders_offsets = Offsets::new(0, 0, 0, 0);
        let mut k: usize = 0;
        while k < ret.root.sinks_sources_group.g.len()
            invariant
                k <= ret.root.sinks_sources_group.g@.len(),
                borders_offsets == edge_offsets(Offsets { left: 0, top: 0, right: 0, bottom: 0 }, ret.root.sinks_sources_group.g@.take(k as int)),
                forall|j: int| 0 <= j < ret.root.sinks_sources_group.g@.len() ==> sink_source_near(#[trigger] ret.root.sinks_sources_group.g@[j]),
                -0x1000_0000 <= borders_offsets.left && -0x1000_0000 <= borders_offsets.top,
            decreases ret.root.sinks_sources_group.g@.len() - k,
        {
            let o = edge_router_offsets(&ret.root.sinks_sources_group.g[k]);
            proof {
                assert(ret.root.sinks_sources_group.g@.take(k + 1).drop_last() =~= ret.root.sinks_sources_group.g@.take(k as int));
                assert(sink_source_near(ret.root.sinks_sources_group.g@[k as int]));
            }
            borders_offsets.update(o);
            k = k + 1;
        }
        proof {
            assert(ret.root.sinks_sources_group.g@.take(ret.root.sinks_sources_group.g@.len() as int) =~= ret.root.sinks_sources_group.g@);
        }
        ret.borders_view_box = ViewBox::from_offsets(&borders_offsets);
        proof {
            assert(has_bottom == has_bottom_task(*manycore));
            assert(ret.wf());
            assert(ret.root.information_group.groups@.len() == 0);
        }
        Ok(ret)
    }
}

/// What extending the left side of `v` by `left` gives.
pub open spec fn extended_left_spec(v: ViewBox, left: i32) -> ViewBox {
    crate::view_box::extended_left(v, left)
}

} // verus!
