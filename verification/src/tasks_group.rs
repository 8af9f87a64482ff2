//! Task bubbles: a rounded rectangle under each core with the id of its task, and
//! optionally its cost.

use vstd::prelude::*;
use std::collections::BTreeMap;
use crate::arith::{clamp_i32, max_i32};
use crate::error::{SVGError, SVGErrorKind, generation_error, numbered};
use crate::geometry::{
    CoordinateT, BLOCK_DISTANCE, BLOCK_LENGTH, HALF_CHAR_V_PADDING, ROUTER_OFFSET, SIDE_LENGTH, TASK_RECT_X_OFFSET,
};
use crate::information_layer::text_information::{TextInformation, calculate_length_util, is_text, is_length_error, text_width};
use crate::processing_group::{CORE_ROUTER_STROKE_WIDTH_STR, in_i32};
use crate::render_settings::{ProcessedBaseConfiguration, TaskRectConfiguration};
use crate::sinks_sources_layer::{half, half_toward_zero};
use crate::system::TaskDescription;
use crate::text::{push_nat, push_str, string_of, nat_str};
use crate::view_box::TopLeft;

verus! {

broadcast use vstd::laws_cmp::group_laws_cmp;

/// Fill of task rectangles.
pub const TASK_RECT_FILL: &'static str = "#bfdbfe";

/// The rounded `<rect>` behind a task's text.
#[derive(Debug)]
pub struct TaskRect {
    pub x: CoordinateT,
    pub y: CoordinateT,
    pub width: CoordinateT,
    pub height: CoordinateT,
    pub rx: &'static str,
    pub fill: &'static str,
    pub stroke: &'static str,
    pub stroke_width: &'static str,
}

/// The rectangle centred horizontally on `cx`, `width` wide, placed by `trc` around `cy`, fits.
pub open spec fn task_rect_fits(cx: int, cy: int, width: int, trc: TaskRectConfiguration) -> bool {
    in_i32(cx - half_toward_zero(width)) && in_i32(cy - trc.task_rect_half_height)
}

/// `r` has the position and size of the rectangle centred on `(cx, cy)`, `width` wide,
/// as high as `trc` says.
pub open spec fn task_rect_placed(r: TaskRect, cx: int, cy: int, width: int, trc: TaskRectConfiguration) -> bool {
    &&& r.x as int == cx - half_toward_zero(width)
    &&& r.y as int == cy - trc.task_rect_half_height
    &&& r.width as int == width
    &&& r.height == trc.task_rect_height
}

impl TaskRect {
    /// The rectangle centred on `(centre_x, centre_y)`, `text_width` wide.
    pub fn new(centre_x: CoordinateT, centre_y: CoordinateT, text_width: CoordinateT, task_rect_configuration: &TaskRectConfiguration) -> (r: Self)
        requires
            task_rect_fits(centre_x as int, centre_y as int, text_width as int, *task_rect_configuration),
        ensures
            task_rect_placed(r, centre_x as int, centre_y as int, text_width as int, *task_rect_configuration),
            r.rx == "10",
            r.fill == TASK_RECT_FILL,
            r.stroke == "black",
            r.stroke_width == CORE_ROUTER_STROKE_WIDTH_STR,
    {
        TaskRect {
            x: centre_x - half(text_width),
            y: centre_y - task_rect_configuration.task_rect_half_height,
            width: text_width,
            height: task_rect_configuration.task_rect_height,
            rx: "10",
            fill: TASK_RECT_FILL,
            stroke: "black",
            stroke_width: CORE_ROUTER_STROKE_WIDTH_STR,
        }
    }

    /// Moves and resizes the rectangle, keeping its style.
    pub fn toggle_variant(&mut self, centre_x: CoordinateT, centre_y: CoordinateT, text_width: CoordinateT, task_rect_configuration: &TaskRectConfiguration)
        requires
            task_rect_fits(centre_x as int, centre_y as int, text_width as int, *task_rect_configuration),
        ensures
            task_rect_placed(*final(self), centre_x as int, centre_y as int, text_width as int, *task_rect_configuration),
            final(self).rx == old(self).rx,
            final(self).fill == old(self).fill,
            final(self).stroke == old(self).stroke,
            final(self).stroke_width == old(self).stroke_width,
    {
        self.x = centre_x - half(text_width);
        self.y = centre_y - task_rect_configuration.task_rect_half_height;
        self.width = text_width;
        self.height = task_rect_configuration.task_rect_height;
    }

    /// Left side.
    pub fn x(&self) -> (r: &CoordinateT)
        ensures
            *r == self.x,
    {
        &self.x
    }
}

/// A task bubble: its rectangle, id text and, when shown, cost text.
#[derive(Debug)]
pub struct Task {
    pub rect: TaskRect,
    pub task_text: TextInformation,
    pub cost_text: Option<TextInformation>,
    pub cost_string: String,
    pub task_width: CoordinateT,
    pub cost_width: CoordinateT,
}

/// Centre of the bubble of a task `text_width` wide under the core at `(row, column)`.
pub open spec fn task_centre(row: int, column: int, text_width: int, top_left: TopLeft, trc: TaskRectConfiguration) -> (int, int) {
    (
        column * BLOCK_LENGTH + column * BLOCK_DISTANCE - half_toward_zero(text_width) + TASK_RECT_X_OFFSET + top_left.x,
        trc.task_rect_centre_offset + clamp_i32(row * (BLOCK_LENGTH + BLOCK_DISTANCE)) + ROUTER_OFFSET + SIDE_LENGTH + top_left.y,
    )
}

/// Every intermediate sum of [`task_centre`] fits in an `i32`.
pub open spec fn task_centre_fits(row: int, column: int, text_width: int, top_left: TopLeft, trc: TaskRectConfiguration) -> bool {
    let a = column * BLOCK_LENGTH;
    let b = a + column * BLOCK_DISTANCE;
    let c = b - half_toward_zero(text_width);
    let y0 = trc.task_rect_centre_offset + clamp_i32(row * (BLOCK_LENGTH + BLOCK_DISTANCE));
    &&& in_i32(a) && in_i32(column * BLOCK_DISTANCE) && in_i32(b) && in_i32(c)
    &&& in_i32(c + TASK_RECT_X_OFFSET) && in_i32(c + TASK_RECT_X_OFFSET + top_left.x)
    &&& in_i32(y0) && in_i32(y0 + ROUTER_OFFSET) && in_i32(y0 + ROUTER_OFFSET + SIDE_LENGTH)
    &&& in_i32(y0 + ROUTER_OFFSET + SIDE_LENGTH + top_left.y)
}

/// Multiplication that saturates at the bounds of `i32` (std's `i32::saturating_mul`).
pub fn sat_mul(a: i32, b: i32) -> (r: i32)
    ensures
        r as int == clamp_i32(a * b),
{
    assert(-0x4000_0000_0000_0000 <= (a as int) * (b as int) <= 0x4000_0000_0000_0000) by (nonlinear_arith)
        requires
            -0x8000_0000 <= a <= 0x7fff_ffff,
            -0x8000_0000 <= b <= 0x7fff_ffff;
    let p: i64 = a as i64 * b as i64;
    if p > i32::MAX as i64 {
        i32::MAX
    } else if p < i32::MIN as i64 {
        i32::MIN
    } else {
        p as i32
    }
}

/// `"T<id>"`.
pub open spec fn task_label_spec(id: u16) -> Seq<char> {
    "T"@ + nat_str(id as nat)
}

/// `"[<cost>]"`.
pub open spec fn cost_label_spec(cost: u16) -> Seq<char> {
    "["@ + nat_str(cost as nat) + "]"@
}

/// Every text of the task `t` has a width in the task width table.
pub open spec fn task_widths_known(t: TaskDescription, pbc: ProcessedBaseConfiguration) -> bool {
    text_width(pbc.task_text_widths@, task_label_spec(t.id)) is Some
        && text_width(pbc.task_text_widths@, cost_label_spec(t.computation_cost)) is Some
}

/// Width of the id text of task `t`.
pub open spec fn task_width_spec(t: TaskDescription, pbc: ProcessedBaseConfiguration) -> int {
    text_width(pbc.task_text_widths@, task_label_spec(t.id)).unwrap() as int
}

/// Width of the cost text of task `t`.
pub open spec fn cost_width_spec(t: TaskDescription, pbc: ProcessedBaseConfiguration) -> int {
    text_width(pbc.task_text_widths@, cost_label_spec(t.computation_cost)).unwrap() as int
}

/// `b` is the bubble of `t` under the core at `(row, column)`, showing its id only.
pub open spec fn base_bubble(b: Task, row: int, column: int, t: TaskDescription, top_left: TopLeft, pbc: ProcessedBaseConfiguration) -> bool {
    let w = task_width_spec(t, pbc);
    let (cx, cy) = task_centre(row, column, w, top_left, pbc.task_rect);
    &&& task_rect_placed(b.rect, cx, cy, w, pbc.task_rect)
    &&& is_text(b.task_text, cx, cy, pbc.task_font_size, "middle", "central", "black"@, None, task_label_spec(t.id))
    &&& b.cost_text is None
    &&& b.cost_string@ == cost_label_spec(t.computation_cost)
    &&& b.task_width as int == w
    &&& b.cost_width as int == cost_width_spec(t, pbc)
}

/// The bubble of a task can be placed in both variants without overflow.
pub open spec fn bubble_fits(row: int, column: int, task_width: int, cost_width: int, top_left: TopLeft, pbc: ProcessedBaseConfiguration) -> bool {
    let wide = if task_width >= cost_width { task_width } else { cost_width };
    let (cx, cy) = task_centre(row, column, task_width, top_left, pbc.task_rect);
    let (wx, wy) = task_centre(row, column, wide, top_left, pbc.task_rect);
    &&& task_centre_fits(row, column, task_width, top_left, pbc.task_rect)
    &&& task_rect_fits(cx, cy, task_width, pbc.task_rect)
    &&& task_centre_fits(row, column, wide, top_left, pbc.task_rect)
    &&& task_rect_fits(wx, wy, wide, pbc.task_rect_with_cost)
    &&& in_i32(wy - pbc.task_half_font_size_coord) && in_i32(wy - pbc.task_half_font_size_coord - HALF_CHAR_V_PADDING)
    &&& in_i32(wy + pbc.task_half_font_size_coord) && in_i32(wy + pbc.task_half_font_size_coord + HALF_CHAR_V_PADDING)
}

/// Width of `value` in the table `widths`.
fn measure(widths: &Vec<CoordinateT>, value: &String) -> (r: Result<CoordinateT, SVGError>)
    requires
        widths@.len() == crate::render_settings::TEXT_WIDTH_TABLE_LEN,
    ensures
        match text_width(widths@, value@) {
            Some(w) => r == Ok::<CoordinateT, SVGError>(w),
            None => r matches Err(e) && is_length_error(e),
        },
{
    calculate_length_util(widths, value.as_str())
}

impl Task {
    /// Centre of a bubble `text_width` wide under the core at `(row, column)`.
    pub fn get_centre_coordinates(row: &CoordinateT, column: &CoordinateT, text_width: CoordinateT, top_left: &TopLeft, task_rect_configuration: &TaskRectConfiguration) -> (r: (CoordinateT, CoordinateT))
        requires
            task_centre_fits(*row as int, *column as int, text_width as int, *top_left, *task_rect_configuration),
        ensures
            (r.0 as int, r.1 as int) == task_centre(*row as int, *column as int, text_width as int, *top_left, *task_rect_configuration),
    {
        let cx = *column * BLOCK_LENGTH + *column * BLOCK_DISTANCE - half(text_width) + TASK_RECT_X_OFFSET + top_left.x;
        let cy = task_rect_configuration.task_rect_centre_offset + sat_mul(*row, BLOCK_LENGTH + BLOCK_DISTANCE) + ROUTER_OFFSET + SIDE_LENGTH + top_left.y;
        (cx, cy)
    }

    /// The bubble of `task` under the core at `(row, column)`, showing its id. Fails when
    /// one of its texts is too long to be measured.
    pub fn new(row: &CoordinateT, column: &CoordinateT, task: &TaskDescription, top_left: &TopLeft, processed_base_configuration: &ProcessedBaseConfiguration) -> (r: Result<Self, SVGError>)
        requires
            processed_base_configuration.wf(),
            task_widths_known(*task, *processed_base_configuration) ==> bubble_fits(*row as int, *column as int,
                task_width_spec(*task, *processed_base_configuration), cost_width_spec(*task, *processed_base_configuration),
                *top_left, *processed_base_configuration),
        ensures
            match r {
                Ok(b) => task_widths_known(*task, *processed_base_configuration)
                    && base_bubble(b, *row as int, *column as int, *task, *top_left, *processed_base_configuration),
                Err(e) => !task_widths_known(*task, *processed_base_configuration) && is_length_error(e),
            },
    {
        let mut task_text = string_of("T");
        push_nat(&mut task_text, task.id as u64);
        let mut cost_text = string_of("[");
        push_nat(&mut cost_text, task.computation_cost as u64);
        push_str(&mut cost_text, "]");
        let task_text_width = measure(&processed_base_configuration.task_text_widths, &task_text)?;
        let cost_text_width = measure(&processed_base_configuration.task_text_widths, &cost_text)?;
        let (cx, cy) = Self::get_centre_coordinates(row, column, task_text_width, top_left, &processed_base_configuration.task_rect);
        Ok(Task {
            rect: TaskRect::new(cx, cy, task_text_width, &processed_base_configuration.task_rect),
            task_text: TextInformation::new(cx, cy, processed_base_configuration.task_font_size, "middle", "central", None, None, task_text),
            cost_text: None,
            cost_string: cost_text,
            task_width: task_text_width,
            cost_width: cost_text_width,
        })
    }

    /// Shows the cost under the id: the bubble is as wide as the wider text, and twice as high.
    pub fn make_with_cost(&mut self, coordinates: &(CoordinateT, CoordinateT), processed_base_configuration: &ProcessedBaseConfiguration, top_left: &TopLeft)
        requires
            bubble_fits(coordinates.0 as int, coordinates.1 as int, old(self).task_width as int, old(self).cost_width as int, *top_left, *processed_base_configuration),
        ensures
            ({
                let w = if old(self).task_width >= old(self).cost_width { old(self).task_width } else { old(self).cost_width };
                let (cx, cy) = task_centre(coordinates.0 as int, coordinates.1 as int, w as int, *top_left, processed_base_configuration.task_rect);
                let half_font = processed_base_configuration.task_half_font_size_coord;
                &&& task_rect_placed(final(self).rect, cx, cy, w as int, processed_base_configuration.task_rect_with_cost)
                &&& final(self).task_text == (TextInformation { x: cx as i32, y: (cy - half_font - HALF_CHAR_V_PADDING) as i32, ..old(self).task_text })
                &&& final(self).cost_text matches Some(c) && is_text(c, cx, cy + half_font + HALF_CHAR_V_PADDING,
                    processed_base_configuration.task_font_size, "middle", "central", "black"@, None, old(self).cost_string@)
            }),
            final(self).cost_string == old(self).cost_string,
            final(self).task_width == old(self).task_width,
            final(self).cost_width == old(self).cost_width,
    {
        let text_width = max_i32(self.task_width, self.cost_width);
        let (cx, cy) = Self::get_centre_coordinates(&coordinates.0, &coordinates.1, text_width, top_left, &processed_base_configuration.task_rect);
        self.rect.toggle_variant(cx, cy, text_width, &processed_base_configuration.task_rect_with_cost);
        self.task_text.set_x(cx);
        self.task_text.set_y(cy - processed_base_configuration.task_half_font_size_coord - HALF_CHAR_V_PADDING);
        self.cost_text = Some(TextInformation::new(
            cx,
            cy + processed_base_configuration.task_half_font_size_coord + HALF_CHAR_V_PADDING,
            processed_base_configuration.task_font_size,
            "middle",
            "central",
            None,
            None,
            self.cost_string.clone(),
        ));
    }

    /// Shows the id only, centred in a bubble as wide as the id.
    pub fn make_base(&mut self, coordinates: &(CoordinateT, CoordinateT), processed_base_configuration: &ProcessedBaseConfiguration, top_left: &TopLeft)
        requires
            bubble_fits(coordinates.0 as int, coordinates.1 as int, old(self).task_width as int, old(self).cost_width as int, *top_left, *processed_base_configuration),
        ensures
            ({
                let (cx, cy) = task_centre(coordinates.0 as int, coordinates.1 as int, old(self).task_width as int, *top_left, processed_base_configuration.task_rect);
                &&& task_rect_placed(final(self).rect, cx, cy, old(self).task_width as int, processed_base_configuration.task_rect)
                &&& final(self).task_text == (TextInformation { x: cx as i32, y: cy as i32, ..old(self).task_text })
                &&& final(self).cost_text is None
            }),
            final(self).cost_string == old(self).cost_string,
            final(self).task_width == old(self).task_width,
            final(self).cost_width == old(self).cost_width,
    {
        let (cx, cy) = Self::get_centre_coordinates(&coordinates.0, &coordinates.1, self.task_width, top_left, &processed_base_configuration.task_rect);
        self.rect.toggle_variant(cx, cy, self.task_width, &processed_base_configuration.task_rect);
        self.task_text.set_x(cx);
        self.task_text.set_y(cy);
        self.cost_text = None;
    }

    /// The rectangle.
    pub fn rect(&self) -> (r: &TaskRect)
        ensures
            *r == self.rect,
    {
        &self.rect
    }
}

/// Which variant every task shows: `true` for the id only, `false` with cost.
#[derive(Debug, Clone, Copy)]
pub struct BaseVariant(pub bool);

/// The bubbles of every allocated task, by task id.
#[derive(Debug)]
pub struct TasksGroup {
    pub tasks: BTreeMap<u16, Task>,
    pub variant: BaseVariant,
}

/// The message of a missing task.
pub open spec fn missing_task_in_group(task_id: u16) -> Seq<char> {
    numbered("Could not find Task "@, task_id as nat, " in TasksGroup."@)
}

impl TasksGroup {
    /// No task yet, in the base variant.
    pub fn new() -> (r: Self)
        ensures
            r.tasks@ == Map::<u16, Task>::empty(),
            r.variant.0,
    {
        TasksGroup { tasks: BTreeMap::new(), variant: BaseVariant(true) }
    }

    /// Adds the bubble of `task` under the core at `(row, column)`, unless a bubble of that
    /// task is there already, and returns the bubble now stored for it.
    pub fn add_task(&mut self, row: &CoordinateT, column: &CoordinateT, task: &TaskDescription, top_left: &TopLeft, processed_base_configuration: &ProcessedBaseConfiguration) -> (r: Result<&Task, SVGError>)
        requires
            processed_base_configuration.wf(),
            task_widths_known(*task, *processed_base_configuration) ==> bubble_fits(*row as int, *column as int,
                task_width_spec(*task, *processed_base_configuration), cost_width_spec(*task, *processed_base_configuration),
                *top_left, *processed_base_configuration),
        ensures
            final(self).variant == old(self).variant,
            match r {
                Ok(b) => {
                    &&& task_widths_known(*task, *processed_base_configuration)
                    &&& final(self).tasks@ == (if old(self).tasks@.contains_key(task.id) { old(self).tasks@ } else {
                        old(self).tasks@.insert(task.id, final(self).tasks@[task.id]) })
                    &&& !old(self).tasks@.contains_key(task.id) ==> base_bubble(final(self).tasks@[task.id], *row as int, *column as int, *task, *top_left, *processed_base_configuration)
                    &&& *b == final(self).tasks@[task.id]
                },
                Err(e) => !task_widths_known(*task, *processed_base_configuration) && is_length_error(e)
                    && final(self).tasks@ == old(self).tasks@,
            },
    {
        let task_g = Task::new(row, column, task, top_left, processed_base_configuration)?;
        if !self.tasks.contains_key(&task.id) {
            let _ = self.tasks.insert(task.id, task_g);
        }
        match self.tasks.get(&task.id) {
            Some(t) => Ok(t),
            None => {
                proof {
                    assert(false);
                }
                Err(generation_error(String::new()))
            },
        }
    }

    /// Whether every task shows its id only.
    pub fn is_base(&self) -> (r: bool)
        ensures
            r == self.variant.0,
    {
        self.variant.0
    }

    /// Switches between showing ids only and ids with costs.
    pub fn toggle_variant(&mut self)
        ensures
            final(self).variant.0 == !old(self).variant.0,
            final(self).tasks == old(self).tasks,
    {
        self.variant.0 = !self.variant.0;
    }

    /// Switches the bubble of `task_id`, under the core at `coordinates`, to the other
    /// variant than the group's: with its cost while the group shows ids only, without
    /// otherwise. Fails when the task has no bubble.
    pub fn toggle_task(&mut self, task_id: &u16, coordinates: &(CoordinateT, CoordinateT), processed_base_configuration: &ProcessedBaseConfiguration, top_left: &TopLeft) -> (r: Result<&Task, SVGError>)
        requires
            old(self).tasks@.contains_key(*task_id) ==> bubble_fits(coordinates.0 as int, coordinates.1 as int,
                old(self).tasks@[*task_id].task_width as int, old(self).tasks@[*task_id].cost_width as int, *top_left, *processed_base_configuration),
        ensures
            final(self).variant == old(self).variant,
            match r {
                Ok(b) => {
                    let before = old(self).tasks@[*task_id];
                    let after = final(self).tasks@[*task_id];
                    &&& old(self).tasks@.contains_key(*task_id)
                    &&& final(self).tasks@ == old(self).tasks@.insert(*task_id, after)
                    &&& *b == after
                    &&& after.cost_string == before.cost_string
                    &&& after.task_width == before.task_width
                    &&& after.cost_width == before.cost_width
                    &&& (old(self).variant.0 <==> after.cost_text is Some)
                    &&& if old(self).variant.0 {
                        let w = if before.task_width >= before.cost_width { before.task_width } else { before.cost_width };
                        let (cx, cy) = task_centre(coordinates.0 as int, coordinates.1 as int, w as int, *top_left, processed_base_configuration.task_rect);
                        task_rect_placed(after.rect, cx, cy, w as int, processed_base_configuration.task_rect_with_cost)
                    } else {
                        let (cx, cy) = task_centre(coordinates.0 as int, coordinates.1 as int, before.task_width as int, *top_left, processed_base_configuration.task_rect);
                        &&& task_rect_placed(after.rect, cx, cy, before.task_width as int, processed_base_configuration.task_rect)
                        &&& after.task_text.x as int == cx && after.task_text.y as int == cy
                    }
                },
                Err(e) => {
                    &&& !old(self).tasks@.contains_key(*task_id)
                    &&& final(self).tasks@ == old(self).tasks@
                    &&& e.error_kind matches SVGErrorKind::GenerationError(m) && m@ == missing_task_in_group(*task_id)
                },
            },
    {
        let is_base = self.is_base();
        match self.tasks.remove(task_id) {
            Some(mut task) => {
                if is_base {
                    task.make_with_cost(coordinates, processed_base_configuration, top_left);
                } else {
                    task.make_base(coordinates, processed_base_configuration, top_left);
                }
                let _ = self.tasks.insert(*task_id, task);
                proof {
                    assert(self.tasks@ =~= old(self).tasks@.insert(*task_id, self.tasks@[*task_id]));
                }
                match self.tasks.get(task_id) {
                    Some(t) => Ok(t),
                    None => {
                        proof {
                            assert(false);
                        }
                        Err(generation_error(String::new()))
                    },
                }
            },
            None => {
                let mut m = string_of("Could not find Task ");
                push_nat(&mut m, *task_id as u64);
                push_str(&mut m, " in TasksGroup.");
                proof {
                    assert(m@ =~= missing_task_in_group(*task_id));
                }
                Err(generation_error(m))
            },
        }
    }
}

/// The error raised when a core's task is missing from the task graph.
pub fn missing_task(core_id: &u8, task_id: &u16) -> (r: SVGError)
    ensures
        r.error_kind matches SVGErrorKind::ManycoreMismatch(m) && m@ == "Core "@ + nat_str(*core_id as nat) + " has Task "@
            + nat_str(*task_id as nat) + " allocated but the task is not in the TaskGraph."@,
{
    let mut m = string_of("Core ");
    push_nat(&mut m, *core_id as u64);
    push_str(&mut m, " has Task ");
    push_nat(&mut m, *task_id as u64);
    push_str(&mut m, " allocated but the task is not in the TaskGraph.");
    SVGError::new(SVGErrorKind::ManycoreMismatch(m))
}

} // verus!
