//! Fixed helper elements of the SVG: the events rectangle, the exporting aid and
//! the text background filter.

use vstd::prelude::*;
use crate::style::DEFAULT_FILL;

verus! {

/// Id of the text background filter.
pub const TEXT_BACKGROUND_ID: &'static str = "textBackground";

/// A transparent rectangle covering the SVG, which receives pointer events.
#[derive(Debug)]
pub struct EventsRect {
    pub id: &'static str,
    pub width: &'static str,
    pub height: &'static str,
    pub fill: &'static str,
    pub stroke: &'static str,
}

impl Default for EventsRect {
    /// The events rectangle: id `events`, full size, no fill and no stroke.
    fn default() -> (r: Self)
        ensures
            r.id == "events",
            r.width == "100%",
            r.height == "100%",
            r.fill == "none",
            r.stroke == "none",
    {
        EventsRect { id: "events", width: "100%", height: "100%", fill: "none", stroke: "none" }
    }
}

/// A red frame that shows the exported area.
#[derive(Debug)]
pub struct ExportingAid {
    pub width: &'static str,
    pub height: &'static str,
    pub fill: &'static str,
    pub stroke: &'static str,
    pub stroke_width: &'static str,
}

impl Default for ExportingAid {
    /// The exporting frame: full size, no fill, red stroke of width 1.
    fn default() -> (r: Self)
        ensures
            r.width == "100%",
            r.height == "100%",
            r.fill == "none",
            r.stroke == "#ff0000",
            r.stroke_width == "1",
    {
        ExportingAid { width: "100%", height: "100%", fill: "none", stroke: "#ff0000", stroke_width: "1" }
    }
}

/// The `<feComposite>` of the text background filter.
#[derive(Debug)]
pub struct Composite {
    pub input: &'static str,
    pub operator: &'static str,
}

/// The `<feFlood>` of the text background filter.
#[derive(Debug)]
pub struct Flood {
    pub flood_color: &'static str,
}

/// A `<filter>` that paints the default fill behind texts.
#[derive(Debug)]
pub struct TextBackground {
    pub x: u8,
    pub y: u8,
    pub width: u8,
    pub height: u8,
    pub id: &'static str,
    pub flood: Flood,
    pub composite: Composite,
}

impl Default for TextBackground {
    /// The filter: at `(0, 0)`, of size 1 by 1 (relative), flooding with the default fill
    /// and composing the text over it.
    fn default() -> (r: Self)
        ensures
            r.id == TEXT_BACKGROUND_ID,
            r.x == 0 && r.y == 0 && r.width == 1 && r.height == 1,
            r.flood.flood_color == DEFAULT_FILL,
            r.composite.input == "SourceGraphic",
            r.composite.operator == "or",
    {
        TextBackground {
            id: TEXT_BACKGROUND_ID,
            x: 0,
            y: 0,
            width: 1,
            height: 1,
            flood: Flood { flood_color: DEFAULT_FILL },
            composite: Composite { input: "SourceGraphic", operator: "or" },
        }
    }
}

} // verus!
