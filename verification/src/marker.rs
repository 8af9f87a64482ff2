//! The arrow head `<marker>` at the end of every channel.

use vstd::prelude::*;
use crate::processing_group::{CommonAttributes, no_class_attributes_spec};

verus! {

/// Path of the arrow head.
pub const MARKER_PATH: &'static str = "M0,0 M0,0 V8 L8,4 Z";
/// Reference to the arrow head, as used in `marker-end` attributes.
pub const MARKER_REFERENCE: &'static str = "url(#arrowHead)";

/// The `<path>` inside the marker.
#[derive(Debug)]
pub struct MarkerPath {
    pub d: &'static str,
    pub fill: &'static str,
    pub attributes: CommonAttributes,
}

/// The arrow head `<marker>`.
#[derive(Debug)]
pub struct Marker {
    pub id: &'static str,
    pub orient: &'static str,
    pub marker_width: &'static str,
    pub marker_height: &'static str,
    pub ref_y: &'static str,
    pub path: MarkerPath,
}

impl Default for Marker {
    /// The arrow head: 8 units wide and high, referenced from its vertical middle.
    fn default() -> (r: Self)
        ensures
            r.id == "arrowHead",
            r.orient == "auto",
            r.marker_width == "8",
            r.marker_height == "8",
            r.ref_y == "4",
            r.path.d == MARKER_PATH,
            r.path.fill == "black",
            no_class_attributes_spec(r.path.attributes),
    {
        Marker {
            id: "arrowHead",
            orient: "auto",
            marker_width: "8",
            marker_height: "8",
            ref_y: "4",
            path: MarkerPath { d: MARKER_PATH, fill: "black", attributes: CommonAttributes::with_no_class() },
        }
    }
}

} // verus!
