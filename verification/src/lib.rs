//! SVG generation for many-core systems: geometry, text placement and
//! configuration-driven information layers, with their contracts.

pub mod arith;
pub mod geometry;
pub mod offsets;
pub mod text;
pub mod view_box;

pub use geometry::CoordinateT;
pub use offsets::Offsets;
pub use view_box::{TopLeft, ViewBox};
pub mod error;
pub use error::{SVGError, SVGErrorKind};
pub mod clip_path;
pub use clip_path::ClipPath;
pub mod processing_group;
pub use processing_group::Core;
pub mod style;
pub mod marker;
pub mod defs;
pub mod decorations;
pub use marker::Marker;
pub use decorations::{EventsRect, ExportingAid, TextBackground};
pub mod system;
pub mod connections_group;
pub use connections_group::EdgeConnections;
pub mod render_settings;
pub use render_settings::{ColourSettings, CoordinatesOrientation, LoadConfiguration};
pub mod information_layer;
pub use information_layer::utils::{binary_search_left_insertion_point, get_attribute_colour};
pub mod sinks_sources_layer;
pub mod tasks_group;
pub mod svg;
pub mod svg_conversions;
pub mod laws;
