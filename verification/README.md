# manycore_svg

Generates and updates the SVG of a many-core system: a matrix of cores and routers,
the channels between them, the edge routers (sinks and sources) around the matrix, the
bubbles of the tasks allocated to cores, and information layers that show the
attributes, coordinates and channel loads a user asks for.

The library in `src/` is verified with Verus: every public function states what it
returns or changes, and `src/laws.rs` states properties that span operations.

## Layout

- `src/system.rs`: the many-core system as plain values (cores, channels, routers,
  tasks, edge routers, routings).
- `src/render_settings.rs`: user configuration and the values derived from font sizes.
- `src/svg_conversions.rs`: drawing a system; `src/svg.rs`: the SVG and its updates.
- `src/processing_group.rs`, `src/connections_group.rs`, `src/sinks_sources_layer.rs`,
  `src/tasks_group.rs`: cores and routers, channels, edge routers, task bubbles.
- `src/information_layer/`: texts over cores, routers and channels.
- `src/view_box.rs`, `src/offsets.rs`: the `viewBox` and how far drawings reach.
- `src/laws.rs`: cross-operation properties.
- `app/`: reading configurations (serde), converting systems from `manycore_parser`,
  measuring texts from font sizes (floating point), and writing XML with quick-xml.

## Measurements

Text widths depend on font sizes given as floating-point numbers. The application
turns them into two tables (task texts, with padding, and channel texts) of widths by
UTF-8 length, and computes channel load percentages; the library reads those tables
and values.
