//! The `(column,row)` text shown under a core.

use vstd::prelude::*;
use crate::error::{SVGError, SVGErrorKind, generation_error};
use crate::geometry::{CoordinateT, HALF_SIDE_LENGTH, SIDE_LENGTH};
use crate::information_layer::text_information::{TextInformation, TextModel, models};
use crate::processing_group::in_i32;
use crate::render_settings::{CoordinatesOrientation, FieldConfiguration, FieldConfigurations, FieldKeys, ProcessedBaseConfiguration, variant_name};
use crate::text::{int_str, push_int, push_str, string_of};

verus! {

/// The coordinates shown for the core at `(r, c)` of a matrix of `rows` rows, as the
/// configuration `f` asks: columns from 1, rows from 1 at the bottom (`B`) or at the top
/// (`T`). No coordinates for a configuration of another kind.
pub open spec fn coordinates_pair(f: FieldConfiguration, rows: u8, r: int, c: int) -> Option<(int, int)> {
    match f {
        FieldConfiguration::Coordinates { orientation } => match orientation {
            CoordinatesOrientation::B => Some((c + 1, rows - r)),
            CoordinatesOrientation::T => Some((c + 1, r + 1)),
        },
        _ => None,
    }
}

/// The coordinates text: centred under the core drawn from `(core_x, core_y)`.
pub open spec fn coordinates_model(core_x: int, core_y: int, pair: (int, int), font: crate::render_settings::FontSize) -> TextModel {
    TextModel {
        x: (core_x + HALF_SIDE_LENGTH) as i32,
        y: (core_y + SIDE_LENGTH) as i32,
        font_size: font,
        text_anchor: "middle",
        dominant_baseline: "text-before-edge",
        fill: "black"@,
        class: None,
        value: "("@ + int_str(pair.0) + ","@ + int_str(pair.1) + ")"@,
    }
}

/// The message for coordinates configured with a configuration of another kind.
pub open spec fn unsupported_coordinates_message(f: FieldConfiguration) -> Seq<char> {
    "Unsupported configuration for coordinates: "@ + variant_name(f)
}

/// The coordinates text of the core at `(r, c)`, drawn from `(core_x, core_y)`, when
/// coordinates are configured; an error when they are configured otherwise than as
/// coordinates.
pub fn make_coordinates(
    core_config: &FieldConfigurations,
    core_x: &CoordinateT,
    core_y: &CoordinateT,
    rows: u8,
    r: &CoordinateT,
    c: &CoordinateT,
    processed_base_configuration: &ProcessedBaseConfiguration,
    keys: &FieldKeys,
) -> (res: Result<Option<TextInformation>, SVGError>)
    requires
        core_config.wf(),
        in_i32(*core_x + HALF_SIDE_LENGTH),
        in_i32(*core_y + SIDE_LENGTH),
        in_i32(*c + 1),
        in_i32(*r + 1),
        in_i32(rows - *r),
    ensures
        match core_config.spec_get(keys.coordinates@) {
            None => res matches Ok(None),
            Some(f) => match coordinates_pair(f, rows, *r as int, *c as int) {
                Some(pair) => res matches Ok(Some(t))
                    && models(t, coordinates_model(*core_x as int, *core_y as int, pair, processed_base_configuration.attribute_font_size)),
                None => res matches Err(e) && e.error_kind matches SVGErrorKind::GenerationError(m)
                    && m@ == unsupported_coordinates_message(f),
            },
        },
{
    if let Some(order_config) = core_config.get(keys.coordinates.as_str()) {
        let x = *core_x + HALF_SIDE_LENGTH;
        let y = *core_y + SIDE_LENGTH;
        let (cx, cy) = match order_config {
            FieldConfiguration::Coordinates { orientation } => match orientation {
                CoordinatesOrientation::B => (*c + 1, rows as i32 - *r),
                CoordinatesOrientation::T => (*c + 1, *r + 1),
            },
            fc => {
                let mut m = string_of("Unsupported configuration for coordinates: ");
                push_str(&mut m, fc.type_str());
                return Err(generation_error(m));
            },
        };
        let mut value = string_of("(");
        push_int(&mut value, cx as i64);
        push_str(&mut value, ",");
        push_int(&mut value, cy as i64);
        push_str(&mut value, ")");
        proof {
            assert(value@ =~= "("@ + int_str(cx as int) + ","@ + int_str(cy as int) + ")"@);
        }
        return Ok(Some(TextInformation::new(
            x,
            y,
            processed_base_configuration.attribute_font_size,
            "middle",
            "text-before-edge",
            None,
            None,
            value,
        )));
    }
    Ok(None)
}

} // verus!
