//! SVG `<text>` elements and where channel information texts are placed.

use vstd::prelude::*;
use crate::arith::{clamp_i32, sat_add, sat_sub};
use crate::error::{SVGError, SVGErrorKind};
use crate::geometry::{
    CoordinateT, CHAR_HEIGHT_AT_22_PX, CHAR_V_PADDING, MARKER_HEIGHT, ROUTER_OFFSET, SINKS_SOURCES_CONNECTION_LENGTH,
};
use crate::information_layer::utils::{binary_search_left_insertion_point, get_attribute_colour, insertion_point, parse_u64_spec};
use crate::offsets::Offsets;
use crate::render_settings::{
    FieldConfiguration, FontSize, LoadConfiguration, ProcessedBaseConfiguration, RoutingConfiguration, TEXT_WIDTH_TABLE_LEN,
};
use crate::style::EDGE_DATA_CLASS_NAME;
use crate::system::Directions;
use crate::text::{push_nat, push_str, string_of, nat_str};
use vstd::string::StringSliceAdditionalSpecFns;

verus! {

/// Horizontal distance of a vertical channel's text from the channel.
pub const HORIZONTAL_OFFSET_FROM_LINK: i32 = 5;
/// Vertical distance of a horizontal channel's text from the channel.
pub const VERTICAL_OFFSET_FROM_LINK: i32 = 1;
/// Distance of a channel's second text from its first.
pub const OFFSET_FROM_FIRST: i32 = 20;
/// Half of an inner channel, arrow head included.
pub const HALF_CONNECTION_LENGTH: i32 = 154;
/// Half of an edge channel to a sink or from a source on the north or east side.
pub const HALF_SHORT_EDGE_LENGTH: i32 = 116;
/// Half of an edge channel on the south or west side, which also crosses a router.
pub const HALF_LONG_EDGE_LENGTH: i32 = 154;
/// What converting a length that does not fit in a `u16` reports.
pub const LENGTH_CONVERSION_ERROR: &'static str = "out of range integral type conversion attempted";

/// The 16px font of channel texts.
pub open spec fn default_font_size_spec() -> FontSize {
    FontSize { px: 16, rounded: 16, truncated: 16 }
}

/// The 16px font of channel texts.
pub fn default_font_size() -> (r: FontSize)
    ensures
        r == default_font_size_spec(),
{
    FontSize { px: 16, rounded: 16, truncated: 16 }
}

/// An SVG `<text>`.
#[derive(Debug)]
pub struct TextInformation {
    pub x: CoordinateT,
    pub y: CoordinateT,
    pub font_size: FontSize,
    pub font_family: &'static str,
    pub text_anchor: &'static str,
    pub dominant_baseline: &'static str,
    pub fill: String,
    pub class: Option<&'static str>,
    pub value: String,
}

/// The fill of a text: the given colour, or black.
pub open spec fn fill_of(fill: Option<&String>) -> Seq<char> {
    match fill {
        Some(f) => f@,
        None => "black"@,
    }
}

/// `t` is the Roboto Mono text with the given fields.
pub open spec fn is_text(
    t: TextInformation,
    x: int,
    y: int,
    font_size: FontSize,
    text_anchor: &'static str,
    dominant_baseline: &'static str,
    fill: Seq<char>,
    class: Option<&'static str>,
    value: Seq<char>,
) -> bool {
    &&& t.x as int == x && t.y as int == y
    &&& t.font_size == font_size
    &&& t.font_family == "Roboto Mono"
    &&& t.text_anchor == text_anchor
    &&& t.dominant_baseline == dominant_baseline
    &&& t.fill@ == fill
    &&& t.class == class
    &&& t.value@ == value
}

/// What a `<text>` shows and where, as the contracts describe it.
pub struct TextModel {
    pub x: CoordinateT,
    pub y: CoordinateT,
    pub font_size: FontSize,
    pub text_anchor: &'static str,
    pub dominant_baseline: &'static str,
    pub fill: Seq<char>,
    pub class: Option<&'static str>,
    pub value: Seq<char>,
}

/// `t` shows what `m` describes.
pub open spec fn models(t: TextInformation, m: TextModel) -> bool {
    is_text(t, m.x as int, m.y as int, m.font_size, m.text_anchor, m.dominant_baseline, m.fill, m.class, m.value)
}

/// Number of bytes of the UTF-8 encoding of `s` (a `usize`, as a string's length in memory).
pub open spec fn byte_len(s: Seq<char>) -> nat {
    (vstd::utf8::encode_utf8(s).len() as usize) as nat
}

/// Width of a text from a width table by byte length; lengths beyond a `u16` fail.
pub open spec fn text_width(widths: Seq<CoordinateT>, value: Seq<char>) -> Option<CoordinateT> {
    if byte_len(value) < TEXT_WIDTH_TABLE_LEN {
        Some(widths[byte_len(value) as int])
    } else {
        None
    }
}

/// `e` is the error that a length beyond a `u16` raises.
pub open spec fn is_length_error(e: SVGError) -> bool {
    e.error_kind matches SVGErrorKind::DataConversionError(m) && m@ == LENGTH_CONVERSION_ERROR@
}

/// The error that a length beyond a `u16` raises.
pub fn length_error() -> (e: SVGError)
    ensures
        is_length_error(e),
{
    SVGError::new(SVGErrorKind::DataConversionError(string_of(LENGTH_CONVERSION_ERROR)))
}

/// Width of `value` in the table `widths`.
pub fn calculate_length_util(widths: &Vec<CoordinateT>, value: &str) -> (r: Result<CoordinateT, SVGError>)
    requires
        widths@.len() == TEXT_WIDTH_TABLE_LEN,
    ensures
        match text_width(widths@, value@) {
            Some(w) => r == Ok::<CoordinateT, SVGError>(w),
            None => r matches Err(e) && is_length_error(e),
        },
{
    let len = value.len();
    proof {
        assert(value.spec_bytes() == vstd::utf8::encode_utf8(value@));
        assert(len as nat == byte_len(value@));
    }
    if len < TEXT_WIDTH_TABLE_LEN {
        Ok(widths[len])
    } else {
        Err(length_error())
    }
}

impl TextInformation {
    /// A Roboto Mono text; its fill is the given colour, or black.
    pub fn new(
        x: CoordinateT,
        y: CoordinateT,
        font_size: FontSize,
        text_anchor: &'static str,
        dominant_baseline: &'static str,
        fill: Option<&String>,
        class: Option<&'static str>,
        value: String,
    ) -> (r: Self)
        ensures
            is_text(r, x as int, y as int, font_size, text_anchor, dominant_baseline, fill_of(fill), class, value@),
    {
        TextInformation {
            x,
            y,
            font_size,
            font_family: "Roboto Mono",
            text_anchor,
            dominant_baseline,
            fill: match fill {
                Some(f) => f.clone(),
                None => string_of("black"),
            },
            class,
            value,
        }
    }

    /// Width of this text according to `widths`.
    pub fn calculate_length(&self, widths: &Vec<CoordinateT>) -> (r: Result<CoordinateT, SVGError>)
        requires
            widths@.len() == TEXT_WIDTH_TABLE_LEN,
        ensures
            match text_width(widths@, self.value@) {
                Some(w) => r == Ok::<CoordinateT, SVGError>(w),
                None => r matches Err(e) && is_length_error(e),
            },
    {
        calculate_length_util(widths, self.value.as_str())
    }

    /// Moves the text horizontally.
    pub fn set_x(&mut self, x: CoordinateT)
        ensures
            *final(self) == (TextInformation { x, ..*old(self) }),
    {
        self.x = x;
    }

    /// Moves the text vertically.
    pub fn set_y(&mut self, y: CoordinateT)
        ensures
            *final(self) == (TextInformation { y, ..*old(self) }),
    {
        self.y = y;
    }
}

/// Position, anchor and baseline of the first text of a channel leaving `(x, y)` in
/// direction `d`, `delta` along the channel.
pub open spec fn primary_placement(d: Directions, x: int, y: int, delta: int) -> (int, int, &'static str, &'static str) {
    match d {
        Directions::North => (clamp_i32(x + HORIZONTAL_OFFSET_FROM_LINK), clamp_i32(y - delta), "start", "middle"),
        Directions::East => (clamp_i32(x + delta), clamp_i32(y - VERTICAL_OFFSET_FROM_LINK), "middle", "text-after-edge"),
        Directions::South => (clamp_i32(x - HORIZONTAL_OFFSET_FROM_LINK), clamp_i32(y + delta), "end", "middle"),
        Directions::West => (clamp_i32(x - delta), clamp_i32(y - VERTICAL_OFFSET_FROM_LINK), "middle", "text-after-edge"),
    }
}

/// Position, anchor and baseline of the second text of a channel: below or beside the first.
pub open spec fn secondary_placement(d: Directions, x: int, y: int, delta: int) -> (int, int, &'static str, &'static str) {
    match d {
        Directions::North => (clamp_i32(x + HORIZONTAL_OFFSET_FROM_LINK), clamp_i32(clamp_i32(y - delta) + OFFSET_FROM_FIRST), "start", "middle"),
        Directions::East => (clamp_i32(x + delta), clamp_i32(y + VERTICAL_OFFSET_FROM_LINK), "middle", "text-before-edge"),
        Directions::South => (clamp_i32(x - HORIZONTAL_OFFSET_FROM_LINK), clamp_i32(clamp_i32(y + delta) + OFFSET_FROM_FIRST), "end", "middle"),
        Directions::West => (clamp_i32(x - delta), clamp_i32(y + VERTICAL_OFFSET_FROM_LINK), "middle", "text-before-edge"),
    }
}

/// A channel text placed as `p`, in the default font.
pub open spec fn placed_text(t: TextInformation, p: (int, int, &'static str, &'static str), fill: Seq<char>, class: Option<&'static str>, value: Seq<char>) -> bool {
    is_text(t, p.0, p.1, default_font_size_spec(), p.2, p.3, fill, class, value)
}

/// Distance along the channel and class of a channel's text: edge channels show their
/// data in the edge data class, halfway along the part outside the matrix.
pub open spec fn link_delta_and_class_spec(edge: bool, d: Directions) -> (int, Option<&'static str>) {
    if edge {
        match d {
            Directions::North | Directions::East => (HALF_SHORT_EDGE_LENGTH as int, Some(EDGE_DATA_CLASS_NAME)),
            _ => (HALF_LONG_EDGE_LENGTH as int, Some(EDGE_DATA_CLASS_NAME)),
        }
    } else {
        (HALF_CONNECTION_LENGTH as int, None)
    }
}

/// The label and value of a configured channel attribute, and its fill.
pub open spec fn attribute_text(f: FieldConfiguration, data: Seq<char>) -> (Option<Seq<char>>, Seq<char>) {
    match f {
        FieldConfiguration::ColouredText { display, colour_settings } => (
            match parse_u64_spec(data) {
                Some(v) => Some(colour_settings.colours@[insertion_point(colour_settings.bounds@, v)]@),
                None => None,
            },
            display@ + ": "@ + data,
        ),
        FieldConfiguration::Text { display, .. } => (None, display@ + ": "@ + data),
        _ => (None, Seq::empty()),
    }
}

/// Fill from an optional colour.
pub open spec fn fill_seq(f: Option<Seq<char>>) -> Seq<char> {
    match f {
        Some(c) => c,
        None => "black"@,
    }
}

/// The fill of a channel load: the colour of its percentage, or the last colour when
/// the channel has no bandwidth.
pub open spec fn load_fill_spec(percentage: Option<u16>, rc: RoutingConfiguration) -> Seq<char> {
    match percentage {
        Some(p) => rc.load_colours.colours@[insertion_point(rc.load_colours.bounds@, p as u64)]@,
        None => rc.load_colours.colours@[3]@,
    }
}

/// The text of a channel load: a percentage when asked and known, a fraction otherwise.
pub open spec fn load_data_spec(load: u16, bandwidth: u16, percentage: Option<u16>, rc: RoutingConfiguration) -> Seq<char> {
    match (rc.load_configuration, percentage) {
        (LoadConfiguration::Percentage, Some(p)) => rc.display@ + ": "@ + nat_str(p as nat) + "%"@,
        _ => rc.display@ + ": "@ + nat_str(load as nat) + "/"@ + nat_str(bandwidth as nat),
    }
}

/// Offsets that a channel text in direction `d` needs, given its width `w`: east texts
/// reach up by a line, south texts reach left and north texts right by their width.
pub open spec fn channel_offsets_spec(t: TextInformation, d: Directions, w: int) -> Offsets {
    Offsets {
        left: if d == Directions::South { clamp_i32(t.x - w) as i32 } else { t.x },
        top: if d == Directions::East { (t.y - clamp_i32(CHAR_V_PADDING + t.font_size.rounded)) as i32 } else { t.y },
        right: if d == Directions::North { clamp_i32(t.x + w) as i32 } else { t.x },
        bottom: clamp_i32(t.y + t.font_size.truncated) as i32,
    }
}

/// The east offset of a text can be computed without overflow.
pub open spec fn channel_offsets_fit(t: TextInformation, d: Directions) -> bool {
    d == Directions::East ==> i32::MIN <= t.y - clamp_i32(CHAR_V_PADDING + t.font_size.rounded) <= i32::MAX
}

fn place(d: &Directions, x: i32, y: i32, delta: i32, fill: Option<&String>, class: Option<&'static str>, data: String) -> (r: TextInformation)
    ensures
        placed_text(r, primary_placement(*d, x as int, y as int, delta as int), fill_of(fill), class, data@),
{
    match d {
        Directions::North => TextInformation::new(sat_add(x, HORIZONTAL_OFFSET_FROM_LINK), sat_sub(y, delta), default_font_size(), "start", "middle", fill, class, data),
        Directions::East => TextInformation::new(sat_add(x, delta), sat_sub(y, VERTICAL_OFFSET_FROM_LINK), default_font_size(), "middle", "text-after-edge", fill, class, data),
        Directions::South => TextInformation::new(sat_sub(x, HORIZONTAL_OFFSET_FROM_LINK), sat_add(y, delta), default_font_size(), "end", "middle", fill, class, data),
        Directions::West => TextInformation::new(sat_sub(x, delta), sat_sub(y, VERTICAL_OFFSET_FROM_LINK), default_font_size(), "middle", "text-after-edge", fill, class, data),
    }
}

pub(crate) fn labelled(label: &String, data: &String) -> (r: String)
    ensures
        r@ == label@ + ": "@ + data@,
{
    let mut s = label.clone();
    push_str(&mut s, ": ");
    push_str(&mut s, data.as_str());
    s
}

fn attribute_fill_and_text<'a>(field_configuration: &'a FieldConfiguration, data: &'a String) -> (r: (Option<&'a String>, String))
    ensures
        fill_of(r.0) == fill_seq(attribute_text(*field_configuration, data@).0),
        r.1@ == attribute_text(*field_configuration, data@).1,
{
    match field_configuration {
        FieldConfiguration::ColouredText { display, colour_settings } => {
            (get_attribute_colour(&colour_settings.bounds, &colour_settings.colours, data), labelled(display, data))
        },
        FieldConfiguration::Text { display, .. } => (None, labelled(display, data)),
        _ => (None, String::new()),
    }
}

impl TextInformation {
    /// The first text of a channel leaving `(link_x, link_y)` in `direction`, `relevant_delta`
    /// along it, in the default font.
    pub fn common_channel_primary(
        link_x: &CoordinateT,
        link_y: &CoordinateT,
        direction: &Directions,
        relevant_delta: CoordinateT,
        fill: Option<&String>,
        class: Option<&'static str>,
        data: String,
    ) -> (r: Self)
        ensures
            placed_text(r, primary_placement(*direction, *link_x as int, *link_y as int, relevant_delta as int), fill_of(fill), class, data@),
    {
        place(direction, *link_x, *link_y, relevant_delta, fill, class, data)
    }

    /// Distance along a channel and class of its text.
    pub fn link_delta_and_class(edge: bool, direction: &Directions) -> (r: (CoordinateT, Option<&'static str>))
        ensures
            (r.0 as int, r.1) == link_delta_and_class_spec(edge, *direction),
    {
        if edge {
            match direction {
                Directions::North | Directions::East => (HALF_SHORT_EDGE_LENGTH, Some(EDGE_DATA_CLASS_NAME)),
                _ => (HALF_LONG_EDGE_LENGTH, Some(EDGE_DATA_CLASS_NAME)),
            }
        } else {
            (HALF_CONNECTION_LENGTH, None)
        }
    }

    /// The load percentage of a channel (known when its bandwidth is positive) and the
    /// colour of its load.
    pub fn calculate_load_fill_and_percentage<'a>(percentage: Option<u16>, routing_configuration: &'a RoutingConfiguration) -> (r: (Option<u16>, Option<&'a String>))
        ensures
            r.0 == percentage,
            r.1 is Some,
            fill_of(r.1) == load_fill_spec(percentage, *routing_configuration),
    {
        match percentage {
            Some(p) => {
                let fill_idx = binary_search_left_insertion_point(&routing_configuration.load_colours.bounds, p as u64);
                (Some(p), Some(&routing_configuration.load_colours.colours[fill_idx]))
            },
            None => (None, Some(&routing_configuration.load_colours.colours[3])),
        }
    }

    /// The text of a channel's load.
    pub fn generate_load_data(load: &u16, bandwidth: &u16, percentage: Option<u16>, routing_configuration: &RoutingConfiguration) -> (r: String)
        ensures
            r@ == load_data_spec(*load, *bandwidth, percentage, *routing_configuration),
    {
        let mut s = routing_configuration.display.clone();
        push_str(&mut s, ": ");
        match (routing_configuration.load_configuration, percentage) {
            (LoadConfiguration::Percentage, Some(p)) => {
                push_nat(&mut s, p as u64);
                push_str(&mut s, "%");
            },
            _ => {
                push_nat(&mut s, *load as u64);
                push_str(&mut s, "/");
                push_nat(&mut s, *bandwidth as u64);
            },
        }
        s
    }

    /// The load text of the channel from a source, which enters the matrix from `direction`.
    pub fn source_load(
        direction: &Directions,
        link_x: &CoordinateT,
        link_y: &CoordinateT,
        load: &u16,
        bandwidth: &u16,
        percentage: Option<u16>,
        routing_configuration: &RoutingConfiguration,
    ) -> (r: Self)
        ensures
            placed_text(
                r,
                primary_placement(*direction, *link_x as int, *link_y as int,
                    match *direction { Directions::South | Directions::West => HALF_SHORT_EDGE_LENGTH as int, _ => HALF_LONG_EDGE_LENGTH as int }),
                load_fill_spec(percentage, *routing_configuration),
                Some(EDGE_DATA_CLASS_NAME),
                load_data_spec(*load, *bandwidth, percentage, *routing_configuration),
            ),
    {
        let relevant_delta = match direction {
            Directions::South | Directions::West => HALF_SHORT_EDGE_LENGTH,
            _ => HALF_LONG_EDGE_LENGTH,
        };
        let (percentage, fill) = TextInformation::calculate_load_fill_and_percentage(percentage, routing_configuration);
        let data = TextInformation::generate_load_data(load, bandwidth, percentage, routing_configuration);
        place(direction, *link_x, *link_y, relevant_delta, fill, Some(EDGE_DATA_CLASS_NAME), data)
    }

    /// The load text of a core's output channel in `direction`.
    pub fn link_load(
        direction: &Directions,
        link_x: &CoordinateT,
        link_y: &CoordinateT,
        load: &u16,
        bandwidth: &u16,
        percentage: Option<u16>,
        edge: bool,
        routing_configuration: &RoutingConfiguration,
    ) -> (r: Self)
        ensures
            placed_text(
                r,
                primary_placement(*direction, *link_x as int, *link_y as int, link_delta_and_class_spec(edge, *direction).0),
                load_fill_spec(percentage, *routing_configuration),
                link_delta_and_class_spec(edge, *direction).1,
                load_data_spec(*load, *bandwidth, percentage, *routing_configuration),
            ),
    {
        let (relevant_delta, class) = TextInformation::link_delta_and_class(edge, direction);
        let (percentage, fill) = TextInformation::calculate_load_fill_and_percentage(percentage, routing_configuration);
        let data = TextInformation::generate_load_data(load, bandwidth, percentage, routing_configuration);
        place(direction, *link_x, *link_y, relevant_delta, fill, class, data)
    }

    /// The first attribute text of a channel: `"<label>: <value>"`, coloured when so configured.
    pub fn link_primary(
        direction: &Directions,
        link_x: &CoordinateT,
        link_y: &CoordinateT,
        data: &String,
        edge: bool,
        field_configuration: &FieldConfiguration,
    ) -> (r: Self)
        ensures
            placed_text(
                r,
                primary_placement(*direction, *link_x as int, *link_y as int, link_delta_and_class_spec(edge, *direction).0),
                fill_seq(attribute_text(*field_configuration, data@).0),
                link_delta_and_class_spec(edge, *direction).1,
                attribute_text(*field_configuration, data@).1,
            ),
    {
        let (relevant_delta, class) = TextInformation::link_delta_and_class(edge, direction);
        let (fill, text) = attribute_fill_and_text(field_configuration, data);
        place(direction, *link_x, *link_y, relevant_delta, fill, class, text)
    }

    /// The second attribute text of an inner channel, next to the first.
    pub fn link_secondary(
        direction: &Directions,
        link_x: &CoordinateT,
        link_y: &CoordinateT,
        data: &String,
        field_configuration: &FieldConfiguration,
    ) -> (r: Self)
        ensures
            placed_text(
                r,
                secondary_placement(*direction, *link_x as int, *link_y as int, HALF_CONNECTION_LENGTH as int),
                fill_seq(attribute_text(*field_configuration, data@).0),
                None,
                attribute_text(*field_configuration, data@).1,
            ),
    {
        let (relevant_delta, class) = TextInformation::link_delta_and_class(false, direction);
        let (fill, display) = attribute_fill_and_text(field_configuration, data);
        let x = *link_x;
        let y = *link_y;
        match direction {
            Directions::North => TextInformation::new(sat_add(x, HORIZONTAL_OFFSET_FROM_LINK), sat_add(sat_sub(y, relevant_delta), OFFSET_FROM_FIRST), default_font_size(), "start", "middle", fill, class, display),
            Directions::East => TextInformation::new(sat_add(x, relevant_delta), sat_add(y, VERTICAL_OFFSET_FROM_LINK), default_font_size(), "middle", "text-before-edge", fill, class, display),
            Directions::South => TextInformation::new(sat_sub(x, HORIZONTAL_OFFSET_FROM_LINK), sat_add(sat_add(y, relevant_delta), OFFSET_FROM_FIRST), default_font_size(), "end", "middle", fill, class, display),
            Directions::West => TextInformation::new(sat_sub(x, relevant_delta), sat_add(y, VERTICAL_OFFSET_FROM_LINK), default_font_size(), "middle", "text-before-edge", fill, class, display),
        }
    }

    /// The task id text of an edge router, centred on it, when there is one.
    pub fn sink_source_text(
        centre_x: CoordinateT,
        centre_y: CoordinateT,
        text_content: Option<String>,
        processed_base_configuration: &ProcessedBaseConfiguration,
    ) -> (r: Option<Self>)
        ensures
            match text_content {
                Some(t) => r matches Some(ti) && is_text(ti, centre_x as int, centre_y as int,
                    processed_base_configuration.task_font_size, "middle", "central", "black"@, Some(EDGE_DATA_CLASS_NAME), t@),
                None => r is None,
            },
    {
        if let Some(text) = text_content {
            return Some(TextInformation::new(
                centre_x,
                centre_y,
                processed_base_configuration.task_font_size,
                "middle",
                "central",
                None,
                Some(EDGE_DATA_CLASS_NAME),
                text,
            ));
        }
        None
    }
}

impl Offsets {
    /// The offsets a channel text in `direction` needs, its width measured with `widths`.
    pub fn try_from_channel(value: &TextInformation, direction: &Directions, widths: &Vec<CoordinateT>) -> (r: Result<Offsets, SVGError>)
        requires
            widths@.len() == TEXT_WIDTH_TABLE_LEN,
            channel_offsets_fit(*value, *direction),
        ensures
            match r {
                Ok(o) => (*direction == Directions::South || *direction == Directions::North) ==>
                    text_width(widths@, value.value@) is Some,
                Err(e) => (*direction == Directions::South || *direction == Directions::North)
                    && text_width(widths@, value.value@) is None && is_length_error(e),
            },
            r matches Ok(o) ==> o == channel_offsets_spec(*value, *direction,
                match text_width(widths@, value.value@) { Some(w) => w as int, None => 0 }),
            (*direction == Directions::East || *direction == Directions::West) ==> r is Ok,
    {
        let top = match direction {
            Directions::East => value.y - sat_add(CHAR_V_PADDING, value.font_size.rounded),
            _ => value.y,
        };
        let left = match direction {
            Directions::South => sat_sub(value.x, value.calculate_length(widths)?),
            _ => value.x,
        };
        let right = match direction {
            Directions::North => sat_add(value.x, value.calculate_length(widths)?),
            _ => value.x,
        };
        Ok(Offsets::new(left, top, right, sat_add(value.y, value.font_size.truncated)))
    }

    /// The offsets of a text: from its position to its width and a line below.
    pub fn try_from_text(value: &TextInformation, widths: &Vec<CoordinateT>) -> (r: Result<Offsets, SVGError>)
        requires
            widths@.len() == TEXT_WIDTH_TABLE_LEN,
        ensures
            match text_width(widths@, value.value@) {
                Some(w) => r == Ok::<Offsets, SVGError>(Offsets {
                    left: value.x,
                    top: value.y,
                    right: clamp_i32(value.x + w) as i32,
                    bottom: clamp_i32(value.y + CHAR_HEIGHT_AT_22_PX) as i32,
                }),
                None => r matches Err(e) && is_length_error(e),
            },
    {
        let w = value.calculate_length(widths)?;
        Ok(Offsets::new(value.x, value.y, sat_add(value.x, w), sat_add(value.y, CHAR_HEIGHT_AT_22_PX)))
    }
}

} // verus!
