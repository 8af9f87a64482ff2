//! User configuration: what information to show and how, and the values derived from
//! the base configuration (font sizes and task rectangle sizes).

use vstd::prelude::*;
use std::collections::BTreeMap;
use crate::geometry::{CoordinateT, CHAR_V_PADDING};

verus! {

/// Colours chosen by numeric value: a value takes the colour of the largest bound it
/// reaches (the first colour when it reaches none).
#[derive(Debug)]
pub struct ColourSettings {
    pub bounds: [u64; 4],
    pub colours: [String; 4],
}

impl ColourSettings {
    /// Colour settings with the given bounds and colours.
    pub fn new(bounds: [u64; 4], colours: [String; 4]) -> (r: Self)
        ensures
            r.bounds == bounds,
            r.colours == colours,
    {
        ColourSettings { bounds, colours }
    }

    /// The bounds.
    pub fn bounds(&self) -> (r: &[u64; 4])
        ensures
            *r == self.bounds,
    {
        &self.bounds
    }

    /// The colours.
    pub fn colours(&self) -> (r: &[String; 4])
        ensures
            *r == self.colours,
    {
        &self.colours
    }
}

/// Orientation of the coordinates shown on cores: rows counted from the top or the bottom.
#[derive(Clone, Copy, Debug, PartialEq, Eq, Structural)]
pub enum CoordinatesOrientation {
    T,
    B,
}

/// How channel loads are shown.
#[derive(Clone, Copy, Debug, PartialEq, Eq, Structural)]
pub enum LoadConfiguration {
    /// As a percentage of the bandwidth, e.g. 5%.
    Percentage,
    /// As a fraction of the bandwidth, e.g. 20/400.
    Fraction,
}

/// A requested routing: the algorithm (by name), how loads are shown and coloured, and
/// the label of loads.
#[derive(Debug)]
pub struct RoutingConfiguration {
    pub algorithm: String,
    pub load_configuration: LoadConfiguration,
    pub load_colours: ColourSettings,
    pub display: String,
}

impl RoutingConfiguration {
    /// A routing request with the given algorithm, load display, load colours and label.
    pub fn new(algorithm: String, load_configuration: LoadConfiguration, load_colours: ColourSettings, display: String) -> (r: Self)
        ensures
            r.algorithm == algorithm,
            r.load_configuration == load_configuration,
            r.load_colours == load_colours,
            r.display == display,
    {
        RoutingConfiguration { algorithm, load_configuration, load_colours, display }
    }
}

/// How one field is configured.
#[derive(Debug)]
pub enum FieldConfiguration {
    /// Text only.
    Text { display: String, colour: Option<String> },
    /// Text coloured according to its value.
    ColouredText { display: String, colour_settings: ColourSettings },
    /// Fill of the element according to the value.
    Fill { colour_settings: ColourSettings },
    /// Coordinates display.
    Coordinates { orientation: CoordinatesOrientation },
    /// Routing request.
    Routing { configuration: RoutingConfiguration },
    /// A boolean property, such as showing edge routers.
    Boolean { value: bool },
}

/// Name of the variant of a field configuration.
pub open spec fn variant_name(f: FieldConfiguration) -> Seq<char> {
    match f {
        FieldConfiguration::Boolean { .. } => "Boolean"@,
        FieldConfiguration::ColouredText { .. } => "ColouredText"@,
        FieldConfiguration::Coordinates { .. } => "Coordinates"@,
        FieldConfiguration::Fill { .. } => "Fill"@,
        FieldConfiguration::Routing { .. } => "Routing"@,
        FieldConfiguration::Text { .. } => "Text"@,
    }
}

impl FieldConfiguration {
    /// Name of the variant.
    pub fn type_str(&self) -> (r: &'static str)
        ensures
            r@ == variant_name(*self),
    {
        match self {
            FieldConfiguration::Boolean { .. } => "Boolean",
            FieldConfiguration::ColouredText { .. } => "ColouredText",
            FieldConfiguration::Coordinates { .. } => "Coordinates",
            FieldConfiguration::Fill { .. } => "Fill",
            FieldConfiguration::Routing { .. } => "Routing",
            FieldConfiguration::Text { .. } => "Text",
        }
    }
}

/// Configured fields, by attribute key, in key order; each key at most once.
#[derive(Debug)]
pub struct FieldConfigurations {
    pub entries: Vec<(String, FieldConfiguration)>,
}

/// Index of the entry with key `key`, if any.
pub open spec fn key_index(entries: Seq<(String, FieldConfiguration)>, key: Seq<char>) -> Option<int> {
    if exists|i: int| 0 <= i < entries.len() && (#[trigger] entries[i]).0@ == key {
        Some(choose|i: int| 0 <= i < entries.len() && (#[trigger] entries[i]).0@ == key)
    } else {
        None
    }
}

/// `a` comes strictly before `b` in the order of `String` keys: lexicographic by
/// character (by code point, which is the order of their UTF-8 bytes).
pub open spec fn key_less(a: Seq<char>, b: Seq<char>) -> bool {
    exists|k: int|
        0 <= k <= a.len() && k <= b.len() && #[trigger] a.take(k) == #[trigger] b.take(k) && (
            (k == a.len() && k < b.len()) || (k < a.len() && k < b.len() && (a[k] as int) < (b[k] as int)))
}

impl FieldConfigurations {
    /// The keys are in strictly increasing key order, so each appears once.
    pub open spec fn wf(&self) -> bool {
        &&& forall|i: int, j: int| 0 <= i < j < self.entries@.len() ==> (#[trigger] self.entries@[i]).0@ != (#[trigger] self.entries@[j]).0@
        &&& forall|i: int, j: int| 0 <= i < j < self.entries@.len() ==> key_less((#[trigger] self.entries@[i]).0@, (#[trigger] self.entries@[j]).0@)
    }

    /// The configuration of `key`, if configured.
    pub open spec fn spec_get(&self, key: Seq<char>) -> Option<FieldConfiguration> {
        match key_index(self.entries@, key) {
            Some(i) => Some(self.entries@[i].1),
            None => None,
        }
    }

    /// No field configured.
    pub fn empty() -> (r: Self)
        ensures
            r.entries@.len() == 0,
            r.wf(),
    {
        FieldConfigurations { entries: Vec::new() }
    }

    /// Whether no field is configured.
    pub fn is_empty(&self) -> (r: bool)
        ensures
            r == (self.entries@.len() == 0),
    {
        self.entries.len() == 0
    }

    /// Position of `key` among the entries, if configured.
    pub fn position(&self, key: &str) -> (r: Option<usize>)
        requires
            self.wf(),
        ensures
            match r {
                Some(i) => i < self.entries@.len() && self.entries@[i as int].0@ == key@
                    && key_index(self.entries@, key@) == Some(i as int),
                None => key_index(self.entries@, key@).is_none(),
            },
    {
        let n = self.entries.len();
        let mut i: usize = 0;
        while i < n
            invariant
                n == self.entries@.len(),
                i <= n,
                self.wf(),
                forall|j: int| 0 <= j < i ==> (#[trigger] self.entries@[j]).0@ != key@,
            decreases n - i,
        {
            if str_eq(self.entries[i].0.as_str(), key) {
                proof {
                    let k = choose|j: int| 0 <= j < self.entries@.len() && (#[trigger] self.entries@[j]).0@ == key@;
                    if k != i as int {
                        if k < i as int {
                        } else {
                            assert(self.entries@[i as int].0@ != self.entries@[k].0@);
                        }
                    }
                }
                return Some(i);
            }
            i = i + 1;
        }
        None
    }

    /// The configuration of `key`, if configured.
    pub fn get(&self, key: &str) -> (r: Option<&FieldConfiguration>)
        requires
            self.wf(),
        ensures
            match r {
                Some(f) => self.spec_get(key@) == Some(*f),
                None => self.spec_get(key@).is_none(),
            },
    {
        match self.position(key) {
            Some(i) => Some(&self.entries[i].1),
            None => None,
        }
    }

    /// Removes the configuration of `key` and returns it, if configured. The other
    /// entries stay, in their order.
    pub fn remove(&mut self, key: &str) -> (r: Option<FieldConfiguration>)
        requires
            old(self).wf(),
        ensures
            final(self).wf(),
            match r {
                Some(f) => old(self).spec_get(key@) == Some(f)
                    && final(self).entries@ == old(self).entries@.remove(key_index(old(self).entries@, key@).unwrap()),
                None => old(self).spec_get(key@).is_none() && final(self).entries@ == old(self).entries@,
            },
            final(self).spec_get(key@).is_none(),
    {
        match self.position(key) {
            Some(i) => {
                let (_, f) = self.entries.remove(i);
                proof {
                    assert forall|a: int, b: int| 0 <= a < b < self.entries@.len() implies
                        (#[trigger] self.entries@[a]).0@ != (#[trigger] self.entries@[b]).0@ by {
                        let oa = if a < i { a } else { a + 1 };
                        let ob = if b < i { b } else { b + 1 };
                        assert(self.entries@[a] == old(self).entries@[oa]);
                        assert(self.entries@[b] == old(self).entries@[ob]);
                    }
                    if exists|j: int| 0 <= j < self.entries@.len() && (#[trigger] self.entries@[j]).0@ == key@ {
                        let j = choose|j: int| 0 <= j < self.entries@.len() && (#[trigger] self.entries@[j]).0@ == key@;
                        let oj = if j < i { j } else { j + 1 };
                        assert(self.entries@[j] == old(self).entries@[oj]);
                        assert(old(self).entries@[oj].0@ == old(self).entries@[i as int].0@);
                    }
                }
                Some(f)
            },
            None => None,
        }
    }
}

/// Whether two string slices hold the same characters.
pub fn str_eq(a: &str, b: &str) -> (r: bool)
    ensures
        r == (a@ == b@),
{
    let n = a.unicode_len();
    let m = b.unicode_len();
    if n != m {
        return false;
    }
    let mut i: usize = 0;
    while i < n
        invariant
            n == a@.len(),
            m == b@.len(),
            n == m,
            i <= n,
            forall|j: int| 0 <= j < i ==> a@[j] == b@[j],
        decreases n - i,
    {
        if a.get_char(i) != b.get_char(i) {
            return false;
        }
        i = i + 1;
    }
    proof {
        assert(a@ =~= b@);
    }
    true
}

/// A font size, as the values derived from it that the drawing uses: the pixel size
/// written in `font-size` attributes, and the size rounded and truncated to an integer.
#[derive(Clone, Copy, Debug, PartialEq, Eq, Structural)]
pub struct FontSize {
    pub px: u32,
    pub rounded: CoordinateT,
    pub truncated: CoordinateT,
}

/// Size of a task rectangle and where its text sits.
#[derive(Clone, Copy, Debug, PartialEq, Eq, Structural)]
pub struct TaskRectConfiguration {
    pub task_rect_height: CoordinateT,
    pub task_rect_half_height: CoordinateT,
    pub task_rect_centre_offset: CoordinateT,
    pub task_rect_bottom_padding: CoordinateT,
}

/// The task rectangle of a text `height` units high (text plus padding): half height,
/// a fifth of the height as centre offset, the rest as bottom padding.
pub open spec fn task_rect_spec(height: int) -> TaskRectConfiguration {
    TaskRectConfiguration {
        task_rect_height: height as i32,
        task_rect_half_height: (height / 2) as i32,
        task_rect_centre_offset: (height / 5) as i32,
        task_rect_bottom_padding: (height - height / 5) as i32,
    }
}

impl TaskRectConfiguration {
    /// The rectangle of a text `height` units high; the height must not be negative.
    pub fn from_height(height: CoordinateT) -> (r: Self)
        requires
            height >= 0,
        ensures
            r == task_rect_spec(height as int),
    {
        TaskRectConfiguration {
            task_rect_height: height,
            task_rect_half_height: height / 2,
            task_rect_centre_offset: height / 5,
            task_rect_bottom_padding: height - height / 5,
        }
    }

    /// The height.
    pub fn task_rect_height(&self) -> (r: &CoordinateT)
        ensures
            *r == self.task_rect_height,
    {
        &self.task_rect_height
    }

    /// The half height.
    pub fn task_rect_half_height(&self) -> (r: &CoordinateT)
        ensures
            *r == self.task_rect_half_height,
    {
        &self.task_rect_half_height
    }

    /// The offset of the text centre from the top of the block's bottom area.
    pub fn task_rect_centre_offset(&self) -> (r: &CoordinateT)
        ensures
            *r == self.task_rect_centre_offset,
    {
        &self.task_rect_centre_offset
    }

    /// Room needed below the rectangle.
    pub fn task_rect_bottom_padding(&self) -> (r: &CoordinateT)
        ensures
            *r == self.task_rect_bottom_padding,
    {
        &self.task_rect_bottom_padding
    }
}

/// Largest width a text width table may hold.
pub const MAX_TEXT_WIDTH: i32 = 0x0100_0000;

/// Number of entries of a text width table: one per byte length that fits in a `u16`.
pub const TEXT_WIDTH_TABLE_LEN: usize = 65536;

/// The values the drawing derives from the base configuration.
#[derive(Debug)]
pub struct ProcessedBaseConfiguration {
    pub attribute_font_size: FontSize,
    pub task_font_size: FontSize,
    /// Rectangle of a task showing its id only.
    pub task_rect: TaskRectConfiguration,
    /// Rectangle of a task showing its id and its cost.
    pub task_rect_with_cost: TaskRectConfiguration,
    /// Half of the rounded task font size.
    pub task_half_font_size_coord: CoordinateT,
    /// Width of a text at the task font size with a two character padding, by byte length.
    pub task_text_widths: Vec<CoordinateT>,
    /// Width of a text at the 16px font of channel texts, without padding, by byte length.
    pub channel_text_widths: Vec<CoordinateT>,
}

/// The rounded task font size is small enough for the rectangles derived from it.
pub open spec fn task_font_fits(task_font_size: FontSize) -> bool {
    0 <= task_font_size.rounded && task_font_size.rounded <= 1_000_000
}

impl ProcessedBaseConfiguration {
    /// Both width tables have an entry for every byte length that fits in a `u16`, each
    /// between zero and [`MAX_TEXT_WIDTH`].
    pub open spec fn wf(&self) -> bool {
        &&& self.task_text_widths@.len() == TEXT_WIDTH_TABLE_LEN
        &&& self.channel_text_widths@.len() == TEXT_WIDTH_TABLE_LEN
        &&& forall|i: int| 0 <= i < TEXT_WIDTH_TABLE_LEN ==> 0 <= #[trigger] self.task_text_widths@[i] <= MAX_TEXT_WIDTH
        &&& forall|i: int| 0 <= i < TEXT_WIDTH_TABLE_LEN ==> 0 <= #[trigger] self.channel_text_widths@[i] <= MAX_TEXT_WIDTH
    }

    /// The derived values are those of the task font size, which is small enough for them.
    pub open spec fn consistent(&self) -> bool {
        &&& task_font_fits(self.task_font_size)
        &&& self.task_rect == task_rect_spec(self.task_font_size.rounded + CHAR_V_PADDING)
        &&& self.task_rect_with_cost == task_rect_spec(2 * (self.task_font_size.rounded + CHAR_V_PADDING))
        &&& self.task_half_font_size_coord == self.task_font_size.rounded / 2
    }

    /// The derived values: a task rectangle as high as the rounded task font plus the
    /// vertical padding, one twice as high for tasks showing their cost, and half the
    /// rounded task font size.
    pub fn new(
        attribute_font_size: FontSize,
        task_font_size: FontSize,
        task_text_widths: Vec<CoordinateT>,
        channel_text_widths: Vec<CoordinateT>,
    ) -> (r: Self)
        requires
            task_font_fits(task_font_size),
        ensures
            r.attribute_font_size == attribute_font_size,
            r.task_font_size == task_font_size,
            r.task_rect == task_rect_spec(task_font_size.rounded + CHAR_V_PADDING),
            r.task_rect_with_cost == task_rect_spec(2 * (task_font_size.rounded + CHAR_V_PADDING)),
            r.task_half_font_size_coord == task_font_size.rounded / 2,
            r.task_text_widths == task_text_widths,
            r.channel_text_widths == channel_text_widths,
            r.consistent(),
    {
        let height = task_font_size.rounded + CHAR_V_PADDING;
        ProcessedBaseConfiguration {
            attribute_font_size,
            task_font_size,
            task_rect: TaskRectConfiguration::from_height(height),
            task_rect_with_cost: TaskRectConfiguration::from_height(2 * height),
            task_half_font_size_coord: task_font_size.rounded / 2,
            task_text_widths,
            channel_text_widths,
        }
    }
}

} // verus!

verus! {

/// What the user asked to show: per attribute key, how to show core, router and channel
/// attributes, and fill overrides by element id.
#[derive(Debug)]
pub struct Configuration {
    pub core_config: FieldConfigurations,
    pub router_config: FieldConfigurations,
    pub channel_config: FieldConfigurations,
    pub core_fills: BTreeMap<u8, String>,
    pub router_fills: BTreeMap<u8, String>,
}

/// The attribute keys that the many-core system description reserves.
#[derive(Debug)]
pub struct FieldKeys {
    /// Key of the element id.
    pub id: String,
    /// Key of the coordinates display.
    pub coordinates: String,
    /// Key of the routing request.
    pub routing: String,
    /// Key of the edge routers display.
    pub border_routers: String,
}

impl Configuration {
    /// Each of the three field configurations has each key once.
    pub open spec fn wf(&self) -> bool {
        self.core_config.wf() && self.router_config.wf() && self.channel_config.wf()
    }

    /// Whether anything is configured besides what `update` removes first.
    pub open spec fn spec_not_empty(&self) -> bool {
        self.core_config.entries@.len() > 0 || self.router_config.entries@.len() > 0
            || self.channel_config.entries@.len() > 0 || !self.core_fills@.is_empty() || !self.router_fills@.is_empty()
    }

    /// Whether anything is configured.
    pub fn not_empty(&self) -> (r: bool)
        ensures
            r == self.spec_not_empty(),
    {
        !self.core_config.is_empty() || !self.router_config.is_empty() || !self.channel_config.is_empty()
            || !self.core_fills.is_empty() || !self.router_fills.is_empty()
    }

    /// Removes the routing request from the channel configuration and returns it when it
    /// is one; any other configuration under the routing key is dropped too.
    pub fn take_routing(&mut self, keys: &FieldKeys) -> (r: Option<RoutingConfiguration>)
        requires
            old(self).wf(),
        ensures
            final(self).wf(),
            final(self).core_config == old(self).core_config,
            final(self).router_config == old(self).router_config,
            final(self).core_fills == old(self).core_fills,
            final(self).router_fills == old(self).router_fills,
            final(self).channel_config.spec_get(keys.routing@).is_none(),
            match old(self).channel_config.spec_get(keys.routing@) {
                Some(FieldConfiguration::Routing { configuration }) => r == Some(configuration),
                _ => r.is_none(),
            },
            old(self).channel_config.spec_get(keys.routing@).is_none() ==> final(self).channel_config.entries@ == old(self).channel_config.entries@,
            old(self).channel_config.spec_get(keys.routing@) is Some ==> final(self).channel_config.entries@
                == old(self).channel_config.entries@.remove(key_index(old(self).channel_config.entries@, keys.routing@).unwrap()),
    {
        match self.channel_config.remove(keys.routing.as_str()) {
            Some(FieldConfiguration::Routing { configuration }) => Some(configuration),
            _ => None,
        }
    }
}

/// What an update of the information shown needs from the configuration before a
/// routing is computed: whether anything is configured, and the requested routing.
#[derive(Debug)]
pub struct UpdateRequest {
    pub not_empty: bool,
    pub routing_configuration: Option<RoutingConfiguration>,
}

impl Configuration {
    /// Notes whether anything is configured, then takes the routing request out of the
    /// channel configuration (see [`Configuration::take_routing`]).
    pub fn take_update_request(&mut self, keys: &FieldKeys) -> (r: UpdateRequest)
        requires
            old(self).wf(),
        ensures
            final(self).wf(),
            r.not_empty == old(self).spec_not_empty(),
            final(self).core_config == old(self).core_config,
            final(self).router_config == old(self).router_config,
            final(self).core_fills == old(self).core_fills,
            final(self).router_fills == old(self).router_fills,
            final(self).channel_config.spec_get(keys.routing@).is_none(),
            match old(self).channel_config.spec_get(keys.routing@) {
                Some(FieldConfiguration::Routing { configuration }) => r.routing_configuration == Some(configuration),
                _ => r.routing_configuration.is_none(),
            },
            old(self).channel_config.spec_get(keys.routing@).is_none() ==> final(self).channel_config.entries@ == old(self).channel_config.entries@,
            old(self).channel_config.spec_get(keys.routing@) is Some ==> final(self).channel_config.entries@
                == old(self).channel_config.entries@.remove(key_index(old(self).channel_config.entries@, keys.routing@).unwrap()),
    {
        let not_empty = self.not_empty();
        let routing_configuration = self.take_routing(keys);
        UpdateRequest { not_empty, routing_configuration }
    }
}

} // verus!
