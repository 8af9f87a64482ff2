//! Texts shown along a core's channels: their loads when a routing is shown, and their
//! configured attributes.

use vstd::prelude::*;
use crate::arith::clamp_i32;
use crate::connections_group::{ConnectionsParentGroup, channel_info_spec, direction_name, direction_str, is_missing_connection_error};
use crate::error::{SVGError, SVGErrorKind};
use crate::geometry::{CoordinateT, CHAR_V_PADDING};
use crate::information_layer::text_information::{
    TextInformation, TextModel, models, primary_placement, secondary_placement, link_delta_and_class_spec,
    load_fill_spec, load_data_spec, attribute_text, fill_seq, default_font_size_spec, text_width, is_length_error,
    HALF_CONNECTION_LENGTH, HALF_SHORT_EDGE_LENGTH, HALF_LONG_EDGE_LENGTH, channel_offsets_spec,
};
use crate::offsets::{Offsets, covers, merged};
use crate::render_settings::{FieldConfiguration, FieldConfigurations, ProcessedBaseConfiguration, RoutingConfiguration, TEXT_WIDTH_TABLE_LEN};
use crate::style::EDGE_DATA_CLASS_NAME;
use crate::system::{
    Channel, CoreDescription, Directions, RoutingType, attr_get, channel_at, find_attribute, find_source_load,
    leaves_matrix, direction_leaves_matrix, source_load_at,
};
use crate::text::{nat_str, push_nat, push_str, string_of};

verus! {

/// A channel whose texts are generated: one carrying a routed load (of the core's
/// output or of its source), or one showing its configured attributes only.
#[derive(Clone, Copy, Debug)]
pub enum ChannelItem {
    Routed(RoutingType, Directions),
    Plain(Directions),
}

/// Why the texts of a channel could not be generated.
#[derive(Clone, Copy, Debug)]
pub enum ChannelFault {
    MissingConnection(Directions),
    MissingChannel(Directions),
    MissingSourceLoads,
    MissingSourceLoad(Directions),
    TextTooLong,
}

/// The opposite direction: where a source's channel comes from, seen from the source.
pub open spec fn flip(d: Directions) -> Directions {
    match d {
        Directions::North => Directions::South,
        Directions::South => Directions::North,
        Directions::East => Directions::West,
        Directions::West => Directions::East,
    }
}

/// A text placed as `p` in the default font.
pub open spec fn placed_model(p: (int, int, &'static str, &'static str), fill: Seq<char>, class: Option<&'static str>, value: Seq<char>) -> TextModel {
    TextModel {
        x: p.0 as i32,
        y: p.1 as i32,
        font_size: default_font_size_spec(),
        text_anchor: p.2,
        dominant_baseline: p.3,
        fill,
        class,
        value,
    }
}

/// The load text of a core's output channel in direction `d`, starting at `(x, y)`.
pub open spec fn link_load_model(d: Directions, x: int, y: int, edge: bool, ch: Channel, rc: RoutingConfiguration) -> TextModel {
    placed_model(
        primary_placement(d, x, y, link_delta_and_class_spec(edge, d).0),
        load_fill_spec(ch.load_percentage, rc),
        link_delta_and_class_spec(edge, d).1,
        load_data_spec(ch.current_load, ch.bandwidth, ch.load_percentage, rc),
    )
}

/// The load text of the channel by which a source enters, placed as seen from the
/// source (direction `fd`), starting at `(x, y)`.
pub open spec fn source_load_model(fd: Directions, x: int, y: int, load: u16, bandwidth: u16, percentage: Option<u16>, rc: RoutingConfiguration) -> TextModel {
    placed_model(
        primary_placement(fd, x, y, match fd {
            Directions::South | Directions::West => HALF_SHORT_EDGE_LENGTH as int,
            _ => HALF_LONG_EDGE_LENGTH as int,
        }),
        load_fill_spec(percentage, rc),
        Some(EDGE_DATA_CLASS_NAME),
        load_data_spec(load, bandwidth, percentage, rc),
    )
}

/// The text of a routed channel: its output load, or the load its source puts on it.
pub open spec fn routed_primary(t: RoutingType, d: Directions, x: int, y: int, edge: bool, ch: Channel, core: CoreDescription, rc: RoutingConfiguration) -> Result<TextModel, ChannelFault> {
    match t {
        RoutingType::OutputChannel => Ok(link_load_model(d, x, y, edge, ch, rc)),
        RoutingType::SourceChannel => match core.source_loads {
            None => Err(ChannelFault::MissingSourceLoads),
            Some(loads) => match source_load_at(loads@, d) {
                None => Err(ChannelFault::MissingSourceLoad(d)),
                Some(l) => Ok(source_load_model(flip(d), x, y, l.load, ch.bandwidth, l.percentage, rc)),
            },
        },
    }
}

/// The first attribute text of a channel: the attribute of configuration `entry`, when
/// the channel has it.
pub open spec fn primary_attribute_model(x: int, y: int, entry: Option<(String, FieldConfiguration)>, ch: Channel, d: Directions) -> Option<TextModel> {
    match entry {
        Some(e) => match attr_get(ch.attributes@, e.0@) {
            Some(v) => Some(placed_model(
                primary_placement(d, x, y, HALF_CONNECTION_LENGTH as int),
                fill_seq(attribute_text(e.1, v).0),
                None,
                attribute_text(e.1, v).1,
            )),
            None => None,
        },
        None => None,
    }
}

/// The second text of an inner channel: the attribute of configuration `entry`, when
/// the channel has it. Edge channels have none.
pub open spec fn secondary_model(x: int, y: int, edge: bool, entry: Option<(String, FieldConfiguration)>, ch: Channel, d: Directions) -> Option<TextModel> {
    if edge {
        None
    } else {
        match entry {
            Some(e) => match attr_get(ch.attributes@, e.0@) {
                Some(v) => Some(placed_model(
                    secondary_placement(d, x, y, HALF_CONNECTION_LENGTH as int),
                    fill_seq(attribute_text(e.1, v).0),
                    None,
                    attribute_text(e.1, v).1,
                )),
                None => None,
            },
            None => None,
        }
    }
}

/// Entry `i` of the configuration, if there is one.
pub open spec fn entry_at(entries: Seq<(String, FieldConfiguration)>, i: int) -> Option<(String, FieldConfiguration)> {
    if 0 <= i < entries.len() { Some(entries[i]) } else { None }
}

/// The width of a text in direction `d` cannot be measured: it runs along a vertical
/// channel and is longer than the width table.
pub open spec fn too_long(m: TextModel, d: Directions, widths: Seq<CoordinateT>) -> bool {
    (d == Directions::North || d == Directions::South) && text_width(widths, m.value) is None
}

/// An optional text, as a sequence.
pub open spec fn opt_text(m: Option<TextModel>, d: Directions) -> Seq<(TextModel, Directions)> {
    match m {
        Some(t) => seq![(t, d)],
        None => Seq::empty(),
    }
}

/// The texts of a routed channel: its load, then its first configured attribute when it
/// is an inner channel that has it.
pub open spec fn routed_texts(
    t: RoutingType,
    d: Directions,
    entries: Seq<(String, FieldConfiguration)>,
    core: CoreDescription,
    g: ConnectionsParentGroup,
    rc: RoutingConfiguration,
    widths: Seq<CoordinateT>,
) -> Result<Seq<(TextModel, Directions)>, ChannelFault> {
    match channel_info_spec(g, core.id, d, t) {
        None => Err(ChannelFault::MissingConnection(d)),
        Some(info) => match channel_at(core.channels@, d) {
            None => Err(ChannelFault::MissingChannel(d)),
            Some(ch) => match routed_primary(t, d, info.0 as int, info.1 as int, info.2, ch, core, rc) {
                Err(f) => Err(f),
                Ok(m1) => {
                    let m2 = secondary_model(info.0 as int, info.1 as int, info.2, entry_at(entries, 0), ch, d);
                    if too_long(m1, d, widths) || (m2 is Some && too_long(m2.unwrap(), d, widths)) {
                        Err(ChannelFault::TextTooLong)
                    } else {
                        Ok(seq![(m1, d)] + opt_text(m2, d))
                    }
                },
            },
        },
    }
}

/// The texts of a channel that only shows attributes: its values of the first and
/// second configuration entries, those it has.
pub open spec fn plain_texts(
    d: Directions,
    entries: Seq<(String, FieldConfiguration)>,
    core: CoreDescription,
    g: ConnectionsParentGroup,
    widths: Seq<CoordinateT>,
) -> Result<Seq<(TextModel, Directions)>, ChannelFault> {
    match channel_at(core.channels@, d) {
        None => Err(ChannelFault::MissingChannel(d)),
        Some(ch) => match channel_info_spec(g, core.id, d, RoutingType::OutputChannel) {
            None => Err(ChannelFault::MissingConnection(d)),
            Some(info) => {
                let m1 = primary_attribute_model(info.0 as int, info.1 as int, entry_at(entries, 0), ch, d);
                let m2 = secondary_model(info.0 as int, info.1 as int, false, entry_at(entries, 1), ch, d);
                if (m1 is Some && too_long(m1.unwrap(), d, widths)) || (m2 is Some && too_long(m2.unwrap(), d, widths)) {
                    Err(ChannelFault::TextTooLong)
                } else {
                    Ok(opt_text(m1, d) + opt_text(m2, d))
                }
            },
        },
    }
}

/// The texts of one channel, each with the direction of the channel, or why they
/// cannot be generated.
pub open spec fn item_texts(
    item: ChannelItem,
    entries: Seq<(String, FieldConfiguration)>,
    core: CoreDescription,
    g: ConnectionsParentGroup,
    rc: RoutingConfiguration,
    widths: Seq<CoordinateT>,
) -> Result<Seq<(TextModel, Directions)>, ChannelFault> {
    match item {
        ChannelItem::Routed(t, d) => routed_texts(t, d, entries, core, g, rc, widths),
        ChannelItem::Plain(d) => plain_texts(d, entries, core, g, widths),
    }
}

/// The texts of channels one after the other, or the first reason one fails.
pub open spec fn items_texts(
    items: Seq<ChannelItem>,
    entries: Seq<(String, FieldConfiguration)>,
    core: CoreDescription,
    g: ConnectionsParentGroup,
    rc: RoutingConfiguration,
    widths: Seq<CoordinateT>,
) -> Result<Seq<(TextModel, Directions)>, ChannelFault>
    decreases items.len(),
{
    if items.len() == 0 {
        Ok(Seq::empty())
    } else {
        match items_texts(items.drop_last(), entries, core, g, rc, widths) {
            Err(f) => Err(f),
            Ok(prev) => match item_texts(items.last(), entries, core, g, rc, widths) {
                Err(f) => Err(f),
                Ok(ts) => Ok(prev + ts),
            },
        }
    }
}

/// The channels in directions `dirs`, routed for `t`.
pub open spec fn routed_dirs(t: RoutingType, dirs: Seq<Directions>) -> Seq<ChannelItem> {
    dirs.map_values(|d: Directions| ChannelItem::Routed(t, d))
}

/// The routed channels, in routing order: for each kind of routing, its directions.
pub open spec fn routed_items(routes: Seq<(RoutingType, Vec<Directions>)>) -> Seq<ChannelItem>
    decreases routes.len(),
{
    if routes.len() == 0 {
        Seq::empty()
    } else {
        routed_items(routes.drop_last()) + routed_dirs(routes.last().0, routes.last().1@)
    }
}

/// Direction `d` is routed.
pub open spec fn routes_have(routes: Seq<(RoutingType, Vec<Directions>)>, d: Directions) -> bool
    decreases routes.len(),
{
    if routes.len() == 0 {
        false
    } else {
        routes_have(routes.drop_last(), d) || routes.last().1@.contains(d)
    }
}

/// The four directions, in order.
pub open spec fn all_directions() -> Seq<Directions> {
    seq![Directions::North, Directions::East, Directions::South, Directions::West]
}

/// Channel `d` shows its attributes only: the core has it, it is not routed and it
/// does not leave the matrix.
pub open spec fn shows_attributes(core: CoreDescription, routes: Option<Seq<(RoutingType, Vec<Directions>)>>, d: Directions) -> bool {
    &&& channel_at(core.channels@, d) is Some
    &&& !(routes matches Some(rs) && routes_have(rs, d))
    &&& !leaves_matrix(core.matrix_edge, d)
}

/// The channels among the first `k` directions that show their attributes only.
pub open spec fn plain_items(core: CoreDescription, routes: Option<Seq<(RoutingType, Vec<Directions>)>>, k: nat) -> Seq<ChannelItem>
    decreases k,
{
    if k == 0 {
        Seq::empty()
    } else {
        let d = all_directions()[k - 1];
        let prev = plain_items(core, routes, (k - 1) as nat);
        if shows_attributes(core, routes, d) {
            prev.push(ChannelItem::Plain(d))
        } else {
            prev
        }
    }
}

/// The routed channels, when a routing is shown.
pub open spec fn routes_items(routes: Option<Seq<(RoutingType, Vec<Directions>)>>) -> Seq<ChannelItem> {
    match routes {
        Some(rs) => routed_items(rs),
        None => Seq::empty(),
    }
}

/// Every channel of `core` whose texts are generated: the routed ones, then those that
/// show their attributes only, by direction.
pub open spec fn channel_items(core: CoreDescription, routes: Option<Seq<(RoutingType, Vec<Directions>)>>) -> Seq<ChannelItem> {
    routes_items(routes) + plain_items(core, routes, 4)
}

/// The offsets that a channel text in direction `d` needs.
pub open spec fn model_offsets(m: TextModel, d: Directions, widths: Seq<CoordinateT>) -> Offsets {
    let w: int = match text_width(widths, m.value) { Some(w) => w as int, None => 0 };
    Offsets {
        left: if d == Directions::South { clamp_i32(m.x - w) as i32 } else { m.x },
        top: if d == Directions::East { (m.y - clamp_i32(CHAR_V_PADDING + m.font_size.rounded)) as i32 } else { m.y },
        right: if d == Directions::North { clamp_i32(m.x + w) as i32 } else { m.x },
        bottom: clamp_i32(m.y + m.font_size.truncated) as i32,
    }
}

/// `o` grown by the offsets of each text.
pub open spec fn offsets_after(o: Offsets, ts: Seq<(TextModel, Directions)>, widths: Seq<CoordinateT>) -> Offsets
    decreases ts.len(),
{
    if ts.len() == 0 {
        o
    } else {
        merged(offsets_after(o, ts.drop_last(), widths), model_offsets(ts.last().0, ts.last().1, widths))
    }
}

/// The message when a core lacks the channel in direction `d`.
pub open spec fn missing_channel_message(core_id: u8, d: Directions) -> Seq<char> {
    "Could not retrieve "@ + direction_name(d) + " channel for Core "@ + nat_str(core_id as nat)
}

/// The message when a core has no source loads.
pub open spec fn missing_source_loads_message(core_id: u8) -> Seq<char> {
    "Could not retrieve source loads for Core "@ + nat_str(core_id as nat)
}

/// The message when a core has no source load from direction `d`.
pub open spec fn missing_source_load_message(core_id: u8, d: Directions) -> Seq<char> {
    "Could not retrieve "@ + direction_name(d) + " source load for Core "@ + nat_str(core_id as nat)
}

/// `e` is the error that fault `f` of core `core_id` raises.
pub open spec fn fault_is(e: SVGError, f: ChannelFault, g: ConnectionsParentGroup, core_id: u8) -> bool {
    match f {
        ChannelFault::MissingConnection(d) => is_missing_connection_error(g, core_id, d, e),
        ChannelFault::MissingChannel(d) => e.error_kind matches SVGErrorKind::ManycoreMismatch(m) && m@ == missing_channel_message(core_id, d),
        ChannelFault::MissingSourceLoads => e.error_kind matches SVGErrorKind::ManycoreMismatch(m) && m@ == missing_source_loads_message(core_id),
        ChannelFault::MissingSourceLoad(d) => e.error_kind matches SVGErrorKind::ManycoreMismatch(m) && m@ == missing_source_load_message(core_id, d),
        ChannelFault::TextTooLong => is_length_error(e),
    }
}

/// The left and top of `o` stay within `2^30` of the origin.
pub open spec fn offsets_bounded(o: Offsets) -> bool {
    o.left >= -0x4000_0000 && o.top >= -0x4000_0000
}

/// Texts `ts` follow `old` in `links`, each showing what its model describes.
pub open spec fn appended(links: Seq<TextInformation>, old: Seq<TextInformation>, ts: Seq<(TextModel, Directions)>) -> bool {
    &&& links.len() == old.len() + ts.len()
    &&& links.subrange(0, old.len() as int) == old
    &&& forall|k: int| 0 <= k < ts.len() ==> models(#[trigger] links[old.len() + k], ts[k].0)
}

/// `old` is a prefix of `new`: what was there stays, in place.
pub open spec fn keeps_prefix(new: Seq<TextInformation>, old: Seq<TextInformation>) -> bool {
    &&& new.len() >= old.len()
    &&& forall|i: int| 0 <= i < old.len() ==> #[trigger] new[i] == old[i]
}

/// Executable [`flip`].
pub fn flip_direction(d: &Directions) -> (r: Directions)
    ensures
        r == flip(*d),
{
    match d {
        Directions::North => Directions::South,
        Directions::South => Directions::North,
        Directions::East => Directions::West,
        Directions::West => Directions::East,
    }
}

fn core_message(prefix: &str, d: &Directions, suffix: &str, core_id: u8) -> (r: String)
    ensures
        r@ == prefix@ + direction_name(*d) + suffix@ + nat_str(core_id as nat),
{
    let mut m = string_of(prefix);
    push_str(&mut m, direction_str(d));
    push_str(&mut m, suffix);
    push_nat(&mut m, core_id as u64);
    proof {
        assert(m@ =~= prefix@ + direction_name(*d) + suffix@ + nat_str(core_id as nat));
    }
    m
}

/// Core `core_id` has no channel in `direction`.
pub fn missing_channel(core_id: &u8, direction: &Directions) -> (r: SVGError)
    ensures
        r.error_kind matches SVGErrorKind::ManycoreMismatch(m) && m@ == missing_channel_message(*core_id, *direction),
{
    let m = core_message("Could not retrieve ", direction, " channel for Core ", *core_id);
    proof {
        assert(m@ =~= missing_channel_message(*core_id, *direction));
    }
    SVGError::new(SVGErrorKind::ManycoreMismatch(m))
}

/// Core `core_id` has no source loads.
pub fn missing_source_loads(core_id: &u8) -> (r: SVGError)
    ensures
        r.error_kind matches SVGErrorKind::ManycoreMismatch(m) && m@ == missing_source_loads_message(*core_id),
{
    let mut m = string_of("Could not retrieve source loads for Core ");
    push_nat(&mut m, *core_id as u64);
    SVGError::new(SVGErrorKind::ManycoreMismatch(m))
}

/// Core `core_id` has no source load from `direction`.
pub fn missing_source_load(core_id: &u8, direction: &Directions) -> (r: SVGError)
    ensures
        r.error_kind matches SVGErrorKind::ManycoreMismatch(m) && m@ == missing_source_load_message(*core_id, *direction),
{
    let m = core_message("Could not retrieve ", direction, " source load for Core ", *core_id);
    proof {
        assert(m@ =~= missing_source_load_message(*core_id, *direction));
    }
    SVGError::new(SVGErrorKind::ManycoreMismatch(m))
}

proof fn lemma_model_offsets(t: TextInformation, m: TextModel, d: Directions, widths: Seq<CoordinateT>)
    requires
        models(t, m),
    ensures
        channel_offsets_spec(t, d, match text_width(widths, t.value@) { Some(w) => w as int, None => 0 }) == model_offsets(m, d, widths),
{
}

/// Measures `t`, a text of the channel in direction `d`, grows `offsets` to hold it and
/// appends it to `links`; fails when its width is needed and cannot be measured.
fn add_channel_text(t: TextInformation, d: &Directions, offsets: &mut Offsets, links: &mut Vec<TextInformation>, widths: &Vec<CoordinateT>, Ghost(m): Ghost<TextModel>) -> (r: Result<(), SVGError>)
    requires
        widths@.len() == TEXT_WIDTH_TABLE_LEN,
        forall|i: int| 0 <= i < TEXT_WIDTH_TABLE_LEN ==> 0 <= #[trigger] widths@[i] <= crate::render_settings::MAX_TEXT_WIDTH,
        models(t, m),
        m.font_size == default_font_size_spec(),
        m.x >= -0x2100_0000,
        m.y >= -0x2100_0000,
    ensures
        match r {
            Ok(()) => !too_long(m, *d, widths@) && final(links)@ == old(links)@.push(t)
                && *final(offsets) == merged(*old(offsets), model_offsets(m, *d, widths@))
                && (offsets_bounded(*old(offsets)) ==> offsets_bounded(*final(offsets))),
            Err(e) => too_long(m, *d, widths@) && is_length_error(e),
        },
        covers(*final(offsets), *old(offsets)),
        keeps_prefix(final(links)@, old(links)@),
{
    proof {
        lemma_model_offsets(t, m, *d, widths@);
    }
    let o = Offsets::try_from_channel(&t, d, widths)?;
    offsets.update(o);
    links.push(t);
    Ok(())
}

/// The second text of an inner channel (none for edge channels): the channel's value of
/// configuration entry `index`, when it has one, placed next to the first text.
pub fn get_secondary_channel_attribute(
    x: &CoordinateT,
    y: &CoordinateT,
    edge: bool,
    configuration: &FieldConfigurations,
    index: usize,
    channel: &Channel,
    direction: &Directions,
) -> (r: Option<TextInformation>)
    ensures
        match secondary_model(*x as int, *y as int, edge, entry_at(configuration.entries@, index as int), *channel, *direction) {
            Some(m) => r matches Some(t) && models(t, m),
            None => r is None,
        },
{
    if !edge && index < configuration.entries.len() {
        let (key, field_configuration) = &configuration.entries[index];
        match find_attribute(&channel.attributes, key.as_str()) {
            Some(attribute_value) => {
                let t = TextInformation::link_secondary(direction, x, y, attribute_value, field_configuration);
                return Some(t);
            },
            None => {},
        }
    }
    None
}

/// Generates the texts of the routed channel `direction` (its load, for `target`
/// routing, then its first configured attribute when it is an inner channel that has
/// it), grows `offsets` to hold them and appends them to `links`.
pub fn routed_channel_data(
    target: &RoutingType,
    direction: &Directions,
    configuration: &FieldConfigurations,
    core: &CoreDescription,
    connections_group: &ConnectionsParentGroup,
    routing_configuration: &RoutingConfiguration,
    offsets: &mut Offsets,
    links: &mut Vec<TextInformation>,
    processed_base_configuration: &ProcessedBaseConfiguration,
) -> (r: Result<(), SVGError>)
    requires
        connections_group.wf(),
        connections_group.coords_ok(),
        processed_base_configuration.wf(),
    ensures
        match routed_texts(*target, *direction, configuration.entries@, *core, *connections_group, *routing_configuration,
            processed_base_configuration.channel_text_widths@) {
            Ok(ts) => r is Ok && appended(final(links)@, old(links)@, ts)
                && *final(offsets) == offsets_after(*old(offsets), ts, processed_base_configuration.channel_text_widths@)
                && (offsets_bounded(*old(offsets)) ==> offsets_bounded(*final(offsets))),
            Err(f) => r matches Err(e) && fault_is(e, f, *connections_group, core.id),
        },
        covers(*final(offsets), *old(offsets)),
        keeps_prefix(final(links)@, old(links)@),
{
    let ghost widths = processed_base_configuration.channel_text_widths@;
    let ghost g = *connections_group;
    let (x, y, edge) = connections_group.channel_info_details(direction, &core.id, target)?;
    proof {
        match g.lookup(core.id, crate::connections_group::DirectionType::Out(*direction)) {
            Some(crate::connections_group::ConnectionType::Connection(i)) => {
                assert(g.connections.path@[i as int].near());
            },
            Some(crate::connections_group::ConnectionType::EdgeConnection(i)) => {
                assert(g.edge_connections.sink@[i as int].near());
                assert(g.edge_connections.source@[i as int].near());
            },
            None => {},
        }
        assert(y >= i32::MIN + 64);
    }
    let channel = match core.channel(direction) {
        Some(ch) => ch,
        None => {
            return Err(missing_channel(&core.id, direction));
        },
    };
    let ghost m1 = routed_primary(*target, *direction, x as int, y as int, edge, *channel, *core, *routing_configuration)->Ok_0;
    let text = match target {
        RoutingType::OutputChannel => TextInformation::link_load(
            direction, &x, &y, &channel.current_load, &channel.bandwidth, channel.load_percentage, edge, routing_configuration,
        ),
        RoutingType::SourceChannel => {
            let loads = match &core.source_loads {
                Some(loads) => loads,
                None => {
                    return Err(missing_source_loads(&core.id));
                },
            };
            let load = match find_source_load(loads, direction) {
                Some(load) => load,
                None => {
                    return Err(missing_source_load(&core.id, direction));
                },
            };
            let flipped_direction = flip_direction(direction);
            TextInformation::source_load(&flipped_direction, &x, &y, &load.load, &channel.bandwidth, load.percentage, routing_configuration)
        },
    };
    let ghost links0 = links@;
    add_channel_text(text, direction, offsets, links, &processed_base_configuration.channel_text_widths, Ghost(m1))?;
    let ghost links1 = links@;
    let ghost offsets1 = *offsets;
    let ghost m2 = secondary_model(x as int, y as int, edge, entry_at(configuration.entries@, 0), *channel, *direction);
    let ghost ts = seq![(m1, *direction)] + opt_text(m2, *direction);
    proof {
        assert(seq![(m1, *direction)].drop_last() =~= Seq::<(TextModel, Directions)>::empty());
        assert(offsets_after(*old(offsets), Seq::<(TextModel, Directions)>::empty(), widths) == *old(offsets));
        assert(offsets1 == offsets_after(*old(offsets), seq![(m1, *direction)], widths));
    }
    match get_secondary_channel_attribute(&x, &y, edge, configuration, 0, channel, direction) {
        Some(secondary) => {
            add_channel_text(secondary, direction, offsets, links, &processed_base_configuration.channel_text_widths, Ghost(m2.unwrap()))?;
            proof {
                assert(ts.drop_last() =~= seq![(m1, *direction)]);
                assert(links@.subrange(0, links0.len() as int) =~= links0);
                assert forall|k: int| 0 <= k < ts.len() implies models(#[trigger] links@[links0.len() + k], ts[k].0) by {
                    if k == 0 {
                        assert(links@[links0.len() + k] == links1[links0.len() as int]);
                    }
                }
            }
        },
        None => {
            proof {
                assert(ts =~= seq![(m1, *direction)]);
                assert(links@.subrange(0, links0.len() as int) =~= links0);
            }
        },
    }
    Ok(())
}

/// Generates the texts of channel `direction`, which shows its attributes only (its
/// values of the first and second configuration entries, those it has), grows `offsets`
/// to hold them and appends them to `links`.
pub fn plain_channel_data(
    direction: &Directions,
    configuration: &FieldConfigurations,
    core: &CoreDescription,
    connections_group: &ConnectionsParentGroup,
    offsets: &mut Offsets,
    links: &mut Vec<TextInformation>,
    processed_base_configuration: &ProcessedBaseConfiguration,
) -> (r: Result<(), SVGError>)
    requires
        connections_group.wf(),
        connections_group.coords_ok(),
        processed_base_configuration.wf(),
    ensures
        match plain_texts(*direction, configuration.entries@, *core, *connections_group, processed_base_configuration.channel_text_widths@) {
            Ok(ts) => r is Ok && appended(final(links)@, old(links)@, ts)
                && *final(offsets) == offsets_after(*old(offsets), ts, processed_base_configuration.channel_text_widths@)
                && (offsets_bounded(*old(offsets)) ==> offsets_bounded(*final(offsets))),
            Err(f) => r matches Err(e) && fault_is(e, f, *connections_group, core.id),
        },
        covers(*final(offsets), *old(offsets)),
        keeps_prefix(final(links)@, old(links)@),
{
    let ghost widths = processed_base_configuration.channel_text_widths@;
    let ghost g = *connections_group;
    let channel = match core.channel(direction) {
        Some(ch) => ch,
        None => {
            return Err(missing_channel(&core.id, direction));
        },
    };
    let (x, y, _) = connections_group.channel_info_details(direction, &core.id, &RoutingType::OutputChannel)?;
    proof {
        match g.lookup(core.id, crate::connections_group::DirectionType::Out(*direction)) {
            Some(crate::connections_group::ConnectionType::Connection(i)) => {
                assert(g.connections.path@[i as int].near());
            },
            Some(crate::connections_group::ConnectionType::EdgeConnection(i)) => {
                assert(g.edge_connections.sink@[i as int].near());
            },
            None => {},
        }
    }
    let ghost m1 = primary_attribute_model(x as int, y as int, entry_at(configuration.entries@, 0), *channel, *direction);
    let ghost m2 = secondary_model(x as int, y as int, false, entry_at(configuration.entries@, 1), *channel, *direction);
    let ghost links0 = links@;
    proof {
        assert(Seq::<(TextModel, Directions)>::empty() + Seq::<(TextModel, Directions)>::empty() =~= Seq::<(TextModel, Directions)>::empty());
        assert(offsets_after(*old(offsets), Seq::<(TextModel, Directions)>::empty(), widths) == *old(offsets));
        assert(opt_text(m1, *direction).len() <= 1);
        if m1 is Some {
            assert(opt_text(m1, *direction).drop_last() =~= Seq::<(TextModel, Directions)>::empty());
        }
    }
    if configuration.entries.len() > 0 {
        let (key, field_configuration) = &configuration.entries[0];
        if let Some(attribute_value) = find_attribute(&channel.attributes, key.as_str()) {
            let link_text = TextInformation::link_primary(direction, &x, &y, attribute_value, false, field_configuration);
            add_channel_text(link_text, direction, offsets, links, &processed_base_configuration.channel_text_widths, Ghost(m1.unwrap()))?;
        }
    }
    let ghost links1 = links@;
    proof {
        assert(*offsets == offsets_after(*old(offsets), opt_text(m1, *direction), widths));
        assert(links1.subrange(0, links0.len() as int) =~= links0);
        assert(links1.len() == links0.len() + opt_text(m1, *direction).len());
    }
    match get_secondary_channel_attribute(&x, &y, false, configuration, 1, channel, direction) {
        Some(secondary) => {
            add_channel_text(secondary, direction, offsets, links, &processed_base_configuration.channel_text_widths, Ghost(m2.unwrap()))?;
            proof {
                let ts = opt_text(m1, *direction) + opt_text(m2, *direction);
                assert(ts.drop_last() =~= opt_text(m1, *direction));
                assert(links@.subrange(0, links0.len() as int) =~= links0);
                assert forall|k: int| 0 <= k < ts.len() implies models(#[trigger] links@[links0.len() + k], ts[k].0) by {
                    if k + 1 < ts.len() {
                        assert(links@[links0.len() + k] == links1[links0.len() + k]);
                    }
                }
            }
        },
        None => {
            proof {
                let ts = opt_text(m1, *direction) + opt_text(m2, *direction);
                assert(ts =~= opt_text(m1, *direction));
            }
        },
    }
    Ok(())
}

proof fn lemma_items_err_concat(
    a: Seq<ChannelItem>, b: Seq<ChannelItem>, entries: Seq<(String, FieldConfiguration)>, core: CoreDescription,
    g: ConnectionsParentGroup, rc: RoutingConfiguration, widths: Seq<CoordinateT>,
)
    requires
        items_texts(a, entries, core, g, rc, widths) is Err,
    ensures
        items_texts(a + b, entries, core, g, rc, widths) == items_texts(a, entries, core, g, rc, widths),
    decreases b.len(),
{
    if b.len() == 0 {
        assert(a + b =~= a);
    } else {
        assert((a + b).drop_last() =~= a + b.drop_last());
        lemma_items_err_concat(a, b.drop_last(), entries, core, g, rc, widths);
    }
}

proof fn lemma_items_err_prefix(
    items: Seq<ChannelItem>, m: int, entries: Seq<(String, FieldConfiguration)>, core: CoreDescription,
    g: ConnectionsParentGroup, rc: RoutingConfiguration, widths: Seq<CoordinateT>,
)
    requires
        0 <= m <= items.len(),
        items_texts(items.take(m), entries, core, g, rc, widths) is Err,
    ensures
        items_texts(items, entries, core, g, rc, widths) == items_texts(items.take(m), entries, core, g, rc, widths),
{
    assert(items =~= items.take(m) + items.skip(m));
    lemma_items_err_concat(items.take(m), items.skip(m), entries, core, g, rc, widths);
}

proof fn lemma_routed_concat(a: Seq<(RoutingType, Vec<Directions>)>, b: Seq<(RoutingType, Vec<Directions>)>)
    ensures
        routed_items(a + b) == routed_items(a) + routed_items(b),
    decreases b.len(),
{
    if b.len() == 0 {
        assert(a + b =~= a);
        assert(routed_items(a) + routed_items(b) =~= routed_items(a));
    } else {
        assert((a + b).drop_last() =~= a + b.drop_last());
        lemma_routed_concat(a, b.drop_last());
        assert(routed_items(a + b) =~= routed_items(a) + routed_items(b));
    }
}

proof fn lemma_offsets_after_concat(o: Offsets, a: Seq<(TextModel, Directions)>, b: Seq<(TextModel, Directions)>, widths: Seq<CoordinateT>)
    ensures
        offsets_after(o, a + b, widths) == offsets_after(offsets_after(o, a, widths), b, widths),
    decreases b.len(),
{
    if b.len() == 0 {
        assert(a + b =~= a);
    } else {
        assert((a + b).drop_last() =~= a + b.drop_last());
        lemma_offsets_after_concat(o, a, b.drop_last(), widths);
    }
}

proof fn lemma_appended_concat(l2: Seq<TextInformation>, l1: Seq<TextInformation>, l0: Seq<TextInformation>, a: Seq<(TextModel, Directions)>, b: Seq<(TextModel, Directions)>)
    requires
        appended(l1, l0, a),
        appended(l2, l1, b),
    ensures
        appended(l2, l0, a + b),
{
    assert(l2.subrange(0, l0.len() as int) =~= l0) by {
        assert(l2.subrange(0, l0.len() as int) =~= l1.subrange(0, l1.len() as int).subrange(0, l0.len() as int));
    }
    assert forall|k: int| 0 <= k < (a + b).len() implies models(#[trigger] l2[l0.len() + k], (a + b)[k].0) by {
        if k < a.len() {
            assert(l2[l0.len() + k] == l1.subrange(0, l1.len() as int)[l0.len() + k]);
            assert(l1[l0.len() + k] == l2[l0.len() + k]);
        } else {
            assert(l2[l1.len() + (k - a.len())] == l2[l0.len() + k]);
        }
    }
}

proof fn lemma_plain_prefix(core: CoreDescription, routes: Option<Seq<(RoutingType, Vec<Directions>)>>, k: nat, n: nat)
    requires
        k <= n,
    ensures
        plain_items(core, routes, k).len() <= plain_items(core, routes, n).len(),
        plain_items(core, routes, n).take(plain_items(core, routes, k).len() as int) == plain_items(core, routes, k),
    decreases n,
{
    if k < n {
        lemma_plain_prefix(core, routes, k, (n - 1) as nat);
        let pk = plain_items(core, routes, k);
        let pn1 = plain_items(core, routes, (n - 1) as nat);
        let pn = plain_items(core, routes, n);
        assert(pn.take(pn1.len() as int) =~= pn1);
        assert(pn.take(pk.len() as int) =~= pn1.take(pk.len() as int));
    } else {
        assert(plain_items(core, routes, n).take(plain_items(core, routes, n).len() as int) =~= plain_items(core, routes, n));
    }
}

/// Whether direction `d` is routed.
pub fn routes_contain(routes: &Vec<(RoutingType, Vec<Directions>)>, d: &Directions) -> (r: bool)
    ensures
        r == routes_have(routes@, *d),
{
    let mut found = false;
    let mut i: usize = 0;
    proof {
        assert(routes@.take(0) =~= Seq::<(RoutingType, Vec<Directions>)>::empty());
    }
    while i < routes.len()
        invariant
            i <= routes@.len(),
            found == routes_have(routes@.take(i as int), *d),
        decreases routes@.len() - i,
    {
        let dirs = &routes[i].1;
        let mut in_dirs = false;
        let mut j: usize = 0;
        while j < dirs.len()
            invariant
                j <= dirs@.len(),
                dirs@ == routes@[i as int].1@,
                in_dirs == exists|k: int| 0 <= k < j && dirs@[k] == *d,
            decreases dirs@.len() - j,
        {
            if dirs[j] == *d {
                in_dirs = true;
            }
            j = j + 1;
        }
        proof {
            assert(routes@.take(i + 1).drop_last() =~= routes@.take(i as int));
            assert(routes@.take(i + 1).last() == routes@[i as int]);
            if in_dirs {
                let k = choose|k: int| 0 <= k < j && dirs@[k] == *d;
                assert(dirs@.contains(*d));
            }
        }
        found = found || in_dirs;
        i = i + 1;
    }
    proof {
        assert(routes@.take(routes@.len() as int) =~= routes@);
    }
    found
}

/// The routing shown for a core: its routes, when a routing is requested and routes it.
pub open spec fn shown_routes(routes: Option<&Vec<(RoutingType, Vec<Directions>)>>, rc: Option<&RoutingConfiguration>) -> Option<Seq<(RoutingType, Vec<Directions>)>> {
    match (routes, rc) {
        (Some(rs), Some(_)) => Some(rs@),
        _ => None,
    }
}

/// The requested routing configuration (any, when there is none: nothing is routed then).
pub open spec fn routing_or_any(rc: Option<&RoutingConfiguration>) -> RoutingConfiguration {
    match rc {
        Some(c) => *c,
        None => arbitrary(),
    }
}

/// Generates the texts along the channels of `core` (see [`channel_items`]): first each
/// routed channel, with its load, in routing order, when a routing is requested and
/// `routes` holds the core's routes; then, by direction, each channel that is neither
/// routed nor an edge channel, with its configured attributes. Grows `offsets` to hold
/// every text and appends them to `links`; stops at the first channel whose texts
/// cannot be generated.
pub fn generate_channel_data(
    configuration: &FieldConfigurations,
    core: &CoreDescription,
    routes: Option<&Vec<(RoutingType, Vec<Directions>)>>,
    connections_group: &ConnectionsParentGroup,
    routing_configuration: Option<&RoutingConfiguration>,
    offsets: &mut Offsets,
    links: &mut Vec<TextInformation>,
    processed_base_configuration: &ProcessedBaseConfiguration,
) -> (r: Result<(), SVGError>)
    requires
        connections_group.wf(),
        connections_group.coords_ok(),
        processed_base_configuration.wf(),
    ensures
        match items_texts(channel_items(*core, shown_routes(routes, routing_configuration)), configuration.entries@, *core,
            *connections_group, routing_or_any(routing_configuration), processed_base_configuration.channel_text_widths@) {
            Ok(ts) => r is Ok && appended(final(links)@, old(links)@, ts)
                && *final(offsets) == offsets_after(*old(offsets), ts, processed_base_configuration.channel_text_widths@)
                && (offsets_bounded(*old(offsets)) ==> offsets_bounded(*final(offsets))),
            Err(f) => r matches Err(e) && fault_is(e, f, *connections_group, core.id),
        },
        covers(*final(offsets), *old(offsets)),
        keeps_prefix(final(links)@, old(links)@),
{
    let ghost entries = configuration.entries@;
    let ghost widths = processed_base_configuration.channel_text_widths@;
    let ghost g = *connections_group;
    let ghost shown = shown_routes(routes, routing_configuration);
    let ghost rcv = routing_or_any(routing_configuration);
    let ghost all = channel_items(*core, shown);
    let ghost mut done: Seq<ChannelItem> = Seq::empty();
    let ghost mut texts: Seq<(TextModel, Directions)> = Seq::empty();
    proof {
        assert(links@.subrange(0, links@.len() as int) =~= links@);
    }
    if let (Some(rs), Some(rc)) = (routes, routing_configuration) {
        let mut i: usize = 0;
        proof {
            assert(rs@.take(0) =~= Seq::<(RoutingType, Vec<Directions>)>::empty());
        }
        while i < rs.len()
            invariant
                shown == Some(rs@),
                shown == shown_routes(routes, routing_configuration),
                rcv == routing_or_any(routing_configuration),
                rcv == *rc,
                all == channel_items(*core, shown),
                i <= rs@.len(),
                done == routed_items(rs@.take(i as int)),
                items_texts(done, entries, *core, g, rcv, widths) == Ok::<Seq<(TextModel, Directions)>, ChannelFault>(texts),
                appended(links@, old(links)@, texts),
                *offsets == offsets_after(*old(offsets), texts, widths),
                offsets_bounded(*old(offsets)) ==> offsets_bounded(*offsets),
                covers(*offsets, *old(offsets)),
                keeps_prefix(links@, old(links)@),
                g == *connections_group,
                entries == configuration.entries@,
                widths == processed_base_configuration.channel_text_widths@,
                connections_group.wf(),
                connections_group.coords_ok(),
                processed_base_configuration.wf(),
            decreases rs@.len() - i,
        {
            let target = rs[i].0;
            let dirs = &rs[i].1;
            let ghost done_i = done;
            let mut j: usize = 0;
            proof {
                assert(routed_dirs(target, dirs@.take(0)) =~= Seq::<ChannelItem>::empty());
                assert(done_i + routed_dirs(target, dirs@.take(0)) =~= done_i);
            }
            while j < dirs.len()
                invariant
                    shown == Some(rs@),
                    shown == shown_routes(routes, routing_configuration),
                    rcv == routing_or_any(routing_configuration),
                    rcv == *rc,
                    all == channel_items(*core, shown),
                    i < rs@.len(),
                    target == rs@[i as int].0,
                    dirs@ == rs@[i as int].1@,
                    j <= dirs@.len(),
                    done_i == routed_items(rs@.take(i as int)),
                    done == done_i + routed_dirs(target, dirs@.take(j as int)),
                    items_texts(done, entries, *core, g, rcv, widths) == Ok::<Seq<(TextModel, Directions)>, ChannelFault>(texts),
                    appended(links@, old(links)@, texts),
                    *offsets == offsets_after(*old(offsets), texts, widths),
                    offsets_bounded(*old(offsets)) ==> offsets_bounded(*offsets),
                    covers(*offsets, *old(offsets)),
                    keeps_prefix(links@, old(links)@),
                    g == *connections_group,
                    entries == configuration.entries@,
                    widths == processed_base_configuration.channel_text_widths@,
                    connections_group.wf(),
                    connections_group.coords_ok(),
                    processed_base_configuration.wf(),
                decreases dirs@.len() - j,
            {
                let direction = dirs[j];
                let ghost item = ChannelItem::Routed(target, direction);
                let ghost links_before = links@;
                let ghost offsets_before = *offsets;
                let step = routed_channel_data(&target, &direction, configuration, core, connections_group, rc, offsets, links, processed_base_configuration);
                proof {
                    assert(done.push(item).drop_last() =~= done);
                    assert(routed_dirs(target, dirs@.take(j + 1)) =~= routed_dirs(target, dirs@.take(j as int)).push(item));
                    assert(done + seq![item] =~= done.push(item));
                }
                match step {
                    Err(e) => {
                        proof {
                            let rest = routed_dirs(target, dirs@.skip(j + 1)) + routed_items(rs@.skip(i + 1)) + plain_items(*core, shown, 4);
                            assert(rs@ =~= rs@.take(i as int) + rs@.skip(i as int));
                            lemma_routed_concat(rs@.take(i as int), rs@.skip(i as int));
                            assert(rs@.skip(i as int) =~= seq![rs@[i as int]] + rs@.skip(i + 1));
                            lemma_routed_concat(seq![rs@[i as int]], rs@.skip(i + 1));
                            assert(seq![rs@[i as int]].drop_last() =~= Seq::<(RoutingType, Vec<Directions>)>::empty());
                            assert(routed_items(Seq::<(RoutingType, Vec<Directions>)>::empty()) =~= Seq::<ChannelItem>::empty());
                            assert(routed_items(seq![rs@[i as int]]) =~= routed_dirs(target, dirs@));
                            assert(routed_dirs(target, dirs@) =~= routed_dirs(target, dirs@.take(j as int)).push(item) + routed_dirs(target, dirs@.skip(j + 1)));
                            assert(all =~= done.push(item) + rest);
                            assert(item_texts(item, entries, *core, g, rcv, widths) is Err);
                            assert(items_texts(done.push(item), entries, *core, g, rcv, widths) == item_texts(item, entries, *core, g, rcv, widths));
                            lemma_items_err_concat(done.push(item), rest, entries, *core, g, rcv, widths);
                            assert(items_texts(all, entries, *core, g, rcv, widths) == item_texts(item, entries, *core, g, rcv, widths));
                        }
                        return Err(e);
                    },
                    Ok(()) => {},
                }
                proof {
                    let ts = item_texts(item, entries, *core, g, rcv, widths)->Ok_0;
                    lemma_appended_concat(links@, links_before, old(links)@, texts, ts);
                    lemma_offsets_after_concat(*old(offsets), texts, ts, widths);
                    done = done.push(item);
                    texts = texts + ts;
                }
                j = j + 1;
            }
            proof {
                assert(dirs@.take(dirs@.len() as int) =~= dirs@);
                assert(rs@.take(i + 1).drop_last() =~= rs@.take(i as int));
                assert(rs@.take(i + 1).last() == rs@[i as int]);
            }
            i = i + 1;
        }
        proof {
            assert(rs@.take(rs@.len() as int) =~= rs@);
        }
    }
    proof {
        assert(done == routes_items(shown));
        assert(done + plain_items(*core, shown, 0) =~= done);
    }
    let ghost routed_done = done;
    let all_dirs: [Directions; 4] = [Directions::North, Directions::East, Directions::South, Directions::West];
    let applies = routes.is_some() && routing_configuration.is_some();
    let mut k: usize = 0;
    while k < 4
        invariant
            k <= 4,
            all_dirs@ == all_directions(),
            applies == shown is Some,
            shown == shown_routes(routes, routing_configuration),
            rcv == routing_or_any(routing_configuration),
            all == channel_items(*core, shown),
            routed_done == routes_items(shown),
            done == routed_done + plain_items(*core, shown, k as nat),
            items_texts(done, entries, *core, g, rcv, widths) == Ok::<Seq<(TextModel, Directions)>, ChannelFault>(texts),
            appended(links@, old(links)@, texts),
            *offsets == offsets_after(*old(offsets), texts, widths),
            offsets_bounded(*old(offsets)) ==> offsets_bounded(*offsets),
            covers(*offsets, *old(offsets)),
            keeps_prefix(links@, old(links)@),
            g == *connections_group,
            entries == configuration.entries@,
            widths == processed_base_configuration.channel_text_widths@,
            connections_group.wf(),
            connections_group.coords_ok(),
            processed_base_configuration.wf(),
        decreases 4 - k,
    {
        let direction = all_dirs[k];
        let routed = match routes {
            Some(rs) => applies && routes_contain(rs, &direction),
            None => false,
        };
        let shows = core.channel(&direction).is_some() && !routed && !direction_leaves_matrix(&core.matrix_edge, &direction);
        proof {
            assert(shows == shows_attributes(*core, shown, direction));
            assert(all_directions()[(k + 1) - 1] == direction);
        }
        if shows {
            let ghost item = ChannelItem::Plain(direction);
            let ghost links_before = links@;
            let step = plain_channel_data(&direction, configuration, core, connections_group, offsets, links, processed_base_configuration);
            proof {
                assert(done.push(item).drop_last() =~= done);
                assert(plain_items(*core, shown, (k + 1) as nat) == plain_items(*core, shown, k as nat).push(item));
            }
            match step {
                Err(e) => {
                    proof {
                        lemma_plain_prefix(*core, shown, (k + 1) as nat, 4);
                        let m: int = done.len() as int + 1;
                        let p4 = plain_items(*core, shown, 4);
                        let pk1 = plain_items(*core, shown, (k + 1) as nat);
                        assert(all == routed_done + p4);
                        assert(p4.take(pk1.len() as int) == pk1);
                        assert forall|x: int| 0 <= x < m implies #[trigger] all.take(m)[x] == done.push(item)[x] by {
                            if x >= routed_done.len() {
                                assert(all[x] == p4[x - routed_done.len()]);
                                assert(p4[x - routed_done.len()] == p4.take(pk1.len() as int)[x - routed_done.len()]);
                            }
                        }
                        assert(all.take(m) =~= done.push(item));
                        assert(item_texts(item, entries, *core, g, rcv, widths) is Err);
                        assert(items_texts(done.push(item), entries, *core, g, rcv, widths) == item_texts(item, entries, *core, g, rcv, widths));
                        lemma_items_err_prefix(all, m, entries, *core, g, rcv, widths);
                        assert(items_texts(all, entries, *core, g, rcv, widths) == item_texts(item, entries, *core, g, rcv, widths));
                    }
                    return Err(e);
                },
                Ok(()) => {},
            }
            proof {
                let ts = item_texts(item, entries, *core, g, rcv, widths)->Ok_0;
                lemma_appended_concat(links@, links_before, old(links)@, texts, ts);
                lemma_offsets_after_concat(*old(offsets), texts, ts, widths);
                done = done.push(item);
                texts = texts + ts;
            }
        }
        k = k + 1;
    }
    Ok(())
}

} // verus!
