//! Information shown over cores, routers and channels, as configured by the user.

pub mod utils;
pub mod text_information;
pub mod coordinates;
pub mod channel_data;

use vstd::prelude::*;
use crate::clip_path::{ClipPath, USE_FREEFORM_CLIP_PATH, core_clip_id, router_clip_id};
use crate::connections_group::ConnectionsParentGroup;
use crate::error::SVGError;
use crate::geometry::{HALF_SIDE_LENGTH, ROUTER_OFFSET, SIDE_LENGTH};
use crate::information_layer::channel_data::{
    appended, channel_items, fault_is, offsets_bounded, generate_channel_data, items_texts, offsets_after, routing_or_any, shown_routes,
};
use crate::information_layer::coordinates::{coordinates_model, coordinates_pair, make_coordinates, unsupported_coordinates_message};
use crate::information_layer::text_information::{TextInformation, models};
use crate::information_layer::utils::{
    fill_override, fill_rule, fill_rules, generate_with_id, has_fill, information_lines, line_model,
};
use crate::offsets::Offsets;
use crate::processing_group::{ProcessingGroup, in_i32};
use crate::render_settings::{Configuration, FieldConfigurations, FieldKeys, FontSize, ProcessedBaseConfiguration, RoutingConfiguration};
use crate::system::{CoreDescription, Directions, RoutingType};
use crate::text::{push_str, string_of};

verus! {

/// Filter that puts a background behind the texts of a group whose element is filled.
pub const TEXT_GROUP_FILTER: &'static str = "url(#textBackground)";
/// Distance of a group's first text from the element's border.
pub const OFFSET_FROM_BORDER: i32 = 1;
/// Vertical distance between the lines of a group's texts.
pub const FONT_SIZE_WITH_OFFSET: i32 = 18;

/// The `<g>` of the texts over a core or a router.
#[derive(Debug)]
pub struct ProcessingInformation {
    pub clip_path: String,
    pub information: Vec<TextInformation>,
    pub filter: Option<&'static str>,
}

impl ProcessingInformation {
    /// No text, no clip path, no filter.
    pub fn empty() -> (r: Self)
        ensures
            r.clip_path@.len() == 0,
            r.information@.len() == 0,
            r.filter is None,
    {
        ProcessingInformation { clip_path: String::new(), information: Vec::new(), filter: None }
    }
}

/// The `<g>` of everything shown over one core: its coordinates, the texts over the core
/// and over its router, and the texts along its channels.
#[derive(Debug)]
pub struct InformationLayer {
    pub clip_path: &'static str,
    pub core_group: ProcessingInformation,
    pub router_group: ProcessingInformation,
    pub coordinates: Option<TextInformation>,
    pub links_load: Vec<TextInformation>,
}

/// `g` shows the lines of element `id` (drawn from `(x, y)`, with attributes `attrs`)
/// as configured, is clipped by `clip` and has the text background exactly when a fill
/// applies.
pub open spec fn group_shows(
    g: ProcessingInformation,
    x: int,
    y: int,
    configuration: FieldConfigurations,
    fills: Map<u8, String>,
    id: u8,
    attrs: Seq<(String, String)>,
    keys: FieldKeys,
    font_size: FontSize,
    clip: Seq<char>,
) -> bool {
    let lines = information_lines(configuration, id, attrs, keys);
    &&& g.information@.len() == lines.len()
    &&& forall|k: int| 0 <= k < lines.len() ==> models(#[trigger] g.information@[k], line_model(x, y, k, lines[k], font_size, "start"))
    &&& g.clip_path@ == clip
    &&& g.filter == (if has_fill(configuration.entries@, attrs, keys) || fill_override(fills, id) is Some {
        Some(TEXT_GROUP_FILTER)
    } else {
        None
    })
}

/// The CSS rules that fill element `id` (whose id prefix is `variant`): those of the
/// configured fills, then the user's fill.
pub open spec fn element_css(configuration: FieldConfigurations, fills: Map<u8, String>, id: u8, variant: Seq<char>, attrs: Seq<(String, String)>, keys: FieldKeys) -> Seq<char> {
    fill_rules(configuration.entries@, attrs, keys, variant + crate::text::nat_str(id as nat))
        + match fill_override(fills, id) {
            Some(c) => fill_rule(variant + crate::text::nat_str(id as nat), c),
            None => Seq::empty(),
        }
}

/// The texts of a group can be placed: its coordinates and its router's texts fit in an `i32`.
pub open spec fn layer_fits(pg: ProcessingGroup, rows: u8) -> bool {
    &&& in_i32(pg.core.move_coordinates.0 + HALF_SIDE_LENGTH)
    &&& in_i32(pg.core.move_coordinates.1 + SIDE_LENGTH)
    &&& in_i32(pg.coordinates.1 + 1)
    &&& in_i32(pg.coordinates.0 + 1)
    &&& in_i32(rows - pg.coordinates.0)
    &&& in_i32(pg.router.move_coordinates.1 - ROUTER_OFFSET)
}

/// The coordinates shown for the group `pg`, when configured and configured as coordinates.
pub open spec fn layer_coordinates(configuration: Configuration, rows: u8, pg: ProcessingGroup, keys: FieldKeys) -> Option<(int, int)> {
    match configuration.core_config.spec_get(keys.coordinates@) {
        Some(f) => coordinates_pair(f, rows, pg.coordinates.0 as int, pg.coordinates.1 as int),
        None => None,
    }
}

/// Coordinates are configured, but otherwise than as coordinates.
pub open spec fn coordinates_misconfigured(configuration: Configuration, rows: u8, pg: ProcessingGroup, keys: FieldKeys) -> bool {
    configuration.core_config.spec_get(keys.coordinates@) is Some && layer_coordinates(configuration, rows, pg, keys) is None
}

/// The texts along the channels of `core`, or why they cannot be generated.
pub open spec fn layer_channels(
    configuration: Configuration,
    core: CoreDescription,
    routes: Option<&Vec<(RoutingType, Vec<Directions>)>>,
    g: ConnectionsParentGroup,
    rc: Option<&RoutingConfiguration>,
    pbc: ProcessedBaseConfiguration,
) -> Result<Seq<(crate::information_layer::text_information::TextModel, Directions)>, crate::information_layer::channel_data::ChannelFault> {
    items_texts(channel_items(core, shown_routes(routes, rc)), configuration.channel_config.entries@, core, g, routing_or_any(rc),
        pbc.channel_text_widths@)
}

/// The layer of `core` can be generated.
pub open spec fn layer_succeeds(
    configuration: Configuration, rows: u8, core: CoreDescription, routes: Option<&Vec<(RoutingType, Vec<Directions>)>>,
    pg: ProcessingGroup, g: ConnectionsParentGroup, rc: Option<&RoutingConfiguration>, pbc: ProcessedBaseConfiguration, keys: FieldKeys,
) -> bool {
    !coordinates_misconfigured(configuration, rows, pg, keys) && layer_channels(configuration, core, routes, g, rc, pbc) is Ok
}

/// `e` is the error that generating the layer of `core` raises.
pub open spec fn layer_error(
    e: SVGError,
    configuration: Configuration, rows: u8, core: CoreDescription, routes: Option<&Vec<(RoutingType, Vec<Directions>)>>,
    pg: ProcessingGroup, g: ConnectionsParentGroup, rc: Option<&RoutingConfiguration>, pbc: ProcessedBaseConfiguration, keys: FieldKeys,
) -> bool {
    if coordinates_misconfigured(configuration, rows, pg, keys) {
        e.error_kind matches crate::error::SVGErrorKind::GenerationError(m)
            && m@ == unsupported_coordinates_message(configuration.core_config.spec_get(keys.coordinates@)->Some_0)
    } else {
        layer_channels(configuration, core, routes, g, rc, pbc) matches Err(fault) && fault_is(e, fault, g, core.id)
    }
}

/// The CSS rules that the layer of `core` adds: the core's fills, then its router's.
pub open spec fn layer_css(configuration: Configuration, core: CoreDescription, keys: FieldKeys) -> Seq<char> {
    element_css(configuration.core_config, configuration.core_fills@, core.id, core.variant@, core.attributes@, keys)
        + element_css(configuration.router_config, configuration.router_fills@, core.router.id, core.router.variant@,
            core.router.attributes@, keys)
}

/// `layer` shows what is configured for `core`, drawn as `pg`: its coordinates, the
/// texts over the core and its router, and the texts along its channels.
pub open spec fn layer_shows(
    layer: InformationLayer,
    configuration: Configuration, rows: u8, core: CoreDescription, routes: Option<&Vec<(RoutingType, Vec<Directions>)>>,
    pg: ProcessingGroup, g: ConnectionsParentGroup, rc: Option<&RoutingConfiguration>, pbc: ProcessedBaseConfiguration, keys: FieldKeys,
) -> bool {
    let (core_x, core_y) = pg.core.move_coordinates;
    let (router_x, router_y) = pg.router.move_coordinates;
    &&& layer.clip_path == USE_FREEFORM_CLIP_PATH
    &&& match layer_coordinates(configuration, rows, pg, keys) {
        Some(p) => layer.coordinates matches Some(t)
            && models(t, coordinates_model(core_x as int, core_y as int, p, pbc.attribute_font_size)),
        None => layer.coordinates is None,
    }
    &&& group_shows(layer.core_group, core_x as int, core_y as int, configuration.core_config,
        configuration.core_fills@, core.id, core.attributes@, keys, pbc.attribute_font_size,
        "url(#"@ + core_clip_id(core.id) + ")"@)
    &&& group_shows(layer.router_group, router_x as int, router_y - ROUTER_OFFSET, configuration.router_config,
        configuration.router_fills@, core.router.id, core.router.attributes@, keys,
        pbc.attribute_font_size, "url(#"@ + router_clip_id(core.router.id) + ")"@)
    &&& appended(layer.links_load@, Seq::empty(), layer_channels(configuration, core, routes, g, rc, pbc)->Ok_0)
}

fn url_of(id: String) -> (r: String)
    ensures
        r@ == "url(#"@ + id@ + ")"@,
{
    let mut s = string_of("url(#");
    push_str(&mut s, id.as_str());
    push_str(&mut s, ")");
    proof {
        assert(s@ =~= "url(#"@ + id@ + ")"@);
    }
    s
}

impl InformationLayer {
    /// The information shown over `core`, drawn as `processing_group` in a matrix of
    /// `rows` rows: its coordinates, when configured; its texts and those of its router,
    /// as configured, each group clipped by its element's clip path; the texts along its
    /// channels (see [`generate_channel_data`]). The fill rules of the core, then of the
    /// router, are appended to `css`, and `offsets` grow to hold the channel texts.
    /// Fails when coordinates are configured otherwise than as coordinates, or when the
    /// texts of a channel cannot be generated.
    pub fn new(
        rows: u8,
        configuration: &Configuration,
        core: &CoreDescription,
        routes: Option<&Vec<(RoutingType, Vec<Directions>)>>,
        css: &mut String,
        processing_group: &ProcessingGroup,
        connections_group: &ConnectionsParentGroup,
        routing_configuration: Option<&RoutingConfiguration>,
        offsets: &mut Offsets,
        processed_base_configuration: &ProcessedBaseConfiguration,
        keys: &FieldKeys,
    ) -> (r: Result<Self, SVGError>)
        requires
            configuration.wf(),
            connections_group.wf(),
            connections_group.coords_ok(),
            processed_base_configuration.wf(),
            layer_fits(*processing_group, rows),
        ensures
            match r {
                Ok(layer) => {
                    &&& layer_succeeds(*configuration, rows, *core, routes, *processing_group, *connections_group,
                        routing_configuration, *processed_base_configuration, *keys)
                    &&& layer_shows(layer, *configuration, rows, *core, routes, *processing_group, *connections_group,
                        routing_configuration, *processed_base_configuration, *keys)
                    &&& final(css)@ == old(css)@ + layer_css(*configuration, *core, *keys)
                    &&& *final(offsets) == offsets_after(*old(offsets),
                        layer_channels(*configuration, *core, routes, *connections_group, routing_configuration, *processed_base_configuration)->Ok_0,
                        processed_base_configuration.channel_text_widths@)
                    &&& (offsets_bounded(*old(offsets)) ==> offsets_bounded(*final(offsets)))
                },
                Err(e) => !layer_succeeds(*configuration, rows, *core, routes, *processing_group, *connections_group,
                        routing_configuration, *processed_base_configuration, *keys)
                    && layer_error(e, *configuration, rows, *core, routes, *processing_group, *connections_group,
                        routing_configuration, *processed_base_configuration, *keys),
            },
    {
        let (r, c) = processing_group.coordinates;
        let (core_x, core_y) = processing_group.core.move_coordinates;
        let coordinates = make_coordinates(&configuration.core_config, &core_x, &core_y, rows, &r, &c, processed_base_configuration, keys)?;
        let mut core_group = ProcessingInformation::empty();
        let ghost cg0 = core_group;
        generate_with_id(core_x, core_y, &configuration.core_config, &configuration.core_fills, core.id, core.variant.as_str(),
            &core.attributes, &mut core_group, "start", css, processed_base_configuration, keys);
        core_group.clip_path = url_of(ClipPath::make_core_id(&core.id));
        let ghost css1 = css@;
        let (router_x, router_y) = processing_group.router.move_coordinates;
        let mut router_group = ProcessingInformation::empty();
        let ghost rg0 = router_group;
        generate_with_id(router_x, router_y - ROUTER_OFFSET, &configuration.router_config, &configuration.router_fills, core.router.id,
            core.router.variant.as_str(), &core.router.attributes, &mut router_group, "start", css, processed_base_configuration, keys);
        router_group.clip_path = url_of(ClipPath::make_router_id(&core.router.id));
        let mut links_load: Vec<TextInformation> = Vec::new();
        generate_channel_data(&configuration.channel_config, core, routes, connections_group, routing_configuration, offsets,
            &mut links_load, processed_base_configuration)?;
        proof {
            let core_lines = information_lines(configuration.core_config, core.id, core.attributes@, *keys);
            assert forall|k: int| 0 <= k < core_lines.len() implies models(#[trigger] core_group.information@[k],
                line_model(core_x as int, core_y as int, k, core_lines[k], processed_base_configuration.attribute_font_size, "start")) by {
                assert(models(core_group.information@[cg0.information@.len() + k],
                    line_model(core_x as int, core_y as int, k, core_lines[k], processed_base_configuration.attribute_font_size, "start")));
            }
            let router_lines = information_lines(configuration.router_config, core.router.id, core.router.attributes@, *keys);
            assert forall|k: int| 0 <= k < router_lines.len() implies models(#[trigger] router_group.information@[k],
                line_model(router_x as int, router_y - ROUTER_OFFSET, k, router_lines[k], processed_base_configuration.attribute_font_size, "start")) by {
                assert(models(router_group.information@[rg0.information@.len() + k],
                    line_model(router_x as int, router_y - ROUTER_OFFSET, k, router_lines[k], processed_base_configuration.attribute_font_size, "start")));
            }
            assert(css@ =~= old(css)@
                + element_css(configuration.core_config, configuration.core_fills@, core.id, core.variant@, core.attributes@, *keys)
                + element_css(configuration.router_config, configuration.router_fills@, core.router.id, core.router.variant@,
                    core.router.attributes@, *keys));
        }
        Ok(InformationLayer {
            clip_path: USE_FREEFORM_CLIP_PATH,
            core_group,
            router_group,
            coordinates,
            links_load,
        })
    }
}

} // verus!
