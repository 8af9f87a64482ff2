//! The SVG of a many-core system and how the information it shows is updated.

use vstd::prelude::*;
use crate::arith::sat_add;
use crate::connections_group::ConnectionsParentGroup;
use crate::defs::Defs;
use crate::error::{SVGError, SVGErrorKind, no_processing_group, numbered};
use crate::geometry::CoordinateT;
use crate::information_layer::{InformationLayer, layer_css, layer_channels, layer_error, layer_fits, layer_shows, layer_succeeds};
use crate::information_layer::channel_data::{offsets_after, offsets_bounded};
use crate::offsets::Offsets;
use crate::processing_group::{ProcessingGroup, ProcessingParentGroup};
use crate::render_settings::{Configuration, FieldConfiguration, FieldKeys, ProcessedBaseConfiguration, UpdateRequest, key_index};
use crate::sinks_sources_layer::SinksSourcesGroup;
use crate::style::{Style, base_style, default_style};
use crate::system::{CoreDescription, Directions, ManycoreDescription, RoutingMap, RoutingType, routes_of};
use crate::tasks_group::TasksGroup;
use crate::view_box::{TopLeft, ViewBox, extended_bottom, extended_left, fitted};

verus! {

/// Id of the group of information layers.
pub const INFORMATION_GROUP_ID: &'static str = "information";
/// Id of the main group.
pub const MAIN_GROUP_ID: &'static str = "mainGroup";
/// Namespace of SVG elements.
pub const SVG_NAMESPACE: &'static str = "http://www.w3.org/2000/svg";

/// The `<g>` of every core's information layer.
#[derive(Debug)]
pub struct InformationGroup {
    pub groups: Vec<InformationLayer>,
    pub id: &'static str,
}

impl InformationGroup {
    /// No layer yet.
    pub fn new(number_of_cores: &usize) -> (r: Self)
        ensures
            r.groups@.len() == 0,
            r.id == INFORMATION_GROUP_ID,
    {
        InformationGroup { groups: Vec::with_capacity(*number_of_cores), id: INFORMATION_GROUP_ID }
    }
}

/// The main `<g>`: cores and routers, channels, information, edge routers and tasks.
#[derive(Debug)]
pub struct Root {
    pub id: &'static str,
    pub processing_group: ProcessingParentGroup,
    pub connections_group: ConnectionsParentGroup,
    pub information_group: InformationGroup,
    pub sinks_sources_group: SinksSourcesGroup,
    pub tasks_group: TasksGroup,
}

/// The SVG of a many-core system, with what its updates need: the matrix's size, the
/// `viewBox` without and with edge routers, the values derived from the base
/// configuration, and the embedded font.
#[derive(Debug)]
pub struct SVG {
    pub xmlns_svg: &'static str,
    pub xmlns: &'static str,
    pub preserve_aspect_ratio: &'static str,
    pub class: &'static str,
    pub view_box: ViewBox,
    pub defs: Defs,
    pub style: Style,
    pub root: Root,
    pub rows: u8,
    pub width: CoordinateT,
    pub height: CoordinateT,
    pub top_left: TopLeft,
    pub base_view_box: ViewBox,
    pub borders_view_box: ViewBox,
    pub processed_base_configuration: ProcessedBaseConfiguration,
    pub font_base64: String,
}

/// What an update sends back: the style sheet, the information layers and the
/// `viewBox`, and the whole SVG when it was generated anew.
#[derive(Debug)]
pub struct UpdateResult {
    pub style: String,
    pub information_group: String,
    pub view_box: String,
    pub svg: Option<String>,
}

impl UpdateResult {
    /// The result with the given parts.
    pub fn new(style: String, information_group: String, view_box: String, svg: Option<String>) -> (r: Self)
        ensures
            r.style == style,
            r.information_group == information_group,
            r.view_box == view_box,
            r.svg == svg,
    {
        UpdateResult { style, information_group, view_box, svg }
    }
}

impl SVG {
    /// What an update keeps valid: the channels are recorded and near the origin, the
    /// width tables are complete, every core's texts can be placed, and the `viewBox`es
    /// an update starts from can be fitted.
    pub open spec fn wf(&self) -> bool {
        &&& self.root.connections_group.wf()
        &&& self.root.connections_group.coords_ok()
        &&& self.processed_base_configuration.wf()
        &&& forall|i: int| 0 <= i < self.root.processing_group.g@.len() ==> layer_fits(#[trigger] self.root.processing_group.g@[i], self.rows)
        &&& self.base_view_box.x != i32::MIN && self.base_view_box.y != i32::MIN
        &&& self.borders_view_box.x != i32::MIN && self.borders_view_box.y != i32::MIN
    }

    /// An empty SVG of a `rows` by `columns` matrix, `width` by `height` from `top_left`,
    /// showing nothing but its default style; every `viewBox` starts as the matrix's.
    pub fn new(
        number_of_cores: &usize,
        rows: u8,
        columns: u8,
        width: CoordinateT,
        height: CoordinateT,
        top_left: TopLeft,
        processed_base_configuration: ProcessedBaseConfiguration,
        font_base64: String,
    ) -> (r: Self)
        requires
            (rows + columns) * 2 <= u8::MAX,
        ensures
            r.width == width,
            r.height == height,
            r.rows == rows,
            r.top_left == top_left,
            r.view_box == (ViewBox { x: top_left.x, y: top_left.y, width, height }),
            r.base_view_box == r.view_box,
            r.borders_view_box == r.view_box,
            r.xmlns_svg == SVG_NAMESPACE,
            r.xmlns == SVG_NAMESPACE,
            r.preserve_aspect_ratio == "xMidYMid meet",
            r.class == "mx-auto",
            r.defs.clip_paths@.len() == 0,
            r.style.css@ == default_style(font_base64@),
            r.root.id == MAIN_GROUP_ID,
            r.root.processing_group.g@.len() == 0,
            r.root.connections_group.wf(),
            r.root.connections_group.connections.path@.len() == 0,
            r.root.connections_group.edge_connections.source@.len() == 0,
            r.root.connections_group.edge_connections.sink@.len() == 0,
            r.root.connections_group.core_connections_map@ == Map::<u16, crate::connections_group::ConnectionType>::empty(),
            r.root.information_group.groups@.len() == 0,
            r.root.sinks_sources_group.g@.len() == 0,
            r.root.tasks_group.tasks@ == Map::<u16, crate::tasks_group::Task>::empty(),
            r.root.tasks_group.variant.0,
            r.processed_base_configuration == processed_base_configuration,
            r.font_base64 == font_base64,
    {
        let view_box = ViewBox::new(width, height, &top_left);
        let style = Style::default_style(font_base64.as_str());
        SVG {
            xmlns_svg: SVG_NAMESPACE,
            xmlns: SVG_NAMESPACE,
            preserve_aspect_ratio: "xMidYMid meet",
            class: "mx-auto",
            view_box,
            defs: Defs::new(number_of_cores),
            style,
            root: Root {
                id: MAIN_GROUP_ID,
                processing_group: ProcessingParentGroup::new(number_of_cores),
                connections_group: ConnectionsParentGroup::new(),
                information_group: InformationGroup::new(number_of_cores),
                sinks_sources_group: SinksSourcesGroup::new(rows, columns),
                tasks_group: TasksGroup::new(),
            },
            rows,
            width,
            height,
            top_left,
            base_view_box: view_box,
            borders_view_box: view_box,
            processed_base_configuration,
            font_base64,
        }
    }

    /// Extends the current and the base `viewBox` to the left by `left`, and the width
    /// with them.
    pub fn extend_base_view_box_left(&mut self, left: CoordinateT)
        ensures
            final(self).view_box == extended_left(old(self).view_box, left),
            final(self).base_view_box == extended_left(old(self).base_view_box, left),
            final(self).width == sat_add_spec(old(self).width, left),
            *final(self) == (SVG { view_box: final(self).view_box, base_view_box: final(self).base_view_box, width: final(self).width, ..*old(self) }),
    {
        self.view_box.extend_left(left);
        self.base_view_box.extend_left(left);
        self.width = sat_add(self.width, left);
    }

    /// Extends the current and the base `viewBox` downwards by `bottom`, and the height
    /// with them.
    pub fn extend_base_view_box_bottom(&mut self, bottom: CoordinateT)
        ensures
            final(self).view_box == extended_bottom(old(self).view_box, bottom),
            final(self).base_view_box == extended_bottom(old(self).base_view_box, bottom),
            final(self).height == sat_add_spec(old(self).height, bottom),
            *final(self) == (SVG { view_box: final(self).view_box, base_view_box: final(self).base_view_box, height: final(self).height, ..*old(self) }),
    {
        self.view_box.extend_bottom(bottom);
        self.base_view_box.extend_bottom(bottom);
        self.height = sat_add(self.height, bottom);
    }

    /// Adds the freeform clip path, with the given polygon points, after the other clip paths.
    pub fn add_freeform_clip_path(&mut self, polygon_points: String)
        ensures
            final(self).defs.clip_paths@.len() == old(self).defs.clip_paths@.len() + 1,
            final(self).defs.clip_paths@.drop_last() == old(self).defs.clip_paths@,
            final(self).defs.clip_paths@.last().id@ == crate::clip_path::FREEFORM_CLIP_PATH_ID@,
            final(self).defs.clip_paths@.last().polygon.points == polygon_points,
            *final(self) == (SVG { defs: Defs { clip_paths: final(self).defs.clip_paths, ..old(self).defs }, ..*old(self) }),
    {
        self.defs.add_freeform_clip_path(polygon_points);
    }

    /// Removes the freeform clip path (id `crop`) when it is the last clip path; leaves
    /// the clip paths as they are otherwise.
    pub fn clear_freeform_clip_path(&mut self)
        ensures
            final(self).defs.clip_paths@ == if crate::defs::ends_with_freeform(old(self).defs.clip_paths@) {
                old(self).defs.clip_paths@.drop_last()
            } else {
                old(self).defs.clip_paths@
            },
            *final(self) == (SVG { defs: Defs { clip_paths: final(self).defs.clip_paths, ..old(self).defs }, ..*old(self) }),
    {
        self.defs.clear_freeform_clip_path();
    }
}

/// Saturating addition on `i32`, as a specification.
pub open spec fn sat_add_spec(a: i32, b: i32) -> i32 {
    crate::arith::clamp_i32(a + b) as i32
}

/// The routes of core `id` in `routing`, if any.
pub open spec fn core_routes(routing: Option<&RoutingMap>, id: u8) -> Option<&Vec<(RoutingType, Vec<Directions>)>> {
    match routing {
        Some(m) => match routes_of(m.routes@, id) {
            Some(v) => Some(&v),
            None => None,
        },
        None => None,
    }
}

/// A reference to the routing configuration, if any.
pub open spec fn opt_ref(o: &Option<crate::render_settings::RoutingConfiguration>) -> Option<&crate::render_settings::RoutingConfiguration> {
    match o {
        Some(c) => Some(&c),
        None => None,
    }
}

/// The configuration asks to show the edge routers.
pub open spec fn shows_edge_routers(c: Configuration, keys: FieldKeys) -> bool {
    c.channel_config.spec_get(keys.border_routers@) matches Some(FieldConfiguration::Boolean { value }) && value
}

/// Core `i` of `cores` gets its information layer in `svg`: its group exists and its
/// layer can be generated.
pub open spec fn core_layer_succeeds(
    svg: SVG, cfg: Configuration, cores: Seq<CoreDescription>, i: int, routing: Option<&RoutingMap>,
    rc: Option<crate::render_settings::RoutingConfiguration>, keys: FieldKeys,
) -> bool {
    &&& i < svg.root.processing_group.g@.len()
    &&& layer_succeeds(cfg, svg.rows, cores[i], core_routes(routing, cores[i].id), svg.root.processing_group.g@[i],
        svg.root.connections_group, opt_ref(&rc), svg.processed_base_configuration, keys)
}

/// `e` is the error that generating the layer of core `i` raises.
pub open spec fn core_layer_error(
    e: SVGError, svg: SVG, cfg: Configuration, cores: Seq<CoreDescription>, i: int, routing: Option<&RoutingMap>,
    rc: Option<crate::render_settings::RoutingConfiguration>, keys: FieldKeys,
) -> bool {
    if i >= svg.root.processing_group.g@.len() {
        e.error_kind matches SVGErrorKind::GenerationError(m) && m@ == numbered(
            "Could not retrieve SVG group for core with ID "@, i as nat,
            ". Something weent wrong generating the SVG, please try again."@)
    } else {
        layer_error(e, cfg, svg.rows, cores[i], core_routes(routing, cores[i].id), svg.root.processing_group.g@[i],
            svg.root.connections_group, opt_ref(&rc), svg.processed_base_configuration, keys)
    }
}

/// The CSS rules that the layers of `cores` add, in order.
pub open spec fn cores_css(cfg: Configuration, cores: Seq<CoreDescription>, keys: FieldKeys) -> Seq<char>
    decreases cores.len(),
{
    if cores.len() == 0 {
        Seq::empty()
    } else {
        cores_css(cfg, cores.drop_last(), keys) + layer_css(cfg, cores.last(), keys)
    }
}

/// No offset: the origin on every side.
pub open spec fn zero_offsets() -> Offsets {
    Offsets { left: 0, top: 0, right: 0, bottom: 0 }
}

/// The offsets that the channel texts of `cores` need, from the origin.
pub open spec fn cores_offsets(
    svg: SVG, cfg: Configuration, cores: Seq<CoreDescription>, routing: Option<&RoutingMap>,
    rc: Option<crate::render_settings::RoutingConfiguration>,
) -> Offsets
    decreases cores.len(),
{
    if cores.len() == 0 {
        zero_offsets()
    } else {
        offsets_after(cores_offsets(svg, cfg, cores.drop_last(), routing, rc),
            layer_channels(cfg, cores.last(), core_routes(routing, cores.last().id), svg.root.connections_group, opt_ref(&rc),
                svg.processed_base_configuration)->Ok_0,
            svg.processed_base_configuration.channel_text_widths@)
    }
}

/// `new` is `old` without the edge router setting, which is taken out of its channel
/// configuration; the rest stays.
pub open spec fn border_setting_taken(new: Configuration, old: Configuration, keys: FieldKeys) -> bool {
    &&& new.wf()
    &&& new.core_config == old.core_config
    &&& new.router_config == old.router_config
    &&& new.core_fills == old.core_fills
    &&& new.router_fills == old.router_fills
    &&& new.channel_config.spec_get(keys.border_routers@).is_none()
    &&& old.channel_config.spec_get(keys.border_routers@).is_none() ==> new.channel_config.entries@ == old.channel_config.entries@
    &&& old.channel_config.spec_get(keys.border_routers@) is Some ==> new.channel_config.entries@
        == old.channel_config.entries@.remove(key_index(old.channel_config.entries@, keys.border_routers@).unwrap())
}

/// `new` is `old` with the given information layers, style and `viewBox`.
pub open spec fn updated(new: SVG, old: SVG) -> bool {
    new == (SVG {
        view_box: new.view_box,
        style: new.style,
        root: Root {
            information_group: InformationGroup { groups: new.root.information_group.groups, ..old.root.information_group },
            ..old.root
        },
        ..old
    })
}

impl SVG {
    /// Regenerates the information shown, as `configuration` asks (`request` holds what
    /// was noted before the routing, `routing` the computed routes). Takes the edge
    /// router setting out of the channel configuration: the style becomes the base one,
    /// which shows edge routers, and the `viewBox` the one that holds them when it asks
    /// to show them; the default style and the base `viewBox` otherwise. Then, when
    /// anything was configured, every core in order gets its information layer, whose
    /// fill rules follow the style, and the `viewBox` grows to hold every channel text.
    /// Fails at the first core whose layer cannot be generated.
    pub fn update_configurable_information(
        &mut self,
        manycore: &ManycoreDescription,
        configuration: &mut Configuration,
        request: &UpdateRequest,
        routing: Option<&RoutingMap>,
        keys: &FieldKeys,
    ) -> (r: Result<(), SVGError>)
        requires
            old(self).wf(),
            old(configuration).wf(),
        ensures
            border_setting_taken(*final(configuration), *old(configuration), *keys),
            match r {
                Ok(()) => {
                    let cores = manycore.cores@;
                    let shows = shows_edge_routers(*old(configuration), *keys);
                    let layers = final(self).root.information_group.groups@;
                    &&& request.not_empty ==> forall|i: int| 0 <= i < cores.len() ==>
                        core_layer_succeeds(*old(self), *final(configuration), cores, i, routing, request.routing_configuration, *keys)
                    &&& layers.len() == (if request.not_empty { cores.len() } else { 0 })
                    &&& forall|i: int| 0 <= i < layers.len() ==> layer_shows(#[trigger] layers[i], *final(configuration), old(self).rows,
                        cores[i], core_routes(routing, cores[i].id), old(self).root.processing_group.g@[i],
                        old(self).root.connections_group, opt_ref(&request.routing_configuration), old(self).processed_base_configuration, *keys)
                    &&& final(self).style.css@ == (if shows { base_style(old(self).font_base64@) } else { default_style(old(self).font_base64@) })
                        + (if request.not_empty { cores_css(*final(configuration), cores, *keys) } else { Seq::empty() })
                    &&& final(self).view_box == fitted(
                        if shows { old(self).borders_view_box } else { old(self).base_view_box },
                        if request.not_empty {
                            cores_offsets(*old(self), *final(configuration), cores, routing, request.routing_configuration)
                        } else {
                            zero_offsets()
                        })
                    &&& updated(*final(self), *old(self))
                },
                Err(e) => request.not_empty && exists|i: int| 0 <= i < manycore.cores@.len()
                    && !core_layer_succeeds(*old(self), *final(configuration), manycore.cores@, i, routing, request.routing_configuration, *keys)
                    && (forall|j: int| 0 <= j < i ==> core_layer_succeeds(*old(self), *final(configuration), manycore.cores@, j, routing,
                        request.routing_configuration, *keys))
                    && core_layer_error(e, *old(self), *final(configuration), manycore.cores@, i, routing, request.routing_configuration, *keys),
            },
    {
        let ghost start = *old(self);
        self.root.information_group.groups = Vec::new();
        self.view_box.restore_from(&self.base_view_box);
        let show_border_routers = match configuration.channel_config.remove(keys.border_routers.as_str()) {
            Some(FieldConfiguration::Boolean { value }) => value,
            _ => false,
        };
        if show_border_routers {
            self.style = Style::base(self.font_base64.as_str());
            let borders = self.borders_view_box;
            let _ = self.view_box.swap(borders.x, borders.y, borders.width, borders.height);
        } else {
            self.style = Style::default_style(self.font_base64.as_str());
        }
        let ghost pre = *self;
        let ghost cfg = *configuration;
        proof {
            assert(show_border_routers == shows_edge_routers(*old(configuration), *keys));
            assert(self.view_box == if show_border_routers { old(self).borders_view_box } else { old(self).base_view_box });
            assert(border_setting_taken(cfg, *old(configuration), *keys));
        }
        let ghost cores = manycore.cores@;
        let rc = request.routing_configuration.as_ref();
        proof {
            assert(rc == opt_ref(&request.routing_configuration));
            assert(cores.take(0) =~= Seq::<CoreDescription>::empty());
            assert(self.style.css@ + cores_css(cfg, cores.take(0), *keys) =~= self.style.css@);
        }
        let mut offsets = Offsets::zero();
        if request.not_empty {
            let mut i: usize = 0;
            while i < manycore.cores.len()
                invariant
                    i <= cores.len(),
                    cores == manycore.cores@,
                    request.not_empty,
                    start == *old(self),
                    self.view_box == pre.view_box,
                    cfg == *configuration,
                    border_setting_taken(cfg, *old(configuration), *keys),
                    self.view_box.x != i32::MIN && self.view_box.y != i32::MIN,
                    rc == opt_ref(&request.routing_configuration),
                    start.wf(),
                    pre.root.processing_group == start.root.processing_group,
                    pre.root.connections_group == start.root.connections_group,
                    pre.rows == start.rows,
                    pre.processed_base_configuration == start.processed_base_configuration,
                    updated(pre, start),
                    updated(*self, pre),
                    self.style.css@ == pre.style.css@ + cores_css(cfg, cores.take(i as int), *keys),
                    self.root.information_group.groups@.len() == i,
                    forall|j: int| 0 <= j < i ==> layer_shows(#[trigger] self.root.information_group.groups@[j], cfg, start.rows,
                        cores[j], core_routes(routing, cores[j].id), start.root.processing_group.g@[j],
                        start.root.connections_group, rc, start.processed_base_configuration, *keys),
                    forall|j: int| 0 <= j < i ==> core_layer_succeeds(start, cfg, cores, j, routing, request.routing_configuration, *keys),
                    offsets == cores_offsets(start, cfg, cores.take(i as int), routing, request.routing_configuration),
                    offsets_bounded(offsets),
                decreases cores.len() - i,
            {
                let core = &manycore.cores[i];
                if i >= self.root.processing_group.g.len() {
                    let e = no_processing_group(i);
                    proof {
                        assert(!core_layer_succeeds(start, cfg, cores, i as int, routing, request.routing_configuration, *keys));
                        assert(core_layer_error(e, start, cfg, cores, i as int, routing, request.routing_configuration, *keys));
                        assert(0 <= i < manycore.cores@.len()
                            && !core_layer_succeeds(start, cfg, cores, i as int, routing, request.routing_configuration, *keys)
                            && (forall|j: int| 0 <= j < i ==> core_layer_succeeds(start, cfg, cores, j, routing, request.routing_configuration, *keys))
                            && core_layer_error(e, start, cfg, cores, i as int, routing, request.routing_configuration, *keys));
                    }
                    return Err(e);
                }
                let routes = match routing {
                    Some(m) => m.get(core.id),
                    None => None,
                };
                proof {
                    assert(layer_fits(start.root.processing_group.g@[i as int], start.rows));
                    assert(routes == core_routes(routing, core.id));
                }
                let ghost layers_before = self.root.information_group.groups@;
                let ghost offsets_before = offsets;
                let layer = InformationLayer::new(
                    self.rows,
                    configuration,
                    core,
                    routes,
                    &mut self.style.css,
                    &self.root.processing_group.g[i],
                    &self.root.connections_group,
                    rc,
                    &mut offsets,
                    &self.processed_base_configuration,
                    keys,
                );
                match layer {
                    Ok(layer) => {
                        self.root.information_group.groups.push(layer);
                        proof {
                            assert(cores.take(i + 1).drop_last() =~= cores.take(i as int));
                            assert(cores.take(i + 1).last() == cores[i as int]);
                            assert forall|j: int| 0 <= j < i + 1 implies layer_shows(#[trigger] self.root.information_group.groups@[j], cfg, start.rows,
                                cores[j], core_routes(routing, cores[j].id), start.root.processing_group.g@[j],
                                start.root.connections_group, rc, start.processed_base_configuration, *keys) by {
                                if j < i {
                                    assert(self.root.information_group.groups@[j] == layers_before[j]);
                                }
                            }
                            assert(core_layer_succeeds(start, cfg, cores, i as int, routing, request.routing_configuration, *keys));
                        }
                    },
                    Err(e) => {
                        proof {
                            assert(!core_layer_succeeds(start, cfg, cores, i as int, routing, request.routing_configuration, *keys));
                            assert(core_layer_error(e, start, cfg, cores, i as int, routing, request.routing_configuration, *keys));
                            assert(0 <= i < manycore.cores@.len()
                                && !core_layer_succeeds(start, cfg, cores, i as int, routing, request.routing_configuration, *keys)
                                && (forall|j: int| 0 <= j < i ==> core_layer_succeeds(start, cfg, cores, j, routing, request.routing_configuration, *keys))
                                && core_layer_error(e, start, cfg, cores, i as int, routing, request.routing_configuration, *keys));
                        }
                        return Err(e);
                    },
                }
                i = i + 1;
            }
            proof {
                assert(cores.take(cores.len() as int) =~= cores);
            }
        }
        self.view_box.fit_offsets(&offsets);
        proof {
            let shows = shows_edge_routers(*old(configuration), *keys);
            assert(updated(*self, *old(self)));
            assert(self.style.css@ == (if shows { base_style(old(self).font_base64@) } else { default_style(old(self).font_base64@) })
                        + (if request.not_empty { cores_css(*configuration, manycore.cores@, *keys) } else { Seq::empty() }));
            assert(self.view_box == fitted(
                        if shows { old(self).borders_view_box } else { old(self).base_view_box },
                        if request.not_empty {
                            cores_offsets(*old(self), *configuration, manycore.cores@, routing, request.routing_configuration)
                        } else {
                            zero_offsets()
                        }));
        }
        Ok(())
    }
}

} // verus!
