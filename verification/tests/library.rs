use std::collections::BTreeMap;
use manycore_svg::clip_path::ClipPath;
use manycore_svg::error::{SVGError, SVGErrorKind};
use manycore_svg::information_layer::utils::{binary_search_left_insertion_point, get_attribute_colour, parse_u64};
use manycore_svg::offsets::Offsets;
use manycore_svg::render_settings::{
    ColourSettings, Configuration, FieldConfiguration, FieldConfigurations, FieldKeys, FontSize, LoadConfiguration,
    ProcessedBaseConfiguration, RoutingConfiguration, TEXT_WIDTH_TABLE_LEN,
};
use manycore_svg::svg::SVG;
use manycore_svg::system::{
    BorderEntry, Channel, CoreDescription, Directions, EdgePosition, ManycoreDescription, RouterDescription, RoutingMap,
    RoutingType, SinkSourceDirection, TaskDescription,
};
use manycore_svg::view_box::{TopLeft, ViewBox};
use manycore_svg::information_layer::channel_data::{flip_direction, missing_channel};
use manycore_svg::information_layer::coordinates::make_coordinates;
use manycore_svg::information_layer::text_information::{calculate_length_util, TextInformation};
use manycore_svg::system::SourceLoad;
use manycore_svg::text::push_nat;

fn colours() -> [String; 4] {
    [
        "#22c55e".to_string(),
        "#eab308".to_string(),
        "#f97316".to_string(),
        "#dc2626".to_string(),
    ]
}

fn keys() -> FieldKeys {
    FieldKeys {
        id: "@id".to_string(),
        coordinates: "@coordinates".to_string(),
        routing: "@routing".to_string(),
        border_routers: "@borderRouters".to_string(),
    }
}

fn processed() -> ProcessedBaseConfiguration {
    let widths: Vec<i32> = (0..TEXT_WIDTH_TABLE_LEN).map(|k| (k as i32) * 10).collect();
    ProcessedBaseConfiguration::new(
        FontSize { px: 16, rounded: 16, truncated: 16 },
        FontSize { px: 22, rounded: 22, truncated: 22 },
        widths.clone(),
        widths,
    )
}

fn channel(direction: Directions, load: u16, bandwidth: u16, percentage: Option<u16>) -> Channel {
    Channel { direction, current_load: load, bandwidth, load_percentage: percentage, attributes: Vec::new() }
}

fn make_core(id: u8, edge: EdgePosition, task: Option<u16>) -> CoreDescription {
    CoreDescription {
        id,
        variant: "c".to_string(),
        allocated_task: task,
        matrix_edge: Some(edge),
        channels: vec![
            channel(Directions::North, 0, 100, Some(0)),
            channel(Directions::East, 50, 100, Some(50)),
            channel(Directions::South, 0, 100, Some(0)),
            channel(Directions::West, 0, 100, Some(0)),
        ],
        attributes: Vec::new(),
        router: RouterDescription { id, variant: "r".to_string(), attributes: Vec::new() },
        source_loads: None,
        borders: None,
    }
}

fn two_by_two() -> ManycoreDescription {
    let mut c0 = make_core(0, EdgePosition::TopLeft, Some(1));
    c0.attributes.push(("@temperature".to_string(), "35".to_string()));
    c0.borders = Some(vec![(SinkSourceDirection::North, BorderEntry::Source(1))]);
    let mut c3 = make_core(3, EdgePosition::BottomRight, Some(2));
    c3.borders = Some(vec![(SinkSourceDirection::South, BorderEntry::Sink(2))]);
    ManycoreDescription {
        rows: 2,
        columns: 2,
        cores: vec![c0, make_core(1, EdgePosition::TopRight, None), make_core(2, EdgePosition::BottomLeft, None), c3],
        tasks: vec![
            TaskDescription { id: 1, computation_cost: 10 },
            TaskDescription { id: 2, computation_cost: 20 },
        ],
    }
}

fn base_configuration(border_routers: bool, routing: Option<RoutingConfiguration>) -> Configuration {
    let mut channel_entries = vec![("@borderRouters".to_string(), FieldConfiguration::Boolean { value: border_routers })];
    if let Some(configuration) = routing {
        channel_entries.push(("@routing".to_string(), FieldConfiguration::Routing { configuration }));
    }
    Configuration {
        core_config: FieldConfigurations {
            entries: vec![
                ("@id".to_string(), FieldConfiguration::Text { display: "ID".to_string(), colour: None }),
                (
                    "@temperature".to_string(),
                    FieldConfiguration::Fill { colour_settings: ColourSettings::new([10, 20, 30, 40], colours()) },
                ),
            ],
        },
        router_config: FieldConfigurations { entries: Vec::new() },
        channel_config: FieldConfigurations { entries: channel_entries },
        core_fills: BTreeMap::new(),
        router_fills: BTreeMap::new(),
    }
}

#[test]
fn colour_follows_the_documented_table() {
    let bounds = [10u64, 20, 30, 40];
    assert_eq!(binary_search_left_insertion_point(&bounds, 9), 0);
    assert_eq!(binary_search_left_insertion_point(&bounds, 10), 0);
    assert_eq!(binary_search_left_insertion_point(&bounds, 11), 1);
    assert_eq!(binary_search_left_insertion_point(&bounds, 20), 1);
    assert_eq!(binary_search_left_insertion_point(&bounds, 21), 1);
    assert_eq!(binary_search_left_insertion_point(&bounds, 25), 1);
    assert_eq!(binary_search_left_insertion_point(&bounds, 30), 2);
    assert_eq!(binary_search_left_insertion_point(&bounds, 35), 2);
    assert_eq!(binary_search_left_insertion_point(&bounds, 39), 2);
    assert_eq!(binary_search_left_insertion_point(&bounds, 40), 3);
    assert_eq!(binary_search_left_insertion_point(&bounds, 50), 3);
    let wide = [30u64, 100, 200, 300];
    assert_eq!(binary_search_left_insertion_point(&wide, 0), 0);
    assert_eq!(binary_search_left_insertion_point(&wide, 30), 0);
    assert_eq!(binary_search_left_insertion_point(&wide, 99), 1);
    assert_eq!(binary_search_left_insertion_point(&wide, 100), 1);
    assert_eq!(binary_search_left_insertion_point(&wide, 150), 1);
    assert_eq!(binary_search_left_insertion_point(&wide, 250), 2);
    assert_eq!(binary_search_left_insertion_point(&wide, 300), 3);
    assert_eq!(binary_search_left_insertion_point(&wide, u64::MAX), 3);
}

#[test]
fn attribute_colour_needs_a_number() {
    let bounds = [10u64, 20, 30, 40];
    let c = colours();
    assert_eq!(get_attribute_colour(&bounds, &c, &"9".to_string()), Some(&c[0]));
    assert_eq!(get_attribute_colour(&bounds, &c, &"11".to_string()), Some(&c[1]));
    assert_eq!(get_attribute_colour(&bounds, &c, &"35".to_string()), Some(&c[2]));
    assert_eq!(get_attribute_colour(&bounds, &c, &"50".to_string()), Some(&c[3]));
    assert_eq!(get_attribute_colour(&bounds, &c, &"hot".to_string()), None);
}

#[test]
fn parses_decimal_u64() {
    assert_eq!(parse_u64("0"), Some(0));
    assert_eq!(parse_u64("+42"), Some(42));
    assert_eq!(parse_u64("18446744073709551615"), Some(u64::MAX));
    assert_eq!(parse_u64("18446744073709551616"), None);
    assert_eq!(parse_u64(""), None);
    assert_eq!(parse_u64("+"), None);
    assert_eq!(parse_u64("-1"), None);
    assert_eq!(parse_u64("12a"), None);
}

#[test]
fn view_box_swap_then_restore() {
    let original = ViewBox::new(100, 50, &TopLeft { x: -50, y: -25 });
    let mut v = original;
    let previous = v.swap(1, 2, 3, 4);
    assert_eq!(previous, original);
    assert_eq!(v, ViewBox::new(3, 4, &TopLeft { x: 1, y: 2 }));
    v.restore_from(&previous);
    assert_eq!(v, original);
    assert_eq!(v.to_attribute(), "-50 -25 100 50");
}

#[test]
fn view_box_extends_each_side() {
    let mut v = ViewBox::new(100, 50, &TopLeft { x: -50, y: -25 });
    v.extend_left(10);
    v.extend_top(5);
    v.extend_right(7);
    v.extend_bottom(3);
    assert_eq!(v.to_attribute(), "-60 -30 117 58");
}

#[test]
fn offsets_grow_to_cover_both() {
    let mut o = Offsets::new(-1, -2, 3, 4);
    o.update(Offsets::new(-5, 0, 10, 1));
    assert_eq!(o, Offsets::new(-5, -2, 10, 4));
}

#[test]
fn clip_path_ids_and_points() {
    assert_eq!(ClipPath::make_core_id(&3), "clip-c-3");
    assert_eq!(ClipPath::make_router_id(&12), "clip-r-12");
    let core_clip = ClipPath::for_core(0, -291, -216);
    assert_eq!(core_clip.polygon.points, "-291 -216, -291 -116, -191 -116, -191 -191, -216 -216");
}

#[test]
fn error_messages_name_their_kind() {
    let e = SVGError::new(SVGErrorKind::GenerationError("oops".to_string()));
    assert_eq!(e.message(), "Generation Error: oops");
    let e = manycore_svg::error::missing_connection(&4);
    assert_eq!(e.message(), "Connection Error: Could not grab SVG connection path for Core 4");
}

#[test]
fn draws_a_two_by_two_matrix() {
    let svg = SVG::try_from_manycore_with_base_config(&two_by_two(), processed(), "FONT".to_string()).expect("drawable");
    assert_eq!(svg.top_left, TopLeft { x: -292, y: -292 });
    assert_eq!(svg.root.processing_group.g.len(), 4);
    assert_eq!(svg.root.processing_group.g[1].coordinates, (0, 1));
    assert_eq!(svg.root.processing_group.g[2].coordinates, (1, 0));
    assert_eq!(svg.root.processing_group.g[0].core.move_coordinates, (-291, -216));
    assert_eq!(svg.root.processing_group.g[3].router.move_coordinates, (192, 192));
    assert_eq!(svg.root.processing_group.g[3].core.id, "c3");
    assert_eq!(svg.defs.clip_paths.len(), 8);
    assert_eq!(svg.base_view_box.to_attribute(), "-303 -292 596 605");
    assert_eq!(svg.view_box, svg.base_view_box);
    assert_eq!(svg.borders_view_box.to_attribute(), "-594 -594 1189 1189");
    assert_eq!(svg.root.sinks_sources_group.g.len(), 8);
    assert_eq!(svg.root.tasks_group.tasks.len(), 2);
}

#[test]
fn missing_task_is_reported() {
    let mut m = two_by_two();
    m.cores[1].allocated_task = Some(9);
    let e = SVG::try_from_manycore_with_base_config(&m, processed(), "FONT".to_string()).unwrap_err();
    assert_eq!(e.message(), "Mismatch with ManyCore System: Core 1 has Task 9 allocated but the task is not in the TaskGraph.");
}

#[test]
fn update_shows_configured_information() {
    let m = two_by_two();
    let mut svg = SVG::try_from_manycore_with_base_config(&m, processed(), "FONT".to_string()).expect("drawable");
    let mut configuration = base_configuration(true, None);
    let k = keys();
    let request = configuration.take_update_request(&k);
    assert!(request.not_empty);
    assert!(request.routing_configuration.is_none());
    svg.update_configurable_information(&m, &mut configuration, &request, None, &k).expect("update");
    assert!(configuration.channel_config.entries.is_empty());
    let layers = &svg.root.information_group.groups;
    assert_eq!(layers.len(), 4);
    assert_eq!(layers[0].core_group.information.len(), 1);
    assert_eq!(layers[0].core_group.information[0].value, "ID: 0");
    assert_eq!((layers[0].core_group.information[0].x, layers[0].core_group.information[0].y), (-290, -215));
    assert_eq!(layers[0].core_group.clip_path, "url(#clip-c-0)");
    assert_eq!(layers[0].core_group.filter, Some("url(#textBackground)"));
    assert_eq!(layers[1].core_group.filter, None);
    assert!(svg.style.css.ends_with(".baseFill{fill: #e5e5e5;}\n#c0 {fill: #f97316;}"));
    assert_eq!(svg.view_box, svg.borders_view_box);
}

#[test]
fn update_shows_routed_loads() {
    let m = two_by_two();
    let mut svg = SVG::try_from_manycore_with_base_config(&m, processed(), "FONT".to_string()).expect("drawable");
    let rc = RoutingConfiguration {
        algorithm: "RowFirst".to_string(),
        load_configuration: LoadConfiguration::Percentage,
        load_colours: ColourSettings::new([10, 20, 30, 40], colours()),
        display: "Load".to_string(),
    };
    let mut configuration = base_configuration(false, Some(rc));
    let k = keys();
    let request = configuration.take_update_request(&k);
    assert!(request.routing_configuration.is_some());
    let routing = RoutingMap { routes: vec![(0, vec![(RoutingType::OutputChannel, vec![Directions::East])])] };
    svg.update_configurable_information(&m, &mut configuration, &request, Some(&routing), &k).expect("update");
    let links = &svg.root.information_group.groups[0].links_load;
    assert_eq!(links.len(), 1);
    assert_eq!(links[0].value, "Load: 50%");
    assert_eq!((links[0].x, links[0].y), (38, -276));
    assert_eq!(links[0].fill, "#dc2626");
    assert!(svg.style.css.ends_with(".edgeData{display: none;}\n#c0 {fill: #f97316;}"));
    assert_eq!(svg.view_box.to_attribute(), "-303 -295 596 608");
}

#[test]
fn freeform_clip_path_comes_and_goes() {
    let mut svg = SVG::try_from_manycore_with_base_config(&two_by_two(), processed(), "FONT".to_string()).expect("drawable");
    svg.add_freeform_clip_path("0 0, 1 1".to_string());
    assert_eq!(svg.defs.clip_paths.len(), 9);
    assert_eq!(svg.defs.clip_paths[8].id, "crop");
    svg.clear_freeform_clip_path();
    assert_eq!(svg.defs.clip_paths.len(), 8);
    let last = svg.defs.clip_paths[7].id.clone();
    svg.clear_freeform_clip_path();
    assert_eq!(svg.defs.clip_paths.len(), 8);
    assert_eq!(svg.defs.clip_paths[7].id, last);
}

fn load_routing(configuration: LoadConfiguration) -> RoutingConfiguration {
    RoutingConfiguration::new("RowFirst".to_string(), configuration, ColourSettings::new([10, 20, 30, 40], colours()), "Load".to_string())
}

#[test]
fn offsets_updates_commute() {
    let a = Offsets::new(-3, 4, 10, 2);
    let b = Offsets::new(5, -6, 1, 9);
    let mut ab = a;
    ab.update(b);
    let mut ba = b;
    ba.update(a);
    assert_eq!(ab, ba);
    let mut aa = a;
    aa.update(a);
    assert_eq!(aa, a);
}

#[test]
fn fitting_holds_the_offsets_and_is_idempotent() {
    let mut v = ViewBox::new(100, 100, &TopLeft { x: -50, y: -50 });
    let o = Offsets::new(-70, -60, 80, 55);
    v.fit_offsets(&o);
    assert_eq!(v.to_attribute(), "-70 -60 150 115");
    let once = v;
    v.fit_offsets(&o);
    assert_eq!(v, once);
    let mut inside = ViewBox::new(100, 100, &TopLeft { x: -50, y: -50 });
    inside.fit_offsets(&Offsets::new(-10, -10, 10, 10));
    assert_eq!(inside, ViewBox::new(100, 100, &TopLeft { x: -50, y: -50 }));
}

#[test]
fn coordinates_orientations_mirror() {
    let k = keys();
    let p = processed();
    for (orientation, expected) in [
        (manycore_svg::render_settings::CoordinatesOrientation::B, "(2,2)"),
        (manycore_svg::render_settings::CoordinatesOrientation::T, "(2,1)"),
    ] {
        let config = FieldConfigurations {
            entries: vec![("@coordinates".to_string(), FieldConfiguration::Coordinates { orientation })],
        };
        let text = make_coordinates(&config, &-291, &-216, 2, &0, &1, &p, &k).unwrap().unwrap();
        assert_eq!(text.value, expected);
        assert_eq!((text.x, text.y), (-241, -116));
    }
    let wrong = FieldConfigurations {
        entries: vec![("@coordinates".to_string(), FieldConfiguration::Boolean { value: true })],
    };
    let e = make_coordinates(&wrong, &0, &0, 2, &0, &0, &p, &k).unwrap_err();
    assert_eq!(e.message(), "Generation Error: Unsupported configuration for coordinates: Boolean");
    let none = FieldConfigurations { entries: Vec::new() };
    assert!(make_coordinates(&none, &0, &0, 2, &0, &0, &p, &k).unwrap().is_none());
}

#[test]
fn flipping_twice_is_identity() {
    for d in [Directions::North, Directions::East, Directions::South, Directions::West] {
        assert_ne!(flip_direction(&d), d);
        assert_eq!(flip_direction(&flip_direction(&d)), d);
    }
}

#[test]
fn written_numbers_read_back() {
    for n in [0u64, 7, 10, 4096, u64::MAX] {
        let mut s = String::new();
        push_nat(&mut s, n);
        assert_eq!(s, n.to_string());
        assert_eq!(parse_u64(&s), Some(n));
    }
}

#[test]
fn borders_view_box_holds_every_edge_router() {
    let svg = SVG::try_from_manycore_with_base_config(&two_by_two(), processed(), "FONT".to_string()).expect("drawable");
    let b = svg.borders_view_box;
    for s in &svg.root.sinks_sources_group.g {
        assert!(b.x <= s.rect.x && b.y <= s.rect.y);
        assert!(b.x + b.width >= s.rect.x + s.rect.width);
        assert!(b.y + b.height >= s.rect.y + 70);
    }
    assert!(b.x <= 0 && b.y <= 0 && b.x + b.width >= 0 && b.y + b.height >= 0);
}

#[test]
fn toggling_a_task_back_restores_its_bubble() {
    let mut svg = SVG::try_from_manycore_with_base_config(&two_by_two(), processed(), "FONT".to_string()).expect("drawable");
    let p = processed();
    let tl = svg.top_left;
    let (x, y, w, h) = {
        let b = &svg.root.tasks_group.tasks[&1];
        (b.rect.x, b.rect.y, b.rect.width, b.rect.height)
    };
    let with_cost = svg.root.tasks_group.toggle_task(&1, &(0, 0), &p, &tl).expect("task").rect.height;
    assert_eq!(with_cost, 2 * h);
    svg.root.tasks_group.toggle_variant();
    let back = svg.root.tasks_group.toggle_task(&1, &(0, 0), &p, &tl).expect("task");
    assert_eq!((back.rect.x, back.rect.y, back.rect.width, back.rect.height), (x, y, w, h));
    assert!(back.cost_text.is_none());
    let e = svg.root.tasks_group.toggle_task(&7, &(0, 0), &p, &tl).unwrap_err();
    assert_eq!(e.message(), "Generation Error: Could not find Task 7 in TasksGroup.");
}

#[test]
fn empty_configuration_shows_the_base_drawing() {
    let m = two_by_two();
    let mut svg = SVG::try_from_manycore_with_base_config(&m, processed(), "FONT".to_string()).expect("drawable");
    let mut configuration = base_configuration(true, None);
    let k = keys();
    let request = configuration.take_update_request(&k);
    svg.update_configurable_information(&m, &mut configuration, &request, None, &k).expect("update");
    let mut empty = Configuration {
        core_config: FieldConfigurations { entries: Vec::new() },
        router_config: FieldConfigurations { entries: Vec::new() },
        channel_config: FieldConfigurations { entries: Vec::new() },
        core_fills: BTreeMap::new(),
        router_fills: BTreeMap::new(),
    };
    let request = empty.take_update_request(&k);
    assert!(!request.not_empty);
    svg.update_configurable_information(&m, &mut empty, &request, None, &k).expect("update");
    assert!(svg.root.information_group.groups.is_empty());
    assert_eq!(svg.view_box, svg.base_view_box);
    assert!(svg.style.css.ends_with(".baseFill{fill: #e5e5e5;}\n.edgeData{display: none;}"));
}

#[test]
fn plain_channels_show_their_attributes() {
    let mut m = two_by_two();
    for ch in m.cores[0].channels.iter_mut() {
        ch.attributes.push(("@bw".to_string(), "12".to_string()));
        ch.attributes.push(("@age".to_string(), "3".to_string()));
    }
    let mut svg = SVG::try_from_manycore_with_base_config(&m, processed(), "FONT".to_string()).expect("drawable");
    let mut configuration = base_configuration(false, None);
    configuration.channel_config.entries.push(("@bw".to_string(), FieldConfiguration::Text { display: "BW".to_string(), colour: None }));
    configuration.channel_config.entries.push((
        "@xage".to_string(),
        FieldConfiguration::ColouredText { display: "Age".to_string(), colour_settings: ColourSettings::new([1, 2, 3, 4], colours()) },
    ));
    let k = keys();
    let request = configuration.take_update_request(&k);
    svg.update_configurable_information(&m, &mut configuration, &request, None, &k).expect("update");
    let links = &svg.root.information_group.groups[0].links_load;
    assert_eq!(links.len(), 2);
    assert_eq!(links[0].value, "BW: 12");
    assert_eq!(links[0].text_anchor, "middle");
    assert_eq!(links[1].value, "BW: 12");
    assert_eq!(links[1].text_anchor, "end");
    assert!(svg.root.information_group.groups[1].links_load.is_empty());
}

#[test]
fn source_loads_are_shown_from_the_source() {
    let mut m = two_by_two();
    m.cores[0].source_loads = Some(vec![SourceLoad { direction: Directions::North, load: 20, percentage: Some(20) }]);
    let mut svg = SVG::try_from_manycore_with_base_config(&m, processed(), "FONT".to_string()).expect("drawable");
    let mut configuration = base_configuration(false, Some(load_routing(LoadConfiguration::Fraction)));
    let k = keys();
    let request = configuration.take_update_request(&k);
    let routing = RoutingMap { routes: vec![(0, vec![(RoutingType::SourceChannel, vec![Directions::North])])] };
    svg.update_configurable_information(&m, &mut configuration, &request, Some(&routing), &k).expect("update");
    let links = &svg.root.information_group.groups[0].links_load;
    assert_eq!(links.len(), 1);
    assert_eq!(links[0].value, "Load: 20/100");
    assert_eq!(links[0].text_anchor, "end");
    assert_eq!(links[0].class, Some("edgeData"));
    assert_eq!(links[0].fill, "#eab308");
}

#[test]
fn missing_source_loads_are_reported() {
    let m = two_by_two();
    let k = keys();
    let routing = RoutingMap { routes: vec![(0, vec![(RoutingType::SourceChannel, vec![Directions::North])])] };
    let mut svg = SVG::try_from_manycore_with_base_config(&m, processed(), "FONT".to_string()).expect("drawable");
    let mut configuration = base_configuration(false, Some(load_routing(LoadConfiguration::Percentage)));
    let request = configuration.take_update_request(&k);
    let e = svg.update_configurable_information(&m, &mut configuration, &request, Some(&routing), &k).unwrap_err();
    assert_eq!(e.message(), "Mismatch with ManyCore System: Could not retrieve source loads for Core 0");

    let mut m2 = two_by_two();
    m2.cores[0].source_loads = Some(Vec::new());
    let mut svg = SVG::try_from_manycore_with_base_config(&m2, processed(), "FONT".to_string()).expect("drawable");
    let mut configuration = base_configuration(false, Some(load_routing(LoadConfiguration::Percentage)));
    let request = configuration.take_update_request(&k);
    let e = svg.update_configurable_information(&m2, &mut configuration, &request, Some(&routing), &k).unwrap_err();
    assert_eq!(e.message(), "Mismatch with ManyCore System: Could not retrieve North source load for Core 0");
}

#[test]
fn missing_connections_are_reported() {
    let mut m = two_by_two();
    m.cores[0].channels.retain(|ch| ch.direction != Directions::East);
    let mut svg = SVG::try_from_manycore_with_base_config(&m, processed(), "FONT".to_string()).expect("drawable");
    let mut configuration = base_configuration(false, Some(load_routing(LoadConfiguration::Percentage)));
    let k = keys();
    let request = configuration.take_update_request(&k);
    let routing = RoutingMap { routes: vec![(0, vec![(RoutingType::OutputChannel, vec![Directions::East])])] };
    let e = svg.update_configurable_information(&m, &mut configuration, &request, Some(&routing), &k).unwrap_err();
    assert_eq!(e.message(), "Connection Error: Could not get connection DirectionType(Out(East)) for Core 0");
    assert_eq!(
        missing_channel(&3, &Directions::West).message(),
        "Mismatch with ManyCore System: Could not retrieve West channel for Core 3"
    );
}

#[test]
fn misconfigured_coordinates_fail_the_update() {
    let m = two_by_two();
    let mut svg = SVG::try_from_manycore_with_base_config(&m, processed(), "FONT".to_string()).expect("drawable");
    let mut configuration = base_configuration(false, None);
    configuration.core_config.entries.insert(
        0,
        ("@coordinates".to_string(), FieldConfiguration::Text { display: "XY".to_string(), colour: None }),
    );
    let k = keys();
    let request = configuration.take_update_request(&k);
    let e = svg.update_configurable_information(&m, &mut configuration, &request, None, &k).unwrap_err();
    assert_eq!(e.message(), "Generation Error: Unsupported configuration for coordinates: Text");
}

#[test]
fn cores_without_a_group_are_reported() {
    let m = two_by_two();
    let mut svg = SVG::try_from_manycore_with_base_config(&m, processed(), "FONT".to_string()).expect("drawable");
    let mut bigger = two_by_two();
    bigger.cores.push(make_core(4, EdgePosition::Bottom, None));
    let mut configuration = base_configuration(false, None);
    let k = keys();
    let request = configuration.take_update_request(&k);
    let e = svg.update_configurable_information(&bigger, &mut configuration, &request, None, &k).unwrap_err();
    assert_eq!(
        e.message(),
        "Generation Error: Could not retrieve SVG group for core with ID 4. Something weent wrong generating the SVG, please try again."
    );
}

#[test]
fn overlong_texts_cannot_be_measured() {
    let widths: Vec<i32> = vec![1; TEXT_WIDTH_TABLE_LEN];
    assert_eq!(calculate_length_util(&widths, "abc").unwrap(), 1);
    let long = "x".repeat(TEXT_WIDTH_TABLE_LEN);
    let e = calculate_length_util(&widths, &long).unwrap_err();
    assert_eq!(e.message(), "Data Conversion Error: out of range integral type conversion attempted");
}

#[test]
fn loads_read_as_fraction_or_percentage() {
    let percentage = load_routing(LoadConfiguration::Percentage);
    let fraction = load_routing(LoadConfiguration::Fraction);
    assert_eq!(TextInformation::generate_load_data(&50, &100, Some(50), &percentage), "Load: 50%");
    assert_eq!(TextInformation::generate_load_data(&50, &100, Some(50), &fraction), "Load: 50/100");
    assert_eq!(TextInformation::generate_load_data(&5, &0, None, &percentage), "Load: 5/0");
    let (p, fill) = TextInformation::calculate_load_fill_and_percentage(None, &percentage);
    assert_eq!(p, None);
    assert_eq!(fill, Some(&"#dc2626".to_string()));
}

#[test]
fn user_fills_override_configured_fills() {
    let m = two_by_two();
    let mut svg = SVG::try_from_manycore_with_base_config(&m, processed(), "FONT".to_string()).expect("drawable");
    let mut configuration = base_configuration(false, None);
    configuration.core_fills.insert(0, "#000000".to_string());
    configuration.router_fills.insert(2, "#ffffff".to_string());
    let k = keys();
    let request = configuration.take_update_request(&k);
    svg.update_configurable_information(&m, &mut configuration, &request, None, &k).expect("update");
    assert!(svg.style.css.ends_with("\n#c0 {fill: #f97316;}\n#c0 {fill: #000000;}\n#r2 {fill: #ffffff;}"));
    assert_eq!(svg.root.information_group.groups[2].router_group.filter, Some("url(#textBackground)"));
}
