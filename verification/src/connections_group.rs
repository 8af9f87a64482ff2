//! Channels between routers, and between routers and edge routers, drawn as `<path>`s.

use vstd::prelude::*;
use std::collections::HashMap;
use crate::arith::{clamp_i32, sat_add, sat_sub};
use crate::clip_path::USE_FREEFORM_CLIP_PATH;
use crate::geometry::{
    CoordinateT, CONNECTION_GAP, CONNECTION_LENGTH, HALF_ROUTER_OFFSET, MARKER_HEIGHT, ROUTER_OFFSET,
    SIDE_LENGTH, SINKS_SOURCES_CONNECTION_LENGTH,
};
use crate::marker::MARKER_REFERENCE;
use crate::processing_group::{CommonAttributes, Router, no_class_attributes_spec, path_d, router_move, router_move_fits};
use crate::style::EDGE_DATA_CLASS_NAME;
use crate::system::{CoreDescription, Directions, EdgePosition, RoutingType, direction_leaves_matrix, leaves_matrix};
use crate::error::{SVGError, SVGErrorKind, missing_connection};
use crate::text::{push_nat, nat_str};
use crate::text::{push_int, push_str, string_of, int_str};
use crate::view_box::TopLeft;

verus! {

broadcast use vstd::std_specs::hash::group_hash_axioms;

/// Id of the group of edge connections.
pub const EDGE_CONNECTIONS_ID: &'static str = "edgeConnetions";

/// A channel `<path>` ending with an arrow head.
#[derive(Debug)]
pub struct Connection {
    pub d: String,
    pub attributes: CommonAttributes,
    pub marker_end: &'static str,
    /// Where the path starts.
    pub x: CoordinateT,
    pub y: CoordinateT,
    pub clip_path: &'static str,
}

/// A path being computed: its `d` attribute and start point.
#[derive(Debug)]
pub struct ConnectionPath {
    pub path: String,
    pub x: CoordinateT,
    pub y: CoordinateT,
}

/// The two paths of an edge channel: into the matrix and out of it.
#[derive(Debug)]
pub struct EdgePath {
    pub input: ConnectionPath,
    pub output: ConnectionPath,
}

/// Start `x`, start `y` and `d` of a path.
pub type PathSpec = (int, int, Seq<char>);

/// `"M<x>,<y> <command><length>"`.
pub open spec fn line(x: int, y: int, command: Seq<char>, length: int) -> PathSpec {
    (x, y, path_d(x, y, command + int_str(length)))
}

/// The inner channel that leaves the router drawn from `(rx, ry)` in direction `d`.
pub open spec fn inner_path_spec(d: Directions, rx: int, ry: int) -> PathSpec {
    match d {
        Directions::North => line(rx + SIDE_LENGTH - HALF_ROUTER_OFFSET + CONNECTION_GAP, ry - ROUTER_OFFSET, "v-"@, CONNECTION_LENGTH as int),
        Directions::East => line(rx + SIDE_LENGTH, ry - HALF_ROUTER_OFFSET - CONNECTION_GAP, "h"@, CONNECTION_LENGTH as int),
        Directions::South => line(rx + SIDE_LENGTH - HALF_ROUTER_OFFSET - CONNECTION_GAP, ry - ROUTER_OFFSET + SIDE_LENGTH, "v"@, CONNECTION_LENGTH as int),
        Directions::West => line(rx, ry - HALF_ROUTER_OFFSET + CONNECTION_GAP, "h-"@, CONNECTION_LENGTH as int),
    }
}

/// Every intermediate sum of an inner channel's start fits in an `i32`.
pub open spec fn inner_path_fits(d: Directions, rx: int, ry: int) -> bool {
    match d {
        Directions::North => rx + SIDE_LENGTH <= i32::MAX && ry - ROUTER_OFFSET >= i32::MIN,
        Directions::East => rx + SIDE_LENGTH <= i32::MAX && ry - HALF_ROUTER_OFFSET - CONNECTION_GAP >= i32::MIN,
        Directions::South => rx + SIDE_LENGTH <= i32::MAX && ry - ROUTER_OFFSET >= i32::MIN && ry - ROUTER_OFFSET + SIDE_LENGTH <= i32::MAX,
        Directions::West => ry - HALF_ROUTER_OFFSET >= i32::MIN,
    }
}

/// The inner channel of the router at `(r, c)` can be computed.
pub open spec fn inner_connection_fits(d: Directions, r: int, c: int, top_left: TopLeft) -> bool {
    router_move_fits(r, c, top_left) && inner_path_fits(d, router_move(r, c, top_left).0, router_move(r, c, top_left).1)
}

/// The two paths (input, output) of the edge channel that leaves the router drawn
/// from `(rx, ry)` in direction `d`, computed with saturating arithmetic.
pub open spec fn edge_paths_spec(d: Directions, rx: int, ry: int) -> (PathSpec, PathSpec) {
    let short_render = SINKS_SOURCES_CONNECTION_LENGTH as int;
    let long_render = clamp_i32(SINKS_SOURCES_CONNECTION_LENGTH + ROUTER_OFFSET);
    match d {
        Directions::North => {
            let x = clamp_i32(clamp_i32(rx + SIDE_LENGTH) - HALF_ROUTER_OFFSET);
            let y = clamp_i32(ry - ROUTER_OFFSET);
            let connection = clamp_i32(short_render + MARKER_HEIGHT);
            (
                line(clamp_i32(x - CONNECTION_GAP), clamp_i32(y - connection), "v"@, short_render),
                line(clamp_i32(x + CONNECTION_GAP), y, "v-"@, short_render),
            )
        },
        Directions::East => {
            let x = clamp_i32(rx + SIDE_LENGTH);
            let y = clamp_i32(clamp_i32(ry - ROUTER_OFFSET) + HALF_ROUTER_OFFSET);
            let connection = clamp_i32(short_render + MARKER_HEIGHT);
            (
                line(clamp_i32(x + connection), clamp_i32(y + CONNECTION_GAP), "h-"@, short_render),
                line(x, clamp_i32(y - CONNECTION_GAP), "h"@, short_render),
            )
        },
        Directions::South => {
            let x = clamp_i32(clamp_i32(rx + SIDE_LENGTH) - HALF_ROUTER_OFFSET);
            let y = clamp_i32(clamp_i32(ry - ROUTER_OFFSET) + SIDE_LENGTH);
            let connection = clamp_i32(long_render + MARKER_HEIGHT);
            (
                line(clamp_i32(x + CONNECTION_GAP), clamp_i32(y + connection), "v-"@, long_render),
                line(clamp_i32(x - CONNECTION_GAP), y, "v"@, long_render),
            )
        },
        Directions::West => {
            let y = clamp_i32(clamp_i32(ry - ROUTER_OFFSET) + HALF_ROUTER_OFFSET);
            let connection = clamp_i32(long_render + MARKER_HEIGHT);
            (
                line(clamp_i32(rx - connection), clamp_i32(y - CONNECTION_GAP), "h"@, long_render),
                line(rx, clamp_i32(y + CONNECTION_GAP), "h-"@, long_render),
            )
        },
    }
}

/// A computed path matches its specification.
pub open spec fn path_matches(p: ConnectionPath, s: PathSpec) -> bool {
    p.x as int == s.0 && p.y as int == s.1 && p.path@ == s.2
}

/// A connection matches a path specification and has the standard channel attributes.
pub open spec fn connection_matches(c: Connection, s: PathSpec) -> bool {
    &&& c.x as int == s.0 && c.y as int == s.1 && c.d@ == s.2
    &&& no_class_attributes_spec(c.attributes)
    &&& c.marker_end == MARKER_REFERENCE
    &&& c.clip_path == USE_FREEFORM_CLIP_PATH
}

fn make_line(x: i32, y: i32, command: &str, length: i32) -> (r: ConnectionPath)
    ensures
        path_matches(r, line(x as int, y as int, command@, length as int)),
{
    let mut s = string_of("M");
    push_int(&mut s, x as i64);
    push_str(&mut s, ",");
    push_int(&mut s, y as i64);
    push_str(&mut s, " ");
    push_str(&mut s, command);
    push_int(&mut s, length as i64);
    proof {
        assert(s@ =~= path_d(x as int, y as int, command@ + int_str(length as int)));
    }
    ConnectionPath { path: s, x, y }
}

/// `v` lies within `2^29` of zero.
pub open spec fn coord_near(v: int) -> bool {
    -0x2000_0000 <= v <= 0x2000_0000
}

/// The router at `(r, c)` is drawn within `2^28` of the origin.
pub open spec fn router_near(r: int, c: int, top_left: TopLeft) -> bool {
    &&& -0x1000_0000 <= router_move(r, c, top_left).0 <= 0x1000_0000
    &&& -0x1000_0000 <= router_move(r, c, top_left).1 <= 0x1000_0000
}

impl Connection {
    /// The path starts within `2^29` of the origin.
    pub open spec fn near(&self) -> bool {
        coord_near(self.x as int) && coord_near(self.y as int)
    }

    /// The inner channel leaving the router at `(r, c)` in `direction`.
    pub fn get_inner_path(direction: &Directions, r: &CoordinateT, c: &CoordinateT, top_left: &TopLeft) -> (p: ConnectionPath)
        requires
            inner_connection_fits(*direction, *r as int, *c as int, *top_left),
        ensures
            path_matches(p, inner_path_spec(*direction, router_move(*r as int, *c as int, *top_left).0, router_move(*r as int, *c as int, *top_left).1)),
    {
        let (router_x, router_y) = Router::get_move_coordinates(r, c, top_left);
        match direction {
            Directions::North => make_line(router_x + SIDE_LENGTH - HALF_ROUTER_OFFSET + CONNECTION_GAP, router_y - ROUTER_OFFSET, "v-", CONNECTION_LENGTH),
            Directions::East => make_line(router_x + SIDE_LENGTH, router_y - HALF_ROUTER_OFFSET - CONNECTION_GAP, "h", CONNECTION_LENGTH),
            Directions::South => make_line(router_x + SIDE_LENGTH - HALF_ROUTER_OFFSET - CONNECTION_GAP, router_y - ROUTER_OFFSET + SIDE_LENGTH, "v", CONNECTION_LENGTH),
            Directions::West => make_line(router_x, router_y - HALF_ROUTER_OFFSET + CONNECTION_GAP, "h-", CONNECTION_LENGTH),
        }
    }

    /// The two paths of the edge channel leaving the router at `(r, c)` in `direction`.
    pub fn get_edge_paths(direction: &Directions, r: &CoordinateT, c: &CoordinateT, top_left: &TopLeft) -> (p: EdgePath)
        requires
            router_move_fits(*r as int, *c as int, *top_left),
        ensures
            path_matches(p.input, edge_paths_spec(*direction, router_move(*r as int, *c as int, *top_left).0, router_move(*r as int, *c as int, *top_left).1).0),
            path_matches(p.output, edge_paths_spec(*direction, router_move(*r as int, *c as int, *top_left).0, router_move(*r as int, *c as int, *top_left).1).1),
    {
        let (router_x, router_y) = Router::get_move_coordinates(r, c, top_left);
        let short_render = SINKS_SOURCES_CONNECTION_LENGTH;
        let long_render = sat_add(SINKS_SOURCES_CONNECTION_LENGTH, ROUTER_OFFSET);
        match direction {
            Directions::North => {
                let x = sat_sub(sat_add(router_x, SIDE_LENGTH), HALF_ROUTER_OFFSET);
                let y = sat_sub(router_y, ROUTER_OFFSET);
                let connection = sat_add(short_render, MARKER_HEIGHT);
                let input = make_line(sat_sub(x, CONNECTION_GAP), sat_sub(y, connection), "v", short_render);
                let output = make_line(sat_add(x, CONNECTION_GAP), y, "v-", short_render);
                EdgePath { input, output }
            },
            Directions::East => {
                let x = sat_add(router_x, SIDE_LENGTH);
                let y = sat_add(sat_sub(router_y, ROUTER_OFFSET), HALF_ROUTER_OFFSET);
                let connection = sat_add(short_render, MARKER_HEIGHT);
                let input = make_line(sat_add(x, connection), sat_add(y, CONNECTION_GAP), "h-", short_render);
                let output = make_line(x, sat_sub(y, CONNECTION_GAP), "h", short_render);
                EdgePath { input, output }
            },
            Directions::South => {
                let x = sat_sub(sat_add(router_x, SIDE_LENGTH), HALF_ROUTER_OFFSET);
                let y = sat_add(sat_sub(router_y, ROUTER_OFFSET), SIDE_LENGTH);
                let connection = sat_add(long_render, MARKER_HEIGHT);
                let input = make_line(sat_add(x, CONNECTION_GAP), sat_add(y, connection), "v-", long_render);
                let output = make_line(sat_sub(x, CONNECTION_GAP), y, "v", long_render);
                EdgePath { input, output }
            },
            Directions::West => {
                let y = sat_add(sat_sub(router_y, ROUTER_OFFSET), HALF_ROUTER_OFFSET);
                let connection = sat_add(long_render, MARKER_HEIGHT);
                let input = make_line(sat_sub(router_x, connection), sat_sub(y, CONNECTION_GAP), "h", long_render);
                let output = make_line(router_x, sat_add(y, CONNECTION_GAP), "h-", long_render);
                EdgePath { input, output }
            },
        }
    }

    /// The channel drawn along `connection_path`, with an arrow head, no class and the
    /// freeform clip path.
    pub fn new(connection_path: ConnectionPath) -> (r: Self)
        ensures
            r.d == connection_path.path,
            r.x == connection_path.x,
            r.y == connection_path.y,
            no_class_attributes_spec(r.attributes),
            r.marker_end == MARKER_REFERENCE,
            r.clip_path == USE_FREEFORM_CLIP_PATH,
    {
        Connection {
            d: connection_path.path,
            attributes: CommonAttributes::with_no_class(),
            marker_end: MARKER_REFERENCE,
            x: connection_path.x,
            y: connection_path.y,
            clip_path: USE_FREEFORM_CLIP_PATH,
        }
    }

    /// Start `x` of the path.
    pub fn x(&self) -> (r: &CoordinateT)
        ensures
            *r == self.x,
    {
        &self.x
    }

    /// Start `y` of the path.
    pub fn y(&self) -> (r: &CoordinateT)
        ensures
            *r == self.y,
    {
        &self.y
    }
}

/// The inner channels.
#[derive(Debug)]
pub struct Connections {
    pub path: Vec<Connection>,
}

/// The group of edge channels: inputs from sources and outputs to sinks.
#[derive(Debug)]
pub struct EdgeConnections {
    pub id: &'static str,
    pub class: &'static str,
    pub source: Vec<Connection>,
    pub sink: Vec<Connection>,
}

impl Default for EdgeConnections {
    /// No edge channel yet, in the edge data class.
    fn default() -> (r: Self)
        ensures
            r.id == EDGE_CONNECTIONS_ID,
            r.class == EDGE_DATA_CLASS_NAME,
            r.source@.len() == 0,
            r.sink@.len() == 0,
    {
        EdgeConnections { id: EDGE_CONNECTIONS_ID, class: EDGE_DATA_CLASS_NAME, source: Vec::new(), sink: Vec::new() }
    }
}

/// Where a channel is stored: among edge channels or inner channels, at an index.
#[derive(Clone, Copy, Debug, PartialEq, Eq, Structural)]
pub enum ConnectionType {
    EdgeConnection(usize),
    Connection(usize),
}

/// A channel of a core: an output in a direction, or the input from a source in a direction.
#[derive(Clone, Copy, Debug, PartialEq, Eq, Structural)]
pub enum DirectionType {
    Out(Directions),
    Source(Directions),
}

/// Number of a direction, in the order North, East, South, West.
pub open spec fn direction_index(d: Directions) -> nat {
    match d {
        Directions::North => 0,
        Directions::East => 1,
        Directions::South => 2,
        Directions::West => 3,
    }
}

/// Number of a direction type: outputs first, then sources.
pub open spec fn direction_type_index(t: DirectionType) -> nat {
    match t {
        DirectionType::Out(d) => direction_index(d),
        DirectionType::Source(d) => 4 + direction_index(d),
    }
}

/// Key of the channel `t` of core `core_id` in the connections map.
pub open spec fn map_key(core_id: u8, t: DirectionType) -> u16 {
    (core_id as nat * 8 + direction_type_index(t)) as u16
}

/// Executable [`map_key`].
pub fn connection_key(core_id: u8, t: &DirectionType) -> (k: u16)
    ensures
        k == map_key(core_id, *t),
{
    let d = match t {
        DirectionType::Out(d) => d,
        DirectionType::Source(d) => d,
    };
    let i: u16 = match d {
        Directions::North => 0,
        Directions::East => 1,
        Directions::South => 2,
        Directions::West => 3,
    };
    let base: u16 = match t {
        DirectionType::Out(_) => 0,
        DirectionType::Source(_) => 4,
    };
    core_id as u16 * 8 + base + i
}

/// Distinct (core, channel) pairs have distinct keys.
pub proof fn lemma_map_key_injective(a: u8, s: DirectionType, b: u8, t: DirectionType)
    ensures
        map_key(a, s) == map_key(b, t) ==> a == b && s == t,
{
}

impl DirectionType {
    /// A readable name of the channel, `DirectionType(Out(<d>))` or `DirectionType(Source(<d>))`.
    pub fn describe(&self) -> (r: String)
        ensures
            r@ == match *self {
                DirectionType::Out(d) => "DirectionType(Out("@ + direction_name(d) + "))"@,
                DirectionType::Source(d) => "DirectionType(Source("@ + direction_name(d) + "))"@,
            },
    {
        let (prefix, d) = match self {
            DirectionType::Out(d) => ("DirectionType(Out(", d),
            DirectionType::Source(d) => ("DirectionType(Source(", d),
        };
        let mut s = string_of(prefix);
        push_str(&mut s, direction_str(d));
        push_str(&mut s, "))");
        s
    }
}

/// Name of a direction.
pub open spec fn direction_name(d: Directions) -> Seq<char> {
    match d {
        Directions::North => "North"@,
        Directions::East => "East"@,
        Directions::South => "South"@,
        Directions::West => "West"@,
    }
}

/// Executable [`direction_name`].
pub fn direction_str(d: &Directions) -> (r: &'static str)
    ensures
        r@ == direction_name(*d),
{
    match d {
        Directions::North => "North",
        Directions::East => "East",
        Directions::South => "South",
        Directions::West => "West",
    }
}

/// The group of every channel, and where each core's channels are stored.
#[derive(Debug)]
pub struct ConnectionsParentGroup {
    pub connections: Connections,
    pub edge_connections: EdgeConnections,
    /// Keyed by [`map_key`] of core id and channel.
    pub core_connections_map: HashMap<u16, ConnectionType>,
}

impl ConnectionsParentGroup {
    /// Where channel `t` of core `core_id` is stored, if it is.
    pub open spec fn lookup(&self, core_id: u8, t: DirectionType) -> Option<ConnectionType> {
        if self.core_connections_map@.contains_key(map_key(core_id, t)) {
            Some(self.core_connections_map@[map_key(core_id, t)])
        } else {
            None
        }
    }

    /// Every stored location points into its vector: inner channels into `connections`,
    /// source inputs into `source` and edge outputs into `sink`.
    pub open spec fn wf(&self) -> bool {
        &&& self.edge_connections.source@.len() == self.edge_connections.sink@.len()
        &&& forall|k: u16| #[trigger] self.core_connections_map@.contains_key(k) ==> {
            let v = self.core_connections_map@[k];
            match v {
                ConnectionType::Connection(i) => k % 8 < 4 && i < self.connections.path@.len(),
                ConnectionType::EdgeConnection(i) => i < self.edge_connections.sink@.len(),
            }
        }
    }

    /// Every channel starts within `2^29` of the origin, far enough from the limits of an
    /// `i32` for the texts placed next to it to be measured.
    pub open spec fn coords_ok(&self) -> bool {
        &&& forall|i: int| 0 <= i < self.connections.path@.len() ==> #[trigger] self.connections.path@[i].near()
        &&& forall|i: int| 0 <= i < self.edge_connections.source@.len() ==> #[trigger] self.edge_connections.source@[i].near()
        &&& forall|i: int| 0 <= i < self.edge_connections.sink@.len() ==> #[trigger] self.edge_connections.sink@[i].near()
    }

    /// No channel yet.
    pub fn new() -> (r: Self)
        ensures
            r.wf(),
            r.connections.path@.len() == 0,
            r.edge_connections.source@.len() == 0,
            r.edge_connections.id == EDGE_CONNECTIONS_ID,
            r.edge_connections.class == EDGE_DATA_CLASS_NAME,
            r.core_connections_map@ == Map::<u16, ConnectionType>::empty(),
    {
        ConnectionsParentGroup {
            connections: Connections { path: Vec::new() },
            edge_connections: EdgeConnections::default(),
            core_connections_map: HashMap::new(),
        }
    }

    /// Records where channel `direction` of core `core_id` is stored.
    pub fn insert_in_map(&mut self, core_id: &u8, direction: DirectionType, element: ConnectionType)
        ensures
            final(self).core_connections_map@ == old(self).core_connections_map@.insert(map_key(*core_id, direction), element),
            final(self).connections == old(self).connections,
            final(self).edge_connections == old(self).edge_connections,
    {
        let k = connection_key(*core_id, &direction);
        let _ = self.core_connections_map.insert(k, element);
    }

    /// Adds the edge channel of core `core_id` at `(r, c)` in `direction`: its input
    /// goes to the sources, its output to the sinks, and both are recorded.
    pub fn add_edge_connection(&mut self, core_id: &u8, direction: &Directions, r: &CoordinateT, c: &CoordinateT, top_left: &TopLeft)
        requires
            old(self).wf(),
            router_move_fits(*r as int, *c as int, *top_left),
            old(self).edge_connections.sink@.len() < usize::MAX,
        ensures
            final(self).wf(),
            final(self).connections == old(self).connections,
            final(self).edge_connections.source@.drop_last() == old(self).edge_connections.source@,
            final(self).edge_connections.sink@.drop_last() == old(self).edge_connections.sink@,
            final(self).edge_connections.id == old(self).edge_connections.id,
            final(self).edge_connections.class == old(self).edge_connections.class,
            ({
                let (rx, ry) = router_move(*r as int, *c as int, *top_left);
                let n = old(self).edge_connections.source@.len();
                &&& final(self).edge_connections.source@.len() == n + 1
                &&& connection_matches(final(self).edge_connections.source@[n as int], edge_paths_spec(*direction, rx, ry).0)
                &&& connection_matches(final(self).edge_connections.sink@[n as int], edge_paths_spec(*direction, rx, ry).1)
                &&& final(self).core_connections_map@ == old(self).core_connections_map@
                    .insert(map_key(*core_id, DirectionType::Source(*direction)), ConnectionType::EdgeConnection(n as usize))
                    .insert(map_key(*core_id, DirectionType::Out(*direction)), ConnectionType::EdgeConnection(n as usize))
            }),
    {
        let EdgePath { input, output } = Connection::get_edge_paths(direction, r, c, top_left);
        let current_source_size = self.edge_connections.source.len();
        let current_sink_size = self.edge_connections.sink.len();
        self.edge_connections.source.push(Connection::new(input));
        self.edge_connections.sink.push(Connection::new(output));
        self.insert_in_map(core_id, DirectionType::Source(*direction), ConnectionType::EdgeConnection(current_source_size));
        self.insert_in_map(core_id, DirectionType::Out(*direction), ConnectionType::EdgeConnection(current_sink_size));
        proof {
            assert(self.edge_connections.source@.drop_last() =~= old(self).edge_connections.source@);
            assert(self.edge_connections.sink@.drop_last() =~= old(self).edge_connections.sink@);
            assert forall|k: u16| #[trigger] self.core_connections_map@.contains_key(k) implies {
                let v = self.core_connections_map@[k];
                match v {
                    ConnectionType::Connection(i) => k % 8 < 4 && i < self.connections.path@.len(),
                    ConnectionType::EdgeConnection(i) => i < self.edge_connections.sink@.len(),
                }
            } by {
                if k != map_key(*core_id, DirectionType::Source(*direction)) && k != map_key(*core_id, DirectionType::Out(*direction)) {
                    assert(old(self).core_connections_map@.contains_key(k));
                }
            }
        }
    }

    /// Adds the inner (output) channel of core `core_id` at `(r, c)` in `direction` and records it.
    pub fn add_inner_connection(&mut self, core_id: &u8, direction: &Directions, r: &CoordinateT, c: &CoordinateT, top_left: &TopLeft)
        requires
            old(self).wf(),
            inner_connection_fits(*direction, *r as int, *c as int, *top_left),
        ensures
            final(self).wf(),
            final(self).edge_connections == old(self).edge_connections,
            final(self).connections.path@.drop_last() == old(self).connections.path@,
            ({
                let (rx, ry) = router_move(*r as int, *c as int, *top_left);
                let n = old(self).connections.path@.len();
                &&& final(self).connections.path@.len() == n + 1
                &&& connection_matches(final(self).connections.path@[n as int], inner_path_spec(*direction, rx, ry))
                &&& final(self).core_connections_map@ == old(self).core_connections_map@
                    .insert(map_key(*core_id, DirectionType::Out(*direction)), ConnectionType::Connection(n as usize))
            }),
    {
        let path = Connection::get_inner_path(direction, r, c, top_left);
        let current_size = self.connections.path.len();
        self.connections.path.push(Connection::new(path));
        self.insert_in_map(core_id, DirectionType::Out(*direction), ConnectionType::Connection(current_size));
        proof {
            assert(self.connections.path@.drop_last() =~= old(self).connections.path@);
            assert forall|k: u16| #[trigger] self.core_connections_map@.contains_key(k) implies {
                let v = self.core_connections_map@[k];
                match v {
                    ConnectionType::Connection(i) => k % 8 < 4 && i < self.connections.path@.len(),
                    ConnectionType::EdgeConnection(i) => i < self.edge_connections.sink@.len(),
                }
            } by {
                if k != map_key(*core_id, DirectionType::Out(*direction)) {
                    assert(old(self).core_connections_map@.contains_key(k));
                }
            }
        }
    }
    /// The channel in direction `d` of core `core_id` at `(r, c)`, whose border position is
    /// `edge`, is recorded and drawn: an edge channel (input among sources, output among
    /// sinks, at the same index) when `d` leaves the matrix, an inner channel otherwise.
    pub open spec fn channel_recorded(&self, core_id: u8, edge: Option<EdgePosition>, d: Directions, r: int, c: int, top_left: TopLeft) -> bool {
        let (rx, ry) = router_move(r, c, top_left);
        if leaves_matrix(edge, d) {
            exists|k: usize| {
                &&& #[trigger] self.lookup(core_id, DirectionType::Out(d)) == Some(ConnectionType::EdgeConnection(k))
                &&& self.lookup(core_id, DirectionType::Source(d)) == Some(ConnectionType::EdgeConnection(k))
                &&& k < self.edge_connections.sink@.len()
                &&& connection_matches(self.edge_connections.source@[k as int], edge_paths_spec(d, rx, ry).0)
                &&& connection_matches(self.edge_connections.sink@[k as int], edge_paths_spec(d, rx, ry).1)
            }
        } else {
            exists|k: usize| {
                &&& #[trigger] self.lookup(core_id, DirectionType::Out(d)) == Some(ConnectionType::Connection(k))
                &&& k < self.connections.path@.len()
                &&& connection_matches(self.connections.path@[k as int], inner_path_spec(d, rx, ry))
            }
        }
    }

    /// Every channel of `core` can be computed at `(r, c)`.
    pub open spec fn channels_fit(core: CoreDescription, r: int, c: int, top_left: TopLeft) -> bool {
        &&& router_move_fits(r, c, top_left)
        &&& forall|j: int| 0 <= j < core.channels@.len() ==> {
            let d = #[trigger] core.channels@[j].direction;
            !leaves_matrix(core.matrix_edge, d) ==> inner_path_fits(d, router_move(r, c, top_left).0, router_move(r, c, top_left).1)
        }
    }

    /// `new` holds everything `old` held: its vectors extend `old`'s.
    pub open spec fn extends(new: Self, old: Self) -> bool {
        &&& old.connections.path@.len() <= new.connections.path@.len()
        &&& new.connections.path@.subrange(0, old.connections.path@.len() as int) == old.connections.path@
        &&& old.edge_connections.source@.len() <= new.edge_connections.source@.len()
        &&& new.edge_connections.source@.subrange(0, old.edge_connections.source@.len() as int) == old.edge_connections.source@
        &&& old.edge_connections.sink@.len() <= new.edge_connections.sink@.len()
        &&& new.edge_connections.sink@.subrange(0, old.edge_connections.sink@.len() as int) == old.edge_connections.sink@
        &&& new.edge_connections.id == old.edge_connections.id
        &&& new.edge_connections.class == old.edge_connections.class
    }

    /// Adds and records every channel of `core`, drawn at `(r, c)`, in the order of its
    /// channels. Channels of other cores are left as they were.
    pub fn add_connections(&mut self, core: &CoreDescription, r: &CoordinateT, c: &CoordinateT, top_left: &TopLeft)
        requires
            old(self).wf(),
            core.wf(),
            Self::channels_fit(*core, *r as int, *c as int, *top_left),
            old(self).connections.path@.len() + core.channels@.len() < usize::MAX,
            old(self).edge_connections.sink@.len() + core.channels@.len() < usize::MAX,
        ensures
            final(self).wf(),
            Self::extends(*final(self), *old(self)),
            forall|j: int| 0 <= j < core.channels@.len() ==>
                final(self).channel_recorded(core.id, core.matrix_edge, #[trigger] core.channels@[j].direction, *r as int, *c as int, *top_left),
            forall|other: u8, t: DirectionType| other != core.id ==> #[trigger] final(self).lookup(other, t) == old(self).lookup(other, t),
            final(self).connections.path@.len() + final(self).edge_connections.sink@.len()
                == old(self).connections.path@.len() + old(self).edge_connections.sink@.len() + core.channels@.len(),
            old(self).coords_ok() && router_near(*r as int, *c as int, *top_left) ==> final(self).coords_ok(),
    {
        let on_edge = core.matrix_edge;
        let n = core.channels.len();
        let mut i: usize = 0;
        proof {
            assert(self.connections.path@.subrange(0, self.connections.path@.len() as int) =~= self.connections.path@);
            assert(self.edge_connections.source@.subrange(0, self.edge_connections.source@.len() as int) =~= self.edge_connections.source@);
            assert(self.edge_connections.sink@.subrange(0, self.edge_connections.sink@.len() as int) =~= self.edge_connections.sink@);
        }
        while i < n
            invariant
                n == core.channels@.len(),
                i <= n,
                self.wf(),
                core.wf(),
                Self::channels_fit(*core, *r as int, *c as int, *top_left),
                on_edge == core.matrix_edge,
                Self::extends(*self, *old(self)),
                self.connections.path@.len() + self.edge_connections.sink@.len()
                    == old(self).connections.path@.len() + old(self).edge_connections.sink@.len() + i,
                old(self).connections.path@.len() + n < usize::MAX,
                old(self).edge_connections.sink@.len() + n < usize::MAX,
                forall|j: int| 0 <= j < i ==>
                    self.channel_recorded(core.id, core.matrix_edge, #[trigger] core.channels@[j].direction, *r as int, *c as int, *top_left),
                forall|other: u8, t: DirectionType| other != core.id ==> #[trigger] self.lookup(other, t) == old(self).lookup(other, t),
                old(self).coords_ok() && router_near(*r as int, *c as int, *top_left) ==> self.coords_ok(),
            decreases n - i,
        {
            let direction = core.channels[i].direction;
            let ghost before = *self;
            if direction_leaves_matrix(&on_edge, &direction) {
                self.add_edge_connection(&core.id, &direction, r, c, top_left);
            } else {
                self.add_inner_connection(&core.id, &direction, r, c, top_left);
            }
            proof {
                let (rx, ry) = router_move(*r as int, *c as int, *top_left);
                if old(self).coords_ok() && router_near(*r as int, *c as int, *top_left) {
                    assert forall|k: int| 0 <= k < self.connections.path@.len() implies #[trigger] self.connections.path@[k].near() by {
                        if k < before.connections.path@.len() {
                            assert(before.connections.path@[k].near());
                        }
                    }
                    assert forall|k: int| 0 <= k < self.edge_connections.source@.len() implies #[trigger] self.edge_connections.source@[k].near() by {
                        if k < before.edge_connections.source@.len() {
                            assert(before.edge_connections.source@[k].near());
                        }
                    }
                    assert forall|k: int| 0 <= k < self.edge_connections.sink@.len() implies #[trigger] self.edge_connections.sink@[k].near() by {
                        if k < before.edge_connections.sink@.len() {
                            assert(before.edge_connections.sink@[k].near());
                        }
                    }
                }
                assert(self.connections.path@.subrange(0, old(self).connections.path@.len() as int)
                    =~= old(self).connections.path@) by {
                    assert(self.connections.path@.subrange(0, before.connections.path@.len() as int) =~= before.connections.path@);
                    assert(before.connections.path@.subrange(0, old(self).connections.path@.len() as int) =~= old(self).connections.path@);
                    assert(self.connections.path@.subrange(0, old(self).connections.path@.len() as int)
                        =~= before.connections.path@.subrange(0, old(self).connections.path@.len() as int));
                }
                assert(self.edge_connections.source@.subrange(0, old(self).edge_connections.source@.len() as int)
                    =~= old(self).edge_connections.source@) by {
                    assert(self.edge_connections.source@.subrange(0, before.edge_connections.source@.len() as int) =~= before.edge_connections.source@);
                    assert(self.edge_connections.source@.subrange(0, old(self).edge_connections.source@.len() as int)
                        =~= before.edge_connections.source@.subrange(0, old(self).edge_connections.source@.len() as int));
                }
                assert(self.edge_connections.sink@.subrange(0, old(self).edge_connections.sink@.len() as int)
                    =~= old(self).edge_connections.sink@) by {
                    assert(self.edge_connections.sink@.subrange(0, before.edge_connections.sink@.len() as int) =~= before.edge_connections.sink@);
                    assert(self.edge_connections.sink@.subrange(0, old(self).edge_connections.sink@.len() as int)
                        =~= before.edge_connections.sink@.subrange(0, old(self).edge_connections.sink@.len() as int));
                }
                assert forall|other: u8, t: DirectionType| other != core.id implies #[trigger] self.lookup(other, t) == old(self).lookup(other, t) by {
                    lemma_map_key_injective(other, t, core.id, DirectionType::Out(direction));
                    lemma_map_key_injective(other, t, core.id, DirectionType::Source(direction));
                    assert(before.lookup(other, t) == old(self).lookup(other, t));
                }
                if leaves_matrix(core.matrix_edge, direction) {
                    let k = before.edge_connections.sink@.len() as usize;
                    assert(self.lookup(core.id, DirectionType::Out(direction)) == Some(ConnectionType::EdgeConnection(k)));
                    assert(self.lookup(core.id, DirectionType::Source(direction)) == Some(ConnectionType::EdgeConnection(k))) by {
                        lemma_map_key_injective(core.id, DirectionType::Out(direction), core.id, DirectionType::Source(direction));
                    }
                } else {
                    let k = before.connections.path@.len() as usize;
                    assert(self.lookup(core.id, DirectionType::Out(direction)) == Some(ConnectionType::Connection(k)));
                }
                assert forall|j: int| 0 <= j < i + 1 implies
                    self.channel_recorded(core.id, core.matrix_edge, #[trigger] core.channels@[j].direction, *r as int, *c as int, *top_left) by {
                    if j < i {
                        let dj = core.channels@[j].direction;
                        assert(dj != direction);
                        assert(before.channel_recorded(core.id, core.matrix_edge, dj, *r as int, *c as int, *top_left));
                        lemma_map_key_injective(core.id, DirectionType::Out(dj), core.id, DirectionType::Out(direction));
                        lemma_map_key_injective(core.id, DirectionType::Out(dj), core.id, DirectionType::Source(direction));
                        lemma_map_key_injective(core.id, DirectionType::Source(dj), core.id, DirectionType::Out(direction));
                        lemma_map_key_injective(core.id, DirectionType::Source(dj), core.id, DirectionType::Source(direction));
                        if leaves_matrix(core.matrix_edge, dj) {
                            let k = choose|k: usize| {
                                &&& #[trigger] before.lookup(core.id, DirectionType::Out(dj)) == Some(ConnectionType::EdgeConnection(k))
                                &&& before.lookup(core.id, DirectionType::Source(dj)) == Some(ConnectionType::EdgeConnection(k))
                                &&& k < before.edge_connections.sink@.len()
                                &&& connection_matches(before.edge_connections.source@[k as int], edge_paths_spec(dj, rx, ry).0)
                                &&& connection_matches(before.edge_connections.sink@[k as int], edge_paths_spec(dj, rx, ry).1)
                            };
                            assert(self.edge_connections.source@[k as int] == before.edge_connections.source@[k as int]);
                            assert(self.edge_connections.sink@[k as int] == before.edge_connections.sink@[k as int]);
                            assert(self.lookup(core.id, DirectionType::Out(dj)) == Some(ConnectionType::EdgeConnection(k)));
                        } else {
                            let k = choose|k: usize| {
                                &&& #[trigger] before.lookup(core.id, DirectionType::Out(dj)) == Some(ConnectionType::Connection(k))
                                &&& k < before.connections.path@.len()
                                &&& connection_matches(before.connections.path@[k as int], inner_path_spec(dj, rx, ry))
                            };
                            assert(self.connections.path@[k as int] == before.connections.path@[k as int]);
                            assert(self.lookup(core.id, DirectionType::Out(dj)) == Some(ConnectionType::Connection(k)));
                        }
                    }
                }
            }
            i = i + 1;
        }
    }
}

/// Every channel type, in key order.
pub open spec fn all_direction_types() -> Seq<DirectionType> {
    seq![
        DirectionType::Out(Directions::North), DirectionType::Out(Directions::East),
        DirectionType::Out(Directions::South), DirectionType::Out(Directions::West),
        DirectionType::Source(Directions::North), DirectionType::Source(Directions::East),
        DirectionType::Source(Directions::South), DirectionType::Source(Directions::West),
    ]
}

/// The message when a core has no recorded channel.
pub open spec fn no_connections_message(core_id: u8) -> Seq<char> {
    "Could not get connections for Core "@ + nat_str(core_id as nat)
}

/// The message when a core lacks the recorded channel `t`.
pub open spec fn no_connection_message(core_id: u8, t: DirectionType) -> Seq<char> {
    "Could not get connection "@ + direction_type_text(t) + " for Core "@ + nat_str(core_id as nat)
}

/// Readable name of a channel type.
pub open spec fn direction_type_text(t: DirectionType) -> Seq<char> {
    match t {
        DirectionType::Out(d) => "DirectionType(Out("@ + direction_name(d) + "))"@,
        DirectionType::Source(d) => "DirectionType(Source("@ + direction_name(d) + "))"@,
    }
}

/// Start point of the channel `d` of core `core_id` (the sink side of edge channels for
/// output routing, the source side for source routing) and whether it is an edge channel.
pub open spec fn channel_info_spec(g: ConnectionsParentGroup, core_id: u8, d: Directions, rt: RoutingType) -> Option<(i32, i32, bool)> {
    match g.lookup(core_id, DirectionType::Out(d)) {
        Some(ConnectionType::Connection(i)) => Some((g.connections.path@[i as int].x, g.connections.path@[i as int].y, false)),
        Some(ConnectionType::EdgeConnection(i)) => match rt {
            RoutingType::OutputChannel => Some((g.edge_connections.sink@[i as int].x, g.edge_connections.sink@[i as int].y, true)),
            RoutingType::SourceChannel => Some((g.edge_connections.source@[i as int].x, g.edge_connections.source@[i as int].y, true)),
        },
        None => None,
    }
}

/// `e` is the error raised when channel `d` of core `core_id` is not recorded.
pub open spec fn is_missing_connection_error(g: ConnectionsParentGroup, core_id: u8, d: Directions, e: SVGError) -> bool {
    e.error_kind matches SVGErrorKind::ConnectionError(m) && m@ == (if exists|t: DirectionType| #[trigger] g.lookup(core_id, t) is Some {
        no_connection_message(core_id, DirectionType::Out(d))
    } else {
        no_connections_message(core_id)
    })
}

impl ConnectionsParentGroup {
    /// Whether core `core_id` has any recorded channel.
    pub fn has_connections(&self, core_id: u8) -> (r: bool)
        ensures
            r == exists|t: DirectionType| #[trigger] self.lookup(core_id, t) is Some,
    {
        let mut i: u8 = 0;
        let mut found = false;
        let types: [DirectionType; 8] = [
            DirectionType::Out(Directions::North), DirectionType::Out(Directions::East),
            DirectionType::Out(Directions::South), DirectionType::Out(Directions::West),
            DirectionType::Source(Directions::North), DirectionType::Source(Directions::East),
            DirectionType::Source(Directions::South), DirectionType::Source(Directions::West),
        ];
        while i < 8
            invariant
                i <= 8,
                types@ == all_direction_types(),
                found == exists|j: int| 0 <= j < i && #[trigger] self.lookup(core_id, types@[j]) is Some,
            decreases 8 - i,
        {
            let k = connection_key(core_id, &types[i as usize]);
            if self.core_connections_map.contains_key(&k) {
                found = true;
            }
            proof {
                assert(self.lookup(core_id, types@[i as int]) is Some == self.core_connections_map@.contains_key(k));
            }
            i = i + 1;
        }
        proof {
            if exists|t: DirectionType| #[trigger] self.lookup(core_id, t) is Some {
                let t = choose|t: DirectionType| #[trigger] self.lookup(core_id, t) is Some;
                let j: int = direction_type_index(t) as int;
                assert(types@[j] == t);
            }
        }
        found
    }

    /// Where channel `direction_type` of core `core_id` is stored; fails, naming what is
    /// missing, when the core has no recorded channel or not this one.
    pub fn get_connection_type(&self, direction_type: &DirectionType, core_id: &u8) -> (r: Result<ConnectionType, SVGError>)
        ensures
            match self.lookup(*core_id, *direction_type) {
                Some(t) => r == Ok::<ConnectionType, SVGError>(t),
                None => r matches Err(e) && e.error_kind matches SVGErrorKind::ConnectionError(m) && m@ == (
                    if exists|t: DirectionType| #[trigger] self.lookup(*core_id, t) is Some {
                        no_connection_message(*core_id, *direction_type)
                    } else {
                        no_connections_message(*core_id)
                    }),
            },
    {
        let k = connection_key(*core_id, direction_type);
        match self.core_connections_map.get(&k) {
            Some(t) => Ok(*t),
            None => {
                if self.has_connections(*core_id) {
                    let mut m = string_of("Could not get connection ");
                    push_str(&mut m, direction_type.describe().as_str());
                    push_str(&mut m, " for Core ");
                    push_nat(&mut m, *core_id as u64);
                    proof {
                        assert(m@ =~= no_connection_message(*core_id, *direction_type));
                    }
                    Err(SVGError::new(SVGErrorKind::ConnectionError(m)))
                } else {
                    let mut m = string_of("Could not get connections for Core ");
                    push_nat(&mut m, *core_id as u64);
                    Err(SVGError::new(SVGErrorKind::ConnectionError(m)))
                }
            },
        }
    }

    /// Start point of the output channel `direction` of core `core_id` (for an edge
    /// channel, its sink side or, for source routing, its source side), and whether it
    /// is an edge channel.
    pub fn channel_info_details(&self, direction: &Directions, core_id: &u8, routing_type: &RoutingType) -> (r: Result<(CoordinateT, CoordinateT, bool), SVGError>)
        requires
            self.wf(),
        ensures
            match channel_info_spec(*self, *core_id, *direction, *routing_type) {
                Some(v) => r == Ok::<(CoordinateT, CoordinateT, bool), SVGError>(v),
                None => r matches Err(e) && is_missing_connection_error(*self, *core_id, *direction, e),
            },
    {
        let direction_type = DirectionType::Out(*direction);
        let connection_type = self.get_connection_type(&direction_type, core_id)?;
        proof {
            assert(self.core_connections_map@.contains_key(map_key(*core_id, direction_type)));
        }
        match connection_type {
            ConnectionType::Connection(idx) => {
                let connection = &self.connections.path[idx];
                Ok((connection.x, connection.y, false))
            },
            ConnectionType::EdgeConnection(idx) => {
                let connection = match routing_type {
                    RoutingType::OutputChannel => &self.edge_connections.sink[idx],
                    RoutingType::SourceChannel => &self.edge_connections.source[idx],
                };
                Ok((connection.x, connection.y, true))
            },
        }
    }
}

} // verus!
