//! The many-core system as the SVG generation reads it: cores, routers, channels,
//! tasks and edge routers, held as plain values.

use vstd::prelude::*;

verus! {

/// A cardinal direction of a channel.
#[derive(Clone, Copy, Debug, PartialEq, Eq, Structural)]
pub enum Directions {
    North,
    East,
    South,
    West,
}

/// Where a core lies on the border of the matrix.
#[derive(Clone, Copy, Debug, PartialEq, Eq, Structural)]
pub enum EdgePosition {
    Top,
    TopLeft,
    TopRight,
    Left,
    Right,
    Bottom,
    BottomLeft,
    BottomRight,
}

/// Side of a router on which an edge router (sink or source) is connected.
#[derive(Clone, Copy, Debug, PartialEq, Eq, Structural)]
pub enum SinkSourceDirection {
    North,
    East,
    South,
    West,
}

/// What an edge router is: a sink or a source of a task.
#[derive(Clone, Copy, Debug, PartialEq, Eq, Structural)]
pub enum BorderEntry {
    Sink(u16),
    Source(u16),
}

/// Whether a routed channel is a core's output channel or the channel from its source.
#[derive(Clone, Copy, Debug, PartialEq, Eq, Structural)]
pub enum RoutingType {
    OutputChannel,
    SourceChannel,
}

/// Whether a core at `pos` has an edge channel in direction `d`: the directions
/// that leave the matrix from that border position.
pub open spec fn is_edge_direction(pos: EdgePosition, d: Directions) -> bool {
    match d {
        Directions::North => pos == EdgePosition::Top || pos == EdgePosition::TopLeft || pos == EdgePosition::TopRight,
        Directions::East => pos == EdgePosition::Right || pos == EdgePosition::TopRight || pos == EdgePosition::BottomRight,
        Directions::South => pos == EdgePosition::Bottom || pos == EdgePosition::BottomLeft || pos == EdgePosition::BottomRight,
        Directions::West => pos == EdgePosition::Left || pos == EdgePosition::TopLeft || pos == EdgePosition::BottomLeft,
    }
}

/// Whether direction `d` of a core on `edge` (if any) leaves the matrix.
pub open spec fn leaves_matrix(edge: Option<EdgePosition>, d: Directions) -> bool {
    match edge {
        Some(pos) => is_edge_direction(pos, d),
        None => false,
    }
}

/// Executable [`leaves_matrix`].
pub fn direction_leaves_matrix(edge: &Option<EdgePosition>, d: &Directions) -> (r: bool)
    ensures
        r == leaves_matrix(*edge, *d),
{
    match edge {
        Some(pos) => match d {
            Directions::North => match pos {
                EdgePosition::Top | EdgePosition::TopLeft | EdgePosition::TopRight => true,
                _ => false,
            },
            Directions::East => match pos {
                EdgePosition::Right | EdgePosition::TopRight | EdgePosition::BottomRight => true,
                _ => false,
            },
            Directions::South => match pos {
                EdgePosition::Bottom | EdgePosition::BottomLeft | EdgePosition::BottomRight => true,
                _ => false,
            },
            Directions::West => match pos {
                EdgePosition::Left | EdgePosition::TopLeft | EdgePosition::BottomLeft => true,
                _ => false,
            },
        },
        None => false,
    }
}

} // verus!

verus! {

/// A channel of a core: its direction, load, bandwidth and other attributes.
#[derive(Debug)]
pub struct Channel {
    pub direction: Directions,
    pub current_load: u16,
    pub bandwidth: u16,
    /// The load as a rounded percentage of the bandwidth; unknown without bandwidth.
    pub load_percentage: Option<u16>,
    /// Attribute names and values, each name once.
    pub attributes: Vec<(String, String)>,
}

/// The load that a source puts on the channel by which it enters a core, and that
/// load as a rounded percentage of the channel's bandwidth (unknown without bandwidth).
#[derive(Debug, Clone, Copy)]
pub struct SourceLoad {
    pub direction: Directions,
    pub load: u16,
    pub percentage: Option<u16>,
}

/// The router of a core.
#[derive(Debug)]
pub struct RouterDescription {
    pub id: u8,
    /// Prefix of the router's element id in the SVG.
    pub variant: String,
    pub attributes: Vec<(String, String)>,
}

/// A core of the system, as much of it as the SVG shows.
#[derive(Debug)]
pub struct CoreDescription {
    pub id: u8,
    /// Prefix of the core's element id in the SVG.
    pub variant: String,
    pub allocated_task: Option<u16>,
    pub matrix_edge: Option<EdgePosition>,
    /// The core's channels, each direction once.
    pub channels: Vec<Channel>,
    pub attributes: Vec<(String, String)>,
    pub router: RouterDescription,
    /// Load of the channel from each source connected to the core.
    pub source_loads: Option<Vec<SourceLoad>>,
    /// Edge routers connected to the core's router, each side once.
    pub borders: Option<Vec<(SinkSourceDirection, BorderEntry)>>,
}

/// A task of the task graph.
#[derive(Debug, Clone, Copy)]
pub struct TaskDescription {
    pub id: u16,
    pub computation_cost: u16,
}

/// A many-core system: a matrix of `rows` by `columns` cores, listed row by row,
/// and its task graph.
#[derive(Debug)]
pub struct ManycoreDescription {
    pub rows: u8,
    pub columns: u8,
    pub cores: Vec<CoreDescription>,
    pub tasks: Vec<TaskDescription>,
}

impl CoreDescription {
    /// Each direction has at most one channel.
    pub open spec fn wf(&self) -> bool {
        forall|i: int, j: int|
            0 <= i < j < self.channels@.len() ==> #[trigger] self.channels@[i].direction != #[trigger] self.channels@[j].direction
    }
}

} // verus!

verus! {

/// The value of the first attribute named `key`, if any.
pub open spec fn attr_get(attrs: Seq<(String, String)>, key: Seq<char>) -> Option<Seq<char>>
    decreases attrs.len(),
{
    if attrs.len() == 0 {
        None
    } else if attrs[0].0@ == key {
        Some(attrs[0].1@)
    } else {
        attr_get(attrs.drop_first(), key)
    }
}

/// The first channel in direction `d`, if any.
pub open spec fn channel_at(channels: Seq<Channel>, d: Directions) -> Option<Channel>
    decreases channels.len(),
{
    if channels.len() == 0 {
        None
    } else if channels[0].direction == d {
        Some(channels[0])
    } else {
        channel_at(channels.drop_first(), d)
    }
}

/// The first source load entering from direction `d`, if any.
pub open spec fn source_load_at(loads: Seq<SourceLoad>, d: Directions) -> Option<SourceLoad>
    decreases loads.len(),
{
    if loads.len() == 0 {
        None
    } else if loads[0].direction == d {
        Some(loads[0])
    } else {
        source_load_at(loads.drop_first(), d)
    }
}

/// The value of the first attribute named `key`, if any.
pub fn find_attribute<'a>(attrs: &'a Vec<(String, String)>, key: &str) -> (r: Option<&'a String>)
    ensures
        match r {
            Some(v) => attr_get(attrs@, key@) == Some(v@),
            None => attr_get(attrs@, key@) is None,
        },
{
    let mut i: usize = 0;
    proof {
        assert(attrs@.skip(0) =~= attrs@);
    }
    while i < attrs.len()
        invariant
            i <= attrs@.len(),
            attr_get(attrs@, key@) == attr_get(attrs@.skip(i as int), key@),
        decreases attrs@.len() - i,
    {
        proof {
            assert(attrs@.skip(i as int)[0] == attrs@[i as int]);
            assert(attrs@.skip(i as int).drop_first() =~= attrs@.skip(i + 1));
        }
        if crate::render_settings::str_eq(attrs[i].0.as_str(), key) {
            return Some(&attrs[i].1);
        }
        i = i + 1;
    }
    proof {
        assert(attrs@.skip(i as int).len() == 0);
    }
    None
}

impl CoreDescription {
    /// The core's first channel in direction `d`, if any.
    pub fn channel(&self, d: &Directions) -> (r: Option<&Channel>)
        ensures
            match r {
                Some(ch) => channel_at(self.channels@, *d) == Some(*ch),
                None => channel_at(self.channels@, *d) is None,
            },
    {
        let mut i: usize = 0;
        proof {
            assert(self.channels@.skip(0) =~= self.channels@);
        }
        while i < self.channels.len()
            invariant
                i <= self.channels@.len(),
                channel_at(self.channels@, *d) == channel_at(self.channels@.skip(i as int), *d),
            decreases self.channels@.len() - i,
        {
            proof {
                assert(self.channels@.skip(i as int)[0] == self.channels@[i as int]);
                assert(self.channels@.skip(i as int).drop_first() =~= self.channels@.skip(i + 1));
            }
            if self.channels[i].direction == *d {
                return Some(&self.channels[i]);
            }
            i = i + 1;
        }
        proof {
            assert(self.channels@.skip(i as int).len() == 0);
        }
        None
    }
}

/// The first source load entering from direction `d`, if any.
pub fn find_source_load(loads: &Vec<SourceLoad>, d: &Directions) -> (r: Option<SourceLoad>)
    ensures
        r == source_load_at(loads@, *d),
{
    let mut i: usize = 0;
    proof {
        assert(loads@.skip(0) =~= loads@);
    }
    while i < loads.len()
        invariant
            i <= loads@.len(),
            source_load_at(loads@, *d) == source_load_at(loads@.skip(i as int), *d),
        decreases loads@.len() - i,
    {
        proof {
            assert(loads@.skip(i as int)[0] == loads@[i as int]);
            assert(loads@.skip(i as int).drop_first() =~= loads@.skip(i + 1));
        }
        if loads[i].direction == *d {
            return Some(loads[i]);
        }
        i = i + 1;
    }
    proof {
        assert(loads@.skip(i as int).len() == 0);
    }
    None
}

} // verus!

verus! {

/// The channels a routing loads, by core: for each core id, the routed directions of
/// each kind of routing.
#[derive(Debug)]
pub struct RoutingMap {
    pub routes: Vec<(u8, Vec<(RoutingType, Vec<Directions>)>)>,
}

/// The routes of core `id` (the first entry for it), if any.
pub open spec fn routes_of(routes: Seq<(u8, Vec<(RoutingType, Vec<Directions>)>)>, id: u8) -> Option<Vec<(RoutingType, Vec<Directions>)>>
    decreases routes.len(),
{
    if routes.len() == 0 {
        None
    } else if routes[0].0 == id {
        Some(routes[0].1)
    } else {
        routes_of(routes.drop_first(), id)
    }
}

impl RoutingMap {
    /// The routes of core `id`, if any.
    pub fn get(&self, id: u8) -> (r: Option<&Vec<(RoutingType, Vec<Directions>)>>)
        ensures
            match r {
                Some(v) => routes_of(self.routes@, id) == Some(*v),
                None => routes_of(self.routes@, id) is None,
            },
    {
        let mut i: usize = 0;
        proof {
            assert(self.routes@.skip(0) =~= self.routes@);
        }
        while i < self.routes.len()
            invariant
                i <= self.routes@.len(),
                routes_of(self.routes@, id) == routes_of(self.routes@.skip(i as int), id),
            decreases self.routes@.len() - i,
        {
            proof {
                assert(self.routes@.skip(i as int)[0] == self.routes@[i as int]);
                assert(self.routes@.skip(i as int).drop_first() =~= self.routes@.skip(i + 1));
            }
            if self.routes[i].0 == id {
                return Some(&self.routes[i].1);
            }
            i = i + 1;
        }
        proof {
            assert(self.routes@.skip(i as int).len() == 0);
        }
        None
    }
}

} // verus!
