//! The four lanes: their keys, their anchors on screen and their lights.
use vstd::prelude::*;

verus! {

/// Number of lanes. A lane id is valid when it is below this.
pub const LANE_COUNT: u8 = 4;

/// Millionths of a screen unit in one screen unit.
pub const MICROS_PER_UNIT: i64 = 1_000_000;

/// Horizontal distance between the anchors of neighbouring lanes.
pub const LANE_PITCH: i64 = 150_000_000;

/// Height of the hit line, on which every lane's anchor lies.
pub const HIT_LINE_Y: i64 = -500_000_000;

/// Horizontal distance between the spawn points of neighbouring lanes.
pub const SPAWN_PITCH: i64 = 100_000_000;

/// Height at which a note appears.
pub const SPAWN_Y: i64 = 1_000_000_000;

/// One of the four keys that the lanes are bound to.
#[derive(Clone, Copy, Debug, PartialEq, Eq, Structural)]
pub enum KeyId {
    D,
    F,
    J,
    K,
}

/// What happened to one key in the current tick.
#[derive(Clone, Copy, Debug, PartialEq, Eq, Structural)]
pub struct KeyEdge {
    /// The key went from released to pressed in this tick.
    pub just_pressed: bool,
    /// The key went from pressed to released in this tick.
    pub just_released: bool,
}

/// The edges of the four bound keys in the current tick.
#[derive(Clone, Copy, Debug, PartialEq, Eq, Structural)]
pub struct KeyEdges {
    pub d: KeyEdge,
    pub f: KeyEdge,
    pub j: KeyEdge,
    pub k: KeyEdge,
}

/// A point on screen, in millionths of a screen unit.
#[derive(Clone, Copy, Debug, PartialEq, Eq, Structural)]
pub struct Position {
    pub x: i64,
    pub y: i64,
}

/// The highlight of a lane.
#[derive(Clone, Copy, Debug, PartialEq, Eq, Structural)]
pub enum LaneLight {
    Idle,
    Active,
}

/// The key bound to a lane: 0 to D, 1 to F, 2 to J, 3 to K.
pub open spec fn lane_key(lane: int) -> KeyId {
    if lane == 0 {
        KeyId::D
    } else if lane == 1 {
        KeyId::F
    } else if lane == 2 {
        KeyId::J
    } else {
        KeyId::K
    }
}

/// The anchor of a lane: the point that a note of the lane crosses at its
/// target time.
pub open spec fn anchor_of(lane: int) -> (int, int) {
    (lane * LANE_PITCH, HIT_LINE_Y as int)
}

/// The point at which a note of a lane appears.
pub open spec fn spawn_point_of(lane: int) -> (int, int) {
    (lane * SPAWN_PITCH, SPAWN_Y as int)
}

/// The light of a lane after a tick in which its key had the edge `edge`: a
/// press lights it, a release without a press puts it out, and without an
/// edge it stays as it is.
pub open spec fn light_after(light: LaneLight, edge: KeyEdge) -> LaneLight {
    if edge.just_pressed {
        LaneLight::Active
    } else if edge.just_released {
        LaneLight::Idle
    } else {
        light
    }
}

impl KeyEdge {
    /// No edge.
    pub fn none() -> (r: KeyEdge)
        ensures
            r == (KeyEdge { just_pressed: false, just_released: false }),
    {
        KeyEdge { just_pressed: false, just_released: false }
    }
}

impl KeyEdges {
    /// The edge of one key.
    pub open spec fn edge(self, key: KeyId) -> KeyEdge {
        match key {
            KeyId::D => self.d,
            KeyId::F => self.f,
            KeyId::J => self.j,
            KeyId::K => self.k,
        }
    }

    /// A tick in which no key changed.
    pub fn none() -> (r: KeyEdges)
        ensures
            forall|key: KeyId| r.edge(key) == (KeyEdge { just_pressed: false, just_released: false }),
    {
        let e = KeyEdge::none();
        KeyEdges { d: e, f: e, j: e, k: e }
    }

    /// A tick in which `key` was pressed and no other key changed.
    pub fn press(key: KeyId) -> (r: KeyEdges)
        ensures
            forall|other: KeyId|
                r.edge(other) == (KeyEdge { just_pressed: other == key, just_released: false }),
    {
        let e = KeyEdge::none();
        let p = KeyEdge { just_pressed: true, just_released: false };
        match key {
            KeyId::D => KeyEdges { d: p, f: e, j: e, k: e },
            KeyId::F => KeyEdges { d: e, f: p, j: e, k: e },
            KeyId::J => KeyEdges { d: e, f: e, j: p, k: e },
            KeyId::K => KeyEdges { d: e, f: e, j: e, k: p },
        }
    }

    /// A tick in which `key` was released and no other key changed.
    pub fn release(key: KeyId) -> (r: KeyEdges)
        ensures
            forall|other: KeyId|
                r.edge(other) == (KeyEdge { just_pressed: false, just_released: other == key }),
    {
        let e = KeyEdge::none();
        let p = KeyEdge { just_pressed: false, just_released: true };
        match key {
            KeyId::D => KeyEdges { d: p, f: e, j: e, k: e },
            KeyId::F => KeyEdges { d: e, f: p, j: e, k: e },
            KeyId::J => KeyEdges { d: e, f: e, j: p, k: e },
            KeyId::K => KeyEdges { d: e, f: e, j: e, k: p },
        }
    }

    /// The edge of one key.
    pub fn of(&self, key: KeyId) -> (r: KeyEdge)
        ensures
            r == self.edge(key),
    {
        match key {
            KeyId::D => self.d,
            KeyId::F => self.f,
            KeyId::J => self.j,
            KeyId::K => self.k,
        }
    }
}

/// Tells whether `lane` is one of the four lanes.
pub fn is_lane(lane: u8) -> (r: bool)
    ensures
        r == (lane < LANE_COUNT),
{
    lane < LANE_COUNT
}

/// The key bound to a lane.
pub fn bound_key(lane: u8) -> (key: KeyId)
    requires
        lane < LANE_COUNT,
    ensures
        key == lane_key(lane as int),
{
    if lane == 0 {
        KeyId::D
    } else if lane == 1 {
        KeyId::F
    } else if lane == 2 {
        KeyId::J
    } else {
        KeyId::K
    }
}

/// The anchor of a lane on the hit line.
pub fn lane_anchor(lane: u8) -> (p: Position)
    requires
        lane < LANE_COUNT,
    ensures
        (p.x as int, p.y as int) == anchor_of(lane as int),
{
    let column: i64 = lane as i64;
    Position { x: column * LANE_PITCH, y: HIT_LINE_Y }
}

/// The point at which a note of a lane appears.
pub fn spawn_point(lane: u8) -> (p: Position)
    requires
        lane < LANE_COUNT,
    ensures
        (p.x as int, p.y as int) == spawn_point_of(lane as int),
{
    let column: i64 = lane as i64;
    Position { x: column * SPAWN_PITCH, y: SPAWN_Y }
}

/// The light of a lane after a tick with the key edges `edges`. The lane
/// follows its own key only, the one that judges its notes.
pub fn illuminate_lane(lane: u8, light: LaneLight, edges: &KeyEdges) -> (r: LaneLight)
    requires
        lane < LANE_COUNT,
    ensures
        r == light_after(light, edges.edge(lane_key(lane as int))),
{
    let edge = edges.of(bound_key(lane));
    if edge.just_pressed {
        LaneLight::Active
    } else if edge.just_released {
        LaneLight::Idle
    } else {
        light
    }
}

} // verus!
