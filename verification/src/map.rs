//! The map: an ordered waypoint path, terrain, and the monster catalog used
//! for generated waves.

use vstd::prelude::*;

use crate::monster::Monster;
use crate::position::abs_int;
use crate::position::Position;

verus! {

/// Map waypoints stay within this bound; together with the monster
/// coordinate bound it keeps path arithmetic exact in 64 bits.
pub const MAP_LIMIT: i32 = 16_777_216;

/// Discrete terrain kinds; each maps to a speed multiplier of at most one.
#[derive(Debug, Clone, Copy, PartialEq, Eq, Structural)]
pub enum Terrain {
    Plains,
    Forest,
    Desert,
    Cave,
}

impl Terrain {
    pub open spec fn speed_modifier_spec(self) -> int {
        match self {
            Terrain::Plains => 1000,
            Terrain::Forest => 800,
            Terrain::Desert => 900,
            Terrain::Cave => 700,
        }
    }

    /// The terrain's speed multiplier in milli-units; never above `1000`,
    /// so terrain slows monsters down or leaves them unchanged.
    pub fn speed_modifier(&self) -> (m: u32)
        ensures
            m == self.speed_modifier_spec(),
            0 < m <= 1000,
    {
        match self {
            Terrain::Plains => 1000,
            Terrain::Forest => 800,
            Terrain::Desert => 900,
            Terrain::Cave => 700,
        }
    }
}

#[derive(Debug, Clone)]
pub struct GameMap {
    pub name: String,
    pub description: String,
    /// The ordered path every monster walks, from entry to goal.
    pub waypoints: Vec<Position>,
    pub width: u32,
    pub height: u32,
    pub terrain_type: Terrain,
    /// Prototype monsters cloned when a wave is generated.
    pub monsters: Vec<Monster>,
}

impl GameMap {
    pub open spec fn wf(self) -> bool {
        &&& self.waypoints@.len() >= 2
        &&& forall|i: int|
            0 <= i < self.waypoints@.len() ==> (-MAP_LIMIT <= #[trigger] self.waypoints@[i].x
                <= MAP_LIMIT && -MAP_LIMIT <= self.waypoints@[i].y <= MAP_LIMIT)
        &&& forall|i: int| 0 <= i < self.monsters@.len() ==> (#[trigger] self.monsters@[i]).wf()
    }

    pub fn new(
        name: String,
        description: String,
        waypoints: Vec<Position>,
        width: u32,
        height: u32,
        monsters: Vec<Monster>,
        terrain_type: Terrain,
    ) -> (map: GameMap)
        requires
            waypoints@.len() >= 2,
            forall|i: int|
                0 <= i < waypoints@.len() ==> (-MAP_LIMIT <= #[trigger] waypoints@[i].x
                    <= MAP_LIMIT && -MAP_LIMIT <= waypoints@[i].y <= MAP_LIMIT),
            forall|i: int| 0 <= i < monsters@.len() ==> (#[trigger] monsters@[i]).wf(),
        ensures
            map == (GameMap { name, description, waypoints, width, height, terrain_type, monsters }),
            map.wf(),
    {
        GameMap { name, description, waypoints, width, height, terrain_type, monsters }
    }

    /// Whether `p` lies on the straight segment between two consecutive
    /// waypoints: inside the segment's bounding box and exactly on the line
    /// through its endpoints.
    pub open spec fn on_segment_spec(start: Position, end: Position, p: Position) -> bool {
        &&& min_int(start.x as int, end.x as int) <= p.x <= max_int(start.x as int, end.x as int)
        &&& min_int(start.y as int, end.y as int) <= p.y <= max_int(start.y as int, end.y as int)
        &&& (p.x - start.x) * (end.y - start.y) == (p.y - start.y) * (end.x - start.x)
    }

    pub open spec fn on_path_spec(self, p: Position) -> bool {
        ||| exists|i: int| 0 <= i < self.waypoints@.len() && #[trigger] self.waypoints@[i] == p
        ||| exists|i: int|
            0 <= i < self.waypoints@.len() - 1 && Self::on_segment_spec(
                #[trigger] self.waypoints@[i],
                self.waypoints@[i + 1],
                p,
            )
    }

    /// Tower placement is refused on the monsters' path: this reports whether
    /// `position` is one of the waypoints or lies on a segment between two
    /// consecutive waypoints.
    pub fn is_position_on_path(&self, position: &Position) -> (on_path: bool)
        requires
            self.wf(),
        ensures
            on_path == self.on_path_spec(*position),
    {
        let n = self.waypoints.len();
        let mut i: usize = 0;
        while i < n
            invariant
                n == self.waypoints@.len(),
                0 <= i <= n,
                forall|j: int| 0 <= j < i ==> #[trigger] self.waypoints@[j] != *position,
            decreases n - i,
        {
            let wp = self.waypoints[i];
            if wp.x == position.x && wp.y == position.y {
                return true;
            }
            i = i + 1;
        }
        let mut i: usize = 0;
        while i < n - 1
            invariant
                n == self.waypoints@.len(),
                n >= 2,
                self.wf(),
                0 <= i <= n - 1,
                forall|j: int|
                    0 <= j < i ==> !Self::on_segment_spec(
                        #[trigger] self.waypoints@[j],
                        self.waypoints@[j + 1],
                        *position,
                    ),
                forall|j: int| 0 <= j < n ==> #[trigger] self.waypoints@[j] != *position,
            decreases n - 1 - i,
        {
            let start = self.waypoints[i];
            let end = self.waypoints[i + 1];
            let min_x = if start.x <= end.x {
                start.x
            } else {
                end.x
            };
            let max_x = if start.x <= end.x {
                end.x
            } else {
                start.x
            };
            let min_y = if start.y <= end.y {
                start.y
            } else {
                end.y
            };
            let max_y = if start.y <= end.y {
                end.y
            } else {
                start.y
            };
            if min_x <= position.x && position.x <= max_x && min_y <= position.y && position.y
                <= max_y {
                proof {
                    let px = position.x - start.x;
                    let py = position.y - start.y;
                    let dx = end.x - start.x;
                    let dy = end.y - start.y;
                    assert(abs_int(px) <= 0x2000000 && abs_int(dy) <= 0x2000000 && abs_int(py)
                        <= 0x2000000 && abs_int(dx) <= 0x2000000);
                    assert(abs_int(px * dy) <= 0x2000000 * 0x2000000) by (nonlinear_arith)
                        requires
                            abs_int(px) <= 0x2000000,
                            abs_int(dy) <= 0x2000000,
                    ;
                    assert(abs_int(py * dx) <= 0x2000000 * 0x2000000) by (nonlinear_arith)
                        requires
                            abs_int(py) <= 0x2000000,
                            abs_int(dx) <= 0x2000000,
                    ;
                }
                let lhs: i64 = (position.x as i64 - start.x as i64) * (end.y as i64
                    - start.y as i64);
                let rhs: i64 = (position.y as i64 - start.y as i64) * (end.x as i64
                    - start.x as i64);
                if lhs == rhs {
                    return true;
                }
            }
            i = i + 1;
        }
        false
    }
}

/// The smaller of two mathematical integers.
pub open spec fn min_int(a: int, b: int) -> int {
    if a <= b {
        a
    } else {
        b
    }
}

/// The larger of two mathematical integers.
pub open spec fn max_int(a: int, b: int) -> int {
    if a <= b {
        b
    } else {
        a
    }
}

} // verus!
