//! Mobile entities: health, movement along the waypoint path, spawn delay
//! and activation.

use vstd::prelude::*;

use crate::arith::{clamp_i64, clamp_int, div_round_nearest, div_round_spec, isqrt64, isqrt_spec};
use crate::element::Resistances;
use crate::map::{max_int, min_int, GameMap};
use crate::position::{abs_diff, abs_int, Position};

verus! {

/// Highest movement speed a monster can carry: 1000 cells per second,
/// in milli-units.
pub const SPEED_LIMIT: u64 = 1_000_000;

/// Longest simulated time step accepted by one update: 1000 seconds,
/// in milli-units.
pub const DT_LIMIT: u64 = 1_000_000;

/// Monster coordinates stay within this bound, which keeps every distance
/// computation exact in 64 bits.
pub const COORD_LIMIT: i32 = 0x4000_0000;

#[derive(Debug, Clone)]
pub struct Monster {
    pub name: String,
    pub symbol: String,
    /// Current hit points in milli-units; `0` means dead.
    pub hp: u64,
    pub position: Position,
    /// Cells per second, in milli-units.
    pub movement_speed: u64,
    /// Index of the waypoint the monster is heading to.
    pub waypoint_idx: usize,
    pub resistances: Resistances,
    /// Life taken from the player when the monster reaches the path's end.
    pub damage_to_player: u32,
    /// Fraction of a cell accumulated by sub-cell movement, in milli-units.
    pub distance_moved: u64,
    /// Seconds until the monster becomes active, in milli-units.
    pub spawn_delay: u64,
    /// Gates every simulation effect: an inactive monster neither moves nor
    /// takes part in combat.
    pub active: bool,
    /// Armor fraction in milli-units, worn down by crusher hits.
    pub armor: u32,
    /// Whether a sentinel tower has already reported this monster.
    pub detected: bool,
}

impl Monster {
    pub open spec fn wf(self) -> bool {
        &&& self.movement_speed <= SPEED_LIMIT
        &&& self.distance_moved < 1000
        &&& self.armor < 1000
        &&& self.resistances.wf()
        &&& -COORD_LIMIT <= self.position.x <= COORD_LIMIT
        &&& -COORD_LIMIT <= self.position.y <= COORD_LIMIT
    }

    /// A monster takes part in the match while it is active and has hit
    /// points left.
    pub open spec fn is_alive_spec(self) -> bool {
        self.hp > 0 && self.active
    }

    pub fn is_alive(&self) -> (alive: bool)
        ensures
            alive == self.is_alive_spec(),
    {
        self.hp > 0 && self.active
    }

    pub fn new(
        name: String,
        symbol: String,
        hp: u64,
        position: Position,
        movement_speed: u64,
        resistances: Resistances,
        damage_to_player: u32,
    ) -> (m: Monster)
        requires
            movement_speed <= SPEED_LIMIT,
            resistances.wf(),
            -COORD_LIMIT <= position.x <= COORD_LIMIT,
            -COORD_LIMIT <= position.y <= COORD_LIMIT,
        ensures
            m == (Monster {
                name,
                symbol,
                hp,
                position,
                movement_speed,
                waypoint_idx: 1usize,
                resistances,
                damage_to_player,
                distance_moved: 0u64,
                spawn_delay: 0u64,
                active: true,
                armor: 0u32,
                detected: false,
            }),
            m.wf(),
    {
        Monster {
            name,
            symbol,
            hp,
            position,
            movement_speed,
            waypoint_idx: 1,
            resistances,
            damage_to_player,
            distance_moved: 0,
            spawn_delay: 0,
            active: true,
            armor: 0,
            detected: false,
        }
    }

    /// Delays the monster's entry into the match: it stays inactive until the
    /// delay has counted down. A zero delay leaves it active immediately.
    pub fn with_spawn_delay(self, delay: u64) -> (m: Monster)
        ensures
            m == (Monster { spawn_delay: delay, active: delay == 0, ..self }),
    {
        let active = delay == 0;
        Monster { spawn_delay: delay, active, ..self }
    }

    /// Counts the spawn delay down by `delta_time` and reports whether the
    /// monster became active on this very call.
    pub fn update_spawn_status(&mut self, delta_time: u64) -> (spawned: bool)
        ensures
            old(self).active ==> *final(self) == *old(self) && !spawned,
            !old(self).active && delta_time >= old(self).spawn_delay ==> *final(self)
                == (Monster { spawn_delay: 0u64, active: true, ..*old(self) }) && spawned,
            !old(self).active && delta_time < old(self).spawn_delay ==> *final(self) == (Monster {
                spawn_delay: (old(self).spawn_delay - delta_time) as u64,
                ..*old(self)
            }) && !spawned,
            final(self).wf() == old(self).wf(),
    {
        if !self.active {
            if delta_time >= self.spawn_delay {
                self.spawn_delay = 0;
                self.active = true;
                return true;
            }
            self.spawn_delay = self.spawn_delay - delta_time;
        }
        false
    }

    /// True once an active monster has run out of waypoints to head to.
    pub open spec fn reached_goal_spec(self, map: GameMap) -> bool {
        self.active && self.waypoint_idx >= map.waypoints.len()
    }

    pub fn reached_goal(&self, map: &GameMap) -> (arrived: bool)
        ensures
            arrived == self.reached_goal_spec(*map),
    {
        self.active && self.waypoint_idx >= map.waypoints.len()
    }

    /// One discrete movement of `steps` whole cells toward `target`, along
    /// the rounded direction of the remaining vector; the move is clamped to
    /// the bounding box of the start and the target, and landing on the
    /// target advances the waypoint index.
    pub open spec fn step_toward_spec(self, target: Position, steps: int) -> Monster {
        let dx = target.x - self.position.x;
        let dy = target.y - self.position.y;
        let dist = isqrt_spec(dx * dx + dy * dy);
        let sx = div_round_spec(dx * steps, dist);
        let sy = div_round_spec(dy * steps, dist);
        let nx = clamp_int(
            self.position.x + sx,
            min_int(self.position.x as int, target.x as int),
            max_int(self.position.x as int, target.x as int),
        );
        let ny = clamp_int(
            self.position.y + sy,
            min_int(self.position.y as int, target.y as int),
            max_int(self.position.y as int, target.y as int),
        );
        if nx == target.x && ny == target.y {
            Monster { position: target, waypoint_idx: (self.waypoint_idx + 1) as usize, ..self }
        } else {
            Monster { position: (Position { x: nx as i32, y: ny as i32 }), ..self }
        }
    }

    /// The monster after one movement step of `dt` milli-seconds on `map`:
    /// inactive and arrived monsters stay put; a monster standing on its
    /// waypoint turns to the next one; otherwise speed, terrain and time
    /// feed the fractional accumulator, and each full cell accumulated
    /// becomes one discrete step toward the waypoint.
    pub open spec fn advance_spec(self, map: GameMap, dt: u64) -> Monster {
        if !self.active {
            self
        } else if self.waypoint_idx >= map.waypoints@.len() {
            self
        } else {
            let target = map.waypoints@[self.waypoint_idx as int];
            let dx = target.x - self.position.x;
            let dy = target.y - self.position.y;
            if dx == 0 && dy == 0 {
                Monster { waypoint_idx: (self.waypoint_idx + 1) as usize, ..self }
            } else {
                let gained = self.movement_speed * map.terrain_type.speed_modifier_spec() * dt
                    / 1_000_000;
                let total = self.distance_moved + gained;
                let steps = total / 1000;
                let accumulated = Monster { distance_moved: (total % 1000) as u64, ..self };
                if steps > 0 {
                    accumulated.step_toward_spec(target, steps)
                } else {
                    accumulated
                }
            }
        }
    }

    /// Moves the monster along the path for `delta_time` milli-seconds.
    /// Movement has no effect on an inactive monster.
    pub fn advance(&mut self, map: &GameMap, delta_time: u64)
        requires
            old(self).wf(),
            map.wf(),
            delta_time <= DT_LIMIT,
        ensures
            *final(self) == old(self).advance_spec(*map, delta_time),
            final(self).wf(),
            !old(self).active ==> *final(self) == *old(self),
    {
        if !self.active {
            return ;
        }
        if self.waypoint_idx >= map.waypoints.len() {
            return ;
        }
        let target = map.waypoints[self.waypoint_idx];
        let dx: i64 = target.x as i64 - self.position.x as i64;
        let dy: i64 = target.y as i64 - self.position.y as i64;
        if dx == 0 && dy == 0 {
            self.waypoint_idx = self.waypoint_idx + 1;
            return ;
        }
        let modifier: u32 = map.terrain_type.speed_modifier();
        proof {
            let s = old(self).movement_speed as int;
            assert(s * (modifier as int) <= 1_000_000 * 1000) by (nonlinear_arith)
                requires
                    0 <= s <= 1_000_000,
                    0 <= modifier <= 1000,
            ;
            assert(s * (modifier as int) * (delta_time as int) <= 1_000_000_000 * 1_000_000)
                by (nonlinear_arith)
                requires
                    0 <= s * (modifier as int) <= 1_000_000_000,
                    0 <= delta_time <= 1_000_000,
            ;
        }
        let gained: u64 = self.movement_speed * (modifier as u64) * delta_time / 1_000_000;
        proof {
            let product = old(self).movement_speed * (modifier as int) * (delta_time as int);
            assert(product / 1_000_000 <= 1_000_000_000) by (nonlinear_arith)
                requires
                    0 <= product <= 1_000_000_000_000_000,
            ;
        }
        let total: u64 = self.distance_moved + gained;
        let steps: u64 = total / 1000;
        proof {
            assert(total / 1000 <= 1_000_001) by (nonlinear_arith)
                requires
                    0 <= total <= 1_000_001_000,
            ;
        }
        self.distance_moved = total % 1000;
        if steps > 0 {
            let ax: u64 = abs_diff(target.x, self.position.x);
            let ay: u64 = abs_diff(target.y, self.position.y);
            proof {
                assert(ax <= 0x4100_0000 && ay <= 0x4100_0000);
                assert(ax * ax == dx * dx && ay * ay == dy * dy) by (nonlinear_arith)
                    requires
                        ax == abs_int(dx as int),
                        ay == abs_int(dy as int),
                ;
                assert(ax * ax <= 0x4100_0000u64 * 0x4100_0000u64 && ay * ay <= 0x4100_0000u64
                    * 0x4100_0000u64) by (nonlinear_arith)
                    requires
                        ax <= 0x4100_0000u64,
                        ay <= 0x4100_0000u64,
                ;
            }
            let dist2: u64 = ax * ax + ay * ay;
            proof {
                assert(ax * ax + ay * ay >= 1) by (nonlinear_arith)
                    requires
                        ax >= 1 || ay >= 1,
                ;
            }
            let dist: u64 = isqrt64(dist2);
            proof {
                assert(dist >= 1) by {
                    if dist == 0 {
                        assert(dist2 < (0 + 1) * (0 + 1));
                    }
                }
                assert(dist <= 0x1_0000_0000) by {
                    if dist > 0x1_0000_0000 {
                        assert(dist * dist > 0x1_0000_0000u64 * 0x1_0000_0000u64)
                            by (nonlinear_arith)
                            requires
                                dist > 0x1_0000_0000u64,
                        ;
                    }
                }
                assert(abs_int((dx as int) * (steps as int)) <= 0x2000_0000_0000_0000
                    && abs_int((dy as int) * (steps as int)) <= 0x2000_0000_0000_0000)
                    by (nonlinear_arith)
                    requires
                        abs_int(dx as int) <= 0x4100_0000,
                        abs_int(dy as int) <= 0x4100_0000,
                        0 <= steps <= 0x10_0000,
                ;
            }
            let sx: i64 = div_round_nearest(dx * (steps as i64), dist);
            let sy: i64 = div_round_nearest(dy * (steps as i64), dist);
            let (min_x, max_x): (i64, i64) = if self.position.x as i64 <= target.x as i64 {
                (self.position.x as i64, target.x as i64)
            } else {
                (target.x as i64, self.position.x as i64)
            };
            let (min_y, max_y): (i64, i64) = if self.position.y as i64 <= target.y as i64 {
                (self.position.y as i64, target.y as i64)
            } else {
                (target.y as i64, self.position.y as i64)
            };
            let nx64: i64 = clamp_i64(self.position.x as i64 + sx, min_x, max_x);
            let ny64: i64 = clamp_i64(self.position.y as i64 + sy, min_y, max_y);
            self.position = Position { x: nx64 as i32, y: ny64 as i32 };
            if nx64 == target.x as i64 && ny64 == target.y as i64 {
                self.waypoint_idx = self.waypoint_idx + 1;
            }
        }
    }

    /// Sets the speed in milli-cells per second, with a floor of `100`
    /// (a tenth of a cell per second) so a monster never stalls outright.
    pub fn set_movement_speed(&mut self, cases_per_second: u64)
        requires
            cases_per_second <= SPEED_LIMIT,
        ensures
            *final(self) == (Monster {
                movement_speed: if cases_per_second >= 100 {
                    cases_per_second
                } else {
                    100u64
                },
                ..*old(self)
            }),
            old(self).wf() ==> final(self).wf(),
    {
        self.movement_speed = if cases_per_second >= 100 {
            cases_per_second
        } else {
            100
        };
    }
}

} // verus!
