//! The match orchestrator: owns the map, the towers, the wave queue, the
//! currency and the player's life, and runs the per-tick update.

use std::collections::VecDeque;

use vstd::prelude::*;

use crate::catalog::{AirTower, BasicTower, EarthTower, FireTower, SentinelTower, WaterTower};
use crate::map::GameMap;
use crate::monster::Monster;
use crate::position::Position;
use crate::text::{decimal_spec, decimal_string};
use crate::tower::{Tower, TowerKind, TowerStatType};
use crate::wave::Wave;

verus! {

/// One entry of the match's event log.
#[derive(Debug, Clone)]
pub struct GameLog {
    pub message: String,
    /// Simulation time of the event, in milli-seconds.
    pub timestamp: u64,
}

pub struct Game {
    pub current_map: Option<GameMap>,
    pub towers: Vec<Tower>,
    /// The pending wave queue; `None` once the match has no more waves.
    pub waves: Option<VecDeque<Wave>>,
    /// At most one wave is current at a time.
    pub current_wave: Option<Wave>,
    pub wave_index: u32,
    /// Hit-point growth per wave for generated waves, in milli-units.
    pub wave_multiplier: u64,
    pub player_life: i64,
    /// Elapsed simulation time in milli-seconds.
    pub elapsed_time: u64,
    /// Seconds between staggered spawns, in milli-units; zero spawns a whole
    /// wave at once.
    pub spawn_interval: u64,
    /// The append-only, length-capped event log.
    pub logs: Vec<GameLog>,
    pub log_limit: usize,
    /// The currency balance, in whole coins. It never goes negative.
    pub money: u64,
    /// The id handed to the next tower placed.
    pub next_tower_id: u64,
    /// High-significance messages for an outside notifier, in order.
    pub notifications: Vec<String>,
}

/// The log after appending `entry`: the oldest entry falls out once the
/// cap is passed.
pub open spec fn logs_after_spec(logs: Seq<GameLog>, limit: int, entry: GameLog) -> Seq<GameLog> {
    if logs.len() + 1 > limit {
        logs.push(entry).drop_first()
    } else {
        logs.push(entry)
    }
}

/// The log `post` records exactly one new event with message `msg` at time
/// `t`, on top of `pre`.
pub open spec fn logged_spec(
    pre: Seq<GameLog>,
    limit: int,
    post: Seq<GameLog>,
    msg: Seq<char>,
    t: u64,
) -> bool {
    exists|entry: GameLog|
        entry.message@ == msg && entry.timestamp == t && post == logs_after_spec(pre, limit, entry)
}

/// `post` equals `pre` in every field but the event log.
pub open spec fn same_but_logs(pre: Game, post: Game) -> bool {
    post == (Game { logs: post.logs, ..pre })
}

impl Game {
    pub open spec fn wf(self) -> bool {
        &&& match self.current_map {
            Some(m) => m.wf(),
            None => true,
        }
        &&& forall|i: int| 0 <= i < self.towers@.len() ==> (#[trigger] self.towers@[i]).wf()
        &&& match self.waves {
            Some(q) => forall|i: int| 0 <= i < q@.len() ==> (#[trigger] q@[i]).wf(),
            None => true,
        }
        &&& match self.current_wave {
            Some(w) => w.wf(),
            None => true,
        }
        &&& self.logs@.len() <= self.log_limit
        &&& self.log_limit <= 1_000_000
        &&& self.spawn_interval <= 1_000_000_000
        &&& self.wave_multiplier <= 1_000_000_000
    }

    pub fn new(towers: Vec<Tower>, player_life: i64, wave_multiplier: u64) -> (game: Game)
        requires
            forall|i: int| 0 <= i < towers@.len() ==> (#[trigger] towers@[i]).wf(),
            wave_multiplier <= 1_000_000_000,
        ensures
            game == (Game {
                current_map: None,
                towers,
                waves: game.waves,
                current_wave: None,
                wave_index: 0u32,
                wave_multiplier,
                player_life,
                elapsed_time: 0u64,
                spawn_interval: 1000u64,
                logs: game.logs,
                log_limit: 100usize,
                money: 100_000_000u64,
                next_tower_id: 1u64,
                notifications: game.notifications,
            }),
            game.waves matches Some(q) && q@.len() == 0,
            game.logs@.len() == 0,
            game.notifications@.len() == 0,
            game.wf(),
    {
        Game {
            current_map: None,
            towers,
            waves: Some(VecDeque::new()),
            current_wave: None,
            wave_index: 0,
            wave_multiplier,
            player_life,
            elapsed_time: 0,
            spawn_interval: 1000,
            logs: Vec::new(),
            log_limit: 100,
            money: 100_000_000,
            next_tower_id: 1,
            notifications: Vec::new(),
        }
    }

    /// Appends one event to the log, dropping the oldest entry once the log
    /// would pass its cap.
    pub fn add_log(&mut self, message: String)
        requires
            old(self).wf(),
        ensures
            same_but_logs(*old(self), *final(self)),
            final(self).logs@ == logs_after_spec(
                old(self).logs@,
                old(self).log_limit as int,
                (GameLog { message, timestamp: old(self).elapsed_time }),
            ),
            final(self).wf(),
    {
        let timestamp = self.elapsed_time;
        let ghost gm = message;
        self.logs.push(GameLog { message, timestamp });
        if self.logs.len() > self.log_limit {
            self.logs.remove(0);
            proof {
                assert(self.logs@ =~= old(self).logs@.push(
                    (GameLog { message: gm, timestamp }),
                ).drop_first());
            }
        }
    }

    /// Credits `amount` coins; the balance saturates rather than wraps.
    pub fn add_money(&mut self, amount: u64)
        requires
            old(self).wf(),
        ensures
            final(self).money == if old(self).money + amount <= u64::MAX {
                old(self).money + amount
            } else {
                u64::MAX as int
            },
            *final(self) == (Game { money: final(self).money, logs: final(self).logs, ..*old(self) }),
            logged_spec(
                old(self).logs@,
                old(self).log_limit as int,
                final(self).logs@,
                "💰 Gain de "@ + decimal_spec(amount as int) + " pièces! Total: "@
                    + decimal_spec(final(self).money as int),
                old(self).elapsed_time,
            ),
            final(self).wf(),
    {
        self.money = if self.money <= u64::MAX - amount {
            self.money + amount
        } else {
            u64::MAX
        };
        let msg = msg_num2("💰 Gain de ", amount, " pièces! Total: ", self.money, "");
        let ghost gmsg = msg;
        let ghost t = self.elapsed_time;
        self.add_log(msg);
        proof {
            reveal_strlit("");
            let entry = GameLog { message: gmsg, timestamp: t };
            assert(self.logs@ == logs_after_spec(
                old(self).logs@,
                old(self).log_limit as int,
                entry,
            ));
            assert(gmsg@ =~= "💰 Gain de "@ + decimal_spec(amount as int)
                + " pièces! Total: "@ + decimal_spec(self.money as int));
        }
    }

    pub fn has_enough_money(&self, amount: u64) -> (enough: bool)
        ensures
            enough == (self.money >= amount),
    {
        self.money >= amount
    }

    /// Debits `amount` coins, but only when the balance covers it: the
    /// balance is left untouched otherwise and can never go negative.
    pub fn spend_money(&mut self, amount: u64) -> (spent: bool)
        requires
            old(self).wf(),
        ensures
            spent == (old(self).money >= amount),
            final(self).money == if old(self).money >= amount {
                old(self).money - amount
            } else {
                old(self).money as int
            },
            *final(self) == (Game { money: final(self).money, logs: final(self).logs, ..*old(self) }),
            spent ==> logged_spec(
                old(self).logs@,
                old(self).log_limit as int,
                final(self).logs@,
                "💸 Dépense de "@ + decimal_spec(amount as int) + " pièces. Reste: "@
                    + decimal_spec(final(self).money as int),
                old(self).elapsed_time,
            ),
            !spent ==> logged_spec(
                old(self).logs@,
                old(self).log_limit as int,
                final(self).logs@,
                "❌ Pas assez de pièces! ("@ + decimal_spec(old(self).money as int) + ")"@,
                old(self).elapsed_time,
            ),
            final(self).wf(),
    {
        if self.has_enough_money(amount) {
            self.money = self.money - amount;
            let msg = msg_num2(
                "💸 Dépense de ",
                amount,
                " pièces. Reste: ",
                self.money,
                "",
            );
            let ghost gmsg = msg;
            let ghost t = self.elapsed_time;
            self.add_log(msg);
            proof {
                reveal_strlit("");
                let entry = GameLog { message: gmsg, timestamp: t };
                assert(self.logs@ == logs_after_spec(
                    old(self).logs@,
                    old(self).log_limit as int,
                    entry,
                ));
                assert(gmsg@ =~= "💸 Dépense de "@ + decimal_spec(amount as int)
                    + " pièces. Reste: "@ + decimal_spec(self.money as int));
            }
            true
        } else {
            let msg = msg_num1("❌ Pas assez de pièces! (", self.money, ")");
            let ghost gmsg = msg;
            let ghost t = self.elapsed_time;
            self.add_log(msg);
            proof {
                let entry = GameLog { message: gmsg, timestamp: t };
                assert(self.logs@ == logs_after_spec(
                    old(self).logs@,
                    old(self).log_limit as int,
                    entry,
                ));
            }
            false
        }
    }

    pub fn set_spawn_interval(&mut self, interval: u64)
        requires
            interval <= 1_000_000_000,
        ensures
            *final(self) == (Game { spawn_interval: interval, ..*old(self) }),
            old(self).wf() ==> final(self).wf(),
    {
        self.spawn_interval = interval;
    }

    /// Appends `tower` to the field, stamped with a fresh id.
    fn place(&mut self, tower: Tower)
        requires
            old(self).wf(),
            tower.wf(),
        ensures
            *final(self) == (Game {
                towers: final(self).towers,
                next_tower_id: final(self).next_tower_id,
                ..*old(self)
            }),
            final(self).towers@ == old(self).towers@.push(
                (Tower { id: old(self).next_tower_id, ..tower }),
            ),
            final(self).next_tower_id == if old(self).next_tower_id < u64::MAX {
                old(self).next_tower_id + 1
            } else {
                old(self).next_tower_id as int
            },
            final(self).wf(),
    {
        let mut tower = tower;
        tower.id = self.next_tower_id;
        if self.next_tower_id < u64::MAX {
            self.next_tower_id = self.next_tower_id + 1;
        }
        self.towers.push(tower);
    }

    pub fn add_basic_tower(&mut self, position: Position)
        requires
            old(self).wf(),
        ensures
            placed_spec(*old(self), *final(self), TowerKind::Basic, position),
            final(self).wf(),
    {
        let tower = BasicTower::positionned(position);
        self.place(tower);
        proof {
            assert(self.towers@.subrange(0, old(self).towers@.len() as int) =~= old(self).towers@);
        }
    }

    pub fn add_fire_tower(&mut self, position: Position)
        requires
            old(self).wf(),
        ensures
            placed_spec(*old(self), *final(self), TowerKind::Fire, position),
            final(self).wf(),
    {
        let tower = FireTower::positionned(position);
        self.place(tower);
        proof {
            assert(self.towers@.subrange(0, old(self).towers@.len() as int) =~= old(self).towers@);
        }
    }

    pub fn add_water_tower(&mut self, position: Position)
        requires
            old(self).wf(),
        ensures
            placed_spec(*old(self), *final(self), TowerKind::Water, position),
            final(self).wf(),
    {
        let tower = WaterTower::positionned(position);
        self.place(tower);
        proof {
            assert(self.towers@.subrange(0, old(self).towers@.len() as int) =~= old(self).towers@);
        }
    }

    pub fn add_earth_tower(&mut self, position: Position)
        requires
            old(self).wf(),
        ensures
            placed_spec(*old(self), *final(self), TowerKind::Earth, position),
            final(self).wf(),
    {
        let tower = EarthTower::positionned(position);
        self.place(tower);
        proof {
            assert(self.towers@.subrange(0, old(self).towers@.len() as int) =~= old(self).towers@);
        }
    }

    pub fn add_air_tower(&mut self, position: Position)
        requires
            old(self).wf(),
        ensures
            placed_spec(*old(self), *final(self), TowerKind::Air, position),
            final(self).wf(),
    {
        let tower = AirTower::positionned(position);
        self.place(tower);
        proof {
            assert(self.towers@.subrange(0, old(self).towers@.len() as int) =~= old(self).towers@);
        }
    }

    pub fn add_sentinel_tower(&mut self, position: Position)
        requires
            old(self).wf(),
        ensures
            placed_spec(*old(self), *final(self), TowerKind::Sentinel, position),
            final(self).wf(),
    {
        let tower = SentinelTower::positionned(position);
        self.place(tower);
        proof {
            assert(self.towers@.subrange(0, old(self).towers@.len() as int) =~= old(self).towers@);
        }
    }

    /// Once the scan has found a tower, every longer scan finds one too.
    proof fn lemma_tower_at_monotone(towers: Seq<Tower>, p: Position, k: int, n: int)
        requires
            0 <= k <= n,
            Self::tower_at_spec(towers, p, k) is Some,
        ensures
            Self::tower_at_spec(towers, p, n) is Some,
        decreases n,
    {
        if n > k {
            Self::lemma_tower_at_monotone(towers, p, k, n - 1);
        }
    }

    /// The index of the first tower standing on `p` among the first `n`.
    pub open spec fn tower_at_spec(towers: Seq<Tower>, p: Position, n: int) -> Option<int>
        decreases n,
    {
        if n <= 0 {
            None
        } else {
            let prev = Self::tower_at_spec(towers, p, n - 1);
            if prev is Some {
                prev
            } else if towers[n - 1].position.x == p.x && towers[n - 1].position.y == p.y {
                Some(n - 1)
            } else {
                None
            }
        }
    }

    /// Removes the first tower standing on `position`, if there is one.
    pub fn remove_tower(&mut self, position: Position)
        requires
            old(self).wf(),
        ensures
            *final(self) == (Game { towers: final(self).towers, ..*old(self) }),
            match Self::tower_at_spec(
                old(self).towers@,
                position,
                old(self).towers@.len() as int,
            ) {
                Some(i) => final(self).towers@ == old(self).towers@.remove(i),
                None => final(self).towers@ == old(self).towers@,
            },
            final(self).wf(),
    {
        let n = self.towers.len();
        let mut found: Option<usize> = None;
        let mut i: usize = 0;
        while i < n
            invariant
                n == self.towers@.len(),
                0 <= i <= n,
                match found {
                    Some(f) => f < i && Some(f as int) == Self::tower_at_spec(
                        self.towers@,
                        position,
                        i as int,
                    ),
                    None => Self::tower_at_spec(self.towers@, position, i as int) is None,
                },
            decreases n - i,
        {
            if found.is_none() {
                let t = &self.towers[i];
                if t.position.x == position.x && t.position.y == position.y {
                    found = Some(i);
                }
            }
            i = i + 1;
        }
        if let Some(idx) = found {
            self.towers.remove(idx);
        }
    }

    /// A position is a valid building spot when it is off the monsters'
    /// path and no tower stands on it already.
    pub fn is_position_valid(&self, position: &Position) -> (valid: bool)
        requires
            self.wf(),
        ensures
            valid == ((match self.current_map {
                Some(m) => !m.on_path_spec(*position),
                None => true,
            }) && Self::tower_at_spec(self.towers@, *position, self.towers@.len() as int)
                is None),
    {
        match &self.current_map {
            Some(map) => {
                if map.is_position_on_path(position) {
                    return false;
                }
            },
            None => {},
        }
        let n = self.towers.len();
        let mut i: usize = 0;
        while i < n
            invariant
                n == self.towers@.len(),
                0 <= i <= n,
                Self::tower_at_spec(self.towers@, *position, i as int) is None,
            decreases n - i,
        {
            let t = &self.towers[i];
            if t.position.x == position.x && t.position.y == position.y {
                proof {
                    assert(Self::tower_at_spec(self.towers@, *position, i + 1) is Some);
                    Self::lemma_tower_at_monotone(
                        self.towers@,
                        *position,
                        i + 1,
                        self.towers@.len() as int,
                    );
                }
                return false;
            }
            i = i + 1;
        }
        true
    }

    /// Places `tower` on `position` after validating funds and the spot,
    /// in that order: the spot is checked before any money moves, so a
    /// rejected placement never charges. Succeeds if and only if the
    /// balance covers the tower's cost and the spot is free and off the
    /// path.
    pub fn add_tower(&mut self, tower: Tower, position: Position) -> (r: Result<(), String>)
        requires
            old(self).wf(),
            tower.wf(),
        ensures
            r is Ok <==> (old(self).money >= tower.cost && (match old(self).current_map {
                Some(m) => !m.on_path_spec(position),
                None => true,
            }) && Self::tower_at_spec(
                old(self).towers@,
                position,
                old(self).towers@.len() as int,
            ) is None),
            r is Ok ==> {
                &&& final(self).money == old(self).money - tower.cost
                &&& final(self).towers@ == old(self).towers@.push(
                    (Tower { id: old(self).next_tower_id, position, ..tower }),
                )
                &&& *final(self) == (Game {
                    money: final(self).money,
                    towers: final(self).towers,
                    next_tower_id: final(self).next_tower_id,
                    logs: final(self).logs,
                    ..*old(self)
                })
            },
            r is Err ==> *final(self) == *old(self),
            final(self).wf(),
    {
        if !self.has_enough_money(tower.cost) {
            return Err(String::from_str("Pas assez d'argent"));
        }
        if !self.is_position_valid(&position) {
            return Err(String::from_str("Position invalide"));
        }
        let mut tower = tower;
        tower.position = position;
        let ghost placed_tower = tower;
        let name = tower.name.clone();
        let cost = tower.cost;
        self.spend_money(cost);
        self.place(tower);
        proof {
            assert(self.towers@ == old(self).towers@.push(
                (Tower { id: old(self).next_tower_id, ..placed_tower }),
            ));
        }
        let mut msg = name;
        msg.append(" placed");
        self.add_log(msg);
        Ok(())
    }

    /// Builds a random wave from the map's monster catalog: between one and
    /// `10 + wave_index` monsters (capped at `10_000`), each a copy of a
    /// catalog prototype with its hit points scaled by
    /// `1 + wave_index * wave_multiplier` and staggered by the spawn
    /// interval. The draws are random; everything else is pinned for every
    /// outcome.
    fn gen_random_wave(&self) -> (w: Wave)
        requires
            self.wf(),
            self.current_map matches Some(m) && m.monsters@.len() > 0,
        ensures
            1 <= w.monsters@.len() <= 10_000,
            w.monsters@.len() <= 10 + self.wave_index,
            forall|i: int|
                0 <= i < w.monsters@.len() ==> generated_monster_ok(
                    #[trigger] w.monsters@[i],
                    self.current_map->0,
                    self.wave_index,
                    self.wave_multiplier,
                    i,
                    self.spawn_interval,
                ),
            w.wf(),
    {
        let map = match &self.current_map {
            Some(m) => m,
            None => {
                unreached()
            },
        };
        let upper: u64 = if 10 + (self.wave_index as u64) <= 10_000 {
            10 + (self.wave_index as u64)
        } else {
            10_000
        };
        let count: u64 = crate::rng::rand_u64_inclusive(1, upper);
        let mut monsters: Vec<Monster> = Vec::new();
        let mut i: u64 = 0;
        while i < count
            invariant
                self.wf(),
                self.current_map matches Some(m) && m.monsters@.len() > 0,
                *map == self.current_map->0,
                1 <= count <= 10_000,
                count <= 10 + self.wave_index,
                0 <= i <= count,
                monsters@.len() == i,
                forall|k: int|
                    0 <= k < i ==> generated_base_ok(
                        #[trigger] monsters@[k],
                        self.current_map->0,
                        self.wave_index,
                        self.wave_multiplier,
                    ),
            decreases count - i,
        {
            let pick: usize = crate::rng::rand_u64_inclusive(
                0,
                (map.monsters.len() - 1) as u64,
            ) as usize;
            let p = &map.monsters[pick];
            proof {
                assert((self.wave_index as int) * (self.wave_multiplier as int) <= 4_294_967_295
                    * 1_000_000_000) by (nonlinear_arith)
                    requires
                        0 <= self.wave_index <= 4_294_967_295,
                        0 <= self.wave_multiplier <= 1_000_000_000,
                ;
            }
            let factor: u64 = 1000 + (self.wave_index as u64) * self.wave_multiplier;
            proof {
                assert((p.hp as int) * (factor as int) <= 0xFFFF_FFFF_FFFF_FFFF
                    * 0xFFFF_FFFF_FFFF_FFFF) by (nonlinear_arith)
                    requires
                        0 <= p.hp <= 0xFFFF_FFFF_FFFF_FFFF,
                        0 <= factor <= 0xFFFF_FFFF_FFFF_FFFF,
                ;
            }
            let scaled: u128 = (p.hp as u128) * (factor as u128) / 1000;
            let hp: u64 = if scaled > u64::MAX as u128 {
                u64::MAX
            } else {
                scaled as u64
            };
            let monster = Monster::new(
                p.name.clone(),
                p.symbol.clone(),
                hp,
                p.position,
                p.movement_speed,
                p.resistances,
                p.damage_to_player,
            );
            monsters.push(monster);
            i = i + 1;
        }
        let ghost base = monsters@;
        let w = if self.spawn_interval == 0 {
            Wave::new(Some(monsters))
        } else {
            proof {
                assert(base.len() * self.spawn_interval <= 10_000 * 1_000_000_000)
                    by (nonlinear_arith)
                    requires
                        0 <= base.len() <= 10_000,
                        0 <= self.spawn_interval <= 1_000_000_000,
                ;
            }
            Wave::with_staggered_spawn(monsters, self.spawn_interval)
        };
        proof {
            assert forall|i: int| 0 <= i < w.monsters@.len() implies generated_monster_ok(
                #[trigger] w.monsters@[i],
                self.current_map->0,
                self.wave_index,
                self.wave_multiplier,
                i,
                self.spawn_interval,
            ) by {
                assert(0 <= i * self.spawn_interval <= 10_000_000_000_000) by (nonlinear_arith)
                    requires
                        0 <= i < 10_000,
                        0 <= self.spawn_interval <= 1_000_000_000,
                ;
                assert(generated_base_ok(
                    base[i],
                    self.current_map->0,
                    self.wave_index,
                    self.wave_multiplier,
                ));
                let j = choose|j: int|
                    0 <= j < self.current_map->0.monsters@.len() && generated_base_from(
                        base[i],
                        #[trigger] self.current_map->0.monsters@[j],
                        self.wave_index,
                        self.wave_multiplier,
                    );
                assert(generated_from(
                    w.monsters@[i],
                    self.current_map->0.monsters@[j],
                    self.wave_index,
                    self.wave_multiplier,
                    i,
                    self.spawn_interval,
                ));
            }
        }
        w
    }

    /// Starts the next wave when a map is selected and no wave is current:
    /// the wave index rises by one, and the wave is taken from the front of
    /// the pending queue, or generated when the queue is exhausted.
    fn start_next_wave(&mut self)
        requires
            old(self).wf(),
            old(self).current_map matches Some(m) ==> m.monsters@.len() > 0,
        ensures
            final(self).wf(),
            old(self).current_map is None ==> *final(self) == *old(self),
            old(self).current_map is Some && old(self).current_wave is Some ==> *final(self)
                == *old(self),
            started_wave_spec(*old(self), *final(self)),
    {
        if self.current_map.is_none() {
            return ;
        }
        if self.current_wave.is_some() {
            return ;
        }
        if self.wave_index < u32::MAX {
            self.wave_index = self.wave_index + 1;
        }
        let popped: Option<Wave> = match &mut self.waves {
            Some(q) => q.pop_front(),
            None => None,
        };
        let wave = match popped {
            Some(w) => w,
            None => self.gen_random_wave(),
        };
        proof {
            match old(self).waves {
                Some(q) => {
                    if q@.len() > 0 {
                        assert(self.waves matches Some(q2) && q2@ =~= q@.drop_first());
                    }
                },
                None => {},
            }
        }
        let map_name = match &self.current_map {
            Some(m) => m.name.clone(),
            None => unreached(),
        };
        let mut msg = msg_num2(
            "🚩 Démarrage vague ",
            self.wave_index as u64,
            ": ",
            wave.monsters.len() as u64,
            " monstres sur carte '",
        );
        msg.append(map_name.as_str());
        msg.append("'");
        self.add_log(msg);
        self.current_wave = Some(wave);
    }

    /// Advances the whole match by `delta_time` milli-seconds. With no
    /// current wave the tick only starts the next one; with a wave it runs
    /// the firing, spawning, movement and settling passes that
    /// `update_tick_spec` describes.
    pub fn update(&mut self, delta_time: u64)
        requires
            old(self).wf(),
            delta_time <= crate::monster::DT_LIMIT,
            old(self).current_map matches Some(m) ==> m.monsters@.len() > 0,
            old(self).current_wave is Some ==> old(self).current_map is Some,
        ensures
            final(self).wf(),
            old(self).current_wave is None ==> {
                &&& final(self).money == old(self).money
                &&& final(self).player_life == old(self).player_life
                &&& final(self).elapsed_time == old(self).elapsed_time
                &&& final(self).towers == old(self).towers
                &&& started_wave_spec(*old(self), *final(self))
                &&& (old(self).current_map is None ==> *final(self) == *old(self))
            },
            old(self).current_wave is Some ==> update_tick_spec(*old(self), *final(self), delta_time),
    {
        if self.current_wave.is_none() {
            self.start_next_wave();
            return ;
        }
        let mut wave = match self.current_wave.take() {
            Some(w) => w,
            None => unreached(),
        };
        let ghost pre = *old(self);
        let ghost w0 = wave.monsters@;
        let ghost towers0 = self.towers@;
        let start_time = self.elapsed_time;
        let n_towers = self.towers.len();
        let mut logs_to_add: Vec<String> = Vec::new();
        // Sentinel pass: every eligible sentinel reports its first
        // unreported monster in range.
        let mut k: usize = 0;
        while k < n_towers
            invariant
                self.wf(),
                n_towers == towers0.len(),
                self.towers@ == towers0,
                *self == (Game {
                    current_wave: self.current_wave,
                    notifications: self.notifications,
                    ..*old(self)
                }),
                self.current_wave is None,
                wave.wf(),
                0 <= k <= n_towers,
                sentinel_pass_spec(towers0, start_time, wave.monsters@, k as int)
                    == sentinel_pass_spec(towers0, start_time, w0, 0),
                wave.monsters@.len() == w0.len(),
            decreases n_towers - k,
        {
            let ghost cur = wave.monsters@;
            let eligible = self.towers[k].can_shoot(start_time);
            let is_sentinel = matches!(self.towers[k].special, crate::tower::TowerSpecial::Sentinel);
            if eligible && is_sentinel {
                let marked = sentinel_mark(&self.towers[k], &mut wave);
                if marked {
                    logs_to_add.push(
                        String::from_str(
                            "⚠ Monstre détecté: un monstre approche de la tour Sentinelle",
                        ),
                    );
                    self.notifications.push(
                        String::from_str(
                            "⚠ Monstre détecté: un monstre approche de la tour Sentinelle",
                        ),
                    );
                }
                proof {
                    assert(wave.monsters@ == sentinel_mark_spec(towers0[k as int], cur));
                    assert(wave.monsters@.len() == cur.len());
                }
            }
            k = k + 1;
        }
        let ghost marked_ms = wave.monsters@;
        let ghost after_sentinel = *self;
        // Mine pass: every eligible mine grants its income.
        let mut k: usize = 0;
        while k < n_towers
            invariant
                self.wf(),
                n_towers == towers0.len(),
                self.towers@ == towers0,
                0 <= k <= n_towers,
                mine_pass_spec(towers0, start_time, self.money as int, k as int) == mine_pass_spec(
                    towers0,
                    start_time,
                    pre.money as int,
                    0,
                ),
                *self == (Game { money: self.money, ..after_sentinel }),
            decreases n_towers - k,
        {
            let eligible = self.towers[k].can_shoot(start_time);
            let is_mine = matches!(self.towers[k].special, crate::tower::TowerSpecial::Mine);
            if eligible && is_mine {
                let income: u64 = match &self.towers[k].money {
                    Some(s) => s.base / 1000,
                    None => 0,
                };
                self.money = if self.money <= u64::MAX - income {
                    self.money + income
                } else {
                    u64::MAX
                };
            }
            k = k + 1;
        }
        let ghost money1 = self.money;
        let ghost after_mine = *self;
        // Firing pass: every eligible tower fires once at the wave.
        let mut k: usize = 0;
        while k < n_towers
            invariant
                n_towers == towers0.len(),
                self.towers@.len() == towers0.len(),
                forall|i: int|
                    k <= i < towers0.len() ==> #[trigger] self.towers@[i] == towers0[i],
                forall|i: int|
                    0 <= i < k ==> #[trigger] self.towers@[i] == tower_after_tick_spec(
                        towers0[i],
                        start_time,
                    ),
                forall|i: int| 0 <= i < towers0.len() ==> (#[trigger] towers0[i]).wf(),
                wave.wf(),
                0 <= k <= n_towers,
                shoot_pass_spec(towers0, start_time, wave.monsters@, k as int) == shoot_pass_spec(
                    towers0,
                    start_time,
                    marked_ms,
                    0,
                ),
                *self == (Game { towers: self.towers, ..after_mine }),
            decreases n_towers - k,
        {
            if self.towers[k].can_shoot(start_time) {
                self.towers[k].shoot(&mut wave, start_time);
            }
            k = k + 1;
        }
        let ghost shot_ms = wave.monsters@;
        self.elapsed_time = if self.elapsed_time <= u64::MAX - delta_time {
            self.elapsed_time + delta_time
        } else {
            u64::MAX
        };
        // Spawn pass: pending monsters count their delay down.
        let newly_spawned = wave.update_spawns(delta_time);
        let mut s: usize = 0;
        while s < newly_spawned.len()
            invariant
                0 <= s <= newly_spawned@.len(),
            decreases newly_spawned@.len() - s,
        {
            logs_to_add.push(String::from_str("👾 Apparition d'un monstre!"));
            s = s + 1;
        }
        proof {
            assert forall|i: int| 0 <= i < shot_ms.len() implies wave.monsters@[i]
                == spawn_step_spec(shot_ms[i], delta_time) by {}
        }
        // Movement pass: live monsters walk the path.
        let map = match &self.current_map {
            Some(m) => m,
            None => unreached(),
        };
        let ghost spawned_ms = wave.monsters@;
        let n_monsters = wave.monsters.len();
        let mut j: usize = 0;
        while j < n_monsters
            invariant
                n_monsters == spawned_ms.len(),
                wave.monsters@.len() == n_monsters,
                map.wf(),
                delta_time <= crate::monster::DT_LIMIT,
                forall|i: int|
                    j <= i < n_monsters ==> #[trigger] wave.monsters@[i] == spawned_ms[i],
                forall|i: int| 0 <= i < n_monsters ==> (#[trigger] spawned_ms[i]).wf(),
                forall|i: int|
                    0 <= i < j ==> #[trigger] wave.monsters@[i] == (if spawned_ms[i].is_alive_spec() {
                        spawned_ms[i].advance_spec(*map, delta_time)
                    } else {
                        spawned_ms[i]
                    }),
                forall|i: int| 0 <= i < j ==> (#[trigger] wave.monsters@[i]).wf(),
            decreases n_monsters - j,
        {
            let alive = wave.monsters[j].is_alive();
            if alive {
                wave.monsters[j].advance(map, delta_time);
            }
            j = j + 1;
        }
        let ghost stepped = wave.monsters@;
        proof {
            assert(stepped =~= wave_tick_spec(shot_ms, *map, delta_time));
        }
        // Settling pass: arrivals cost life, fresh kills pay a bounty, the
        // rest of the wave stays.
        let ghost map_g = *map;
        let ghost life0 = self.player_life;
        let ghost money_before_settle = self.money;
        let ghost before_settle = *self;
        let mut src = wave.monsters;
        let mut rem: Vec<Monster> = Vec::new();
        let mut j: usize = 0;
        while j < n_monsters
            invariant
                n_monsters == stepped.len(),
                src@ =~= stepped.skip(j as int),
                0 <= j <= n_monsters,
                self.current_map == Some(map_g),
                forall|i: int| 0 <= i < stepped.len() ==> (#[trigger] stepped[i]).wf(),
                forall|i: int| 0 <= i < rem@.len() ==> (#[trigger] rem@[i]).wf(),
                rem@ == settle_keep_spec(stepped, map_g, j as int),
                self.player_life == settle_life_spec(stepped, map_g, j as int, life0 as int),
                self.money == settle_money_spec(
                    stepped,
                    j as int,
                    money_before_settle as int,
                    self.wave_index,
                ),
                *self == (Game {
                    player_life: self.player_life,
                    money: self.money,
                    ..before_settle
                }),
            decreases n_monsters - j,
        {
            let monster = src.remove(0);
            proof {
                assert(src@ =~= stepped.skip(j + 1));
                assert(monster == stepped[j as int]);
            }
            let arrived = match &self.current_map {
                Some(m2) => monster.reached_goal(m2),
                None => false,
            };
            if monster.is_alive() {
                if arrived {
                    let d = monster.damage_to_player as i64;
                    self.player_life = if self.player_life >= i64::MIN + d {
                        self.player_life - d
                    } else {
                        i64::MIN
                    };
                    logs_to_add.push(String::from_str("⚠ Monstre arrivé, vie perdue"));
                } else {
                    rem.push(monster);
                }
            } else if monster.hp == 0 && monster.active {
                let reward: u64 = 10 + (self.wave_index as u64);
                self.money = if self.money <= u64::MAX - reward {
                    self.money + reward
                } else {
                    u64::MAX
                };
                logs_to_add.push(String::from_str("💀 Monstre éliminé!"));
            } else {
                rem.push(monster);
            }
            j = j + 1;
        }
        let wave_is_empty = rem.len() == 0;
        wave.monsters = rem;
        // Flush the batched event log entries.
        let ghost before_flush = *self;
        let mut li: usize = 0;
        while li < logs_to_add.len()
            invariant
                self.wf(),
                0 <= li <= logs_to_add@.len(),
                *self == (Game { logs: self.logs, ..before_flush }),
            decreases logs_to_add@.len() - li,
        {
            let msg = logs_to_add[li].clone();
            self.add_log(msg);
            li = li + 1;
        }
        if wave_is_empty {
            let bonus: u64 = 20 * (self.wave_index as u64);
            self.money = if self.money <= u64::MAX - bonus {
                self.money + bonus
            } else {
                u64::MAX
            };
            let msg = msg_num2(
                "🏆 Vague ",
                self.wave_index as u64,
                " terminée! Bonus de +",
                bonus,
                " pièces",
            );
            self.add_log(msg);
            if self.player_life > 0 {
                self.add_log(
                    String::from_str("✅ Préparation de la prochaine vague..."),
                );
                self.start_next_wave();
            } else {
                self.add_log(String::from_str("💀 Game Over! Vous avez perdu!"));
                self.notifications.push(String::from_str("💀 Game Over! Vous avez perdu!"));
            }
        } else {
            self.current_wave = Some(wave);
        }
    }

    /// Runs one upgrade command against the tower at `tower_index`.
    fn upgrade_tower_stat(&mut self, tower_index: usize, stat: TowerStatType, done: &str) -> (r:
        Result<String, String>)
        requires
            old(self).wf(),
        ensures
            upgrade_command_spec(*old(self), *final(self), r is Ok, tower_index as int, stat),
            final(self).wf(),
    {
        if tower_index >= self.towers.len() {
            self.add_log(String::from_str("❌ Invalid tower index"));
            return Err(String::from_str("❌ Invalid tower index"));
        }
        let cost_opt = self.towers[tower_index].upgrade_cost_for_attribute(stat);
        let cost = match cost_opt {
            Some(c) => c,
            None => {
                self.add_log(
                    String::from_str("❌ Amélioration déjà au niveau maximum"),
                );
                return Err(
                    String::from_str("❌ Amélioration déjà au niveau maximum"),
                );
            },
        };
        if !self.has_enough_money(cost) {
            let msg = msg_num1("❌ Missing money (", self.money, ")");
            let err = msg.clone();
            self.add_log(msg);
            return Err(err);
        }
        let upgraded = self.towers[tower_index].upgrade(stat);
        match upgraded {
            Ok(_) => {
                self.spend_money(cost);
                self.add_log(String::from_str(done));
                Ok(String::from_str(done))
            },
            Err(error) => {
                let err = error.clone();
                self.add_log(error);
                Err(err)
            },
        }
    }

    /// Buys one attack-speed upgrade for the tower at `tower_index`; see
    /// `upgrade_command_spec` for when the command is accepted.
    pub fn upgrade_tower_attack_speed(&mut self, tower_index: usize) -> (r: Result<String, String>)
        requires
            old(self).wf(),
        ensures
            upgrade_command_spec(
                *old(self),
                *final(self),
                r is Ok,
                tower_index as int,
                TowerStatType::AttackSpeed,
            ),
            final(self).wf(),
    {
        self.upgrade_tower_stat(tower_index, TowerStatType::AttackSpeed, "Attack speed upgraded")
    }

    /// Buys one damage upgrade for the tower at `tower_index`.
    pub fn upgrade_tower_damage(&mut self, tower_index: usize) -> (r: Result<String, String>)
        requires
            old(self).wf(),
        ensures
            upgrade_command_spec(
                *old(self),
                *final(self),
                r is Ok,
                tower_index as int,
                TowerStatType::Damage,
            ),
            final(self).wf(),
    {
        self.upgrade_tower_stat(tower_index, TowerStatType::Damage, "Damage upgraded")
    }

    /// Buys one range upgrade for the tower at `tower_index`.
    pub fn upgrade_tower_range(&mut self, tower_index: usize) -> (r: Result<String, String>)
        requires
            old(self).wf(),
        ensures
            upgrade_command_spec(
                *old(self),
                *final(self),
                r is Ok,
                tower_index as int,
                TowerStatType::Range,
            ),
            final(self).wf(),
    {
        self.upgrade_tower_stat(tower_index, TowerStatType::Range, "Range upgraded")
    }
}

/// Hit points of a generated monster: the prototype's hit points scaled by
/// `1 + wave_index * wave_multiplier` (milli-units), saturating at the
/// type's maximum.
pub open spec fn scaled_hp_spec(hp: u64, wave_index: u32, mult: u64) -> int {
    let v = hp * (1000 + wave_index * mult) / 1000;
    if v > u64::MAX {
        u64::MAX as int
    } else {
        v
    }
}

/// `m` is a fresh hp-scaled copy of the catalog prototype `p`, back at the
/// first waypoint and not yet staggered.
pub open spec fn generated_base_from(m: Monster, p: Monster, wave_index: u32, mult: u64) -> bool {
    &&& m.name == p.name
    &&& m.symbol == p.symbol
    &&& m.hp == scaled_hp_spec(p.hp, wave_index, mult)
    &&& m.position == p.position
    &&& m.movement_speed == p.movement_speed
    &&& m.waypoint_idx == 1
    &&& m.resistances == p.resistances
    &&& m.damage_to_player == p.damage_to_player
    &&& m.distance_moved == 0
    &&& m.armor == 0
    &&& !m.detected
    &&& m.spawn_delay == 0
    &&& m.active
    &&& m.wf()
}

/// `m` is a fresh hp-scaled copy of some catalog prototype of `map`.
pub open spec fn generated_base_ok(m: Monster, map: GameMap, wave_index: u32, mult: u64) -> bool {
    exists|j: int|
        0 <= j < map.monsters@.len() && generated_base_from(
            m,
            #[trigger] map.monsters@[j],
            wave_index,
            mult,
        )
}

/// `m` is a fresh hp-scaled copy of some catalog prototype of `map`,
/// staggered as the monster at position `idx` of its wave.
pub open spec fn generated_from(
    m: Monster,
    p: Monster,
    wave_index: u32,
    mult: u64,
    idx: int,
    interval: u64,
) -> bool {
    &&& m.name == p.name
    &&& m.symbol == p.symbol
    &&& m.hp == scaled_hp_spec(p.hp, wave_index, mult)
    &&& m.position == p.position
    &&& m.movement_speed == p.movement_speed
    &&& m.waypoint_idx == 1
    &&& m.resistances == p.resistances
    &&& m.damage_to_player == p.damage_to_player
    &&& m.distance_moved == 0
    &&& m.armor == 0
    &&& !m.detected
    &&& m.spawn_delay == (if interval == 0 {
        0int
    } else {
        idx * interval
    })
    &&& m.active == (m.spawn_delay == 0)
}

/// `m` stands at position `idx` of a generated wave of `map`.
pub open spec fn generated_monster_ok(
    m: Monster,
    map: GameMap,
    wave_index: u32,
    mult: u64,
    idx: int,
    interval: u64,
) -> bool {
    exists|j: int|
        0 <= j < map.monsters@.len() && generated_from(
            m,
            #[trigger] map.monsters@[j],
            wave_index,
            mult,
            idx,
            interval,
        )
}

/// `a + b` clamped to the range of `u64`.
pub open spec fn sat_add_u64(a: int, b: int) -> int {
    if a + b <= u64::MAX {
        a + b
    } else {
        u64::MAX as int
    }
}

/// `a - b` clamped to the range of `i64`.
pub open spec fn sat_sub_i64(a: int, b: int) -> int {
    if a - b >= i64::MIN {
        a - b
    } else {
        i64::MIN as int
    }
}

/// The coins a mine grants each time it fires: its income stat in whole
/// coins.
pub open spec fn mine_income_spec(t: Tower) -> int {
    match t.money {
        Some(s) => s.base as int / 1000,
        None => 0,
    }
}

/// A tower after the tick's firing pass: firing stamps the cooldown.
pub open spec fn tower_after_tick_spec(t: Tower, time: u64) -> Tower {
    if t.can_shoot_spec(time) {
        Tower { last_attack: time, ..t }
    } else {
        t
    }
}

/// The first monster among the first `n` that a sentinel has not reported
/// yet and that stands within its block-distance range.
pub open spec fn sentinel_target_spec(t: Tower, ms: Seq<Monster>, n: int) -> Option<int>
    decreases n,
{
    match t.range {
        Some(r) => {
            if n <= 0 {
                None
            } else {
                let prev = sentinel_target_spec(t, ms, n - 1);
                if prev is Some {
                    prev
                } else if !ms[n - 1].detected && t.position.block_distance_spec(ms[n - 1].position)
                    * 1000 <= r.base {
                    Some(n - 1)
                } else {
                    None
                }
            }
        },
        None => None,
    }
}

/// The wave after one sentinel's report: its target, if any, is flagged as
/// detected.
pub open spec fn sentinel_mark_spec(t: Tower, ms: Seq<Monster>) -> Seq<Monster> {
    match sentinel_target_spec(t, ms, ms.len() as int) {
        Some(j) => ms.update(j, (Monster { detected: true, ..ms[j] })),
        None => ms,
    }
}

/// The wave after the sentinels among the towers from index `k` on have
/// reported, in tower order.
pub open spec fn sentinel_pass_spec(towers: Seq<Tower>, time: u64, ms: Seq<Monster>, k: int) -> Seq<
    Monster,
>
    decreases towers.len() - k,
{
    if k < 0 || k >= towers.len() {
        ms
    } else {
        let ms2 = if towers[k].can_shoot_spec(time) && towers[k].special is Sentinel {
            sentinel_mark_spec(towers[k], ms)
        } else {
            ms
        };
        sentinel_pass_spec(towers, time, ms2, k + 1)
    }
}

/// The balance after the mines among the towers from index `k` on have
/// granted their income.
pub open spec fn mine_pass_spec(towers: Seq<Tower>, time: u64, money: int, k: int) -> int
    decreases towers.len() - k,
{
    if k < 0 || k >= towers.len() {
        money
    } else {
        let m2 = if towers[k].can_shoot_spec(time) && towers[k].special is Mine {
            sat_add_u64(money, mine_income_spec(towers[k]))
        } else {
            money
        };
        mine_pass_spec(towers, time, m2, k + 1)
    }
}

/// The wave after the towers from index `k` on have fired, in tower order;
/// a tower fires exactly when its cooldown allows it at `time`.
pub open spec fn shoot_pass_spec(towers: Seq<Tower>, time: u64, ms: Seq<Monster>, k: int) -> Seq<
    Monster,
>
    decreases towers.len() - k,
{
    if k < 0 || k >= towers.len() {
        ms
    } else {
        let ms2 = if towers[k].can_shoot_spec(time) {
            towers[k].shoot_wave_spec(ms)
        } else {
            ms
        };
        shoot_pass_spec(towers, time, ms2, k + 1)
    }
}

/// One monster after the tick's spawn countdown.
pub open spec fn spawn_step_spec(m: Monster, dt: u64) -> Monster {
    if m.active {
        m
    } else if dt >= m.spawn_delay {
        Monster { spawn_delay: 0u64, active: true, ..m }
    } else {
        Monster { spawn_delay: (m.spawn_delay - dt) as u64, ..m }
    }
}

/// One monster after the tick's spawn countdown and movement: only live
/// monsters move.
pub open spec fn ticked_monster_spec(m: Monster, map: GameMap, dt: u64) -> Monster {
    let sp = spawn_step_spec(m, dt);
    if sp.is_alive_spec() {
        sp.advance_spec(map, dt)
    } else {
        sp
    }
}

/// The whole wave after the tick's spawn countdown and movement.
pub open spec fn wave_tick_spec(ms: Seq<Monster>, map: GameMap, dt: u64) -> Seq<Monster> {
    Seq::new(ms.len(), |i: int| ticked_monster_spec(ms[i], map, dt))
}

/// Whether the settling pass keeps a monster in the wave: arrivals and
/// fresh corpses leave; everything else stays.
pub open spec fn keep_monster_spec(m: Monster, map: GameMap) -> bool {
    if m.is_alive_spec() {
        !m.reached_goal_spec(map)
    } else {
        !(m.hp == 0 && m.active)
    }
}

/// The monsters the settling pass retains from the first `n`, in order.
pub open spec fn settle_keep_spec(ms: Seq<Monster>, map: GameMap, n: int) -> Seq<Monster>
    decreases n,
{
    if n <= 0 {
        Seq::empty()
    } else {
        let prev = settle_keep_spec(ms, map, n - 1);
        if keep_monster_spec(ms[n - 1], map) {
            prev.push(ms[n - 1])
        } else {
            prev
        }
    }
}

/// The player's life after the arrivals among the first `n` monsters have
/// each taken their toll.
pub open spec fn settle_life_spec(ms: Seq<Monster>, map: GameMap, n: int, life: int) -> int
    decreases n,
{
    if n <= 0 {
        life
    } else {
        let prev = settle_life_spec(ms, map, n - 1, life);
        if ms[n - 1].is_alive_spec() && ms[n - 1].reached_goal_spec(map) {
            sat_sub_i64(prev, ms[n - 1].damage_to_player as int)
        } else {
            prev
        }
    }
}

/// The balance after the kill bounties (`10 + wave_index` coins each) of
/// the first `n` monsters.
pub open spec fn settle_money_spec(ms: Seq<Monster>, n: int, money: int, wave_index: u32) -> int
    decreases n,
{
    if n <= 0 {
        money
    } else {
        let prev = settle_money_spec(ms, n - 1, money, wave_index);
        if ms[n - 1].hp == 0 && ms[n - 1].active {
            sat_add_u64(prev, 10 + wave_index as int)
        } else {
            prev
        }
    }
}

/// The full effect of one tick on a game with a current wave: sentinels
/// report, mines earn, towers fire, monsters spawn and move, arrivals cost
/// life, kills and a cleared wave pay out, and a cleared wave hands over to
/// the next one (or to the game-over state).
pub open spec fn update_tick_spec(pre: Game, post: Game, dt: u64) -> bool {
    let w0 = pre.current_wave->0.monsters@;
    let map = pre.current_map->0;
    let t0 = pre.elapsed_time;
    let towers0 = pre.towers@;
    let marked = sentinel_pass_spec(towers0, t0, w0, 0);
    let shot = shoot_pass_spec(towers0, t0, marked, 0);
    let money1 = mine_pass_spec(towers0, t0, pre.money as int, 0);
    let stepped = wave_tick_spec(shot, map, dt);
    let n = stepped.len() as int;
    let kept = settle_keep_spec(stepped, map, n);
    let life1 = settle_life_spec(stepped, map, n, pre.player_life as int);
    let money2 = settle_money_spec(stepped, n, money1, pre.wave_index);
    &&& post.elapsed_time == sat_add_u64(t0 as int, dt as int)
    &&& post.player_life == life1
    &&& post.towers@.len() == towers0.len()
    &&& forall|i: int|
        0 <= i < towers0.len() ==> #[trigger] post.towers@[i] == tower_after_tick_spec(
            towers0[i],
            t0,
        )
    &&& post.current_map == pre.current_map
    &&& post.wave_multiplier == pre.wave_multiplier
    &&& post.spawn_interval == pre.spawn_interval
    &&& post.log_limit == pre.log_limit
    &&& post.next_tower_id == pre.next_tower_id
    &&& if kept.len() > 0 {
        &&& post.current_wave matches Some(w1) && w1.monsters@ == kept
        &&& post.money == money2
        &&& post.wave_index == pre.wave_index
        &&& post.waves == pre.waves
    } else {
        let money3 = sat_add_u64(money2, 20 * pre.wave_index as int);
        &&& post.money == money3
        &&& if life1 > 0 {
            &&& post.current_wave is Some
            &&& post.current_wave->0.wf()
            &&& post.wave_index == (if pre.wave_index < u32::MAX {
                pre.wave_index + 1
            } else {
                pre.wave_index as int
            })
            &&& match pre.waves {
                Some(q) => if q@.len() > 0 {
                    post.current_wave == Some(q@[0]) && (post.waves matches Some(q2) && q2@
                        == q@.drop_first())
                } else {
                    (post.waves matches Some(q2) && q2@ == q@) && generated_wave_ok(
                        post.current_wave->0,
                        map,
                        post.wave_index as u32,
                        pre.wave_multiplier,
                        pre.spawn_interval,
                    )
                },
                None => post.waves is None && generated_wave_ok(
                    post.current_wave->0,
                    map,
                    post.wave_index as u32,
                    pre.wave_multiplier,
                    pre.spawn_interval,
                ),
            }
        } else {
            &&& post.current_wave is None
            &&& post.wave_index == pre.wave_index
            &&& post.waves == pre.waves
        }
    }
}

/// Every monster of `w` is a staggered, hp-scaled copy of a catalog
/// prototype of `map`, and the wave's size lies in the generator's range.
pub open spec fn generated_wave_ok(
    w: Wave,
    map: GameMap,
    wave_index: u32,
    mult: u64,
    interval: u64,
) -> bool {
    &&& 1 <= w.monsters@.len() <= 10_000
    &&& w.monsters@.len() <= 10 + wave_index
    &&& forall|i: int|
        0 <= i < w.monsters@.len() ==> generated_monster_ok(
            #[trigger] w.monsters@[i],
            map,
            wave_index,
            mult,
            i,
            interval,
        )
}

/// What starting the next wave does when a map is selected and no wave is
/// current: the wave index rises by one (saturating), the front of the
/// pending queue becomes current, and an empty or missing queue is covered
/// by a generated wave.
pub open spec fn started_wave_spec(pre: Game, post: Game) -> bool {
    (pre.current_map is Some && pre.current_wave is None) ==> {
        &&& post.wave_index == (if pre.wave_index < u32::MAX {
            pre.wave_index + 1
        } else {
            pre.wave_index as int
        })
        &&& post == (Game {
            wave_index: post.wave_index,
            waves: post.waves,
            current_wave: post.current_wave,
            logs: post.logs,
            ..pre
        })
        &&& post.current_wave is Some
        &&& post.current_wave->0.wf()
        &&& match pre.waves {
            Some(q) => if q@.len() > 0 {
                post.current_wave == Some(q@[0]) && (post.waves matches Some(q2) && q2@
                    == q@.drop_first())
            } else {
                (post.waves matches Some(q2) && q2@ == q@) && generated_wave_ok(
                    post.current_wave->0,
                    pre.current_map->0,
                    post.wave_index as u32,
                    pre.wave_multiplier,
                    pre.spawn_interval,
                )
            },
            None => post.waves == pre.waves && generated_wave_ok(
                post.current_wave->0,
                pre.current_map->0,
                post.wave_index as u32,
                pre.wave_multiplier,
                pre.spawn_interval,
            ),
        }
    }
}

/// An upgrade of `stat` on the tower at `tower_index` can be bought: the
/// tower exists, carries the stat with a ladder, and sits below the cap.
pub open spec fn upgrade_available_spec(t: Tower, stat: TowerStatType) -> bool {
    match t.stat_of_spec(stat) {
        Some(s) => match s.upgrade {
            Some(u) => s.level < u.max_level,
            None => false,
        },
        None => false,
    }
}

/// The price of the next upgrade of `stat` on `t`.
pub open spec fn upgrade_cost_spec(t: Tower, stat: TowerStatType) -> int {
    t.stat_of_spec(stat)->0.next_price_spec()
}

/// The outcome of one upgrade command: rejected without any state change
/// (beyond the log) when the index is out of range, the stat is not
/// upgradeable or at its cap, or the balance is short; otherwise the one
/// stat is upgraded and exactly its price is debited.
pub open spec fn upgrade_command_spec(
    pre: Game,
    post: Game,
    ok: bool,
    tower_index: int,
    stat: TowerStatType,
) -> bool {
    if !(0 <= tower_index < pre.towers@.len()) {
        !ok && same_but_logs(pre, post)
    } else {
        let t = pre.towers@[tower_index];
        if !upgrade_available_spec(t, stat) {
            !ok && same_but_logs(pre, post)
        } else {
            let cost = upgrade_cost_spec(t, stat);
            if pre.money < cost {
                !ok && same_but_logs(pre, post)
            } else {
                &&& ok
                &&& post.money == pre.money - cost
                &&& post.towers@ == pre.towers@.update(tower_index, t.upgrade_spec(stat).0)
                &&& post == (Game {
                    money: post.money,
                    towers: post.towers,
                    logs: post.logs,
                    ..pre
                })
            }
        }
    }
}

/// Exactly one tower of the given kind was appended, standing on
/// `position` and stamped with the pre-state's next id; nothing else of the
/// game changed.
pub open spec fn placed_spec(pre: Game, post: Game, kind: TowerKind, position: Position) -> bool {
    &&& post == (Game { towers: post.towers, next_tower_id: post.next_tower_id, ..pre })
    &&& post.towers@.len() == pre.towers@.len() + 1
    &&& post.towers@.subrange(0, pre.towers@.len() as int) == pre.towers@
    &&& post.towers@.last().kind == kind
    &&& post.towers@.last().position == position
    &&& post.towers@.last().id == pre.next_tower_id
    &&& post.towers@.last().wf()
}

/// Once the sentinel scan has found a target, every longer scan finds one.
proof fn lemma_sentinel_target_monotone(t: Tower, ms: Seq<Monster>, k: int, n: int)
    requires
        0 <= k <= n,
        sentinel_target_spec(t, ms, k) is Some,
    ensures
        sentinel_target_spec(t, ms, n) is Some,
    decreases n,
{
    if n > k {
        lemma_sentinel_target_monotone(t, ms, k, n - 1);
    }
}

/// Flags the first unreported monster within the sentinel's block-distance
/// range, and reports whether one was found.
fn sentinel_mark(t: &Tower, wave: &mut Wave) -> (marked: bool)
    requires
        t.wf(),
        old(wave).wf(),
    ensures
        final(wave).monsters@ == sentinel_mark_spec(*t, old(wave).monsters@),
        final(wave).monsters@.len() == old(wave).monsters@.len(),
        final(wave).wf(),
        marked == (sentinel_target_spec(*t, old(wave).monsters@, old(wave).monsters@.len() as int)
            is Some),
{
    let range = match &t.range {
        Some(r) => r.base,
        None => {
            return false;
        },
    };
    let n = wave.monsters.len();
    let mut i: usize = 0;
    while i < n
        invariant
            t.range matches Some(r) && r.base == range,
            n == wave.monsters@.len(),
            wave.monsters@ == old(wave).monsters@,
            wave.wf(),
            0 <= i <= n,
            sentinel_target_spec(*t, wave.monsters@, i as int) is None,
        decreases n - i,
    {
        let already = wave.monsters[i].detected;
        if !already {
            let d = t.position.distance_to(&wave.monsters[i].position);
            if d * 1000 <= range {
                let ghost before = wave.monsters@;
                proof {
                    assert(sentinel_target_spec(*t, before, i + 1) == Some(i as int));
                    lemma_sentinel_target_monotone(*t, before, i + 1, n as int);
                }
                let m = &mut wave.monsters[i];
                m.detected = true;
                proof {
                    assert(wave.monsters@ =~= before.update(
                        i as int,
                        (Monster { detected: true, ..before[i as int] }),
                    ));
                    assert(forall|k2: int|
                        i + 1 <= k2 <= n ==> #[trigger] sentinel_target_spec(*t, before, k2)
                            == sentinel_target_spec(*t, before, i + 1)) by {
                        assert forall|k2: int|
                            i + 1 <= k2 <= n implies #[trigger] sentinel_target_spec(*t, before, k2)
                            == sentinel_target_spec(*t, before, i + 1) by {
                            lemma_sentinel_target_stable(*t, before, i + 1, k2);
                        }
                    }
                    assert(sentinel_target_spec(*t, before, n as int) == Some(i as int));
                }
                return true;
            }
        }
        i = i + 1;
    }
    false
}

/// A found target does not change as the scan lengthens.
proof fn lemma_sentinel_target_stable(t: Tower, ms: Seq<Monster>, k: int, n: int)
    requires
        0 <= k <= n,
        sentinel_target_spec(t, ms, k) is Some,
    ensures
        sentinel_target_spec(t, ms, n) == sentinel_target_spec(t, ms, k),
    decreases n,
{
    if n > k {
        lemma_sentinel_target_stable(t, ms, k, n - 1);
    }
}

/// Builds `a + decimal(n) + b`.
fn msg_num1(a: &str, n: u64, b: &str) -> (s: String)
    ensures
        s@ == a@ + decimal_spec(n as int) + b@,
{
    let mut s = String::from_str(a);
    let rendered = decimal_string(n);
    s.append(rendered.as_str());
    s.append(b);
    s
}

/// Builds `a + decimal(n) + b + decimal(m) + c`.
fn msg_num2(a: &str, n: u64, b: &str, m: u64, c: &str) -> (s: String)
    ensures
        s@ == a@ + decimal_spec(n as int) + b@ + decimal_spec(m as int) + c@,
{
    let mut s = msg_num1(a, n, b);
    let rendered = decimal_string(m);
    s.append(rendered.as_str());
    s.append(c);
    s
}

} // verus!
