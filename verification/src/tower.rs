//! Stationary towers: stats with independent upgrade ladders, targeting
//! strategy, optional splash damage, status behavior, and the attack-rate
//! cooldown.

use vstd::prelude::*;

use crate::behavior::{TowerBehavior, DAMAGE_LIMIT};
use crate::element::Element;
use crate::monster::Monster;
use crate::position::Position;
use crate::wave::Wave;

verus! {

/// Upgraded stat values saturate here; it is an overflow guard far above any
/// value a capped upgrade ladder can reach.
pub const STAT_LIMIT: u64 = 1_000_000_000_000;

/// The exponential price factor saturates here; unreachable for the capped
/// ladders, it only serves as an overflow guard.
pub const POW13_CEIL: u64 = 4_194_304;

/// How an upgrade changes a stat: multiply it, or add to it.
#[derive(Debug, Clone, Copy, PartialEq, Eq, Structural)]
pub enum TowerUpgradeElementUnit {
    /// The stat is multiplied by the value multiplier (milli-units).
    Percent,
    /// The value multiplier (milli-units) is added to the stat.
    Unit,
}

/// The upgrade ladder of one stat: price growth, value growth, and a cap.
#[derive(Debug, Clone, Copy, PartialEq, Eq, Structural)]
pub struct TowerStatUpgrade {
    pub price_multiplier: u64,
    pub value_multiplier: u64,
    pub value_multiplier_unit: TowerUpgradeElementUnit,
    pub max_level: u32,
}

impl TowerStatUpgrade {
    pub open spec fn wf(self) -> bool {
        &&& self.price_multiplier <= 1_000_000
        &&& self.value_multiplier <= 1_000_000
        &&& self.max_level <= 30
    }
}

/// One tower stat (range, damage, attack speed or income), with its level
/// and, when the stat can be upgraded, its ladder.
#[derive(Debug, Clone, Copy, PartialEq, Eq, Structural)]
pub struct TowerStat {
    /// The stat's current value in milli-units.
    pub base: u64,
    pub level: u32,
    pub upgrade: Option<TowerStatUpgrade>,
}

impl TowerStat {
    pub open spec fn wf(self) -> bool {
        &&& self.base <= STAT_LIMIT
        &&& match self.upgrade {
            Some(u) => u.wf() && self.level <= u.max_level,
            None => true,
        }
    }

    pub fn new(base: u64, level: u32, upgrade: Option<TowerStatUpgrade>) -> (s: TowerStat)
        ensures
            s == (TowerStat { base, level, upgrade }),
    {
        TowerStat { base, level, upgrade }
    }

    /// The price of the next level: the stat's value is scaled by
    /// `1.3 ^ level` and rounded to whole units, then scaled by the price
    /// multiplier and rounded again.
    pub open spec fn next_price_spec(self) -> int
        recommends
            self.upgrade is Some,
    {
        let units = (self.base * pow13_spec(self.level as int) + 500_000) / 1_000_000;
        (units * self.upgrade->0.price_multiplier + 500) / 1000
    }

    /// The price of upgrading this stat once more, or `None` when the stat
    /// has no upgrade ladder.
    pub fn get_next_price(&self) -> (price: Option<u64>)
        requires
            self.wf(),
        ensures
            match price {
                Some(p) => self.upgrade is Some && p == self.next_price_spec(),
                None => self.upgrade is None,
            },
    {
        match &self.upgrade {
            Some(u) => {
                let pw = pow13(self.level);
                proof {
                    assert(self.base * pw <= 1_000_000_000_000 * 4_194_304) by (nonlinear_arith)
                        requires
                            0 <= self.base <= 1_000_000_000_000,
                            0 <= pw <= 4_194_304,
                    ;
                }
                let units: u64 = (self.base * pw + 500_000) / 1_000_000;
                proof {
                    assert((self.base * pw + 500_000) / 1_000_000 <= 4_194_305_000_000)
                        by (nonlinear_arith)
                        requires
                            0 <= self.base * pw <= 4_194_304_000_000_000_000,
                    ;
                    assert(units * u.price_multiplier <= 4_194_305_000_000 * 1_000_000)
                        by (nonlinear_arith)
                        requires
                            0 <= units <= 4_194_305_000_000,
                            0 <= u.price_multiplier <= 1_000_000,
                    ;
                }
                Some((units * u.price_multiplier + 500) / 1000)
            },
            None => None,
        }
    }
}

/// `1.3 ^ n` in milli-units, computed with integer steps and saturated at
/// `POW13_CEIL`.
pub open spec fn pow13_spec(n: int) -> int
    decreases n,
{
    if n <= 0 {
        1000
    } else {
        let p = pow13_spec(n - 1);
        let q = p * 1300 / 1000;
        if q > POW13_CEIL {
            POW13_CEIL as int
        } else {
            q
        }
    }
}

pub proof fn lemma_pow13_bounds(n: int)
    ensures
        1000 <= pow13_spec(n) <= POW13_CEIL,
    decreases n,
{
    if n <= 0 {
    } else {
        lemma_pow13_bounds(n - 1);
        let p = pow13_spec(n - 1);
        assert(p * 1300 / 1000 >= p) by (nonlinear_arith)
            requires
                p >= 0,
        ;
    }
}

/// `1.3 ^ level` in milli-units.
pub fn pow13(level: u32) -> (r: u64)
    ensures
        r == pow13_spec(level as int),
        1000 <= r <= POW13_CEIL,
{
    let mut p: u64 = 1000;
    let mut i: u32 = 0;
    while i < level
        invariant
            0 <= i <= level,
            p == pow13_spec(i as int),
            1000 <= p <= POW13_CEIL,
        decreases level - i,
    {
        let q: u64 = p * 1300 / 1000;
        p = if q > POW13_CEIL {
            POW13_CEIL
        } else {
            q
        };
        i = i + 1;
    }
    p
}

/// Which stat an upgrade request addresses.
#[derive(Debug, Clone, Copy, PartialEq, Eq, Structural)]
pub enum TowerStatType {
    Range,
    Damage,
    AttackSpeed,
    Money,
}

/// How a tower picks its primary targets.
#[derive(Debug, Clone, Copy, PartialEq, Eq, Structural)]
pub enum TargetSelection {
    /// Reserved for flyers; falls back to the first active monster in range.
    Flying,
    /// The closest active monster within range, first found on a tie.
    Nearest,
    /// The active monster farthest from the tower.
    Farthest,
    /// The active monster with the most hit points.
    Strongest,
    /// The active monster with the fewest hit points.
    Weakest,
    /// Every active monster within range.
    All,
}

impl Default for TargetSelection {
    fn default() -> (t: TargetSelection)
        ensures
            t == TargetSelection::Nearest,
    {
        TargetSelection::Nearest
    }
}

/// The splash shape of a tower: a radius in cells with a damage fraction in
/// milli-units, or a target count variant that is carried but deals no
/// splash.
#[derive(Debug, Clone, Copy, PartialEq, Eq, Structural)]
pub enum TowerAoe {
    Radius(u32, u64),
    Count(u32, u64),
}

impl TowerAoe {
    pub open spec fn wf(self) -> bool {
        match self {
            TowerAoe::Radius(_, multiplier) => multiplier <= 1000,
            TowerAoe::Count(_, multiplier) => multiplier <= 1000,
        }
    }
}

/// The special action a tower performs when it fires, besides combat.
#[derive(Debug, Clone, Copy, PartialEq, Eq, Structural)]
pub enum TowerSpecial {
    /// No special action.
    Plain,
    /// Grants the income stat's value as currency each time the tower fires.
    Mine,
    /// Reports the first monster in range not yet reported by this tower.
    Sentinel,
}

#[derive(Debug, Clone, Copy, PartialEq, Eq, Structural)]
pub enum TowerKind {
    Basic,
    Fire,
    Water,
    Earth,
    Air,
    Lightning,
    Ice,
    Poison,
    Sentinel,
}

/// The build menu's tower catalog entries with their build prices.
#[derive(Debug, Clone, Copy, PartialEq, Eq, Structural)]
pub enum TowerType {
    Basic,
    Fire,
    Water,
    Earth,
    Air,
    Lightning,
    Ice,
    Poison,
    Sentinel,
}

impl TowerType {
    pub open spec fn cost_spec(self) -> int {
        match self {
            TowerType::Basic => 50,
            TowerType::Fire => 75,
            TowerType::Water => 75,
            TowerType::Earth => 100,
            TowerType::Air => 100,
            TowerType::Lightning => 110,
            TowerType::Ice => 95,
            TowerType::Poison => 90,
            TowerType::Sentinel => 100,
        }
    }

    /// The build price of this tower type, in whole coins.
    pub fn cost(&self) -> (c: u32)
        ensures
            c == self.cost_spec(),
    {
        match *self {
            TowerType::Basic => 50,
            TowerType::Fire => 75,
            TowerType::Water => 75,
            TowerType::Earth => 100,
            TowerType::Air => 100,
            TowerType::Lightning => 110,
            TowerType::Ice => 95,
            TowerType::Poison => 90,
            TowerType::Sentinel => 100,
        }
    }

    pub open spec fn to_tower_kind_spec(self) -> TowerKind {
        match self {
            TowerType::Basic => TowerKind::Basic,
            TowerType::Fire => TowerKind::Fire,
            TowerType::Water => TowerKind::Water,
            TowerType::Earth => TowerKind::Earth,
            TowerType::Air => TowerKind::Air,
            TowerType::Lightning => TowerKind::Lightning,
            TowerType::Ice => TowerKind::Ice,
            TowerType::Poison => TowerKind::Poison,
            TowerType::Sentinel => TowerKind::Sentinel,
        }
    }

    pub fn to_tower_kind(&self) -> (k: TowerKind)
        ensures
            k == self.to_tower_kind_spec(),
    {
        match *self {
            TowerType::Basic => TowerKind::Basic,
            TowerType::Fire => TowerKind::Fire,
            TowerType::Water => TowerKind::Water,
            TowerType::Earth => TowerKind::Earth,
            TowerType::Air => TowerKind::Air,
            TowerType::Lightning => TowerKind::Lightning,
            TowerType::Ice => TowerKind::Ice,
            TowerType::Poison => TowerKind::Poison,
            TowerType::Sentinel => TowerKind::Sentinel,
        }
    }
}

/// One tower, uniform over all kinds: the kind-specific data lives in the
/// stats, the targeting strategy, the behavior and the special action.
#[derive(Debug, Clone)]
pub struct Tower {
    /// Identity handed out by the game when the tower is placed.
    pub id: u64,
    pub kind: TowerKind,
    pub name: String,
    pub symbol: String,
    pub level: u32,
    /// Build price in whole coins.
    pub cost: u64,
    pub position: Position,
    pub element: Element,
    /// Firing range in milli-cells, when the tower can target at all.
    pub range: Option<TowerStat>,
    /// Damage per hit in milli-hit-points, when the tower deals damage.
    pub damage: Option<TowerStat>,
    /// Attacks per second in milli-units, when the tower fires.
    pub attack_speed: Option<TowerStat>,
    /// Passive income per firing in milli-coins, for mines.
    pub money: Option<TowerStat>,
    pub target_selection: TargetSelection,
    pub aoe: Option<TowerAoe>,
    pub behavior: TowerBehavior,
    pub special: TowerSpecial,
    /// Simulation time of the last shot, in milli-seconds.
    pub last_attack: u64,
}

pub open spec fn stat_opt_wf(s: Option<TowerStat>) -> bool {
    match s {
        Some(stat) => stat.wf(),
        None => true,
    }
}

impl Tower {
    pub open spec fn wf(self) -> bool {
        &&& stat_opt_wf(self.range)
        &&& stat_opt_wf(self.damage)
        &&& stat_opt_wf(self.attack_speed)
        &&& stat_opt_wf(self.money)
        &&& self.behavior.wf()
        &&& match self.aoe {
            Some(a) => a.wf(),
            None => true,
        }
    }

    pub fn new(
        kind: TowerKind,
        name: String,
        symbol: String,
        level: u32,
        cost: u64,
        position: Position,
        element: Element,
        range: Option<TowerStat>,
        damage: Option<TowerStat>,
        attack_speed: Option<TowerStat>,
        money: Option<TowerStat>,
        target_selection: TargetSelection,
        aoe: Option<TowerAoe>,
        behavior: TowerBehavior,
        special: TowerSpecial,
    ) -> (t: Tower)
        ensures
            t == (Tower {
                id: 0u64,
                kind,
                name,
                symbol,
                level,
                cost,
                position,
                element,
                range,
                damage,
                attack_speed,
                money,
                target_selection,
                aoe,
                behavior,
                special,
                last_attack: 0u64,
            }),
    {
        Tower {
            id: 0,
            kind,
            name,
            symbol,
            level,
            cost,
            position,
            element,
            range,
            damage,
            attack_speed,
            money,
            target_selection,
            aoe,
            behavior,
            special,
            last_attack: 0,
        }
    }

    /// The tower may fire at `t` when it has an attack-speed stat and at
    /// least `1 / attacks_per_second` seconds have passed since its last
    /// shot.
    pub open spec fn can_shoot_spec(self, current_time: u64) -> bool {
        match self.attack_speed {
            Some(s) => current_time >= self.last_attack && (current_time - self.last_attack)
                * s.base >= 1_000_000,
            None => false,
        }
    }

    pub fn can_shoot(&self, current_time: u64) -> (can: bool)
        ensures
            can == self.can_shoot_spec(current_time),
    {
        match &self.attack_speed {
            Some(s) => {
                if current_time < self.last_attack {
                    return false;
                }
                let elapsed: u128 = (current_time - self.last_attack) as u128;
                proof {
                    assert(elapsed * (s.base as int) <= 0xFFFF_FFFF_FFFF_FFFF
                        * 0xFFFF_FFFF_FFFF_FFFF) by (nonlinear_arith)
                        requires
                            0 <= elapsed <= 0xFFFF_FFFF_FFFF_FFFF,
                            0 <= s.base <= 0xFFFF_FFFF_FFFF_FFFF,
                    ;
                }
                elapsed * (s.base as u128) >= 1_000_000
            },
            None => false,
        }
    }

    /// Bumps the cosmetic tower level.
    pub fn upgrade_level(&mut self) -> (level: u32)
        requires
            old(self).level < 0xFFFF_FFFFu32,
        ensures
            *final(self) == (Tower { level: (old(self).level + 1) as u32, ..*old(self) }),
            level == final(self).level,
    {
        self.level = self.level + 1;
        self.level
    }

    /// The stat addressed by `upgrade_type`, as stored on this tower.
    pub open spec fn stat_of_spec(self, upgrade_type: TowerStatType) -> Option<TowerStat> {
        match upgrade_type {
            TowerStatType::Range => self.range,
            TowerStatType::Damage => self.damage,
            TowerStatType::AttackSpeed => self.attack_speed,
            TowerStatType::Money => self.money,
        }
    }

    /// One upgrade step of a stat: below the cap the level rises by one and
    /// the value grows by the ladder's multiplier (saturating at
    /// `STAT_LIMIT`); at the cap nothing changes and the step reports
    /// failure. A stat without a ladder accepts the request as a no-op.
    pub open spec fn upgrade_stat_step_spec(s: TowerStat) -> (TowerStat, bool) {
        match s.upgrade {
            Some(u) => {
                if s.level >= u.max_level {
                    (s, false)
                } else {
                    let grown = match u.value_multiplier_unit {
                        TowerUpgradeElementUnit::Percent => s.base * u.value_multiplier / 1000,
                        TowerUpgradeElementUnit::Unit => s.base + u.value_multiplier,
                    };
                    let capped = if grown > STAT_LIMIT {
                        STAT_LIMIT as int
                    } else {
                        grown
                    };
                    (
                        TowerStat {
                            base: capped as u64,
                            level: (s.level + 1) as u32,
                            upgrade: s.upgrade,
                        },
                        true,
                    )
                }
            },
            None => (s, true),
        }
    }

    /// This tower after an upgrade request for `upgrade_type`, with whether
    /// the request was accepted.
    pub open spec fn upgrade_spec(self, upgrade_type: TowerStatType) -> (Tower, bool) {
        match self.stat_of_spec(upgrade_type) {
            Some(s) => {
                let (new_stat, ok) = Self::upgrade_stat_step_spec(s);
                let t = match upgrade_type {
                    TowerStatType::Range => Tower { range: Some(new_stat), ..self },
                    TowerStatType::Damage => Tower { damage: Some(new_stat), ..self },
                    TowerStatType::AttackSpeed => Tower { attack_speed: Some(new_stat), ..self },
                    TowerStatType::Money => Tower { money: Some(new_stat), ..self },
                };
                (t, ok)
            },
            None => (self, true),
        }
    }

    /// Requests one upgrade of the given stat. Returns the maximum-level
    /// failure if and only if the stat has a ladder and already sits at its
    /// cap; a request for a stat the tower does not carry is accepted and
    /// changes nothing.
    pub fn upgrade(&mut self, upgrade_type: TowerStatType) -> (r: Result<(), String>)
        requires
            old(self).wf(),
        ensures
            *final(self) == old(self).upgrade_spec(upgrade_type).0,
            r is Ok <==> old(self).upgrade_spec(upgrade_type).1,
            final(self).wf(),
    {
        let stat_opt: &mut Option<TowerStat> = match upgrade_type {
            TowerStatType::Range => &mut self.range,
            TowerStatType::Damage => &mut self.damage,
            TowerStatType::AttackSpeed => &mut self.attack_speed,
            TowerStatType::Money => &mut self.money,
        };
        match stat_opt {
            Some(stat) => {
                match stat.upgrade {
                    Some(u) => {
                        if stat.level >= u.max_level {
                            return Err(
                                String::from_str(
                                    "La vitesse d'attaque est déjà au niveau maximum.",
                                ),
                            );
                        }
                        let grown: u64 = match u.value_multiplier_unit {
                            TowerUpgradeElementUnit::Percent => {
                                proof {
                                    assert(stat.base * u.value_multiplier <= 1_000_000_000_000
                                        * 1_000_000) by (nonlinear_arith)
                                        requires
                                            0 <= stat.base <= 1_000_000_000_000,
                                            0 <= u.value_multiplier <= 1_000_000,
                                    ;
                                }
                                stat.base * u.value_multiplier / 1000
                            },
                            TowerUpgradeElementUnit::Unit => stat.base + u.value_multiplier,
                        };
                        let capped: u64 = if grown > STAT_LIMIT {
                            STAT_LIMIT
                        } else {
                            grown
                        };
                        stat.base = capped;
                        stat.level = stat.level + 1;
                        Ok(())
                    },
                    None => Ok(()),
                }
            },
            None => Ok(()),
        }
    }

    /// The price of the next upgrade of the given stat: `None` when the
    /// tower does not carry the stat, the stat has no ladder, or the stat
    /// already sits at its cap.
    pub fn upgrade_cost_for_attribute(&self, stat: TowerStatType) -> (price: Option<u64>)
        requires
            self.wf(),
        ensures
            match price {
                Some(p) => {
                    &&& self.stat_of_spec(stat) matches Some(s)
                    &&& s.upgrade is Some
                    &&& s.level < s.upgrade->0.max_level
                    &&& p == s.next_price_spec()
                },
                None => match self.stat_of_spec(stat) {
                    Some(s) => match s.upgrade {
                        Some(u) => s.level >= u.max_level,
                        None => true,
                    },
                    None => true,
                },
            },
    {
        let stat_ref: &Option<TowerStat> = match stat {
            TowerStatType::Range => &self.range,
            TowerStatType::Damage => &self.damage,
            TowerStatType::AttackSpeed => &self.attack_speed,
            TowerStatType::Money => &self.money,
        };
        match stat_ref {
            Some(s) => {
                match &s.upgrade {
                    Some(u) => {
                        if s.level >= u.max_level {
                            None
                        } else {
                            s.get_next_price()
                        }
                    },
                    None => None,
                }
            },
            None => None,
        }
    }

    /// Whether `m` stands within this tower's firing range: the squared
    /// straight-line distance is compared against the squared range, which
    /// is exact. A tower without a range stat has no reach at all.
    pub open spec fn in_range_spec(self, m: Monster) -> bool {
        match self.range {
            Some(r) => self.position.distance_sq_spec(m.position) * 1_000_000 <= r.base * r.base,
            None => false,
        }
    }

    pub fn is_in_range(&self, monster: &Monster) -> (in_range: bool)
        ensures
            in_range == self.in_range_spec(*monster),
    {
        match &self.range {
            Some(r) => {
                let d2: u128 = self.position.distance_sq_to(&monster.position);
                proof {
                    let dx = self.position.x - monster.position.x;
                    let dy = self.position.y - monster.position.y;
                    assert(dx * dx <= 4_294_967_295 * 4_294_967_295 && dy * dy <= 4_294_967_295
                        * 4_294_967_295) by (nonlinear_arith)
                        requires
                            -4_294_967_295 <= dx <= 4_294_967_295,
                            -4_294_967_295 <= dy <= 4_294_967_295,
                    ;
                    assert(d2 * 1_000_000 <= 40_000_000_000_000_000_000 * 1_000_000)
                        by (nonlinear_arith)
                        requires
                            0 <= d2 <= 40_000_000_000_000_000_000,
                    ;
                    assert((r.base as int) * (r.base as int) <= 0xFFFF_FFFF_FFFF_FFFF
                        * 0xFFFF_FFFF_FFFF_FFFF) by (nonlinear_arith)
                        requires
                            0 <= r.base <= 0xFFFF_FFFF_FFFF_FFFF,
                    ;
                }
                d2 * 1_000_000 <= (r.base as u128) * (r.base as u128)
            },
            None => false,
        }
    }

    /// Index of the nearest active in-range monster among the first `n`,
    /// ties broken by first-found order.
    pub open spec fn nearest_scan_spec(self, ms: Seq<Monster>, n: int) -> Option<usize>
        decreases n,
    {
        if n <= 0 {
            None
        } else {
            let prev = self.nearest_scan_spec(ms, n - 1);
            let m = ms[n - 1];
            if m.active && self.in_range_spec(m) && (match prev {
                Some(p) => self.position.distance_sq_spec(m.position)
                    < self.position.distance_sq_spec(ms[p as int].position),
                None => true,
            }) {
                Some((n - 1) as usize)
            } else {
                prev
            }
        }
    }

    /// Selects the closest active monster within range; first found wins a
    /// distance tie.
    pub fn find_nearest_target(&self, wave: &Wave) -> (target: Option<usize>)
        ensures
            target == self.nearest_scan_spec(wave.monsters@, wave.monsters@.len() as int),
            target matches Some(idx) ==> idx < wave.monsters@.len(),
    {
        let n = wave.monsters.len();
        let mut best: Option<usize> = None;
        let mut i: usize = 0;
        while i < n
            invariant
                n == wave.monsters@.len(),
                0 <= i <= n,
                best == self.nearest_scan_spec(wave.monsters@, i as int),
                best matches Some(b) ==> b < i,
            decreases n - i,
        {
            let m = &wave.monsters[i];
            if m.active && self.is_in_range(m) {
                let replace = match best {
                    Some(b) => {
                        let bd = self.position.distance_sq_to(&wave.monsters[b].position);
                        let md = self.position.distance_sq_to(&m.position);
                        md < bd
                    },
                    None => true,
                };
                if replace {
                    best = Some(i);
                }
            }
            i = i + 1;
        }
        best
    }

    /// Index of the first active in-range monster among the first `n`, the
    /// fallback selection.
    pub open spec fn first_in_range_scan_spec(self, ms: Seq<Monster>, n: int) -> Option<usize>
        decreases n,
    {
        if n <= 0 {
            None
        } else {
            let prev = self.first_in_range_scan_spec(ms, n - 1);
            if prev is Some {
                prev
            } else if ms[n - 1].active && self.in_range_spec(ms[n - 1]) {
                Some((n - 1) as usize)
            } else {
                None
            }
        }
    }

    /// The indices of all active in-range monsters among the first `n`, in
    /// wave order.
    pub open spec fn all_in_range_scan_spec(self, ms: Seq<Monster>, n: int) -> Seq<usize>
        decreases n,
    {
        if n <= 0 {
            Seq::empty()
        } else {
            let prev = self.all_in_range_scan_spec(ms, n - 1);
            if ms[n - 1].active && self.in_range_spec(ms[n - 1]) {
                prev.push((n - 1) as usize)
            } else {
                prev
            }
        }
    }

    /// Index of the active monster with the most hit points among the first
    /// `n`, ties broken by first-found order.
    pub open spec fn strongest_scan_spec(self, ms: Seq<Monster>, n: int) -> Option<usize>
        decreases n,
    {
        if n <= 0 {
            None
        } else {
            let prev = self.strongest_scan_spec(ms, n - 1);
            let m = ms[n - 1];
            if m.active && (match prev {
                Some(p) => m.hp > ms[p as int].hp,
                None => true,
            }) {
                Some((n - 1) as usize)
            } else {
                prev
            }
        }
    }

    /// Index of the active monster with the fewest hit points among the
    /// first `n`, ties broken by first-found order.
    pub open spec fn weakest_scan_spec(self, ms: Seq<Monster>, n: int) -> Option<usize>
        decreases n,
    {
        if n <= 0 {
            None
        } else {
            let prev = self.weakest_scan_spec(ms, n - 1);
            let m = ms[n - 1];
            if m.active && (match prev {
                Some(p) => m.hp < ms[p as int].hp,
                None => true,
            }) {
                Some((n - 1) as usize)
            } else {
                prev
            }
        }
    }

    /// Index of the active monster farthest from the tower among the first
    /// `n`, ties broken by first-found order.
    pub open spec fn farthest_scan_spec(self, ms: Seq<Monster>, n: int) -> Option<usize>
        decreases n,
    {
        if n <= 0 {
            None
        } else {
            let prev = self.farthest_scan_spec(ms, n - 1);
            let m = ms[n - 1];
            if m.active && (match prev {
                Some(p) => self.position.distance_sq_spec(m.position)
                    > self.position.distance_sq_spec(ms[p as int].position),
                None => true,
            }) {
                Some((n - 1) as usize)
            } else {
                prev
            }
        }
    }

    /// The primary target indices this tower's strategy selects from the
    /// wave, in processing order.
    pub open spec fn primary_targets_spec(self, ms: Seq<Monster>) -> Seq<usize> {
        let n = ms.len() as int;
        match self.target_selection {
            TargetSelection::Nearest => opt_target_seq(self.nearest_scan_spec(ms, n)),
            TargetSelection::All => self.all_in_range_scan_spec(ms, n),
            TargetSelection::Strongest => opt_target_seq(self.strongest_scan_spec(ms, n)),
            TargetSelection::Weakest => opt_target_seq(self.weakest_scan_spec(ms, n)),
            TargetSelection::Farthest => opt_target_seq(self.farthest_scan_spec(ms, n)),
            TargetSelection::Flying => opt_target_seq(self.first_in_range_scan_spec(ms, n)),
        }
    }

    /// Collects this tower's primary targets per its strategy.
    fn select_targets(&self, wave: &Wave) -> (targets: Vec<usize>)
        ensures
            targets@ == self.primary_targets_spec(wave.monsters@),
            forall|k: int|
                0 <= k < targets@.len() ==> (#[trigger] targets@[k] as int)
                    < wave.monsters@.len(),
    {
        let n = wave.monsters.len();
        let mut targets: Vec<usize> = Vec::new();
        match self.target_selection {
            TargetSelection::Nearest => {
                if let Some(idx) = self.find_nearest_target(wave) {
                    targets.push(idx);
                }
            },
            TargetSelection::All => {
                let mut i: usize = 0;
                while i < n
                    invariant
                        n == wave.monsters@.len(),
                        0 <= i <= n,
                        targets@ == self.all_in_range_scan_spec(wave.monsters@, i as int),
                        forall|k: int|
                            0 <= k < targets@.len() ==> (#[trigger] targets@[k] as int) < i,
                    decreases n - i,
                {
                    let m = &wave.monsters[i];
                    if m.active && self.is_in_range(m) {
                        targets.push(i);
                    }
                    i = i + 1;
                }
            },
            TargetSelection::Strongest => {
                let mut best: Option<usize> = None;
                let mut i: usize = 0;
                while i < n
                    invariant
                        n == wave.monsters@.len(),
                        0 <= i <= n,
                        best == self.strongest_scan_spec(wave.monsters@, i as int),
                        best matches Some(b) ==> b < i,
                    decreases n - i,
                {
                    let m = &wave.monsters[i];
                    if m.active {
                        let replace = match best {
                            Some(b) => m.hp > wave.monsters[b].hp,
                            None => true,
                        };
                        if replace {
                            best = Some(i);
                        }
                    }
                    i = i + 1;
                }
                if let Some(idx) = best {
                    targets.push(idx);
                }
            },
            TargetSelection::Weakest => {
                let mut best: Option<usize> = None;
                let mut i: usize = 0;
                while i < n
                    invariant
                        n == wave.monsters@.len(),
                        0 <= i <= n,
                        best == self.weakest_scan_spec(wave.monsters@, i as int),
                        best matches Some(b) ==> b < i,
                    decreases n - i,
                {
                    let m = &wave.monsters[i];
                    if m.active {
                        let replace = match best {
                            Some(b) => m.hp < wave.monsters[b].hp,
                            None => true,
                        };
                        if replace {
                            best = Some(i);
                        }
                    }
                    i = i + 1;
                }
                if let Some(idx) = best {
                    targets.push(idx);
                }
            },
            TargetSelection::Farthest => {
                let mut best: Option<usize> = None;
                let mut i: usize = 0;
                while i < n
                    invariant
                        n == wave.monsters@.len(),
                        0 <= i <= n,
                        best == self.farthest_scan_spec(wave.monsters@, i as int),
                        best matches Some(b) ==> b < i,
                    decreases n - i,
                {
                    let m = &wave.monsters[i];
                    if m.active {
                        let replace = match best {
                            Some(b) => {
                                let bd = self.position.distance_sq_to(
                                    &wave.monsters[b].position,
                                );
                                let md = self.position.distance_sq_to(&m.position);
                                md > bd
                            },
                            None => true,
                        };
                        if replace {
                            best = Some(i);
                        }
                    }
                    i = i + 1;
                }
                if let Some(idx) = best {
                    targets.push(idx);
                }
            },
            TargetSelection::Flying => {
                let mut best: Option<usize> = None;
                let mut i: usize = 0;
                while i < n
                    invariant
                        n == wave.monsters@.len(),
                        0 <= i <= n,
                        best == self.first_in_range_scan_spec(wave.monsters@, i as int),
                        best matches Some(b) ==> b < i,
                    decreases n - i,
                {
                    if best.is_none() {
                        let m = &wave.monsters[i];
                        if m.active && self.is_in_range(m) {
                            best = Some(i);
                        }
                    }
                    i = i + 1;
                }
                if let Some(idx) = best {
                    targets.push(idx);
                }
            },
        }
        targets
    }

    /// The splash pass over the wave for one primary target: every other
    /// active monster within `radius` block cells of the target's position
    /// takes the splash damage, processed in wave order.
    pub open spec fn aoe_pass_spec(
        self,
        ms: Seq<Monster>,
        target_pos: Position,
        target_idx: int,
        aoe_damage: u64,
        radius: u32,
        j: int,
    ) -> Seq<Monster>
        decreases ms.len() - j,
    {
        if j < 0 || j >= ms.len() {
            ms
        } else {
            let next = if j != target_idx && ms[j].active && target_pos.block_distance_spec(
                ms[j].position,
            ) <= radius {
                ms.update(j, hit_spec(self.behavior, self.element, ms[j], aoe_damage))
            } else {
                ms
            };
            self.aoe_pass_spec(next, target_pos, target_idx, aoe_damage, radius, j + 1)
        }
    }

    /// The wave after this tower processes one primary target: an inactive
    /// target is skipped entirely; otherwise the target takes a full hit and
    /// a radius splash, if the tower has one, hits the target's neighbours.
    pub open spec fn shoot_one_target_spec(self, ms: Seq<Monster>, idx: int) -> Seq<Monster>
        recommends
            self.damage is Some,
            0 <= idx < ms.len(),
    {
        if !ms[idx].active {
            ms
        } else {
            let dmg = self.damage->0.base;
            let after_primary = ms.update(idx, hit_spec(self.behavior, self.element, ms[idx], dmg));
            match self.aoe {
                Some(TowerAoe::Radius(radius, multiplier)) => self.aoe_pass_spec(
                    after_primary,
                    after_primary[idx].position,
                    idx,
                    (dmg * multiplier / 1000) as u64,
                    radius,
                    0,
                ),
                _ => after_primary,
            }
        }
    }

    /// The wave after this tower processes the primary targets from index
    /// `k` on, sequentially.
    pub open spec fn shoot_targets_spec(
        self,
        ms: Seq<Monster>,
        targets: Seq<usize>,
        k: int,
    ) -> Seq<Monster>
        decreases targets.len() - k,
    {
        if k < 0 || k >= targets.len() {
            ms
        } else {
            self.shoot_targets_spec(
                self.shoot_one_target_spec(ms, targets[k] as int),
                targets,
                k + 1,
            )
        }
    }

    /// The whole effect of one shot on the wave: the strategy picks the
    /// primary targets from the incoming wave, and each is processed in
    /// order. A tower without a damage stat changes nothing.
    pub open spec fn shoot_wave_spec(self, ms: Seq<Monster>) -> Seq<Monster> {
        match self.damage {
            Some(_) => self.shoot_targets_spec(ms, self.primary_targets_spec(ms), 0),
            None => ms,
        }
    }

    /// Fires at the wave at `current_time`: stamps the cooldown, selects the
    /// primary targets by the tower's strategy, and deals behavior- and
    /// resistance-adjusted damage, with splash where the tower has one.
    /// The caller is responsible for the rate check (`can_shoot`); firing
    /// has no effect on inactive monsters. The returned log list is empty;
    /// the orchestrator writes the event log.
    pub fn shoot(&mut self, wave: &mut Wave, current_time: u64) -> (logs: Vec<String>)
        requires
            old(self).wf(),
            old(wave).wf(),
        ensures
            *final(self) == (Tower { last_attack: current_time, ..*old(self) }),
            final(wave).monsters@ == old(self).shoot_wave_spec(old(wave).monsters@),
            final(wave).wf(),
            final(wave).monsters@.len() == old(wave).monsters@.len(),
            logs@.len() == 0,
    {
        let logs: Vec<String> = Vec::new();
        let targets = self.select_targets(wave);
        self.last_attack = current_time;
        let ghost tower = *old(self);
        let ghost orig = wave.monsters@;
        let damage_stat = match &self.damage {
            Some(d) => *d,
            None => {
                return logs;
            },
        };
        let behavior = self.behavior;
        let element = self.element;
        let dmg = damage_stat.base;
        let n = wave.monsters.len();
        let mut k: usize = 0;
        while k < targets.len()
            invariant
                tower.wf(),
                *self == (Tower { last_attack: current_time, ..tower }),
                behavior == tower.behavior,
                element == tower.element,
                tower.damage == Some(damage_stat),
                dmg == damage_stat.base,
                dmg <= DAMAGE_LIMIT,
                n == orig.len(),
                wave.monsters@.len() == n,
                wave.wf(),
                0 <= k <= targets@.len(),
                forall|j: int|
                    0 <= j < targets@.len() ==> (#[trigger] targets@[j] as int) < n,
                tower.shoot_targets_spec(wave.monsters@, targets@, k as int)
                    == tower.shoot_targets_spec(orig, targets@, 0),
            decreases targets@.len() - k,
        {
            let t_idx = targets[k];
            let ghost before = wave.monsters@;
            if wave.monsters[t_idx].active {
                proof {
                    assert(dmg <= 1_000_000_000_000);
                }
                strike(&behavior, &element, &mut wave.monsters[t_idx], dmg);
                proof {
                    assert(wave.monsters@ =~= before.update(
                        t_idx as int,
                        hit_spec(behavior, element, before[t_idx as int], dmg),
                    ));
                }
                if let Some(aoe) = &self.aoe {
                    if let TowerAoe::Radius(radius, multiplier) = aoe {
                        let radius: u32 = *radius;
                        let multiplier: u64 = *multiplier;
                        proof {
                            assert(dmg * multiplier <= 1_000_000_000_000 * 1000)
                                by (nonlinear_arith)
                                requires
                                    0 <= dmg <= 1_000_000_000_000,
                                    0 <= multiplier <= 1000,
                            ;
                            assert(dmg * multiplier / 1000 <= 1_000_000_000_000)
                                by (nonlinear_arith)
                                requires
                                    0 <= dmg * multiplier <= 1_000_000_000_000_000,
                            ;
                        }
                        let aoe_damage: u64 = dmg * multiplier / 1000;
                        let target_pos = wave.monsters[t_idx].position;
                        let ghost after_primary = wave.monsters@;
                        let mut j: usize = 0;
                        while j < n
                            invariant
                                tower.wf(),
                                behavior == tower.behavior,
                                element == tower.element,
                                n == wave.monsters@.len(),
                                wave.wf(),
                                0 <= j <= n,
                                (t_idx as int) < n,
                                aoe_damage <= DAMAGE_LIMIT,
                                tower.aoe_pass_spec(
                                    wave.monsters@,
                                    target_pos,
                                    t_idx as int,
                                    aoe_damage,
                                    radius,
                                    j as int,
                                ) == tower.aoe_pass_spec(
                                    after_primary,
                                    target_pos,
                                    t_idx as int,
                                    aoe_damage,
                                    radius,
                                    0,
                                ),
                            decreases n - j,
                        {
                            let ghost pre = wave.monsters@;
                            if j != t_idx && wave.monsters[j].active {
                                let d = target_pos.distance_to(&wave.monsters[j].position);
                                if d <= radius as u64 {
                                    strike(
                                        &behavior,
                                        &element,
                                        &mut wave.monsters[j],
                                        aoe_damage,
                                    );
                                    proof {
                                        assert(wave.monsters@ =~= pre.update(
                                            j as int,
                                            hit_spec(behavior, element, pre[j as int], aoe_damage),
                                        ));
                                    }
                                }
                            }
                            j = j + 1;
                        }
                    }
                }
            }
            k = k + 1;
        }
        logs
    }
}

/// A single primary or splash target turned into a processing list.
pub open spec fn opt_target_seq(target: Option<usize>) -> Seq<usize> {
    match target {
        Some(i) => seq![i],
        None => Seq::empty(),
    }
}

/// The monster after one hit: the behavior's side effect lands, and the
/// behavior-adjusted damage, scaled by the monster's elemental resistance,
/// is taken from its hit points, which never go below zero.
pub open spec fn hit_spec(
    behavior: TowerBehavior,
    element: Element,
    m: Monster,
    damage: u64,
) -> Monster {
    let out = behavior.damage_out_spec(m, damage);
    let effected = behavior.effect_spec(m);
    let scaled = out * m.resistances.damage_factor_spec(element) / 1000;
    Monster {
        hp: if effected.hp >= scaled {
            (effected.hp - scaled) as u64
        } else {
            0u64
        },
        ..effected
    }
}

/// Lands one hit on `monster`: the behavior's side effect, then the
/// resistance-scaled damage.
fn strike(behavior: &TowerBehavior, element: &Element, monster: &mut Monster, damage: u64)
    requires
        behavior.wf(),
        old(monster).wf(),
        damage <= DAMAGE_LIMIT,
    ensures
        *final(monster) == hit_spec(*behavior, *element, *old(monster), damage),
        final(monster).wf(),
        final(monster).hp <= old(monster).hp,
        final(monster).active == old(monster).active,
{
    let actual = behavior.apply(monster, damage);
    let factor = monster.resistances.damage_factor(element);
    proof {
        assert(actual * (factor as int) <= 1_000_000_000_000_000 * 1000) by (nonlinear_arith)
            requires
                0 <= actual <= 1_000_000_000_000_000,
                0 <= factor <= 1000,
        ;
        assert(actual * (factor as int) / 1000 >= 0);
    }
    let scaled: u64 = actual * (factor as u64) / 1000;
    if monster.hp >= scaled {
        monster.hp = monster.hp - scaled;
    } else {
        monster.hp = 0;
    }
}

} // verus!
