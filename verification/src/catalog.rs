//! The tower and monster catalog: the prototypes the game builds from.
//! All values are in milli-units.

use vstd::prelude::*;

use crate::behavior::TowerBehavior;
use crate::element::{Element, Resistances};
use crate::monster::Monster;
use crate::position::Position;
use crate::tower::{
    TargetSelection, Tower, TowerAoe, TowerKind, TowerSpecial, TowerStat, TowerStatUpgrade,
    TowerUpgradeElementUnit,
};

verus! {

/// A stat with an upgrade ladder.
fn stat(
    base: u64,
    level: u32,
    price_multiplier: u64,
    value_multiplier: u64,
    value_multiplier_unit: TowerUpgradeElementUnit,
    max_level: u32,
) -> (s: TowerStat)
    ensures
        s == (TowerStat {
            base,
            level,
            upgrade: Some(TowerStatUpgrade {
                price_multiplier,
                value_multiplier,
                value_multiplier_unit,
                max_level,
            }),
        }),
{
    TowerStat {
        base,
        level,
        upgrade: Some(TowerStatUpgrade {
            price_multiplier,
            value_multiplier,
            value_multiplier_unit,
            max_level,
        }),
    }
}

/// A stat that cannot be upgraded.
fn flat_stat(base: u64, level: u32) -> (s: TowerStat)
    ensures
        s == (TowerStat { base, level, upgrade: None }),
{
    TowerStat { base, level, upgrade: None }
}

pub struct BasicTower;

impl BasicTower {
    /// The plain starter tower: short range, neutral element, single target.
    pub fn positionned(position: Position) -> (t: Tower)
        ensures
            t.kind == TowerKind::Basic,
            t.name@ == "Basic Tower"@,
            t.id == 0 && t.level == 0 && t.cost == 50 && t.last_attack == 0,
            t.position == position,
            t.element == Element::Neutral,
            t.range == Some(
                (TowerStat {
                    base: 2000u64,
                    level: 0u32,
                    upgrade: Some(TowerStatUpgrade {
                        price_multiplier: 2000u64,
                        value_multiplier: 500u64,
                        value_multiplier_unit: TowerUpgradeElementUnit::Unit,
                        max_level: 30u32,
                    }),
                }),
            ),
            t.damage matches Some(d) && d.base == 10000 && d.level == 0,
            t.attack_speed matches Some(a) && a.base == 1000 && a.level == 0,
            t.money is None,
            t.target_selection == TargetSelection::Nearest,
            t.aoe is None,
            t.behavior == TowerBehavior::Basic,
            t.special == TowerSpecial::Plain,
            t.wf(),
    {
        Tower::new(
            TowerKind::Basic,
            String::from_str("Basic Tower"),
            String::from_str("B"),
            0,
            50,
            position,
            Element::Neutral,
            Some(stat(2000, 0, 2000, 500, TowerUpgradeElementUnit::Unit, 30)),
            Some(stat(10000, 0, 10000, 1250, TowerUpgradeElementUnit::Percent, 30)),
            Some(stat(1000, 0, 1000, 1200, TowerUpgradeElementUnit::Percent, 30)),
            None,
            TargetSelection::Nearest,
            None,
            TowerBehavior::Basic,
            TowerSpecial::Plain,
        )
    }
}

pub struct FireTower;

impl FireTower {
    /// Long range, splash damage around the primary target.
    pub fn positionned(position: Position) -> (t: Tower)
        ensures
            t.kind == TowerKind::Fire,
            t.name@ == "Fire Tower"@,
            t.symbol@ == "🔥"@,
            t.id == 0 && t.level == 1 && t.cost == 45 && t.last_attack == 0,
            t.position == position,
            t.element == Element::Fire,
            t.range matches Some(r) && r.base == 5000 && r.level == 1,
            t.damage matches Some(d) && d.base == 10000 && d.level == 1,
            t.attack_speed matches Some(a) && a.base == 500 && a.level == 1,
            t.money is None,
            t.target_selection == TargetSelection::Nearest,
            t.aoe == Some(TowerAoe::Radius(10u32, 500u64)),
            t.behavior == TowerBehavior::Basic,
            t.special == TowerSpecial::Plain,
            t.wf(),
    {
        Tower::new(
            TowerKind::Fire,
            String::from_str("Fire Tower"),
            String::from_str("🔥"),
            1,
            45,
            position,
            Element::Fire,
            Some(stat(5000, 1, 1500, 1200, TowerUpgradeElementUnit::Unit, 10)),
            Some(stat(10000, 1, 1800, 18000, TowerUpgradeElementUnit::Unit, 10)),
            Some(stat(500, 1, 1800, 500, TowerUpgradeElementUnit::Unit, 10)),
            None,
            TargetSelection::Nearest,
            Some(TowerAoe::Radius(10, 500)),
            TowerBehavior::Basic,
            TowerSpecial::Plain,
        )
    }
}

pub struct WaterTower;

impl WaterTower {
    /// Hits every active monster within range at once.
    pub fn positionned(position: Position) -> (t: Tower)
        ensures
            t.kind == TowerKind::Water,
            t.name@ == "Water Tower"@,
            t.id == 0 && t.level == 0 && t.cost == 95 && t.last_attack == 0,
            t.position == position,
            t.element == Element::Water,
            t.range matches Some(r) && r.base == 3500 && r.level == 0,
            t.damage matches Some(d) && d.base == 12000 && d.level == 0,
            t.attack_speed matches Some(a) && a.base == 1000 && a.level == 0,
            t.money is None,
            t.target_selection == TargetSelection::All,
            t.aoe is None,
            t.behavior == TowerBehavior::Basic,
            t.special == TowerSpecial::Plain,
            t.wf(),
    {
        Tower::new(
            TowerKind::Water,
            String::from_str("Water Tower"),
            String::from_str("W"),
            0,
            95,
            position,
            Element::Water,
            Some(stat(3500, 0, 950, 350, TowerUpgradeElementUnit::Unit, 30)),
            Some(stat(12000, 0, 1150, 1250, TowerUpgradeElementUnit::Percent, 30)),
            Some(stat(1000, 0, 1000, 1080, TowerUpgradeElementUnit::Percent, 30)),
            None,
            TargetSelection::All,
            None,
            TowerBehavior::Basic,
            TowerSpecial::Plain,
        )
    }
}

pub struct EarthTower;

impl EarthTower {
    /// Slow but heavy hits on the strongest monster.
    pub fn positionned(position: Position) -> (t: Tower)
        ensures
            t.kind == TowerKind::Earth,
            t.name@ == "Earth Tower"@,
            t.id == 0 && t.level == 0 && t.cost == 90 && t.last_attack == 0,
            t.position == position,
            t.element == Element::Earth,
            t.range matches Some(r) && r.base == 2800 && r.level == 0,
            t.damage matches Some(d) && d.base == 15000 && d.level == 0,
            t.attack_speed matches Some(a) && a.base == 800 && a.level == 0,
            t.money is None,
            t.target_selection == TargetSelection::Strongest,
            t.aoe is None,
            t.behavior == TowerBehavior::Basic,
            t.special == TowerSpecial::Plain,
            t.wf(),
    {
        Tower::new(
            TowerKind::Earth,
            String::from_str("Earth Tower"),
            String::from_str("E"),
            0,
            90,
            position,
            Element::Earth,
            Some(stat(2800, 0, 2800, 500, TowerUpgradeElementUnit::Unit, 30)),
            Some(stat(15000, 0, 15000, 1250, TowerUpgradeElementUnit::Percent, 30)),
            Some(stat(800, 0, 800, 1250, TowerUpgradeElementUnit::Percent, 30)),
            None,
            TargetSelection::Strongest,
            None,
            TowerBehavior::Basic,
            TowerSpecial::Plain,
        )
    }
}

pub struct AirTower;

impl AirTower {
    /// Fast and far-reaching; aimed at flyers.
    pub fn positionned(position: Position) -> (t: Tower)
        ensures
            t.kind == TowerKind::Air,
            t.name@ == "Air Tower"@,
            t.id == 0 && t.level == 0 && t.cost == 85 && t.last_attack == 0,
            t.position == position,
            t.element == Element::Air,
            t.range matches Some(r) && r.base == 4000 && r.level == 0,
            t.damage matches Some(d) && d.base == 8000 && d.level == 0,
            t.attack_speed matches Some(a) && a.base == 1500 && a.level == 0,
            t.money is None,
            t.target_selection == TargetSelection::Flying,
            t.aoe is None,
            t.behavior == TowerBehavior::Basic,
            t.special == TowerSpecial::Plain,
            t.wf(),
    {
        Tower::new(
            TowerKind::Air,
            String::from_str("Air Tower"),
            String::from_str("A"),
            0,
            85,
            position,
            Element::Air,
            Some(stat(4000, 0, 4000, 1000, TowerUpgradeElementUnit::Unit, 30)),
            Some(stat(8000, 0, 8000, 1000, TowerUpgradeElementUnit::Unit, 30)),
            Some(stat(1500, 0, 1500, 1000, TowerUpgradeElementUnit::Unit, 30)),
            None,
            TargetSelection::Flying,
            None,
            TowerBehavior::Basic,
            TowerSpecial::Plain,
        )
    }
}

pub struct LightningTower;

impl LightningTower {
    /// Strikes the farthest monster; carries a stun hook.
    pub fn positionned(position: Position) -> (t: Tower)
        ensures
            t.kind == TowerKind::Lightning,
            t.name@ == "Lightning Tower"@,
            t.id == 0 && t.level == 0 && t.cost == 110 && t.last_attack == 0,
            t.position == position,
            t.element == Element::Lightning,
            t.range matches Some(r) && r.base == 3200 && r.level == 0,
            t.damage matches Some(d) && d.base == 18000 && d.level == 0,
            t.attack_speed matches Some(a) && a.base == 600 && a.level == 0,
            t.money is None,
            t.target_selection == TargetSelection::Farthest,
            t.aoe is None,
            t.behavior == (TowerBehavior::Lightning { stun_chance: 250u32 }),
            t.special == TowerSpecial::Plain,
            t.wf(),
    {
        Tower::new(
            TowerKind::Lightning,
            String::from_str("Lightning Tower"),
            String::from_str("L"),
            0,
            110,
            position,
            Element::Lightning,
            Some(stat(3200, 0, 3200, 500, TowerUpgradeElementUnit::Unit, 30)),
            Some(stat(18000, 0, 18000, 1250, TowerUpgradeElementUnit::Percent, 30)),
            Some(stat(600, 0, 600, 1200, TowerUpgradeElementUnit::Percent, 30)),
            None,
            TargetSelection::Farthest,
            None,
            TowerBehavior::Lightning { stun_chance: 250 },
            TowerSpecial::Plain,
        )
    }
}

pub struct IceTower;

impl IceTower {
    /// Long range and rapid fire with modest damage growth.
    pub fn positionned(position: Position) -> (t: Tower)
        ensures
            t.kind == TowerKind::Ice,
            t.name@ == "Ice Tower"@,
            t.symbol@ == "❄"@,
            t.id == 0 && t.level == 1 && t.cost == 45 && t.last_attack == 0,
            t.position == position,
            t.element == Element::Ice,
            t.range matches Some(r) && r.base == 5000 && r.level == 1,
            t.damage matches Some(d) && d.base == 25000 && d.level == 1,
            t.attack_speed matches Some(a) && a.base == 5000 && a.level == 1,
            t.money is None,
            t.target_selection == TargetSelection::Nearest,
            t.aoe is None,
            t.behavior == TowerBehavior::Basic,
            t.special == TowerSpecial::Plain,
            t.wf(),
    {
        Tower::new(
            TowerKind::Ice,
            String::from_str("Ice Tower"),
            String::from_str("❄"),
            1,
            45,
            position,
            Element::Ice,
            Some(stat(5000, 1, 3000, 500, TowerUpgradeElementUnit::Unit, 30)),
            Some(stat(25000, 1, 12000, 1250, TowerUpgradeElementUnit::Unit, 30)),
            Some(stat(5000, 1, 1000, 200, TowerUpgradeElementUnit::Unit, 30)),
            None,
            TargetSelection::Nearest,
            None,
            TowerBehavior::Basic,
            TowerSpecial::Plain,
        )
    }
}

pub struct PoisonTower;

impl PoisonTower {
    /// Picks off the weakest monster and burns it over time.
    pub fn positionned(position: Position) -> (t: Tower)
        ensures
            t.kind == TowerKind::Poison,
            t.name@ == "Poison Tower"@,
            t.id == 0 && t.level == 0 && t.cost == 95 && t.last_attack == 0,
            t.position == position,
            t.element == Element::Poison,
            t.range matches Some(r) && r.base == 3000 && r.level == 0,
            t.damage matches Some(d) && d.base == 7000 && d.level == 0,
            t.attack_speed matches Some(a) && a.base == 1200 && a.level == 0,
            t.money is None,
            t.target_selection == TargetSelection::Weakest,
            t.aoe is None,
            t.behavior == (TowerBehavior::Burning { dot_damage: 5000u64 }),
            t.special == TowerSpecial::Plain,
            t.wf(),
    {
        Tower::new(
            TowerKind::Poison,
            String::from_str("Poison Tower"),
            String::from_str("P"),
            0,
            95,
            position,
            Element::Poison,
            Some(stat(3000, 0, 3000, 500, TowerUpgradeElementUnit::Unit, 30)),
            Some(stat(7000, 0, 7000, 1250, TowerUpgradeElementUnit::Percent, 30)),
            Some(stat(1200, 0, 1200, 1200, TowerUpgradeElementUnit::Percent, 30)),
            None,
            TargetSelection::Weakest,
            None,
            TowerBehavior::Burning { dot_damage: 5000 },
            TowerSpecial::Plain,
        )
    }
}

pub struct MineTower;

impl MineTower {
    /// No combat at all: an income stat that can be upgraded. It never
    /// fires, because it carries no attack-speed stat.
    pub fn positionned(position: Position) -> (t: Tower)
        ensures
            t.kind == TowerKind::Basic,
            t.name@ == "Mine"@,
            t.symbol@ == "💰"@,
            t.id == 0 && t.level == 1 && t.cost == 45 && t.last_attack == 0,
            t.position == position,
            t.element == Element::Neutral,
            t.range is None && t.damage is None && t.attack_speed is None,
            t.money matches Some(m) && m.base == 10000 && m.level == 1,
            t.target_selection == TargetSelection::Nearest,
            t.aoe is None,
            t.behavior == TowerBehavior::Basic,
            t.special == TowerSpecial::Mine,
            t.wf(),
    {
        Tower::new(
            TowerKind::Basic,
            String::from_str("Mine"),
            String::from_str("💰"),
            1,
            45,
            position,
            Element::Neutral,
            None,
            None,
            None,
            Some(stat(10000, 1, 1500, 1200, TowerUpgradeElementUnit::Unit, 10)),
            TargetSelection::Nearest,
            None,
            TowerBehavior::Basic,
            TowerSpecial::Mine,
        )
    }
}

pub struct SentinelTower;

impl SentinelTower {
    /// Deals no damage; on each firing it reports the first monster in
    /// range that it has not reported yet.
    pub fn positionned(position: Position) -> (t: Tower)
        ensures
            t.kind == TowerKind::Sentinel,
            t.name@ == "Sentinel Tower"@,
            t.symbol@ == "🔭"@,
            t.id == 0 && t.level == 1 && t.cost == 45 && t.last_attack == 0,
            t.position == position,
            t.element == Element::Neutral,
            t.range == Some((TowerStat { base: 2000u64, level: 1u32, upgrade: None })),
            t.damage is None,
            t.attack_speed == Some((TowerStat { base: 1000u64, level: 1u32, upgrade: None })),
            t.money is None,
            t.target_selection == TargetSelection::Nearest,
            t.aoe is None,
            t.behavior == TowerBehavior::Basic,
            t.special == TowerSpecial::Sentinel,
            t.wf(),
    {
        Tower::new(
            TowerKind::Sentinel,
            String::from_str("Sentinel Tower"),
            String::from_str("🔭"),
            1,
            45,
            position,
            Element::Neutral,
            Some(flat_stat(2000, 1)),
            None,
            Some(flat_stat(1000, 1)),
            None,
            TargetSelection::Nearest,
            None,
            TowerBehavior::Basic,
            TowerSpecial::Sentinel,
        )
    }
}

/// A quick, fragile runner.
pub fn goblin(position: Position) -> (m: Monster)
    requires
        -0x4000_0000 <= position.x <= 0x4000_0000,
        -0x4000_0000 <= position.y <= 0x4000_0000,
    ensures
        m.name@ == "Gobelin"@,
        m.symbol@ == "😈"@,
        m.hp == 50_000 && m.movement_speed == 5000 && m.damage_to_player == 1,
        m.position == position && m.waypoint_idx == 1,
        m.active && m.spawn_delay == 0 && m.distance_moved == 0 && m.armor == 0 && !m.detected,
        m.resistances == (Resistances { fire: 0u32, water: 0u32, earth: 0u32, air: 0u32 }),
        m.wf(),
{
    Monster::new(
        String::from_str("Gobelin"),
        String::from_str("😈"),
        50_000,
        position,
        5000,
        Resistances::default(),
        1,
    )
}

/// A slow, tough bruiser.
pub fn orc(position: Position) -> (m: Monster)
    requires
        -0x4000_0000 <= position.x <= 0x4000_0000,
        -0x4000_0000 <= position.y <= 0x4000_0000,
    ensures
        m.name@ == "Orc"@,
        m.symbol@ == "👹"@,
        m.hp == 100_000 && m.movement_speed == 800 && m.damage_to_player == 2,
        m.position == position && m.waypoint_idx == 1,
        m.active && m.spawn_delay == 0 && m.distance_moved == 0 && m.armor == 0 && !m.detected,
        m.resistances == (Resistances { fire: 0u32, water: 0u32, earth: 0u32, air: 0u32 }),
        m.wf(),
{
    Monster::new(
        String::from_str("Orc"),
        String::from_str("👹"),
        100_000,
        position,
        800,
        Resistances::default(),
        2,
    )
}

} // verus!
