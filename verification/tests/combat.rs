use rust_tower::behavior::{apply_slow, TowerBehavior};
use rust_tower::element::{Element, Resistances};
use rust_tower::monster::Monster;
use rust_tower::position::Position;
use rust_tower::tower::{
    TargetSelection, Tower, TowerAoe, TowerKind, TowerSpecial, TowerStat, TowerStatUpgrade,
    TowerStatType, TowerUpgradeElementUnit,
};
use rust_tower::wave::Wave;

fn monster_at(x: i32, y: i32, hp: u64) -> Monster {
    Monster::new(
        String::from("Test"),
        String::from("t"),
        hp,
        Position::new(x, y),
        1000,
        Resistances::new(0, 0, 0, 0),
        1,
    )
}

fn plain_tower(
    range: u64,
    damage: u64,
    attack_speed: u64,
    selection: TargetSelection,
) -> Tower {
    Tower::new(
        TowerKind::Basic,
        String::from("T"),
        String::from("T"),
        0,
        50,
        Position::new(0, 0),
        Element::Neutral,
        Some(TowerStat::new(range, 0, None)),
        Some(TowerStat::new(damage, 0, None)),
        Some(TowerStat::new(attack_speed, 0, None)),
        None,
        selection,
        None,
        TowerBehavior::Basic,
        TowerSpecial::Plain,
    )
}

#[test]
fn nearest_tower_halves_monster() {
    // A Nearest tower with range 2.0 at (0,0), one active monster at (1,0)
    // with 10 hp, 5 damage per hit: one shot leaves exactly 5 hp.
    let mut tower = plain_tower(2000, 5000, 1000, TargetSelection::Nearest);
    let mut wave = Wave { monsters: vec![monster_at(1, 0, 10_000)] };
    assert!(tower.can_shoot(1000));
    let logs = tower.shoot(&mut wave, 1000);
    assert!(logs.is_empty());
    assert_eq!(wave.monsters[0].hp, 5000);
}

#[test]
fn cooldown_blocks_and_releases() {
    // Right after a shot the tower cannot fire at the same timestamp, and
    // becomes able again exactly once 1/attacks_per_second has passed.
    let mut tower = plain_tower(2000, 5000, 2000, TargetSelection::Nearest);
    let mut wave = Wave { monsters: vec![monster_at(1, 0, 10_000)] };
    tower.shoot(&mut wave, 1000);
    assert!(!tower.can_shoot(1000));
    assert!(!tower.can_shoot(1499));
    assert!(tower.can_shoot(1500));
}

#[test]
fn out_of_range_monster_is_spared() {
    let mut tower = plain_tower(2000, 5000, 1000, TargetSelection::Nearest);
    let mut wave = Wave { monsters: vec![monster_at(5, 5, 10_000)] };
    tower.shoot(&mut wave, 1000);
    assert_eq!(wave.monsters[0].hp, 10_000);
}

#[test]
fn inactive_monster_is_untouched_by_combat() {
    let mut tower = plain_tower(2000, 5000, 1000, TargetSelection::Nearest);
    let pending = monster_at(1, 0, 10_000).with_spawn_delay(2000);
    assert!(!pending.active);
    let mut wave = Wave { monsters: vec![pending] };
    tower.shoot(&mut wave, 1000);
    assert_eq!(wave.monsters[0].hp, 10_000);
    assert_eq!(wave.monsters[0].movement_speed, 1000);
}

#[test]
fn all_strategy_hits_every_monster_in_range() {
    let mut tower = plain_tower(2000, 1000, 1000, TargetSelection::All);
    let mut wave = Wave {
        monsters: vec![monster_at(1, 0, 5000), monster_at(0, 1, 5000), monster_at(9, 9, 5000)],
    };
    tower.shoot(&mut wave, 1000);
    assert_eq!(wave.monsters[0].hp, 4000);
    assert_eq!(wave.monsters[1].hp, 4000);
    assert_eq!(wave.monsters[2].hp, 5000);
}

#[test]
fn strongest_strategy_picks_highest_hp() {
    let mut tower = plain_tower(2000, 1000, 1000, TargetSelection::Strongest);
    let mut wave = Wave {
        monsters: vec![monster_at(1, 0, 5000), monster_at(0, 1, 9000), monster_at(1, 1, 7000)],
    };
    tower.shoot(&mut wave, 1000);
    assert_eq!(wave.monsters[0].hp, 5000);
    assert_eq!(wave.monsters[1].hp, 8000);
    assert_eq!(wave.monsters[2].hp, 7000);
}

#[test]
fn weakest_strategy_picks_lowest_hp() {
    let mut tower = plain_tower(2000, 1000, 1000, TargetSelection::Weakest);
    let mut wave = Wave {
        monsters: vec![monster_at(1, 0, 5000), monster_at(0, 1, 3000), monster_at(1, 1, 7000)],
    };
    tower.shoot(&mut wave, 1000);
    assert_eq!(wave.monsters[1].hp, 2000);
    assert_eq!(wave.monsters[0].hp, 5000);
}

#[test]
fn farthest_strategy_picks_most_distant() {
    let mut tower = plain_tower(2000, 1000, 1000, TargetSelection::Farthest);
    let mut wave = Wave {
        monsters: vec![monster_at(1, 0, 5000), monster_at(8, 8, 5000), monster_at(2, 2, 5000)],
    };
    tower.shoot(&mut wave, 1000);
    assert_eq!(wave.monsters[1].hp, 4000);
    assert_eq!(wave.monsters[0].hp, 5000);
    assert_eq!(wave.monsters[2].hp, 5000);
}

#[test]
fn splash_damage_follows_the_target() {
    // Radius-2 splash at half damage around the primary target at (1,0):
    // the neighbour at (2,1) takes 50%, the distant one nothing.
    let mut tower = Tower::new(
        TowerKind::Fire,
        String::from("F"),
        String::from("F"),
        0,
        45,
        Position::new(0, 0),
        Element::Neutral,
        Some(TowerStat::new(2000, 0, None)),
        Some(TowerStat::new(4000, 0, None)),
        Some(TowerStat::new(1000, 0, None)),
        None,
        TargetSelection::Nearest,
        Some(TowerAoe::Radius(2, 500)),
        TowerBehavior::Basic,
        TowerSpecial::Plain,
    );
    let mut wave = Wave {
        monsters: vec![monster_at(1, 0, 10_000), monster_at(2, 1, 10_000), monster_at(9, 9, 10_000)],
    };
    tower.shoot(&mut wave, 1000);
    assert_eq!(wave.monsters[0].hp, 6000);
    assert_eq!(wave.monsters[1].hp, 8000);
    assert_eq!(wave.monsters[2].hp, 10_000);
}

#[test]
fn resistance_scales_damage_down() {
    let mut tower = plain_tower(2000, 4000, 1000, TargetSelection::Nearest);
    tower.element = Element::Fire;
    let mut resistant = monster_at(1, 0, 10_000);
    resistant.resistances = Resistances::new(500, 0, 0, 0);
    let mut wave = Wave { monsters: vec![resistant] };
    tower.shoot(&mut wave, 1000);
    // 4 damage, halved by 50% fire resistance.
    assert_eq!(wave.monsters[0].hp, 8000);
}

#[test]
fn frost_behavior_slows_permanently_and_stacks() {
    let mut m = monster_at(1, 0, 10_000);
    let frost = TowerBehavior::Frost { slow_factor: 500 };
    let d1 = frost.apply(&mut m, 1000);
    assert_eq!(d1, 1000);
    assert_eq!(m.movement_speed, 500);
    frost.apply(&mut m, 1000);
    assert_eq!(m.movement_speed, 250);
}

#[test]
fn burning_behavior_adds_direct_damage() {
    let mut m = monster_at(1, 0, 10_000);
    let burning = TowerBehavior::Burning { dot_damage: 3000 };
    let d = burning.apply(&mut m, 1000);
    assert_eq!(d, 1000);
    assert_eq!(m.hp, 7000);
}

#[test]
fn crusher_behavior_shreds_armor_and_inflates_damage() {
    let mut m = monster_at(1, 0, 10_000);
    m.armor = 500;
    let crusher = TowerBehavior::Crusher { armor_reduction: 1000 };
    let d = crusher.apply(&mut m, 1000);
    assert_eq!(m.armor, 0);
    // The armor dropped by 0.5, so the damage is inflated by 1/(1 - 0.5).
    assert_eq!(d, 2000);
}

#[test]
fn lightning_behavior_is_damage_only() {
    let mut m = monster_at(1, 0, 10_000);
    let before = m.clone();
    let lightning = TowerBehavior::Lightning { stun_chance: 250 };
    let d = lightning.apply(&mut m, 1500);
    assert_eq!(d, 1500);
    assert_eq!(m.hp, before.hp);
    assert_eq!(m.movement_speed, before.movement_speed);
}

#[test]
fn apply_slow_halves_speed() {
    let mut m = monster_at(1, 0, 10_000);
    let d = apply_slow(&mut m, 700, 500);
    assert_eq!(d, 700);
    assert_eq!(m.movement_speed, 500);
}

#[test]
fn no_hit_heals() {
    let behaviors = vec![
        TowerBehavior::Basic,
        TowerBehavior::Frost { slow_factor: 300 },
        TowerBehavior::Burning { dot_damage: 2000 },
        TowerBehavior::Lightning { stun_chance: 900 },
        TowerBehavior::Crusher { armor_reduction: 400 },
    ];
    for b in behaviors {
        let mut m = monster_at(1, 0, 10_000);
        m.armor = 300;
        let hp_before = m.hp;
        b.apply(&mut m, 500);
        assert!(m.hp <= hp_before);
    }
}

#[test]
fn effectiveness_table_values() {
    assert_eq!(Element::Fire.effectiveness_against(&Element::Earth), 1500);
    assert_eq!(Element::Water.effectiveness_against(&Element::Fire), 1500);
    assert_eq!(Element::Lightning.effectiveness_against(&Element::Water), 2000);
    assert_eq!(Element::Lightning.effectiveness_against(&Element::Air), 750);
    assert_eq!(Element::Ice.effectiveness_against(&Element::Fire), 500);
    assert_eq!(Element::Neutral.effectiveness_against(&Element::Neutral), 1000);
    assert_eq!(Element::Fire.effectiveness_against(&Element::Fire), 500);
    assert_eq!(Element::Earth.effectiveness_against(&Element::Water), 1000);
}

#[test]
fn upgrade_stops_exactly_at_the_cap() {
    // Calling the same upgrade cap+1 times leaves the stat at its cap and
    // only the final call reports the maximum-level failure.
    let cap = 10;
    let mut tower = plain_tower(2000, 5000, 1000, TargetSelection::Nearest);
    tower.damage = Some(TowerStat::new(
        1000,
        0,
        Some(TowerStatUpgrade {
            price_multiplier: 1000,
            value_multiplier: 100,
            value_multiplier_unit: TowerUpgradeElementUnit::Unit,
            max_level: cap,
        }),
    ));
    for i in 0..cap {
        let r = tower.upgrade(TowerStatType::Damage);
        assert!(r.is_ok(), "upgrade {} should succeed", i);
    }
    let stat = tower.damage.unwrap();
    assert_eq!(stat.level, cap);
    assert_eq!(stat.base, 2000);
    let last = tower.upgrade(TowerStatType::Damage);
    assert!(last.is_err());
    let stat = tower.damage.unwrap();
    assert_eq!(stat.level, cap);
    assert_eq!(stat.base, 2000);
}

#[test]
fn percent_upgrade_multiplies() {
    let mut tower = plain_tower(2000, 5000, 1000, TargetSelection::Nearest);
    tower.attack_speed = Some(TowerStat::new(
        1000,
        0,
        Some(TowerStatUpgrade {
            price_multiplier: 1000,
            value_multiplier: 1200,
            value_multiplier_unit: TowerUpgradeElementUnit::Percent,
            max_level: 30,
        }),
    ));
    tower.upgrade(TowerStatType::AttackSpeed).unwrap();
    assert_eq!(tower.attack_speed.unwrap().base, 1200);
}

#[test]
fn next_price_grows_exponentially() {
    // round(base * 1.3^level) * price multiplier, rounded to whole coins.
    let stat = TowerStat::new(
        10_000,
        1,
        Some(TowerStatUpgrade {
            price_multiplier: 1800,
            value_multiplier: 18_000,
            value_multiplier_unit: TowerUpgradeElementUnit::Unit,
            max_level: 10,
        }),
    );
    // 10 * 1.3 = 13 whole units; 13 * 1.8 = 23.4, rounded to 23.
    assert_eq!(stat.get_next_price(), Some(23));
    let level0 = TowerStat::new(10_000, 0, stat.upgrade);
    assert_eq!(level0.get_next_price(), Some(18));
}
