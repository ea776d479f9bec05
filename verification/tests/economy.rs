use rust_tower::catalog::{BasicTower, FireTower, WaterTower};
use rust_tower::game::Game;
use rust_tower::maps::ForestMap;
use rust_tower::position::Position;
use rust_tower::tower::{TowerStatType, TowerType};

fn fresh_game() -> Game {
    let mut game = Game::new(Vec::new(), 10, 1000);
    game.current_map = Some(ForestMap::new());
    game
}

#[test]
fn spending_within_the_balance_debits_exactly() {
    let mut game = Game::new(Vec::new(), 10, 1000);
    game.money = 100;
    assert!(game.spend_money(40));
    assert_eq!(game.money, 60);
    assert!(game.spend_money(60));
    assert_eq!(game.money, 0);
}

#[test]
fn overspending_is_refused_and_changes_nothing() {
    let mut game = Game::new(Vec::new(), 10, 1000);
    game.money = 30;
    assert!(!game.spend_money(31));
    assert_eq!(game.money, 30);
    assert!(!game.spend_money(u64::MAX));
    assert_eq!(game.money, 30);
}

#[test]
fn money_queries_match_the_balance() {
    let mut game = Game::new(Vec::new(), 10, 1000);
    game.money = 55;
    assert!(game.has_enough_money(55));
    assert!(!game.has_enough_money(56));
}

#[test]
fn earning_money_logs_the_exact_amount() {
    let mut game = Game::new(Vec::new(), 10, 1000);
    game.money = 100;
    game.add_money(7);
    assert_eq!(game.money, 107);
    let last = game.logs.last().unwrap();
    assert_eq!(last.message, "💰 Gain de 7 pièces! Total: 107");
}

#[test]
fn spending_money_logs_the_exact_amount() {
    let mut game = Game::new(Vec::new(), 10, 1000);
    game.money = 100;
    game.spend_money(30);
    assert_eq!(
        game.logs.last().unwrap().message,
        "💸 Dépense de 30 pièces. Reste: 70"
    );
    game.money = 5;
    game.spend_money(30);
    assert_eq!(
        game.logs.last().unwrap().message,
        "❌ Pas assez de pièces! (5)"
    );
}

#[test]
fn placing_a_tower_validates_funds_before_the_spot() {
    let mut game = fresh_game();
    game.money = 10;
    let tower = BasicTower::positionned(Position::new(0, 0));
    let refused = game.add_tower(tower, Position::new(2, 2));
    assert!(refused.is_err());
    assert_eq!(game.money, 10);
    assert!(game.towers.is_empty());
}

#[test]
fn placing_a_tower_on_the_path_is_refused_before_any_debit() {
    let mut game = fresh_game();
    let tower = BasicTower::positionned(Position::new(0, 0));
    let money_before = game.money;
    // (0, 7) is the forest path's entry waypoint.
    let refused = game.add_tower(tower, Position::new(0, 7));
    assert!(refused.is_err());
    assert_eq!(game.money, money_before);
    assert!(game.towers.is_empty());
}

#[test]
fn placing_a_tower_debits_its_cost() {
    let mut game = fresh_game();
    let money_before = game.money;
    let tower = FireTower::positionned(Position::new(0, 0));
    game.add_tower(tower, Position::new(2, 2)).unwrap();
    assert_eq!(game.money, money_before - 45);
    assert_eq!(game.towers.len(), 1);
    assert_eq!(game.towers[0].position, Position::new(2, 2));
    assert_eq!(game.towers[0].id, 1);
}

#[test]
fn an_occupied_spot_is_refused() {
    let mut game = fresh_game();
    game.add_tower(BasicTower::positionned(Position::new(0, 0)), Position::new(2, 2)).unwrap();
    let again = game.add_tower(WaterTower::positionned(Position::new(0, 0)), Position::new(2, 2));
    assert!(again.is_err());
    assert_eq!(game.towers.len(), 1);
}

#[test]
fn removing_a_tower_targets_its_position() {
    let mut game = fresh_game();
    game.add_basic_tower(Position::new(2, 2));
    game.add_water_tower(Position::new(3, 3));
    assert_eq!(game.towers.len(), 2);
    game.remove_tower(Position::new(2, 2));
    assert_eq!(game.towers.len(), 1);
    assert_eq!(game.towers[0].position, Position::new(3, 3));
    game.remove_tower(Position::new(9, 9));
    assert_eq!(game.towers.len(), 1);
}

#[test]
fn every_adder_places_its_kind() {
    let mut game = fresh_game();
    game.add_basic_tower(Position::new(1, 1));
    game.add_fire_tower(Position::new(2, 2));
    game.add_water_tower(Position::new(3, 3));
    game.add_earth_tower(Position::new(4, 4));
    game.add_air_tower(Position::new(5, 5));
    game.add_sentinel_tower(Position::new(6, 6));
    assert_eq!(game.towers.len(), 6);
    let names: Vec<&str> = game.towers.iter().map(|t| t.name.as_str()).collect();
    assert_eq!(
        names,
        vec![
            "Basic Tower",
            "Fire Tower",
            "Water Tower",
            "Earth Tower",
            "Air Tower",
            "Sentinel Tower"
        ]
    );
    // Each placed tower carries a distinct id.
    assert_eq!(game.towers[0].id, 1);
    assert_eq!(game.towers[5].id, 6);
}

#[test]
fn upgrade_commands_debit_and_apply() {
    let mut game = fresh_game();
    game.add_fire_tower(Position::new(2, 2));
    let money_before = game.money;
    // Fire damage: round(10 * 1.3) * 1.8 = 23 coins for level 2.
    let r = game.upgrade_tower_damage(0);
    assert!(r.is_ok());
    assert_eq!(game.money, money_before - 23);
    let stat = game.towers[0].damage.unwrap();
    assert_eq!(stat.level, 2);
    assert_eq!(stat.base, 28_000);
}

#[test]
fn upgrade_command_rejects_a_bad_index() {
    let mut game = fresh_game();
    let r = game.upgrade_tower_range(0);
    assert!(r.is_err());
    let mut game = fresh_game();
    game.add_fire_tower(Position::new(2, 2));
    assert!(game.upgrade_tower_attack_speed(3).is_err());
}

#[test]
fn upgrade_command_rejects_an_empty_purse() {
    let mut game = fresh_game();
    game.add_fire_tower(Position::new(2, 2));
    game.money = 0;
    let r = game.upgrade_tower_damage(0);
    assert!(r.is_err());
    assert_eq!(game.towers[0].damage.unwrap().level, 1);
}

#[test]
fn upgrade_command_rejects_a_capped_stat() {
    let mut game = fresh_game();
    game.add_sentinel_tower(Position::new(2, 2));
    // The sentinel's range has no upgrade ladder at all.
    let r = game.upgrade_tower_range(0);
    assert!(r.is_err());
    let mut game = fresh_game();
    game.add_fire_tower(Position::new(2, 2));
    if let Some(stat) = &mut game.towers[0].damage {
        stat.level = 10;
    }
    let r = game.upgrade_tower_damage(0);
    assert!(r.is_err());
    assert_eq!(game.towers[0].damage.unwrap().level, 10);
}

#[test]
fn upgrading_past_the_cap_costs_nothing_extra() {
    let mut game = fresh_game();
    game.add_fire_tower(Position::new(2, 2));
    // The fire tower's attack-speed ladder caps at level 10; nine paid
    // upgrades reach it from level 1.
    for _ in 0..9 {
        assert!(game.upgrade_tower_attack_speed(0).is_ok());
    }
    assert_eq!(game.towers[0].attack_speed.unwrap().level, 10);
    let money_at_cap = game.money;
    assert!(game.upgrade_tower_attack_speed(0).is_err());
    assert_eq!(game.money, money_at_cap);
    assert_eq!(game.towers[0].attack_speed.unwrap().level, 10);
}

#[test]
fn tower_catalog_prices() {
    assert_eq!(TowerType::Basic.cost(), 50);
    assert_eq!(TowerType::Lightning.cost(), 110);
    assert_eq!(TowerType::Sentinel.cost(), 100);
    assert_eq!(
        TowerType::Poison.to_tower_kind(),
        rust_tower::tower::TowerKind::Poison
    );
}

#[test]
fn upgrade_cost_query_matches_the_command() {
    let mut game = fresh_game();
    game.add_fire_tower(Position::new(2, 2));
    let quoted = game.towers[0].upgrade_cost_for_attribute(TowerStatType::Damage).unwrap();
    let money_before = game.money;
    game.upgrade_tower_damage(0).unwrap();
    assert_eq!(game.money, money_before - quoted);
}
