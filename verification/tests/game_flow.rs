use rust_tower::catalog::{goblin, orc, MineTower, SentinelTower};
use rust_tower::element::Resistances;
use rust_tower::game::Game;
use rust_tower::maps::{ForestMap, MapType};
use rust_tower::monster::Monster;
use rust_tower::position::Position;
use rust_tower::tower::{TowerSpecial, TowerStat};
use rust_tower::wave::Wave;

fn fresh_game() -> Game {
    let mut game = Game::new(Vec::new(), 10, 1000);
    game.current_map = Some(ForestMap::new());
    game
}

fn dead_monster() -> Monster {
    let mut m = goblin(Position::new(0, 7));
    m.hp = 0;
    m
}

#[test]
fn new_game_defaults() {
    let game = Game::new(Vec::new(), 10, 1000);
    assert!(game.current_map.is_none());
    assert!(game.current_wave.is_none());
    assert_eq!(game.wave_index, 0);
    assert_eq!(game.player_life, 10);
    assert_eq!(game.money, 100_000_000);
    assert_eq!(game.spawn_interval, 1000);
    assert_eq!(game.log_limit, 100);
    assert!(game.logs.is_empty());
}

#[test]
fn first_update_starts_a_wave() {
    let mut game = fresh_game();
    game.update(100);
    assert_eq!(game.wave_index, 1);
    assert!(game.current_wave.is_some());
    let wave = game.current_wave.as_ref().unwrap();
    assert!(!wave.monsters.is_empty());
    assert!(wave.monsters.len() <= 11);
}

#[test]
fn queued_wave_is_taken_before_generating() {
    let mut game = fresh_game();
    let queued = Wave::new(Some(vec![orc(Position::new(0, 7))]));
    game.waves.as_mut().unwrap().push_back(queued);
    game.update(100);
    let wave = game.current_wave.as_ref().unwrap();
    assert_eq!(wave.monsters.len(), 1);
    assert_eq!(wave.monsters[0].name, "Orc");
    assert!(game.waves.as_ref().unwrap().is_empty());
}

#[test]
fn generated_monsters_scale_with_wave_index() {
    let mut game = fresh_game();
    game.wave_index = 9;
    game.update(100);
    // Wave 10: each copy carries hp scaled by 1 + 10 * 1.0 = 11.
    let wave = game.current_wave.as_ref().unwrap();
    for m in &wave.monsters {
        assert!(m.hp == 50_000 * 11 || m.hp == 100_000 * 11);
        assert_eq!(m.waypoint_idx, 1);
    }
}

#[test]
fn cleared_wave_pays_bounty_and_bonus() {
    // A wave holding one dead monster and none pending: the next update
    // pays the kill bounty (10 + wave index) and the clear bonus
    // (20 * wave index); with the player's life gone no next wave starts
    // and the current wave becomes None.
    let mut game = fresh_game();
    game.wave_index = 3;
    game.player_life = 0;
    game.current_wave = Some(Wave { monsters: vec![dead_monster()] });
    let money_before = game.money;
    game.update(100);
    assert_eq!(game.money, money_before + 13 + 60);
    assert!(game.current_wave.is_none());
    assert_eq!(game.wave_index, 3);
    assert!(game
        .notifications
        .iter()
        .any(|n| n.contains("Game Over")));
}

#[test]
fn cleared_wave_hands_over_to_the_next() {
    let mut game = fresh_game();
    game.wave_index = 1;
    game.current_wave = Some(Wave { monsters: vec![dead_monster()] });
    game.update(100);
    assert!(game.current_wave.is_some());
    assert_eq!(game.wave_index, 2);
}

#[test]
fn arrival_costs_player_life() {
    let mut game = fresh_game();
    game.wave_index = 1;
    let mut arriving = orc(Position::new(20, 7));
    arriving.waypoint_idx = 8;
    game.current_wave = Some(Wave { monsters: vec![arriving] });
    game.update(100);
    assert_eq!(game.player_life, 8);
}

#[test]
fn surviving_monsters_stay_in_the_wave() {
    let mut game = fresh_game();
    game.wave_index = 1;
    let strolling = orc(Position::new(0, 7));
    game.current_wave = Some(Wave { monsters: vec![strolling] });
    let money_before = game.money;
    game.update(100);
    let wave = game.current_wave.as_ref().unwrap();
    assert_eq!(wave.monsters.len(), 1);
    assert_eq!(game.money, money_before);
    assert_eq!(game.player_life, 10);
}

#[test]
fn elapsed_time_accumulates() {
    let mut game = fresh_game();
    game.current_wave = Some(Wave { monsters: vec![orc(Position::new(0, 7))] });
    game.update(100);
    game.update(250);
    assert_eq!(game.elapsed_time, 350);
}

#[test]
fn mine_towers_earn_passive_income() {
    let mut game = fresh_game();
    let mut mine = MineTower::positionned(Position::new(3, 3));
    // The catalog mine never fires on its own; give it a firing rate so the
    // income path runs.
    mine.attack_speed = Some(TowerStat::new(1000, 0, None));
    assert!(matches!(mine.special, TowerSpecial::Mine));
    game.towers.push(mine);
    game.elapsed_time = 5000;
    game.current_wave = Some(Wave { monsters: vec![orc(Position::new(0, 7))] });
    let money_before = game.money;
    game.update(100);
    assert_eq!(game.money, money_before + 10);
}

#[test]
fn sentinel_reports_each_monster_once() {
    let mut game = fresh_game();
    game.towers.push(SentinelTower::positionned(Position::new(1, 7)));
    game.elapsed_time = 5000;
    game.current_wave = Some(Wave { monsters: vec![orc(Position::new(0, 7))] });
    game.update(100);
    assert!(game.current_wave.as_ref().unwrap().monsters[0].detected);
    assert_eq!(game.notifications.len(), 1);
    // A later tick finds nothing new to report.
    game.elapsed_time = 10_000;
    game.update(100);
    assert_eq!(game.notifications.len(), 1);
}

#[test]
fn log_is_capped_at_its_limit() {
    let mut game = Game::new(Vec::new(), 10, 1000);
    for i in 0..150 {
        game.add_log(format!("event {}", i));
    }
    assert_eq!(game.logs.len(), 100);
    assert_eq!(game.logs[0].message, "event 50");
    assert_eq!(game.logs[99].message, "event 149");
}

#[test]
fn log_entries_carry_simulation_time() {
    let mut game = Game::new(Vec::new(), 10, 1000);
    game.elapsed_time = 4200;
    game.add_log(String::from("marker"));
    assert_eq!(game.logs[0].timestamp, 4200);
}

#[test]
fn map_catalog_is_consistent() {
    let all = MapType::all_maps();
    assert_eq!(all.len(), 3);
    for map_type in all {
        let map = map_type.create_map();
        assert_eq!(map.name, map_type.get_name());
        assert!(map.waypoints.len() >= 2);
        assert_eq!(map.monsters.len(), 2);
    }
    assert_eq!(MapType::Forest.get_name(), "Forêt Enchantée");
    assert!(MapType::Cave.get_description().contains("Difficile"));
}

#[test]
fn catalog_monsters_have_their_stats() {
    let g = goblin(Position::new(0, 0));
    assert_eq!(g.name, "Gobelin");
    assert_eq!(g.hp, 50_000);
    assert_eq!(g.movement_speed, 5000);
    assert_eq!(g.damage_to_player, 1);
    assert_eq!(g.resistances, Resistances::new(0, 0, 0, 0));
    let o = orc(Position::new(0, 0));
    assert_eq!(o.hp, 100_000);
    assert_eq!(o.movement_speed, 800);
    assert_eq!(o.damage_to_player, 2);
}
