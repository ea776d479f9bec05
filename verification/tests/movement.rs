use rust_tower::element::Resistances;
use rust_tower::map::{GameMap, Terrain};
use rust_tower::monster::Monster;
use rust_tower::position::Position;
use rust_tower::wave::Wave;

fn straight_map(terrain: Terrain) -> GameMap {
    GameMap::new(
        String::from("Test Strip"),
        String::from("A straight test path"),
        vec![Position::new(0, 0), Position::new(10, 0)],
        10,
        3,
        Vec::new(),
        terrain,
    )
}

fn walker(speed: u64) -> Monster {
    Monster::new(
        String::from("Walker"),
        String::from("w"),
        10_000,
        Position::new(0, 0),
        speed,
        Resistances::new(0, 0, 0, 0),
        1,
    )
}

#[test]
fn sub_cell_accumulation_is_exact() {
    // Speed 1.0 cells/s on terrain at 0.8 for 1.25 s accumulates exactly
    // 1.0 cells: one whole step taken, no remainder.
    let map = straight_map(Terrain::Forest);
    let mut m = walker(1000);
    m.advance(&map, 1250);
    assert_eq!(m.position.x, 1);
    assert_eq!(m.position.y, 0);
    assert_eq!(m.distance_moved, 0);
}

#[test]
fn fractions_carry_over_between_ticks() {
    // 0.8 cells per tick on plains: the first tick moves no cell and banks
    // 0.8; the second reaches 1.6, moves one cell and keeps 0.6.
    let map = straight_map(Terrain::Plains);
    let mut m = walker(800);
    m.advance(&map, 1000);
    assert_eq!(m.position.x, 0);
    assert_eq!(m.distance_moved, 800);
    m.advance(&map, 1000);
    assert_eq!(m.position.x, 1);
    assert_eq!(m.distance_moved, 600);
}

#[test]
fn movement_ignores_inactive_monsters() {
    let map = straight_map(Terrain::Plains);
    let mut m = walker(1000).with_spawn_delay(5000);
    assert!(!m.active);
    m.advance(&map, 1000);
    assert_eq!(m.position.x, 0);
    assert_eq!(m.distance_moved, 0);
    assert_eq!(m.spawn_delay, 5000);
}

#[test]
fn overshoot_snaps_to_the_waypoint() {
    // 20 cells of travel in one tick on a 10-cell path: the monster snaps
    // onto the waypoint and turns to the next one.
    let map = straight_map(Terrain::Plains);
    let mut m = walker(20_000);
    m.advance(&map, 1000);
    assert_eq!(m.position.x, 10);
    assert_eq!(m.waypoint_idx, 2);
}

#[test]
fn standing_on_the_waypoint_advances_the_index() {
    let map = straight_map(Terrain::Plains);
    let mut m = walker(1000);
    m.position = Position::new(10, 0);
    m.advance(&map, 10);
    assert_eq!(m.waypoint_idx, 2);
    assert!(m.reached_goal(&map));
}

#[test]
fn spawn_delay_counts_down_to_activation() {
    let mut m = walker(1000).with_spawn_delay(2500);
    assert!(!m.update_spawn_status(1000));
    assert_eq!(m.spawn_delay, 1500);
    assert!(!m.update_spawn_status(1000));
    assert!(m.update_spawn_status(1000));
    assert!(m.active);
    assert_eq!(m.spawn_delay, 0);
    assert!(!m.update_spawn_status(1000));
}

#[test]
fn staggered_wave_activates_one_per_interval() {
    // Three monsters at a 1.0 s interval: only the first is active at t=0,
    // the second enters at t=1.0, the third at t=2.0.
    let monsters = vec![walker(1000), walker(1000), walker(1000)];
    let mut wave = Wave::with_staggered_spawn(monsters, 1000);
    assert!(wave.monsters[0].active);
    assert!(!wave.monsters[1].active);
    assert!(!wave.monsters[2].active);
    let spawned = wave.update_spawns(1000);
    assert_eq!(spawned, vec![1]);
    assert!(wave.monsters[1].active);
    assert!(!wave.monsters[2].active);
    let spawned = wave.update_spawns(1000);
    assert_eq!(spawned, vec![2]);
    assert!(wave.monsters[2].active);
}

#[test]
fn simultaneous_wave_activates_everyone() {
    let monsters = vec![walker(1000).with_spawn_delay(9000), walker(1000)];
    let wave = Wave::new(Some(monsters));
    assert!(wave.monsters[0].active);
    assert_eq!(wave.monsters[0].spawn_delay, 0);
    assert!(wave.monsters[1].active);
}

#[test]
fn block_distance_collapses_adjacency() {
    let origin = Position::new(0, 0);
    assert_eq!(origin.distance_to(&Position::new(0, 0)), 0);
    assert_eq!(origin.distance_to(&Position::new(1, 1)), 1);
    assert_eq!(origin.distance_to(&Position::new(-1, 0)), 1);
    assert_eq!(origin.distance_to(&Position::new(3, 4)), 7);
}

#[test]
fn squared_distance_is_exact() {
    let origin = Position::new(0, 0);
    assert_eq!(origin.distance_sq_to(&Position::new(3, 4)), 25);
    assert_eq!(Position::new(-2, -2).distance_sq_to(&Position::new(1, 2)), 25);
}

#[test]
fn path_membership_covers_segments_and_corners() {
    let map = GameMap::new(
        String::from("Bend"),
        String::from("An L-shaped path"),
        vec![Position::new(0, 0), Position::new(4, 0), Position::new(4, 4)],
        5,
        5,
        Vec::new(),
        Terrain::Plains,
    );
    assert!(map.is_position_on_path(&Position::new(0, 0)));
    assert!(map.is_position_on_path(&Position::new(2, 0)));
    assert!(map.is_position_on_path(&Position::new(4, 2)));
    assert!(map.is_position_on_path(&Position::new(4, 4)));
    assert!(!map.is_position_on_path(&Position::new(1, 1)));
    assert!(!map.is_position_on_path(&Position::new(5, 0)));
}

#[test]
fn diagonal_segments_are_walkable_ground() {
    let map = GameMap::new(
        String::from("Slope"),
        String::from("A diagonal path"),
        vec![Position::new(0, 0), Position::new(4, 4)],
        5,
        5,
        Vec::new(),
        Terrain::Plains,
    );
    assert!(map.is_position_on_path(&Position::new(2, 2)));
    assert!(!map.is_position_on_path(&Position::new(2, 3)));
}

#[test]
fn speed_floor_prevents_stalling() {
    let mut m = walker(1000);
    m.set_movement_speed(20);
    assert_eq!(m.movement_speed, 100);
    m.set_movement_speed(4000);
    assert_eq!(m.movement_speed, 4000);
}
