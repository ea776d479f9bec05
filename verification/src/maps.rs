//! The playable maps and their catalog.

use vstd::prelude::*;

use crate::catalog::{goblin, orc};
use crate::map::{GameMap, Terrain};
use crate::monster::Monster;
use crate::position::Position;

verus! {

/// Builds the waypoint vector for a map out of a fixed coordinate list.
fn waypoint_vec(coords: &Vec<(i32, i32)>) -> (wps: Vec<Position>)
    requires
        forall|i: int|
            0 <= i < coords@.len() ==> (-16_777_216 <= (#[trigger] coords@[i]).0 <= 16_777_216
                && -16_777_216 <= coords@[i].1 <= 16_777_216),
    ensures
        wps@.len() == coords@.len(),
        forall|i: int|
            0 <= i < coords@.len() ==> #[trigger] wps@[i] == (Position {
                x: coords@[i].0,
                y: coords@[i].1,
            }),
        forall|i: int|
            0 <= i < wps@.len() ==> (-16_777_216 <= (#[trigger] wps@[i]).x <= 16_777_216
                && -16_777_216 <= wps@[i].y <= 16_777_216),
{
    let mut wps: Vec<Position> = Vec::new();
    let n = coords.len();
    let mut i: usize = 0;
    while i < n
        invariant
            n == coords@.len(),
            0 <= i <= n,
            wps@.len() == i,
            forall|j: int|
                0 <= j < coords@.len() ==> (-16_777_216 <= (#[trigger] coords@[j]).0 <= 16_777_216
                    && -16_777_216 <= coords@[j].1 <= 16_777_216),
            forall|j: int|
                0 <= j < i ==> #[trigger] wps@[j] == (Position {
                    x: coords@[j].0,
                    y: coords@[j].1,
                }),
        decreases n - i,
    {
        let (x, y) = coords[i];
        wps.push(Position::new(x, y));
        i = i + 1;
    }
    wps
}

pub struct ForestMap;

impl ForestMap {
    /// A forest with winding paths; its terrain slows monsters to 80%.
    pub fn new() -> (map: GameMap)
        ensures
            map.wf(),
            map.name@ == "Forêt Enchantée"@,
            map.description@ == "Une forêt dense et mystérieuse"@,
            map.terrain_type == Terrain::Forest,
            map.width == 20 && map.height == 20,
            map.waypoints@ =~= seq![
                (Position { x: 0i32, y: 7i32 }),
                (Position { x: 5i32, y: 7i32 }),
                (Position { x: 5i32, y: 3i32 }),
                (Position { x: 10i32, y: 3i32 }),
                (Position { x: 10i32, y: 12i32 }),
                (Position { x: 15i32, y: 12i32 }),
                (Position { x: 15i32, y: 7i32 }),
                (Position { x: 20i32, y: 7i32 }),
            ],
            map.monsters@.len() == 2,
    {
        let start_position = Position::new(0, 7);
        let mut coords: Vec<(i32, i32)> = Vec::new();
        coords.push((0, 7));
        coords.push((5, 7));
        coords.push((5, 3));
        coords.push((10, 3));
        coords.push((10, 12));
        coords.push((15, 12));
        coords.push((15, 7));
        coords.push((20, 7));
        let waypoints = waypoint_vec(&coords);
        let mut monsters: Vec<Monster> = Vec::new();
        monsters.push(goblin(start_position));
        monsters.push(orc(start_position));
        GameMap::new(
            String::from_str("Forêt Enchantée"),
            String::from_str("Une forêt dense et mystérieuse"),
            waypoints,
            20,
            20,
            monsters,
            Terrain::Forest,
        )
    }
}

pub struct DesertMap;

impl DesertMap {
    /// An arid desert with direct routes; its terrain slows monsters to 90%.
    pub fn new() -> (map: GameMap)
        ensures
            map.wf(),
            map.name@ == "Désert Aride"@,
            map.description@ == "Un désert aride et hostile"@,
            map.terrain_type == Terrain::Desert,
            map.width == 20 && map.height == 20,
            map.waypoints@ =~= seq![
                (Position { x: 0i32, y: 10i32 }),
                (Position { x: 5i32, y: 10i32 }),
                (Position { x: 5i32, y: 5i32 }),
                (Position { x: 10i32, y: 5i32 }),
                (Position { x: 10i32, y: 15i32 }),
                (Position { x: 15i32, y: 15i32 }),
                (Position { x: 15i32, y: 5i32 }),
                (Position { x: 20i32, y: 5i32 }),
            ],
            map.monsters@.len() == 2,
    {
        let start_position = Position::new(0, 10);
        let mut coords: Vec<(i32, i32)> = Vec::new();
        coords.push((0, 10));
        coords.push((5, 10));
        coords.push((5, 5));
        coords.push((10, 5));
        coords.push((10, 15));
        coords.push((15, 15));
        coords.push((15, 5));
        coords.push((20, 5));
        let waypoints = waypoint_vec(&coords);
        let mut monsters: Vec<Monster> = Vec::new();
        monsters.push(goblin(start_position));
        monsters.push(orc(start_position));
        GameMap::new(
            String::from_str("Désert Aride"),
            String::from_str("Un désert aride et hostile"),
            waypoints,
            20,
            20,
            monsters,
            Terrain::Desert,
        )
    }
}

pub struct CaveMap;

impl CaveMap {
    /// A deep cave of narrow passages; its terrain slows monsters to 70%.
    pub fn new() -> (map: GameMap)
        ensures
            map.wf(),
            map.name@ == "Caverne Profonde"@,
            map.description@ == "Une caverne profonde et sombre"@,
            map.terrain_type == Terrain::Cave,
            map.width == 40 && map.height == 17,
            map.waypoints@ =~= seq![
                (Position { x: 0i32, y: 5i32 }),
                (Position { x: 3i32, y: 5i32 }),
                (Position { x: 3i32, y: 10i32 }),
                (Position { x: 7i32, y: 10i32 }),
                (Position { x: 7i32, y: 5i32 }),
                (Position { x: 12i32, y: 5i32 }),
                (Position { x: 12i32, y: 12i32 }),
                (Position { x: 18i32, y: 12i32 }),
                (Position { x: 18i32, y: 7i32 }),
                (Position { x: 20i32, y: 7i32 }),
                (Position { x: 20i32, y: 12i32 }),
                (Position { x: 40i32, y: 17i32 }),
            ],
            map.monsters@.len() == 2,
    {
        let start_position = Position::new(0, 5);
        let mut coords: Vec<(i32, i32)> = Vec::new();
        coords.push((0, 5));
        coords.push((3, 5));
        coords.push((3, 10));
        coords.push((7, 10));
        coords.push((7, 5));
        coords.push((12, 5));
        coords.push((12, 12));
        coords.push((18, 12));
        coords.push((18, 7));
        coords.push((20, 7));
        coords.push((20, 12));
        coords.push((40, 17));
        let waypoints = waypoint_vec(&coords);
        let mut monsters: Vec<Monster> = Vec::new();
        monsters.push(goblin(start_position));
        monsters.push(orc(start_position));
        GameMap::new(
            String::from_str("Caverne Profonde"),
            String::from_str("Une caverne profonde et sombre"),
            waypoints,
            40,
            17,
            monsters,
            Terrain::Cave,
        )
    }
}

/// The catalog of playable maps.
#[derive(Debug, Clone, Copy, PartialEq, Eq, Structural)]
pub enum MapType {
    Forest,
    Desert,
    Cave,
}

impl MapType {
    pub open spec fn name_spec(self) -> Seq<char> {
        match self {
            MapType::Forest => "Forêt Enchantée"@,
            MapType::Desert => "Désert Aride"@,
            MapType::Cave => "Caverne Profonde"@,
        }
    }

    pub fn get_name(&self) -> (name: &'static str)
        ensures
            name@ == self.name_spec(),
    {
        match self {
            MapType::Forest => "Forêt Enchantée",
            MapType::Desert => "Désert Aride",
            MapType::Cave => "Caverne Profonde",
        }
    }

    pub open spec fn description_spec(self) -> Seq<char> {
        match self {
            MapType::Forest => "Une forêt dense avec des chemins sinueux. Difficulté: Facile"@,
            MapType::Desert => "Un désert hostile avec des routes directes. Difficulté: Moyen"@,
            MapType::Cave => "Une caverne sombre aux nombreux passages étroits. Difficulté: Difficile"@,
        }
    }

    pub fn get_description(&self) -> (description: &'static str)
        ensures
            description@ == self.description_spec(),
    {
        match self {
            MapType::Forest => "Une forêt dense avec des chemins sinueux. Difficulté: Facile",
            MapType::Desert => "Un désert hostile avec des routes directes. Difficulté: Moyen",
            MapType::Cave => "Une caverne sombre aux nombreux passages étroits. Difficulté: Difficile",
        }
    }

    /// Builds the map this catalog entry stands for.
    pub fn create_map(&self) -> (map: GameMap)
        ensures
            map.wf(),
            map.name@ == self.name_spec(),
    {
        match self {
            MapType::Forest => ForestMap::new(),
            MapType::Desert => DesertMap::new(),
            MapType::Cave => CaveMap::new(),
        }
    }

    /// Every playable map, in menu order.
    pub fn all_maps() -> (all: Vec<MapType>)
        ensures
            all@ == seq![MapType::Forest, MapType::Desert, MapType::Cave],
    {
        let mut all: Vec<MapType> = Vec::new();
        all.push(MapType::Forest);
        all.push(MapType::Desert);
        all.push(MapType::Cave);
        proof {
            assert(all@ =~= seq![MapType::Forest, MapType::Desert, MapType::Cave]);
        }
        all
    }
}

} // verus!
