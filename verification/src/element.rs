//! Damage elements, the pairwise effectiveness table, and per-monster
//! elemental resistances.

use vstd::prelude::*;

verus! {

/// One thousandth of a unit: multipliers and resistances are stored in these.
pub const MILLI: u64 = 1000;

#[derive(Debug, Clone, Copy, PartialEq, Eq, Structural)]
pub enum Element {
    Neutral,
    Fire,
    Water,
    Earth,
    Air,
    Lightning,
    Ice,
    Poison,
}

impl Element {
    pub open spec fn name_spec(self) -> Seq<char> {
        match self {
            Element::Neutral => "neutral"@,
            Element::Fire => "fire"@,
            Element::Water => "water"@,
            Element::Earth => "earth"@,
            Element::Air => "air"@,
            Element::Lightning => "lightning"@,
            Element::Ice => "ice"@,
            Element::Poison => "poison"@,
        }
    }

    pub fn get_name(&self) -> (name: &'static str)
        ensures
            name@ == self.name_spec(),
    {
        match self {
            Element::Neutral => "neutral",
            Element::Fire => "fire",
            Element::Water => "water",
            Element::Earth => "earth",
            Element::Air => "air",
            Element::Lightning => "lightning",
            Element::Ice => "ice",
            Element::Poison => "poison",
        }
    }

    /// The damage multiplier, in milli-units, of an attack of element `self`
    /// against a defender of element `target`: `500` halves the damage,
    /// `2000` doubles it.
    pub open spec fn effectiveness_spec(self, target: Element) -> int {
        if self == Element::Neutral {
            1000
        } else if self == Element::Fire && target == Element::Earth {
            1500
        } else if self == Element::Water && target == Element::Fire {
            1500
        } else if self == Element::Earth && target == Element::Air {
            1500
        } else if self == Element::Air && target == Element::Water {
            1500
        } else if self == Element::Lightning && target == Element::Water {
            2000
        } else if self == Element::Lightning && target == Element::Air {
            750
        } else if self == Element::Ice && target == Element::Fire {
            500
        } else if self == Element::Ice && target == Element::Water {
            1250
        } else if self == Element::Poison && target == Element::Earth {
            750
        } else if self == Element::Poison && target == Element::Air {
            1250
        } else if self == target {
            500
        } else {
            1000
        }
    }

    /// Elemental bonus table: a small fixed set of asymmetric pairs carries a
    /// bonus or a malus, an attack on the same element is resisted at half
    /// strength, and the neutral element never gets a modifier.
    pub fn effectiveness_against(&self, target_element: &Element) -> (m: u64)
        ensures
            m == self.effectiveness_spec(*target_element),
            500 <= m <= 2000,
    {
        match (self, target_element) {
            (Element::Fire, Element::Earth) => 1500,
            (Element::Water, Element::Fire) => 1500,
            (Element::Earth, Element::Air) => 1500,
            (Element::Air, Element::Water) => 1500,
            (Element::Lightning, Element::Water) => 2000,
            (Element::Lightning, Element::Air) => 750,
            (Element::Ice, Element::Fire) => 500,
            (Element::Ice, Element::Water) => 1250,
            (Element::Poison, Element::Earth) => 750,
            (Element::Poison, Element::Air) => 1250,
            (Element::Neutral, _) => 1000,
            (a, b) => {
                if *a == *b {
                    500
                } else {
                    1000
                }
            },
        }
    }
}

/// Per-element damage reduction of a monster, in milli-units between `0`
/// (no reduction) and `1000` (full immunity).
#[derive(Debug, Clone, Copy, PartialEq, Eq, Structural)]
pub struct Resistances {
    pub fire: u32,
    pub water: u32,
    pub earth: u32,
    pub air: u32,
}

impl Resistances {
    /// Each resistance stays within the unit interval, so a hit is never
    /// amplified and never heals.
    pub open spec fn wf(self) -> bool {
        self.fire <= 1000 && self.water <= 1000 && self.earth <= 1000 && self.air <= 1000
    }

    pub fn new(fire: u32, water: u32, earth: u32, air: u32) -> (r: Resistances)
        requires
            fire <= 1000,
            water <= 1000,
            earth <= 1000,
            air <= 1000,
        ensures
            r == (Resistances { fire, water, earth, air }),
            r.wf(),
    {
        Resistances { fire, water, earth, air }
    }

    pub open spec fn resistance_spec(self, element: Element) -> int {
        match element {
            Element::Fire => self.fire as int,
            Element::Water => self.water as int,
            Element::Earth => self.earth as int,
            Element::Air => self.air as int,
            _ => 0,
        }
    }

    /// The stored resistance against `element`; elements without a stored
    /// value (neutral, lightning, ice, poison) are never resisted.
    pub fn get_resistance(&self, element: &Element) -> (r: u32)
        ensures
            r == self.resistance_spec(*element),
    {
        match element {
            Element::Fire => self.fire,
            Element::Water => self.water,
            Element::Earth => self.earth,
            Element::Air => self.air,
            Element::Neutral => 0,
            Element::Lightning => 0,
            Element::Ice => 0,
            Element::Poison => 0,
        }
    }

    pub open spec fn damage_factor_spec(self, element: Element) -> int {
        1000 - self.resistance_spec(element)
    }

    /// The fraction of raw damage that gets through, in milli-units:
    /// `1000` minus the resistance.
    pub fn damage_factor(&self, attack_element: &Element) -> (f: u32)
        requires
            self.wf(),
        ensures
            f == self.damage_factor_spec(*attack_element),
            f <= 1000,
    {
        1000 - self.get_resistance(attack_element)
    }
}

impl Default for Resistances {
    /// The default monster resists nothing.
    fn default() -> (r: Resistances)
        ensures
            r == (Resistances { fire: 0, water: 0, earth: 0, air: 0 }),
            r.wf(),
    {
        Resistances { fire: 0, water: 0, earth: 0, air: 0 }
    }
}

} // verus!
