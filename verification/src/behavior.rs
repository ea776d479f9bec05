//! Status-effect strategies applied when a tower hits a monster.

use vstd::prelude::*;

use crate::monster::Monster;

verus! {

/// Highest raw damage a single hit may carry, in milli-units.
pub const DAMAGE_LIMIT: u64 = 1_000_000_000_000;

/// The effect a tower applies on each hit, besides the hit itself.
/// Effects mutate the monster immediately and are not idempotent: applying
/// one twice doubles it. There is no decay or duration; a slowed monster
/// stays slowed and shredded armor stays shredded.
#[derive(Debug, Clone, Copy, PartialEq, Eq, Structural)]
pub enum TowerBehavior {
    /// Plain damage, no side effect.
    Basic,
    /// Multiplies the monster's speed by `slow_factor` complement:
    /// speed becomes `speed * (1000 - slow_factor) / 1000`.
    Frost { slow_factor: u32 },
    /// Subtracts `dot_damage` from the monster's hit points in addition to
    /// the hit itself.
    Burning { dot_damage: u64 },
    /// A stun hook: the chance is carried but the stun state is not yet
    /// simulated, so the effect is damage only (a documented extension
    /// point).
    Lightning { stun_chance: u32 },
    /// Shreds armor by `armor_reduction` and inflates the returned damage
    /// by the inverse of the armor lost on this hit.
    Crusher { armor_reduction: u32 },
}

impl TowerBehavior {
    pub open spec fn wf(self) -> bool {
        match self {
            TowerBehavior::Basic => true,
            TowerBehavior::Frost { slow_factor } => slow_factor <= 1000,
            TowerBehavior::Burning { dot_damage } => dot_damage <= DAMAGE_LIMIT,
            TowerBehavior::Lightning { stun_chance } => stun_chance <= 1000,
            TowerBehavior::Crusher { armor_reduction } => armor_reduction <= 1000,
        }
    }

    pub open spec fn name_spec(self) -> Seq<char> {
        match self {
            TowerBehavior::Basic => "Basic"@,
            TowerBehavior::Frost { .. } => "Frost"@,
            TowerBehavior::Burning { .. } => "Burning"@,
            TowerBehavior::Lightning { .. } => "Lightning"@,
            TowerBehavior::Crusher { .. } => "Crusher"@,
        }
    }

    pub fn name(&self) -> (name: &'static str)
        ensures
            name@ == self.name_spec(),
    {
        match self {
            TowerBehavior::Basic => "Basic",
            TowerBehavior::Frost { .. } => "Frost",
            TowerBehavior::Burning { .. } => "Burning",
            TowerBehavior::Lightning { .. } => "Lightning",
            TowerBehavior::Crusher { .. } => "Crusher",
        }
    }

    /// The monster as it stands after the side effect of one application.
    pub open spec fn effect_spec(self, m: Monster) -> Monster {
        match self {
            TowerBehavior::Basic => m,
            TowerBehavior::Frost { slow_factor } => Monster {
                movement_speed: (m.movement_speed * ((1000 - slow_factor) as u64) / 1000) as u64,
                ..m
            },
            TowerBehavior::Burning { dot_damage } => Monster {
                hp: if m.hp >= dot_damage {
                    (m.hp - dot_damage) as u64
                } else {
                    0u64
                },
                ..m
            },
            TowerBehavior::Lightning { .. } => m,
            TowerBehavior::Crusher { armor_reduction } => Monster {
                armor: ((m.armor as u64) * ((1000 - armor_reduction) as u64) / 1000) as u32,
                ..m
            },
        }
    }

    /// The damage one application hands back to be subtracted from the
    /// monster's hit points.
    pub open spec fn damage_out_spec(self, m: Monster, damage: u64) -> int {
        match self {
            TowerBehavior::Crusher { armor_reduction } => {
                let shredded = (m.armor as u64) * ((1000 - armor_reduction) as u64) / 1000;
                let delta = m.armor - shredded;
                damage * 1000 / (1000 - delta)
            },
            _ => damage as int,
        }
    }

    /// Applies the status effect to `monster` and returns the damage the
    /// caller should subtract. The hit never heals: hit points do not grow,
    /// speed does not grow, and armor does not grow.
    pub fn apply(&self, monster: &mut Monster, damage: u64) -> (actual: u64)
        requires
            self.wf(),
            old(monster).wf(),
            damage <= DAMAGE_LIMIT,
        ensures
            *final(monster) == self.effect_spec(*old(monster)),
            actual == self.damage_out_spec(*old(monster), damage),
            actual <= damage * 1000,
            final(monster).hp <= old(monster).hp,
            final(monster).movement_speed <= old(monster).movement_speed,
            final(monster).armor <= old(monster).armor,
            final(monster).wf(),
    {
        match self {
            TowerBehavior::Basic => damage,
            TowerBehavior::Frost { slow_factor } => {
                let keep: u64 = (1000 - slow_factor) as u64;
                proof {
                    let s = old(monster).movement_speed as int;
                    assert(s * keep / 1000 <= s) by (nonlinear_arith)
                        requires
                            keep <= 1000,
                            s >= 0,
                    ;
                    assert(s * keep <= s * 1000) by (nonlinear_arith)
                        requires
                            keep <= 1000,
                            s >= 0,
                    ;
                }
                monster.movement_speed = monster.movement_speed * keep / 1000;
                damage
            },
            TowerBehavior::Burning { dot_damage } => {
                if monster.hp >= *dot_damage {
                    monster.hp = monster.hp - dot_damage;
                } else {
                    monster.hp = 0;
                }
                damage
            },
            TowerBehavior::Lightning { .. } => damage,
            TowerBehavior::Crusher { armor_reduction } => {
                let keep: u64 = (1000 - armor_reduction) as u64;
                proof {
                    let a = old(monster).armor as int;
                    assert(a * keep <= 1000 * 1000) by (nonlinear_arith)
                        requires
                            keep <= 1000,
                            0 <= a <= 1000,
                    ;
                    assert(a * keep / 1000 <= a) by (nonlinear_arith)
                        requires
                            keep <= 1000,
                            a >= 0,
                    ;
                }
                let shredded: u64 = (monster.armor as u64) * keep / 1000;
                let delta: u64 = monster.armor as u64 - shredded;
                monster.armor = shredded as u32;
                let actual: u64 = damage * 1000 / (1000 - delta);
                proof {
                    let d = damage as int;
                    let div = 1000 - delta;
                    assert(d * 1000 / div <= d * 1000) by (nonlinear_arith)
                        requires
                            div >= 1,
                            d >= 0,
                    ;
                }
                actual
            },
        }
    }
}

/// A standalone slow: multiplies the monster's speed by the complement of
/// `slow_factor` and passes the damage through unchanged.
pub fn apply_slow(monster: &mut Monster, damage: u64, slow_factor: u32) -> (actual: u64)
    requires
        slow_factor <= 1000,
        old(monster).wf(),
    ensures
        *final(monster) == (Monster {
            movement_speed: (old(monster).movement_speed * ((1000 - slow_factor) as u64)
                / 1000) as u64,
            ..*old(monster)
        }),
        actual == damage,
        final(monster).wf(),
{
    let keep: u64 = (1000 - slow_factor) as u64;
    proof {
        let s = old(monster).movement_speed as int;
        assert(s * keep <= s * 1000 && s * keep / 1000 <= s) by (nonlinear_arith)
            requires
                keep <= 1000,
                s >= 0,
        ;
    }
    monster.movement_speed = monster.movement_speed * keep / 1000;
    damage
}

} // verus!
