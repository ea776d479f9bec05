//! Laws of the simulation, stated and proved once over the engine's spec
//! functions: pending monsters are untouchable, firing is rate-limited,
//! upgrades saturate at their cap, and no hit ever heals.

use vstd::prelude::*;

use crate::behavior::TowerBehavior;
use crate::element::Element;
use crate::monster::Monster;
use crate::position::Position;
use crate::tower::{hit_spec, Tower, TowerAoe, TowerStat};

verus! {

/// One hit never helps the monster: its hit points do not grow, it keeps
/// its activity, place and resistances, and it stays well-formed.
pub proof fn lemma_hit_props(behavior: TowerBehavior, element: Element, m: Monster, damage: u64)
    requires
        behavior.wf(),
        m.wf(),
    ensures
        hit_spec(behavior, element, m, damage).hp <= m.hp,
        hit_spec(behavior, element, m, damage).active == m.active,
        hit_spec(behavior, element, m, damage).position == m.position,
        hit_spec(behavior, element, m, damage).detected == m.detected,
        hit_spec(behavior, element, m, damage).wf(),
{
    let out = behavior.damage_out_spec(m, damage);
    let effected = behavior.effect_spec(m);
    match behavior {
        TowerBehavior::Frost { slow_factor } => {
            let s = m.movement_speed as int;
            let keep = (1000 - slow_factor) as int;
            assert(s * keep / 1000 <= s) by (nonlinear_arith)
                requires
                    0 <= keep <= 1000,
                    s >= 0,
            ;
        },
        TowerBehavior::Crusher { armor_reduction } => {
            let a = m.armor as int;
            let keep = (1000 - armor_reduction) as int;
            assert(a * keep / 1000 <= a) by (nonlinear_arith)
                requires
                    0 <= keep <= 1000,
                    a >= 0,
            ;
            let shredded = a * keep / 1000;
            let delta = a - shredded;
            assert(damage * 1000 / (1000 - delta) >= 0);
        },
        _ => {},
    }
    assert(effected.hp <= m.hp);
    let factor = m.resistances.damage_factor_spec(element);
    assert(out >= 0);
    assert(0 <= factor <= 1000);
    assert(out * factor >= 0) by (nonlinear_arith)
        requires
            out >= 0,
            factor >= 0,
    ;
    assert(out * factor / 1000 >= 0);
}

/// The splash pass never touches an inactive monster, never heals, keeps
/// the wave's length and activity pattern, and keeps every monster
/// well-formed.
pub proof fn lemma_aoe_pass_props(
    t: Tower,
    ms: Seq<Monster>,
    target_pos: Position,
    target_idx: int,
    aoe_damage: u64,
    radius: u32,
    j: int,
)
    requires
        t.behavior.wf(),
        forall|i: int| 0 <= i < ms.len() ==> (#[trigger] ms[i]).wf(),
    ensures
        ({
            let r = t.aoe_pass_spec(ms, target_pos, target_idx, aoe_damage, radius, j);
            &&& r.len() == ms.len()
            &&& forall|i: int|
                0 <= i < ms.len() && !ms[i].active ==> #[trigger] r[i] == ms[i]
            &&& forall|i: int| 0 <= i < ms.len() ==> (#[trigger] r[i]).hp <= ms[i].hp
            &&& forall|i: int| 0 <= i < ms.len() ==> (#[trigger] r[i]).active == ms[i].active
            &&& forall|i: int| 0 <= i < ms.len() ==> (#[trigger] r[i]).wf()
        }),
    decreases ms.len() - j,
{
    if j < 0 || j >= ms.len() {
    } else {
        let hits = j != target_idx && ms[j].active && target_pos.block_distance_spec(ms[j].position)
            <= radius;
        let next = if hits {
            ms.update(j, hit_spec(t.behavior, t.element, ms[j], aoe_damage))
        } else {
            ms
        };
        if hits {
            lemma_hit_props(t.behavior, t.element, ms[j], aoe_damage);
        }
        lemma_aoe_pass_props(t, next, target_pos, target_idx, aoe_damage, radius, j + 1);
    }
}

/// Processing one primary target never touches an inactive monster, never
/// heals, and keeps length, activity and well-formedness.
pub proof fn lemma_shoot_one_target_props(t: Tower, ms: Seq<Monster>, idx: int)
    requires
        t.behavior.wf(),
        t.damage is Some,
        0 <= idx < ms.len(),
        forall|i: int| 0 <= i < ms.len() ==> (#[trigger] ms[i]).wf(),
    ensures
        ({
            let r = t.shoot_one_target_spec(ms, idx);
            &&& r.len() == ms.len()
            &&& forall|i: int|
                0 <= i < ms.len() && !ms[i].active ==> #[trigger] r[i] == ms[i]
            &&& forall|i: int| 0 <= i < ms.len() ==> (#[trigger] r[i]).hp <= ms[i].hp
            &&& forall|i: int| 0 <= i < ms.len() ==> (#[trigger] r[i]).active == ms[i].active
            &&& forall|i: int| 0 <= i < ms.len() ==> (#[trigger] r[i]).wf()
        }),
{
    if !ms[idx].active {
    } else {
        let dmg = t.damage->0.base;
        lemma_hit_props(t.behavior, t.element, ms[idx], dmg);
        let after_primary = ms.update(idx, hit_spec(t.behavior, t.element, ms[idx], dmg));
        match t.aoe {
            Some(TowerAoe::Radius(radius, multiplier)) => {
                lemma_aoe_pass_props(
                    t,
                    after_primary,
                    after_primary[idx].position,
                    idx,
                    (dmg * multiplier / 1000) as u64,
                    radius,
                    0,
                );
            },
            _ => {},
        }
    }
}

/// Processing a whole in-bounds target list never touches an inactive
/// monster, never heals, and keeps length, activity and well-formedness.
pub proof fn lemma_shoot_targets_props(t: Tower, ms: Seq<Monster>, targets: Seq<usize>, k: int)
    requires
        t.behavior.wf(),
        t.damage is Some,
        forall|i: int| 0 <= i < ms.len() ==> (#[trigger] ms[i]).wf(),
        forall|i: int| 0 <= i < targets.len() ==> (#[trigger] targets[i] as int) < ms.len(),
    ensures
        ({
            let r = t.shoot_targets_spec(ms, targets, k);
            &&& r.len() == ms.len()
            &&& forall|i: int|
                0 <= i < ms.len() && !ms[i].active ==> #[trigger] r[i] == ms[i]
            &&& forall|i: int| 0 <= i < ms.len() ==> (#[trigger] r[i]).hp <= ms[i].hp
            &&& forall|i: int| 0 <= i < ms.len() ==> (#[trigger] r[i]).active == ms[i].active
            &&& forall|i: int| 0 <= i < ms.len() ==> (#[trigger] r[i]).wf()
        }),
    decreases targets.len() - k,
{
    if k < 0 || k >= targets.len() {
    } else {
        lemma_shoot_one_target_props(t, ms, targets[k] as int);
        lemma_shoot_targets_props(t, t.shoot_one_target_spec(ms, targets[k] as int), targets, k + 1);
    }
}

/// The nearest-target scan only yields in-bounds indices.
pub proof fn lemma_nearest_scan_bounded(t: Tower, ms: Seq<Monster>, n: int)
    requires
        n <= ms.len(),
    ensures
        t.nearest_scan_spec(ms, n) matches Some(i) ==> i < n,
    decreases n,
{
    if n > 0 {
        lemma_nearest_scan_bounded(t, ms, n - 1);
    }
}

/// The first-in-range scan only yields in-bounds indices.
pub proof fn lemma_first_in_range_scan_bounded(t: Tower, ms: Seq<Monster>, n: int)
    requires
        n <= ms.len(),
    ensures
        t.first_in_range_scan_spec(ms, n) matches Some(i) ==> i < n,
    decreases n,
{
    if n > 0 {
        lemma_first_in_range_scan_bounded(t, ms, n - 1);
    }
}

/// The all-in-range scan only yields in-bounds indices.
pub proof fn lemma_all_in_range_scan_bounded(t: Tower, ms: Seq<Monster>, n: int)
    requires
        n <= ms.len(),
    ensures
        forall|k: int|
            0 <= k < t.all_in_range_scan_spec(ms, n).len() ==> (#[trigger] t.all_in_range_scan_spec(
                ms,
                n,
            )[k] as int) < n,
    decreases n,
{
    if n > 0 {
        lemma_all_in_range_scan_bounded(t, ms, n - 1);
        let prev = t.all_in_range_scan_spec(ms, n - 1);
        let cur = t.all_in_range_scan_spec(ms, n);
        assert forall|k: int| 0 <= k < cur.len() implies (cur[k] as int) < n by {
            if ms[n - 1].active && t.in_range_spec(ms[n - 1]) {
                assert(cur == prev.push((n - 1) as usize));
                if k < prev.len() {
                    assert(cur[k] == prev[k]);
                    assert((prev[k] as int) < n - 1);
                }
            } else {
                assert(cur == prev);
                assert((prev[k] as int) < n - 1);
            }
        }
    }
}

/// The strongest-monster scan only yields in-bounds indices.
pub proof fn lemma_strongest_scan_bounded(t: Tower, ms: Seq<Monster>, n: int)
    requires
        n <= ms.len(),
    ensures
        t.strongest_scan_spec(ms, n) matches Some(i) ==> i < n,
    decreases n,
{
    if n > 0 {
        lemma_strongest_scan_bounded(t, ms, n - 1);
    }
}

/// The weakest-monster scan only yields in-bounds indices.
pub proof fn lemma_weakest_scan_bounded(t: Tower, ms: Seq<Monster>, n: int)
    requires
        n <= ms.len(),
    ensures
        t.weakest_scan_spec(ms, n) matches Some(i) ==> i < n,
    decreases n,
{
    if n > 0 {
        lemma_weakest_scan_bounded(t, ms, n - 1);
    }
}

/// The farthest-monster scan only yields in-bounds indices.
pub proof fn lemma_farthest_scan_bounded(t: Tower, ms: Seq<Monster>, n: int)
    requires
        n <= ms.len(),
    ensures
        t.farthest_scan_spec(ms, n) matches Some(i) ==> i < n,
    decreases n,
{
    if n > 0 {
        lemma_farthest_scan_bounded(t, ms, n - 1);
    }
}

/// Every strategy only selects in-bounds primary targets.
pub proof fn lemma_primary_targets_bounded(t: Tower, ms: Seq<Monster>)
    ensures
        forall|k: int|
            0 <= k < t.primary_targets_spec(ms).len() ==> (#[trigger] t.primary_targets_spec(
                ms,
            )[k] as int) < ms.len(),
{
    let n = ms.len() as int;
    lemma_nearest_scan_bounded(t, ms, n);
    lemma_first_in_range_scan_bounded(t, ms, n);
    lemma_all_in_range_scan_bounded(t, ms, n);
    lemma_strongest_scan_bounded(t, ms, n);
    lemma_weakest_scan_bounded(t, ms, n);
    lemma_farthest_scan_bounded(t, ms, n);
}

/// One shot never touches an inactive monster, never heals any monster,
/// and keeps the wave's length, activity pattern and well-formedness.
pub proof fn lemma_shoot_wave_props(t: Tower, ms: Seq<Monster>)
    requires
        t.wf(),
        forall|i: int| 0 <= i < ms.len() ==> (#[trigger] ms[i]).wf(),
    ensures
        ({
            let r = t.shoot_wave_spec(ms);
            &&& r.len() == ms.len()
            &&& forall|i: int|
                0 <= i < ms.len() && !ms[i].active ==> #[trigger] r[i] == ms[i]
            &&& forall|i: int| 0 <= i < ms.len() ==> (#[trigger] r[i]).hp <= ms[i].hp
            &&& forall|i: int| 0 <= i < ms.len() ==> (#[trigger] r[i]).active == ms[i].active
            &&& forall|i: int| 0 <= i < ms.len() ==> (#[trigger] r[i]).wf()
        }),
{
    match t.damage {
        Some(_) => {
            lemma_primary_targets_bounded(t, ms);
            lemma_shoot_targets_props(t, ms, t.primary_targets_spec(ms), 0);
        },
        None => {},
    }
}

/// A whole firing pass — every eligible tower shooting once, in order —
/// never touches an inactive monster, never heals any monster, and keeps
/// the wave's length, activity pattern and well-formedness.
pub proof fn lemma_combat_pass_props(towers: Seq<Tower>, time: u64, ms: Seq<Monster>, k: int)
    requires
        forall|i: int| 0 <= i < towers.len() ==> (#[trigger] towers[i]).wf(),
        forall|i: int| 0 <= i < ms.len() ==> (#[trigger] ms[i]).wf(),
    ensures
        ({
            let r = crate::game::shoot_pass_spec(towers, time, ms, k);
            &&& r.len() == ms.len()
            &&& forall|i: int|
                0 <= i < ms.len() && !ms[i].active ==> #[trigger] r[i] == ms[i]
            &&& forall|i: int| 0 <= i < ms.len() ==> (#[trigger] r[i]).hp <= ms[i].hp
            &&& forall|i: int| 0 <= i < ms.len() ==> (#[trigger] r[i]).active == ms[i].active
            &&& forall|i: int| 0 <= i < ms.len() ==> (#[trigger] r[i]).wf()
        }),
    decreases towers.len() - k,
{
    if k < 0 || k >= towers.len() {
    } else {
        let ms2 = if towers[k].can_shoot_spec(time) {
            towers[k].shoot_wave_spec(ms)
        } else {
            ms
        };
        if towers[k].can_shoot_spec(time) {
            lemma_shoot_wave_props(towers[k], ms);
        }
        lemma_combat_pass_props(towers, time, ms2, k + 1);
    }
}

/// Movement has no effect at all on an inactive monster.
pub proof fn lemma_inactive_monster_unmoved(m: Monster, map: crate::map::GameMap, dt: u64)
    requires
        !m.active,
    ensures
        m.advance_spec(map, dt) == m,
{
}

/// Right after a tower fires at time `t`, it cannot fire again at `t`; it
/// may fire at a later time `t2` exactly when a full cooldown of
/// `1 / attacks_per_second` seconds (in milli-units) has passed, measured
/// as `(t2 - t) * attacks_per_second >= 1000 * 1000`.
pub proof fn lemma_shoot_cooldown(t: Tower, fire_time: u64)
    ensures
        !(Tower { last_attack: fire_time, ..t }).can_shoot_spec(fire_time),
        forall|t2: u64|
            t2 >= fire_time && t.attack_speed is Some ==> ((Tower {
                last_attack: fire_time,
                ..t
            }).can_shoot_spec(t2) <==> #[trigger] ((t2 - fire_time) * t.attack_speed->0.base)
                >= 1_000_000),
{
}

/// Iterating the per-stat upgrade step.
pub open spec fn upgrade_stat_iter_spec(s: TowerStat, n: nat) -> TowerStat
    decreases n,
{
    if n == 0 {
        s
    } else {
        Tower::upgrade_stat_step_spec(upgrade_stat_iter_spec(s, (n - 1) as nat)).0
    }
}

/// Repeated upgrades climb one level at a time and stop exactly at the
/// ladder's cap, keeping the ladder itself unchanged.
pub proof fn lemma_upgrade_iter_level(s: TowerStat, n: nat)
    requires
        s.upgrade is Some,
        s.level <= s.upgrade->0.max_level,
    ensures
        upgrade_stat_iter_spec(s, n).upgrade == s.upgrade,
        upgrade_stat_iter_spec(s, n).level == (if s.level + n <= s.upgrade->0.max_level {
            s.level + n
        } else {
            s.upgrade->0.max_level as int
        }),
    decreases n,
{
    if n > 0 {
        lemma_upgrade_iter_level(s, (n - 1) as nat);
    }
}

/// Upgrade saturation: starting from any level, applying the upgrade step
/// `cap - level + 1` times leaves the stat at exactly the cap, and the last
/// of those steps is the one that reports the maximum-level failure while
/// changing nothing.
pub proof fn lemma_upgrade_saturates(s: TowerStat)
    requires
        s.upgrade is Some,
        s.level <= s.upgrade->0.max_level,
    ensures
        ({
            let cap = s.upgrade->0.max_level;
            let n = (cap - s.level + 1) as nat;
            let at_cap = upgrade_stat_iter_spec(s, n);
            &&& at_cap.level == cap
            &&& Tower::upgrade_stat_step_spec(at_cap).0 == at_cap
            &&& !Tower::upgrade_stat_step_spec(at_cap).1
        }),
{
    let cap = s.upgrade->0.max_level;
    let n = (cap - s.level + 1) as nat;
    lemma_upgrade_iter_level(s, n);
}

} // verus!
