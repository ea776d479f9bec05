//! A wave: one batch of monsters, activated together or staggered over time.

use vstd::prelude::*;

use crate::monster::Monster;

verus! {

#[derive(Debug, Clone)]
pub struct Wave {
    pub monsters: Vec<Monster>,
}

impl Wave {
    pub open spec fn wf(self) -> bool {
        forall|i: int| 0 <= i < self.monsters@.len() ==> (#[trigger] self.monsters@[i]).wf()
    }

    /// A simultaneous wave: every monster enters the match immediately,
    /// whatever spawn delay it carried.
    pub fn new(monsters: Option<Vec<Monster>>) -> (w: Wave)
        ensures
            match monsters {
                Some(ms) => {
                    &&& w.monsters@.len() == ms@.len()
                    &&& forall|i: int|
                        0 <= i < ms@.len() ==> #[trigger] w.monsters@[i] == (Monster {
                            spawn_delay: 0u64,
                            active: true,
                            ..ms@[i]
                        })
                },
                None => w.monsters@.len() == 0,
            },
            (match monsters {
                Some(ms) => forall|i: int| 0 <= i < ms@.len() ==> (#[trigger] ms@[i]).wf(),
                None => true,
            }) ==> w.wf(),
    {
        match monsters {
            Some(ms) => {
                let mut active_monsters: Vec<Monster> = Vec::new();
                let mut ms = ms;
                let ghost orig = ms@;
                let n = ms.len();
                let mut i: usize = 0;
                while i < n
                    invariant
                        n == orig.len(),
                        ms@ =~= orig.skip(i as int),
                        0 <= i <= n,
                        active_monsters@.len() == i,
                        forall|j: int|
                            0 <= j < i ==> #[trigger] active_monsters@[j] == (Monster {
                                spawn_delay: 0u64,
                                active: true,
                                ..orig[j]
                            }),
                    decreases n - i,
                {
                    let mut monster = ms.remove(0);
                    monster.spawn_delay = 0;
                    monster.active = true;
                    active_monsters.push(monster);
                    proof {
                        assert(ms@ =~= orig.skip(i + 1));
                    }
                    i = i + 1;
                }
                Wave { monsters: active_monsters }
            },
            None => Wave { monsters: Vec::new() },
        }
    }

    /// A staggered wave: monster `i` gets a spawn delay of `i * interval`
    /// milli-seconds, so one monster enters the match per interval; the
    /// first one is active at once.
    pub fn with_staggered_spawn(monsters: Vec<Monster>, interval: u64) -> (w: Wave)
        requires
            monsters@.len() * interval <= u64::MAX,
        ensures
            w.monsters@.len() == monsters@.len(),
            forall|i: int|
                0 <= i < monsters@.len() ==> #[trigger] w.monsters@[i] == (Monster {
                    spawn_delay: (i * interval) as u64,
                    active: i * interval == 0,
                    ..monsters@[i]
                }),
            (forall|i: int| 0 <= i < monsters@.len() ==> (#[trigger] monsters@[i]).wf())
                ==> w.wf(),
    {
        let mut result: Vec<Monster> = Vec::new();
        let mut ms = monsters;
        let ghost orig = ms@;
        let n = ms.len();
        let mut i: usize = 0;
        while i < n
            invariant
                n == orig.len(),
                n * interval <= u64::MAX,
                ms@ =~= orig.skip(i as int),
                0 <= i <= n,
                result@.len() == i,
                forall|j: int|
                    0 <= j < i ==> #[trigger] result@[j] == (Monster {
                        spawn_delay: (j * interval) as u64,
                        active: j * interval == 0,
                        ..orig[j]
                    }),
            decreases n - i,
        {
            proof {
                assert((i as int) * (interval as int) <= (n as int) * (interval as int))
                    by (nonlinear_arith)
                    requires
                        0 <= i <= n,
                        interval >= 0,
                ;
            }
            let delay: u64 = (i as u64) * interval;
            let monster = ms.remove(0).with_spawn_delay(delay);
            result.push(monster);
            proof {
                assert(ms@ =~= orig.skip(i + 1));
            }
            i = i + 1;
        }
        Wave { monsters: result }
    }

    /// Counts every pending monster's spawn delay down by `delta_time` and
    /// returns, in increasing order, the indices of the monsters that became
    /// active on this call.
    pub fn update_spawns(&mut self, delta_time: u64) -> (spawned: Vec<usize>)
        ensures
            final(self).monsters@.len() == old(self).monsters@.len(),
            forall|i: int|
                0 <= i < old(self).monsters@.len() && old(self).monsters@[i].active
                    ==> #[trigger] final(self).monsters@[i] == old(self).monsters@[i],
            forall|i: int|
                0 <= i < old(self).monsters@.len() && !old(self).monsters@[i].active && delta_time
                    >= old(self).monsters@[i].spawn_delay ==> #[trigger] final(self).monsters@[i]
                    == (Monster { spawn_delay: 0u64, active: true, ..old(self).monsters@[i] }),
            forall|i: int|
                0 <= i < old(self).monsters@.len() && !old(self).monsters@[i].active && delta_time
                    < old(self).monsters@[i].spawn_delay ==> #[trigger] final(self).monsters@[i]
                    == (Monster {
                    spawn_delay: (old(self).monsters@[i].spawn_delay - delta_time) as u64,
                    ..old(self).monsters@[i]
                }),
            forall|k: int|
                0 <= k < spawned@.len() ==> {
                    let i = #[trigger] spawned@[k] as int;
                    &&& i < old(self).monsters@.len()
                    &&& !old(self).monsters@[i].active
                    &&& delta_time >= old(self).monsters@[i].spawn_delay
                },
            forall|k1: int, k2: int|
                0 <= k1 < k2 < spawned@.len() ==> #[trigger] spawned@[k1] < #[trigger] spawned@[k2],
            forall|i: int|
                0 <= i < old(self).monsters@.len() && !old(self).monsters@[i].active && delta_time
                    >= old(self).monsters@[i].spawn_delay ==> exists|k: int|
                    0 <= k < spawned@.len() && #[trigger] spawned@[k] == i,
            old(self).wf() ==> final(self).wf(),
    {
        let mut spawned: Vec<usize> = Vec::new();
        let n = self.monsters.len();
        let mut i: usize = 0;
        while i < n
            invariant
                n == old(self).monsters@.len(),
                self.monsters@.len() == n,
                0 <= i <= n,
                forall|j: int|
                    i <= j < n ==> #[trigger] self.monsters@[j] == old(self).monsters@[j],
                forall|j: int|
                    0 <= j < i && old(self).monsters@[j].active ==> #[trigger] self.monsters@[j]
                        == old(self).monsters@[j],
                forall|j: int|
                    0 <= j < i && !old(self).monsters@[j].active && delta_time >= old(
                        self,
                    ).monsters@[j].spawn_delay ==> #[trigger] self.monsters@[j] == (Monster {
                        spawn_delay: 0u64,
                        active: true,
                        ..old(self).monsters@[j]
                    }),
                forall|j: int|
                    0 <= j < i && !old(self).monsters@[j].active && delta_time < old(
                        self,
                    ).monsters@[j].spawn_delay ==> #[trigger] self.monsters@[j] == (Monster {
                        spawn_delay: (old(self).monsters@[j].spawn_delay - delta_time) as u64,
                        ..old(self).monsters@[j]
                    }),
                forall|k: int|
                    0 <= k < spawned@.len() ==> {
                        let j = #[trigger] spawned@[k] as int;
                        &&& j < i
                        &&& !old(self).monsters@[j].active
                        &&& delta_time >= old(self).monsters@[j].spawn_delay
                    },
                forall|k1: int, k2: int|
                    0 <= k1 < k2 < spawned@.len() ==> #[trigger] spawned@[k1]
                        < #[trigger] spawned@[k2],
                forall|j: int|
                    0 <= j < i && !old(self).monsters@[j].active && delta_time >= old(
                        self,
                    ).monsters@[j].spawn_delay ==> exists|k: int|
                        0 <= k < spawned@.len() && #[trigger] spawned@[k] == j,
            decreases n - i,
        {
            let monster = &mut self.monsters[i];
            let became_active = monster.update_spawn_status(delta_time);
            if became_active {
                let ghost before = spawned@;
                spawned.push(i);
                proof {
                    assert(spawned@[before.len() as int] == i);
                    assert forall|k1: int, k2: int|
                        0 <= k1 < k2 < spawned@.len() implies spawned@[k1] < spawned@[k2] by {
                        if k2 == spawned@.len() - 1 {
                            assert(spawned@[k1] == before[k1]);
                            assert((before[k1] as int) < (i as int));
                        } else {
                            assert(spawned@[k1] == before[k1] && spawned@[k2] == before[k2]);
                        }
                    }
                    assert forall|j: int|
                        0 <= j < i + 1 && !old(self).monsters@[j].active && delta_time >= old(
                            self,
                        ).monsters@[j].spawn_delay implies exists|k: int|
                        0 <= k < spawned@.len() && #[trigger] spawned@[k] == j by {
                        if j == i {
                            assert(spawned@[before.len() as int] == j);
                        } else {
                            let k0 = choose|k: int| 0 <= k < before.len() && #[trigger] before[k] == j;
                            assert(spawned@[k0] == j);
                        }
                    }
                }
            } else {
                proof {
                    assert forall|j: int|
                        0 <= j < i + 1 && !old(self).monsters@[j].active && delta_time >= old(
                            self,
                        ).monsters@[j].spawn_delay implies exists|k: int|
                        0 <= k < spawned@.len() && #[trigger] spawned@[k] == j by {
                        assert(j < i);
                        let k0 = choose|k: int|
                            0 <= k < spawned@.len() && #[trigger] spawned@[k] == j;
                        assert(spawned@[k0] == j);
                    }
                }
            }
            i = i + 1;
        }
        spawned
    }
}

} // verus!
