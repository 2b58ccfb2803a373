//! A new simulator.
use vstd::prelude::*;
use crate::history::{follows, history};
use crate::history::ranges::nothing_is_recorded;
use crate::history::shape::{imports_untimed, nothing_is_sound};
use crate::history::timeline::order_empty;
use crate::ids::{DeviceId, PoolId};
use crate::profile::{gpu_index, GpuProfile, ProfileView};
use crate::sim::{has_gpu, seed_pools, Seeds, SimState};

verus! {

proof fn lemma_seeds(gpus: Seq<GpuProfile>, start: Seeds, graph: bool)
    requires
        start.next < u32::MAX ==> forall|k: PoolId| #[trigger]
            start.pools.contains_key(k) ==> k.0 < start.next,
    ensures
        ({
            let t = seed_pools(gpus, start, graph);
            &&& start.next <= t.next
            &&& t.next < u32::MAX ==> forall|k: PoolId| #[trigger]
                t.pools.contains_key(k) ==> k.0 < t.next
        }),
    decreases gpus.len(),
{
    if gpus.len() > 0 {
        lemma_seeds(gpus.drop_last(), start, graph);
    }
}

proof fn lemma_gpu_found(gpus: Seq<GpuProfile>, d: DeviceId, from: int)
    requires
        0 <= from,
    ensures
        gpu_index(gpus, d, from) is Some ==> has_gpu(gpus, d),
    decreases gpus.len() - from,
{
    if from < gpus.len() && gpus[from].id != d {
        lemma_gpu_found(gpus, d, from + 1);
    }
}

proof fn lemma_gpu_known(gpus: Seq<GpuProfile>, i: int, from: int)
    requires
        0 <= from <= i < gpus.len(),
    ensures
        gpu_index(gpus, gpus[i].id, from) is Some,
    decreases gpus.len() - from,
{
    if gpus[from].id != gpus[i].id {
        lemma_gpu_known(gpus, i, from + 1);
    }
}

proof fn lemma_seeds_sound(p: ProfileView, n: int, start: Seeds, graph: bool)
    requires
        0 <= n <= p.gpus.len(),
        forall|k: PoolId| #[trigger]
            start.pools.contains_key(k) ==> start.pools[k].share_root is None && p.gpu(
                start.pools[k].device,
            ) is Ok,
    ensures
        ({
            let t = seed_pools(p.gpus.take(n), start, graph);
            forall|k: PoolId| #[trigger]
                t.pools.contains_key(k) ==> t.pools[k].share_root is None && p.gpu(
                    t.pools[k].device,
                ) is Ok
        }),
    decreases n,
{
    if n > 0 {
        lemma_seeds_sound(p, n - 1, start, graph);
        assert(p.gpus.take(n).drop_last() =~= p.gpus.take(n - 1));
        assert(p.gpus.take(n).last() == p.gpus[n - 1]);
        lemma_gpu_known(p.gpus, n - 1, 0);
    }
}

/// A new simulator has no handle with a number to come, and nothing is charged.
pub proof fn fresh_is_sound(profile: ProfileView)
    ensures
        SimState::fresh(profile).numbered(),
        SimState::fresh(profile).within_limits(),
        SimState::fresh(profile).sequenced(),
        SimState::fresh(profile).shaped(),
        imports_untimed(SimState::fresh(profile).events),
        SimState::fresh(profile).ranged(),
        SimState::fresh(profile).tuned(),
        SimState::fresh(profile).rooted(),
        SimState::fresh(profile).staffed(),
        SimState::fresh(profile).held(),
        SimState::fresh(profile).clock == 0,
        SimState::fresh(profile).running.len() == 0,
        !SimState::fresh(profile).op_pending(),
{
    let none = Seeds { next: 1, pools: Map::empty(), by_device: Map::empty() };
    let user = seed_pools(profile.gpus, none, false);
    lemma_seeds(profile.gpus, none, false);
    lemma_seeds(profile.gpus, Seeds { by_device: Map::empty(), ..user }, true);
    order_empty(0);
    nothing_is_sound(profile);
    nothing_is_recorded(profile);
    assert(SimState::fresh(profile).rooted()) by {
        reveal(crate::history::ranges::pools_sound);
        assert(profile.gpus.take(profile.gpus.len() as int) =~= profile.gpus);
        lemma_seeds_sound(profile, profile.gpus.len() as int, none, false);
        lemma_seeds_sound(
            profile,
            profile.gpus.len() as int,
            Seeds { by_device: Map::empty(), ..user },
            true,
        );
    }
    assert forall|d: DeviceId| #[trigger] profile.gpu(d) is Ok implies SimState::fresh(
        profile,
    ).gpus.contains_key(d) by {
        lemma_gpu_found(profile.gpus, d, 0);
    }
}

/// Whatever is done to a new simulator: no GPU has charged more memory than it has, page-locked
/// memory stays in its budget, and no handle has a number to come.
pub proof fn limits_always_hold(profile: ProfileView, s: SimState)
    requires
        follows(SimState::fresh(profile), s),
    ensures
        s.within_limits(),
        s.numbered(),
        s.profile == profile,
{
    fresh_is_sound(profile);
    history(SimState::fresh(profile), s);
}

} // verus!
