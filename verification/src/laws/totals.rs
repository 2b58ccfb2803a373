//! Counts, sums, the least and the greatest of what is listed.
use vstd::prelude::*;
use crate::error::{invalid, SimError};
use crate::ids::{AllocId, DeviceId, GraphId, OpId, UserObjectId};
use crate::num::{max_u64, min_u64};
use crate::ops::KernelParamsView;
use crate::sim::SimState;
use crate::state::{AllocView, StepView, UserObjectView};
use crate::table::{lemma_order_exists, lists, order_of};

verus! {

/// Sum of the first `n` values.
pub open spec fn total(n: nat, f: spec_fn(int) -> nat) -> nat
    decreases n,
{
    if n == 0 {
        0
    } else {
        total((n - 1) as nat, f) + f(n - 1)
    }
}

/// The smaller of a number and a limit.
pub open spec fn capped(n: nat, most: nat) -> nat {
    if n <= most {
        n
    } else {
        most
    }
}

/// Bytes of a map where it is on a device.
pub open spec fn bytes_on(maps: Seq<(DeviceId, u64, u64)>, device: DeviceId, i: int) -> nat {
    if maps[i].0 == device {
        maps[i].2 as nat
    } else {
        0
    }
}

proof fn lemma_mapped(s: SimState, device: DeviceId, a: AllocView, sum: u64, i: int)
    requires
        0 <= i <= a.vmm_maps.len(),
        sum == capped(
            total(i as nat, |j: int| bytes_on(a.vmm_maps, device, j)),
            u64::MAX as nat,
        ),
    ensures
        s.vmm_mapped_bytes_from(device, a, sum, i) == Ok::<u64, SimError>(
            capped(
                total(a.vmm_maps.len(), |j: int| bytes_on(a.vmm_maps, device, j)),
                u64::MAX as nat,
            ) as u64,
        ),
    decreases a.vmm_maps.len() - i,
{
    if i < a.vmm_maps.len() {
        let f = |j: int| bytes_on(a.vmm_maps, device, j);
        assert(total((i + 1) as nat, f) == total(i as nat, f) + f(i));
        let next = if a.vmm_maps[i].0 == device {
            sum.saturating_add(a.vmm_maps[i].2)
        } else {
            sum
        };
        lemma_mapped(s, device, a, next, i + 1);
    }
}

/// The mapped bytes of a range on a device are the sum over its maps there.
pub proof fn mapped_bytes_are_summed(s: SimState, id: AllocId, device: DeviceId)
    requires
        s.allocs.contains_key(id),
        s.allocs[id].live,
        s.allocs[id].vmm,
    ensures
        s.vmm_mapped_bytes(id, device) == Ok::<u64, SimError>(
            capped(
                total(
                    s.allocs[id].vmm_maps.len(),
                    |j: int| bytes_on(s.allocs[id].vmm_maps, device, j),
                ),
                u64::MAX as nat,
            ) as u64,
        ),
{
    let f = |j: int| bytes_on(s.allocs[id].vmm_maps, device, j);
    assert(total(0, f) == 0);
    lemma_mapped(s, device, s.allocs[id], 0, 0);
}

/// References of one graph to an object, the graphs in ascending order.
pub open spec fn refs_at(obj: UserObjectView, i: int) -> nat {
    obj.graphs[order_of(obj.graphs.dom())[i]] as nat
}

proof fn lemma_refs(s: SimState, obj: UserObjectView, sum: u32, i: int)
    requires
        0 <= i <= order_of(obj.graphs.dom()).len(),
        sum == capped(total(i as nat, |j: int| refs_at(obj, j)), u32::MAX as nat),
    ensures
        s.user_object_refs_from(obj, sum, i) == Ok::<u32, SimError>(
            capped(
                obj.caller as nat + total(
                    order_of(obj.graphs.dom()).len(),
                    |j: int| refs_at(obj, j),
                ),
                u32::MAX as nat,
            ) as u32,
        ),
    decreases order_of(obj.graphs.dom()).len() - i,
{
    if i < order_of(obj.graphs.dom()).len() {
        let f = |j: int| refs_at(obj, j);
        assert(total((i + 1) as nat, f) == total(i as nat, f) + f(i));
        lemma_refs(
            s,
            obj,
            sum.saturating_add(obj.graphs[order_of(obj.graphs.dom())[i]]),
            i + 1,
        );
    }
}

/// The references to an object are those of the caller and of each graph together.
pub proof fn object_refs_are_summed(s: SimState, object: UserObjectId)
    requires
        s.user_object(object) is Ok,
    ensures
        ({
            let obj = s.user_object(object)->Ok_0;
            s.user_object_refs(object) == Ok::<u32, SimError>(
                capped(
                    obj.caller as nat + total(
                        order_of(obj.graphs.dom()).len(),
                        |j: int| refs_at(obj, j),
                    ),
                    u32::MAX as nat,
                ) as u32,
            )
        }),
{
    let obj = s.user_object(object)->Ok_0;
    let f = |j: int| refs_at(obj, j);
    assert(total(0, f) == 0);
    lemma_refs(s, obj, 0, 0);
}

/// Whether a node is a kernel that is not destroyed.
pub open spec fn is_kernel(steps: Seq<StepView>, i: int) -> bool {
    &&& 0 <= i < steps.len()
    &&& !steps[i].destroyed
    &&& steps[i].kind is Kernel
}

proof fn lemma_unique(
    s: SimState,
    id: GraphId,
    steps: Seq<StepView>,
    found: Option<usize>,
    i: int,
)
    requires
        0 <= i <= steps.len() <= usize::MAX,
        s.graphs.contains_key(id),
        s.graphs[id].current() == steps,
        found matches Some(k) ==> k < i && is_kernel(steps, k as int),
        forall|j: int| 0 <= j < i && #[trigger] is_kernel(steps, j) ==> found == Some(j as usize),
    ensures
        ({
            let r = s.graph_unique_kernel_from(id, steps, found, i);
            &&& (forall|j: int| !#[trigger] is_kernel(steps, j)) ==> r == Err::<
                (usize, KernelParamsView),
                SimError,
            >(invalid("not a kernel node"))
            &&& forall|j: int, k: int| #[trigger]
                is_kernel(steps, j) && #[trigger] is_kernel(steps, k) && j != k ==> r == Err::<
                    (usize, KernelParamsView),
                    SimError,
                >(invalid("not unique kernel node"))
            &&& forall|k: int| #[trigger]
                is_kernel(steps, k) && (forall|j: int| #[trigger]
                    is_kernel(steps, j) ==> j == k) ==> r == Ok::<
                    (usize, KernelParamsView),
                    SimError,
                >((k as usize, steps[k].kind.kernel_params_of()->Ok_0))
        }),
    decreases steps.len() - i,
{
    if i < steps.len() {
        if is_kernel(steps, i) {
            if found is None {
                lemma_unique(s, id, steps, Some(i as usize), i + 1);
            }
        } else {
            lemma_unique(s, id, steps, found, i + 1);
        }
    }
}

/// A graph has a unique kernel node exactly where one node alone is a kernel that is not destroyed;
/// that node and its parameters are given. Where there is none, or more than one, the call says so.
pub proof fn unique_kernel_is_alone(s: SimState, graph: GraphId)
    requires
        s.resolved_graph(graph) is Ok,
        s.graphs.contains_key(s.resolved_graph(graph)->Ok_0),
        s.graphs[s.resolved_graph(graph)->Ok_0].current().len() <= usize::MAX,
    ensures
        ({
            let steps = s.graphs[s.resolved_graph(graph)->Ok_0].current();
            let r = s.graph_unique_kernel(graph);
            &&& (forall|j: int| !#[trigger] is_kernel(steps, j)) ==> r == Err::<
                (usize, KernelParamsView),
                SimError,
            >(invalid("not a kernel node"))
            &&& forall|j: int, k: int| #[trigger]
                is_kernel(steps, j) && #[trigger] is_kernel(steps, k) && j != k ==> r == Err::<
                    (usize, KernelParamsView),
                    SimError,
                >(invalid("not unique kernel node"))
            &&& forall|k: int| #[trigger]
                is_kernel(steps, k) && (forall|j: int| #[trigger]
                    is_kernel(steps, j) ==> j == k) ==> r == Ok::<
                    (usize, KernelParamsView),
                    SimError,
                >((k as usize, steps[k].kind.kernel_params_of()->Ok_0))
        }),
{
    let id = s.resolved_graph(graph)->Ok_0;
    lemma_unique(s, id, s.graphs[id].current(), None, 0);
}

/// Whether an operation in flight has a trigger to come at `t`.
pub open spec fn triggers_at(s: SimState, k: OpId, t: u64) -> bool {
    &&& s.ops.contains_key(k)
    &&& !s.ops[k].done
    &&& !s.ops[k].cancelled
    &&& s.ops[k].pdl_trigger_ns == Some(t)
    &&& t > s.clock
}

proof fn lemma_wake(s: SimState, soonest: Option<u64>, i: int)
    requires
        0 <= i <= order_of(s.ops.dom()).len(),
        lists(order_of(s.ops.dom()), s.ops.dom()),
        soonest matches Some(t) ==> exists|k: OpId| #[trigger] triggers_at(s, k, t),
        forall|j: int, t: u64|
            0 <= j < i && #[trigger] triggers_at(s, order_of(s.ops.dom())[j], t) ==> soonest is Some
                && soonest->0 <= t,
    ensures
        ({
            let r = s.next_pdl_wake_from(soonest, i);
            &&& r matches Some(t) ==> exists|k: OpId| #[trigger] triggers_at(s, k, t)
            &&& forall|j: int, t: u64|
                0 <= j < order_of(s.ops.dom()).len() && #[trigger] triggers_at(
                    s,
                    order_of(s.ops.dom())[j],
                    t,
                ) ==> r is Some && r->0 <= t
        }),
    decreases order_of(s.ops.dom()).len() - i,
{
    let q = order_of(s.ops.dom());
    if i < q.len() {
        let o = s.ops[q[i]];
        assert(q.contains(q[i]));
        let next = if !o.done && !o.cancelled && o.pdl_trigger_ns is Some && o.pdl_trigger_ns->0
            > s.clock {
            let t = o.pdl_trigger_ns->0;
            assert(triggers_at(s, q[i], t));
            match soonest {
                Some(x) => Some(min_u64(x, t)),
                None => Some(t),
            }
        } else {
            soonest
        };
        lemma_wake(s, next, i + 1);
    }
}

/// The next time at which a programmatic trigger comes is the least one to come, where there is one.
pub proof fn next_wake_is_least(s: SimState)
    requires
        s.ops.dom().finite(),
    ensures
        match s.next_pdl_wake() {
            Some(t) => {
                &&& exists|k: OpId| #[trigger] triggers_at(s, k, t)
                &&& forall|k: OpId, u: u64| #[trigger] triggers_at(s, k, u) ==> t <= u
            },
            None => forall|k: OpId, u: u64| !#[trigger] triggers_at(s, k, u),
        },
{
    let q = order_of(s.ops.dom());
    lemma_order_exists(s.ops.dom());
    lemma_wake(s, None, 0);
    let r = s.next_pdl_wake();
    assert forall|k: OpId, u: u64| #[trigger] triggers_at(s, k, u) implies r is Some && r->0
        <= u by {
        assert(q.contains(k));
        let j = choose|j: int| 0 <= j < q.len() && q[j] == k;
        assert(triggers_at(s, q[j], u));
    }
}

/// Whether an operation in flight other than `id` works in a memory synchronization domain of a
/// device.
pub open spec fn in_domain(s: SimState, id: OpId, device: DeviceId, phys: u8, i: int) -> bool {
    let r = s.running[i];
    &&& 0 <= i < s.running.len()
    &&& r.op != id
    &&& s.ops.contains_key(r.op)
    &&& s.ops[r.op].device == device
    &&& s.ops[r.op].kind.mem_sync_kind()
    &&& s.ops[r.op].attrs.mem_sync_physical == phys
}

proof fn lemma_leftover(s: SimState, id: OpId, device: DeviceId, phys: u8, leftover: u64, i: int)
    requires
        0 <= i <= s.running.len(),
        leftover > 0 ==> exists|j: int| #[trigger]
            in_domain(s, id, device, phys, j) && s.running[j].remaining_ns == leftover,
        forall|j: int|
            0 <= j < i && #[trigger] in_domain(s, id, device, phys, j) ==> s.running[j].remaining_ns
                <= leftover,
    ensures
        ({
            let r = s.domain_leftover_from(id, device, phys, leftover, i);
            &&& r > 0 ==> exists|j: int| #[trigger]
                in_domain(s, id, device, phys, j) && s.running[j].remaining_ns == r
            &&& forall|j: int| #[trigger]
                in_domain(s, id, device, phys, j) ==> s.running[j].remaining_ns <= r
        }),
    decreases s.running.len() - i,
{
    if i < s.running.len() {
        let r = s.running[i];
        let next = if in_domain(s, id, device, phys, i) && r.remaining_ns != 0 {
            max_u64(leftover, r.remaining_ns)
        } else {
            leftover
        };
        assert(next > 0 ==> exists|j: int| #[trigger]
            in_domain(s, id, device, phys, j) && s.running[j].remaining_ns == next);
        lemma_leftover(s, id, device, phys, next, i + 1);
    }
}

/// What is left to do in a memory synchronization domain is the greatest time that an operation in
/// flight there has left.
pub proof fn leftover_is_greatest(s: SimState, id: OpId, device: DeviceId, phys: u8)
    ensures
        ({
            let r = s.domain_leftover(id, device, phys);
            &&& r > 0 ==> exists|j: int| #[trigger]
                in_domain(s, id, device, phys, j) && s.running[j].remaining_ns == r
            &&& forall|j: int| #[trigger]
                in_domain(s, id, device, phys, j) ==> s.running[j].remaining_ns <= r
        }),
{
    lemma_leftover(s, id, device, phys, 0, 0);
}

} // verus!
