//! What every operation keeps: time, counters and ids only grow, budgets hold, submitted operations
//! and allocations stay, nothing starts before what it waits for has ended, and no graph gets a
//! cycle.
//!
//! A history starts at a state `z`. For each operation there is a proof that the state it leaves
//! follows `z` whenever the state it was called in does.
pub mod access;
pub mod attrs;
pub mod capture;
pub mod charge;
pub mod clone;
pub mod device;
pub mod edit;
pub mod events;
pub mod instantiate;
pub mod launch;
pub mod memory;
pub mod objects;
pub mod order;
pub mod params;
pub mod pools;
pub mod ranges;
pub mod run;
pub mod shape;
pub mod start;
pub mod streams;
pub mod submit;
pub mod timeline;
pub mod transfer;
pub mod tree;
pub mod update;
pub mod vmm;
use vstd::prelude::*;
use crate::history::clone::{
    build_clones_follows, clone_conditionals_follows, insert_clones_follows, note_clones_follows,
};
use crate::history::ranges::{maps_kept, pool_fits, settled, spread};
use crate::history::shape::{copies_are_sound, graph_fits, imports_untimed, planned};
use crate::history::timeline::{
    able, awaits, in_flight, in_order, order_dep, order_end, order_fewer, order_later, order_new,
    order_note, order_run, order_start, order_unknown, times_kept, times_kept_itself, times_kept_on,
    unended, unstarted,
};
use crate::ids::{
    AllocId, CondId, DeviceId, GraphId, MemHandleId, MulticastId, OpId, PoolId, UserObjectId,
};
use crate::laws::frames::{build_clones_keeps_capture, build_clones_keeps_profile};
use crate::list::with_new;
use crate::num::max_u8;
use crate::ops::MemcpyOp;
use crate::sim::SimState;
use crate::state::{AllocView, GpuRtView, GraphView, NextIds, OpView, PoolView, Running};

verus! {

/// Numbers of handles only grow.
pub open spec fn ids_follow(a: NextIds, b: NextIds) -> bool {
    &&& a.op <= b.op
    &&& a.alloc <= b.alloc
    &&& a.graph <= b.graph
    &&& a.capture <= b.capture
    &&& a.pool <= b.pool
    &&& a.handle <= b.handle
    &&& a.ipc <= b.ipc
    &&& a.ipc_event <= b.ipc_event
    &&& a.share <= b.share
    &&& a.ptr <= b.ptr
    &&& a.mc <= b.mc
    &&& a.cond <= b.cond
    &&& a.user_object <= b.user_object
}

/// Submitted operations stay, with what they were submitted as. A completed one stays completed.
pub open spec fn ops_follow(a: Map<OpId, OpView>, b: Map<OpId, OpView>) -> bool {
    forall|k: OpId| #[trigger]
        a.contains_key(k) ==> {
            &&& b.contains_key(k)
            &&& b[k].device == a[k].device
            &&& b[k].stream == a[k].stream
            &&& b[k].kind == a[k].kind
            &&& b[k].launch == a[k].launch
            &&& b[k].submit_ns == a[k].submit_ns
            &&& a[k].done ==> b[k].done
            &&& a[k].cancelled ==> b[k].cancelled
        }
}

/// Allocations stay known and keep their size.
pub open spec fn allocs_follow(a: Map<AllocId, AllocView>, b: Map<AllocId, AllocView>) -> bool {
    forall|k: AllocId| #[trigger]
        a.contains_key(k) ==> b.contains_key(k) && b[k].bytes == a[k].bytes
}

/// The GPUs stay the same.
pub open spec fn same_devices(a: Map<DeviceId, GpuRtView>, b: Map<DeviceId, GpuRtView>) -> bool {
    forall|d: DeviceId| #![trigger a.contains_key(d)] #![trigger b.contains_key(d)]
        a.contains_key(d) <==> b.contains_key(d)
}

impl SimState {
    /// No handle has the next number or a later one, unless the numbers have run out.
    pub open spec fn numbered(self) -> bool {
        &&& self.next.op < u64::MAX ==> forall|k: OpId| #[trigger]
            self.ops.contains_key(k) ==> k.0 < self.next.op
        &&& self.next.alloc < u64::MAX ==> forall|k: AllocId| #[trigger]
            self.allocs.contains_key(k) ==> k.0 < self.next.alloc
        &&& self.next.graph < u32::MAX ==> forall|k: GraphId| #[trigger]
            self.graphs.contains_key(k) ==> k.0 < self.next.graph
        &&& self.next.pool < u32::MAX ==> forall|k: PoolId| #[trigger]
            self.pools.contains_key(k) ==> k.0 < self.next.pool
        &&& self.next.handle < u64::MAX ==> forall|k: MemHandleId| #[trigger]
            self.mem_handles.contains_key(k) ==> k.0 < self.next.handle
        &&& self.next.mc < u32::MAX ==> forall|k: MulticastId| #[trigger]
            self.multicasts.contains_key(k) ==> k.0 < self.next.mc
        &&& self.next.cond < u32::MAX ==> forall|k: CondId| #[trigger]
            self.conds.contains_key(k) ==> k.0 < self.next.cond
        &&& self.next.user_object < u32::MAX ==> forall|k: UserObjectId| #[trigger]
            self.user_objects.contains_key(k) ==> k.0 < self.next.user_object
    }

    /// Page-locked memory stays in its budget. Each GPU has charged no more memory than it has and
    /// than the recorded peak, and uses no more compute slots and copy engines than it has.
    pub open spec fn within_limits(self) -> bool {
        &&& self.pinned_used <= self.profile.host_pin_bytes
        &&& forall|d: DeviceId| #[trigger]
            self.gpus.contains_key(d) ==> {
                &&& self.gpus[d].used <= self.hbm_peak
                &&& match self.profile.gpu(d) {
                    Ok(g) => {
                        &&& self.gpus[d].used <= g.hbm_bytes
                        &&& self.gpus[d].compute <= max_u8(g.compute_slots, 1)
                        &&& self.gpus[d].copies <= g.copy_engines
                    },
                    Err(_e) => {
                        &&& self.gpus[d].used == 0
                        &&& self.gpus[d].compute == 0
                        &&& self.gpus[d].copies == 0
                    },
                }
            }
    }
}

impl SimState {
    /// Operations start only after what they wait for has ended, and those in flight have not
    /// ended.
    pub open spec fn sequenced(self) -> bool {
        in_order(self.ops, self.clock, self.running)
    }
}

/// The order of operations was kept at `z`, and numbers have lasted until `s`.
pub open spec fn counted(z: SimState, s: SimState) -> bool {
    z.numbered() && z.sequenced() && s.next.op < u64::MAX
}

/// `b` may come after `a`.
#[verifier::opaque]
pub open spec fn follows(a: SimState, b: SimState) -> bool {
    &&& b.profile == a.profile
    &&& b.clock >= a.clock
    &&& b.bytes_moved >= a.bytes_moved
    &&& b.hbm_peak >= a.hbm_peak
    &&& ids_follow(a.next, b.next)
    &&& a.user_object_dtors.is_prefix_of(b.user_object_dtors)
    &&& same_devices(a.gpus, b.gpus)
    &&& b.default_pools == a.default_pools
    &&& b.graph_pools == a.graph_pools
    &&& a.within_limits() ==> b.within_limits()
    &&& a.numbered() ==> b.numbered()
    &&& a.numbered() && b.next.op < u64::MAX ==> ops_follow(a.ops, b.ops)
    &&& a.numbered() && b.next.alloc < u64::MAX ==> allocs_follow(a.allocs, b.allocs)
    &&& counted(a, b) ==> b.sequenced() && times_kept(a.ops, a.clock, b.ops)
    &&& planned(a, b) ==> b.shaped()
    &&& imports_untimed(a.events) ==> imports_untimed(b.events)
    &&& spread(a, b) ==> b.ranged()
    &&& a.tuned() ==> b.tuned()
    &&& settled(a, b) ==> b.rooted()
    &&& a.staffed() ==> b.staffed()
    &&& a.staffed() && a.held() ==> b.held()
}

/// Every state follows itself.
pub proof fn follows_itself(s: SimState)
    ensures
        follows(s, s),
{
    reveal(follows);
    times_kept_itself(s.ops, s.clock);
}

/// What follows a later state follows the earlier one.
pub proof fn follows_on(a: SimState, b: SimState, c: SimState)
    requires
        follows(a, b),
        follows(b, c),
    ensures
        follows(a, c),
{
    reveal(follows);
    let q = a.user_object_dtors;
    let n = b.user_object_dtors.len() as int;
    assert forall|i: int| 0 <= i < q.len() implies c.user_object_dtors[i] == q[i] by {
        assert(c.user_object_dtors.take(n)[i] == b.user_object_dtors[i]);
        assert(b.user_object_dtors.take(q.len() as int)[i] == q[i]);
    }
    assert(q =~= c.user_object_dtors.take(q.len() as int));
    assert(same_devices(a.gpus, c.gpus));
    if counted(a, c) {
        times_kept_on(a.ops, a.clock, b.ops, b.clock, c.ops);
    }
}

/// What a history promises of its last state.
pub proof fn history(z: SimState, s: SimState)
    requires
        follows(z, s),
    ensures
        s.profile == z.profile,
        s.clock >= z.clock,
        s.bytes_moved >= z.bytes_moved,
        s.hbm_peak >= z.hbm_peak,
        ids_follow(z.next, s.next),
        z.user_object_dtors.is_prefix_of(s.user_object_dtors),
        same_devices(z.gpus, s.gpus),
        s.default_pools == z.default_pools,
        s.graph_pools == z.graph_pools,
        z.within_limits() ==> s.within_limits(),
        z.numbered() ==> s.numbered(),
        z.numbered() && s.next.op < u64::MAX ==> ops_follow(z.ops, s.ops),
        z.numbered() && s.next.alloc < u64::MAX ==> allocs_follow(z.allocs, s.allocs),
        counted(z, s) ==> s.sequenced() && times_kept(z.ops, z.clock, s.ops),
        planned(z, s) ==> s.shaped(),
        imports_untimed(z.events) ==> imports_untimed(s.events),
        spread(z, s) ==> s.ranged(),
        z.tuned() ==> s.tuned(),
        settled(z, s) ==> s.rooted(),
        z.staffed() ==> s.staffed(),
        z.staffed() && z.held() ==> s.held(),
{
    reveal(follows);
}

/// A change of what a history does not speak of continues it.
pub proof fn rest_follows(z: SimState, s: SimState, t: SimState)
    requires
        follows(z, s),
        t.profile == s.profile,
        t.clock == s.clock,
        t.bytes_moved == s.bytes_moved,
        t.hbm_peak == s.hbm_peak,
        t.next == s.next,
        t.user_object_dtors == s.user_object_dtors,
        t.gpus == s.gpus,
        t.default_pools == s.default_pools,
        t.graph_pools == s.graph_pools,
        t.pinned_used == s.pinned_used,
        t.ops == s.ops,
        t.running == s.running,
        t.allocs == s.allocs,
        t.graphs == s.graphs,
        t.capturing == s.capturing,
        t.capture_buf == s.capture_buf,
        t.events == s.events,
        t.vmm_handle_at == s.vmm_handle_at,
        t.mc_at == s.mc_at,
        t.sm_permille == s.sm_permille,
        t.stream_mem_sync_map == s.stream_mem_sync_map,
        t.pools == s.pools,
        t.mem_handles == s.mem_handles,
        t.multicasts == s.multicasts,
        t.conds == s.conds,
        t.user_objects == s.user_objects,
    ensures
        follows(z, t),
{
    reveal(follows);
}

/// Passing time continues a history.
pub proof fn later_follows(z: SimState, s: SimState, at: u64)
    requires
        follows(z, s),
        at >= s.clock,
    ensures
        follows(z, (SimState { clock: at, ..s })),
{
    reveal(follows);
    if counted(z, s) {
        order_later(s.ops, s.clock, at, s.running);
    }
}

/// Passing time continues a history.
pub proof fn time_follows(z: SimState, s: SimState, ns: u64)
    requires
        follows(z, s),
    ensures
        follows(z, (SimState { clock: s.clock.saturating_add(ns), ..s })),
{
    later_follows(z, s, s.clock.saturating_add(ns));
}

/// A new allocation with the number before the next one, or a change of an allocation other than
/// its size that keeps the maps of its recorded pieces, continues a history.
pub proof fn alloc_follows(z: SimState, s: SimState, id: AllocId, a: AllocView)
    requires
        follows(z, s),
        s.allocs.contains_key(id) && a.bytes == s.allocs[id].bytes || (z.numbered() && s.next.alloc
            < u64::MAX ==> !s.allocs.contains_key(id) && id.0 < s.next.alloc),
        spread(z, s) && s.allocs.contains_key(id) ==> a.vmm_maps == s.allocs[id].vmm_maps
            || maps_kept(s, id, a),
    ensures
        follows(z, (SimState { allocs: s.allocs.insert(id, a), ..s })),
{
    reveal(follows);
    reveal(crate::history::ranges::pieces_mapped);
}

/// A new operation with the number before the next one continues a history, and has yet to start.
pub proof fn op_new_follows(z: SimState, s: SimState, id: OpId, o: OpView)
    requires
        follows(z, s),
        z.numbered() && s.next.op < u64::MAX ==> !s.ops.contains_key(id) && id.0 < s.next.op,
        !o.done,
        !o.cancelled,
        o.done_ns is None,
        o.start_ns is None,
        o.submit_ns == s.clock,
    ensures
        follows(z, (SimState { ops: s.ops.insert(id, o), ..s })),
        counted(z, s) ==> unstarted(s.ops.insert(id, o), s.running, id),
        forall|me: OpId|
            touched(z, s, me) ==> #[trigger] touched(
                z,
                (SimState { ops: s.ops.insert(id, o), ..s }),
                me,
            ),
{
    reveal(follows);
    reveal(only_touched);
    if counted(z, s) {
        order_new(s.ops, s.clock, s.running, id, o);
        times_kept_on(z.ops, z.clock, s.ops, s.clock, s.ops.insert(id, o));
    }
}

/// A change of an operation in what the order of operations does not speak of continues a history.
pub proof fn op_note_follows(z: SimState, s: SimState, id: OpId, o: OpView)
    requires
        follows(z, s),
        s.ops.contains_key(id),
        o == (OpView {
            skipped: o.skipped,
            pdl_trigger_ns: o.pdl_trigger_ns,
            domain_fence_paid: o.domain_fence_paid,
            ..s.ops[id]
        }),
    ensures
        follows(z, (SimState { ops: s.ops.insert(id, o), ..s })),
        touched(z, s, id) ==> touched(z, (SimState { ops: s.ops.insert(id, o), ..s }), id),
        counted(z, s) && able(s.ops, s.running, id) ==> able(s.ops.insert(id, o), s.running, id),
{
    reveal(follows);
    reveal(only_touched);
    if counted(z, s) {
        order_note(s.ops, s.clock, s.running, id, o);
        times_kept_on(z.ops, z.clock, s.ops, s.clock, s.ops.insert(id, o));
    }
}

/// The end of an operation that is not in flight any more continues a history.
pub proof fn op_end_follows(z: SimState, s: SimState, id: OpId, o: OpView)
    requires
        follows(z, s),
        s.ops.contains_key(id),
        counted(z, s) ==> !in_flight(s.running, id) && unended(s.ops, s.clock, id),
        s.ops[id].cancelled ==> o.cancelled,
        o == (OpView { done: true, done_ns: Some(s.clock), cancelled: o.cancelled, ..s.ops[id] }),
    ensures
        follows(z, (SimState { ops: s.ops.insert(id, o), ..s })),
        touched(z, s, id) ==> touched(z, (SimState { ops: s.ops.insert(id, o), ..s }), id),
{
    reveal(follows);
    reveal(only_touched);
    if counted(z, s) {
        order_end(s.ops, s.clock, s.running, id, o);
        times_kept_on(z.ops, z.clock, s.ops, s.clock, s.ops.insert(id, o));
    }
}

/// The start of an operation in flight continues a history.
pub proof fn op_start_follows(z: SimState, s: SimState, id: OpId, o: OpView)
    requires
        follows(z, s),
        s.ops.contains_key(id),
        s.is_running(id),
        s.ops[id].start_ns is None,
        o == (OpView { start_ns: Some(s.clock), ..s.ops[id] }),
    ensures
        follows(z, (SimState { ops: s.ops.insert(id, o), ..s })),
        touched(z, s, id) ==> touched(z, (SimState { ops: s.ops.insert(id, o), ..s }), id),
{
    reveal(follows);
    reveal(only_touched);
    if counted(z, s) {
        order_start(s.ops, s.clock, s.running, id, o);
        times_kept_on(z.ops, z.clock, s.ops, s.clock, s.ops.insert(id, o));
    }
}

/// Putting an operation in flight that can be continues a history.
pub proof fn run_follows(z: SimState, s: SimState, r: Running)
    requires
        follows(z, s),
        counted(z, s) ==> able(s.ops, s.running, r.op),
    ensures
        follows(z, (SimState { running: s.running.push(r), ..s })),
        touched(z, s, r.op) ==> touched(
            z,
            (SimState { running: s.running.push(r), ..s }),
            r.op,
        ),
{
    reveal(follows);
    reveal(only_touched);
    if counted(z, s) {
        order_run(s.ops, s.clock, s.running, r);
        let t = s.running.push(r);
        assert forall|k: OpId| #[trigger] in_flight(t, k) implies in_flight(s.running, k) || k
            == r.op by {
            let i = choose|i: int| 0 <= i < t.len() && (#[trigger] t[i]).op == k;
            if i < s.running.len() {
                assert(s.running[i].op == k);
            }
        }
    }
}

/// Operations in flight that leave or progress continue a history.
pub proof fn fewer_follows(z: SimState, s: SimState, left: Seq<Running>)
    requires
        follows(z, s),
        forall|i: int| 0 <= i < left.len() ==> in_flight(s.running, (#[trigger] left[i]).op),
    ensures
        follows(z, (SimState { running: left, ..s })),
{
    reveal(follows);
    if counted(z, s) {
        order_fewer(s.ops, s.clock, s.running, left);
    }
}

/// [`Sim::add_op_dep`] continues the history of an operation that has yet to start, or is not in
/// flight and was submitted before the other.
pub proof fn add_op_dep_follows(z: SimState, s0: SimState, id: OpId, dep: OpId)
    requires
        follows(z, s0),
        counted(z, s0) ==> unstarted(s0.ops, s0.running, id) || (!in_flight(s0.running, id)
            && s0.ops.contains_key(dep) && dep.0 > id.0),
    ensures
        follows(z, s0.add_op_dep(id, dep)),
        touched(z, s0, id) ==> touched(z, s0.add_op_dep(id, dep), id),
        unstarted(s0.ops, s0.running, id) ==> unstarted(
            s0.add_op_dep(id, dep).ops,
            s0.running,
            id,
        ),
{
    reveal(follows);
    reveal(only_touched);
    reveal(unstarted);
    if s0.ops.contains_key(id) {
        let o = OpView { deps: with_new(s0.ops[id].deps, dep), ..s0.ops[id] };
        if counted(z, s0) {
            order_dep(s0.ops, s0.clock, s0.running, id, dep, o);
            times_kept_on(z.ops, z.clock, s0.ops, s0.clock, s0.ops.insert(id, o));
        }
    }
}

/// Among the operations known before only `me` has changed, and no other has been put in flight.
#[verifier::opaque]
pub open spec fn only_touched(
    ops: Map<OpId, OpView>,
    running: Seq<Running>,
    new_ops: Map<OpId, OpView>,
    new_running: Seq<Running>,
    me: OpId,
) -> bool {
    &&& forall|k: OpId| #[trigger]
        ops.contains_key(k) ==> {
            &&& new_ops.contains_key(k)
            &&& k != me ==> new_ops[k] == ops[k]
            &&& new_ops[k].attrs == ops[k].attrs
            &&& new_ops[k].device == ops[k].device
            &&& new_ops[k].stream == ops[k].stream
            &&& ops[k].done ==> new_ops[k].done
        }
    &&& forall|k: OpId| #[trigger]
        in_flight(new_running, k) ==> in_flight(running, k) || k == me
}

/// Since `z`, among the operations known there only `me` has changed, and no other has been put in
/// flight.
pub open spec fn touched(z: SimState, s: SimState, me: OpId) -> bool {
    counted(z, s) ==> only_touched(z.ops, z.running, s.ops, s.running, me)
}

/// Nothing has changed.
pub proof fn touched_nothing(s: SimState, me: OpId)
    ensures
        touched(s, s, me),
{
    reveal(only_touched);
}

/// What could be put in flight still can, once another operation was.
pub proof fn touched_able(z: SimState, s: SimState, me: OpId, id: OpId)
    requires
        touched(z, s, me),
        counted(z, s),
        able(z.ops, z.running, id),
        id != me,
    ensures
        able(s.ops, s.running, id),
{
    reveal(only_touched);
    reveal(able);
    let o = z.ops[id];
    assert(s.ops[id] == o);
    assert forall|i: int| 0 <= i < o.deps.len() implies s.ops.contains_key(#[trigger] o.deps[i])
        && (awaits(o, s.ops[o.deps[i]]) ==> s.ops[o.deps[i]].done) by {
        assert(z.ops.contains_key(o.deps[i]));
    }
}

/// What can be put in flight is not there, and has not ended.
pub proof fn able_is_idle(ops: Map<OpId, OpView>, running: Seq<Running>, id: OpId)
    ensures
        able(ops, running, id) ==> ops.contains_key(id) && !ops[id].done && !in_flight(running, id),
{
    reveal(able);
}

/// Every known operation was submitted before the next one.
pub proof fn known_is_older(z: SimState, s: SimState, id: OpId)
    requires
        follows(z, s),
    ensures
        counted(z, s) && s.ops.contains_key(id) ==> id.0 < s.next.op,
{
    reveal(follows);
}

/// The next operation to be submitted is not in flight.
pub proof fn next_unstarted(z: SimState, s: SimState)
    requires
        follows(z, s),
    ensures
        counted(z, s) ==> unstarted(s.ops, s.running, OpId(s.next.op)),
{
    reveal(follows);
    if counted(z, s) {
        order_unknown(s.ops, s.clock, s.running, OpId(s.next.op));
    }
}

/// A change of a GPU that charges no more memory than before and stays within its slots and engines
/// continues a history.
pub proof fn gpu_follows(z: SimState, s: SimState, d: DeviceId, rt: GpuRtView)
    requires
        follows(z, s),
        s.gpus.contains_key(d),
        rt.used <= s.gpus[d].used,
        rt.compute <= s.gpus[d].compute || match s.profile.gpu(d) {
            Ok(g) => rt.compute <= max_u8(g.compute_slots, 1),
            Err(_e) => false,
        },
        rt.copies <= s.gpus[d].copies || match s.profile.gpu(d) {
            Ok(g) => rt.copies <= g.copy_engines,
            Err(_e) => false,
        },
    ensures
        follows(z, (SimState { gpus: s.gpus.insert(d, rt), ..s })),
{
    reveal(follows);
}

/// A change of a known graph that leaves it sound, or a new sound one with a number before the next
/// one, continues a history.
pub proof fn graph_follows(z: SimState, s: SimState, id: GraphId, g: GraphView)
    requires
        follows(z, s),
        s.graphs.contains_key(id) || (s.next.graph < u32::MAX ==> id.0 < s.next.graph),
        planned(z, s) ==> graph_fits(s, id, g),
    ensures
        follows(z, (SimState { graphs: s.graphs.insert(id, g), ..s })),
{
    reveal(follows);
    reveal(crate::history::shape::sound_graphs);
    reveal(crate::history::shape::sound_capture);
}

/// A change of a known pool, or a new one with a number before the next one, continues a history.
pub proof fn pool_follows(z: SimState, s: SimState, id: PoolId, p: PoolView)
    requires
        follows(z, s),
        s.pools.contains_key(id) || (s.next.pool < u32::MAX ==> id.0 < s.next.pool),
        settled(z, s) ==> pool_fits(s, id, p),
    ensures
        follows(z, (SimState { pools: s.pools.insert(id, p), ..s })),
{
    reveal(follows);
    reveal(crate::history::ranges::pools_sound);
}

/// The next operation, allocation, graph and pool have new numbers.
pub proof fn next_ids_new(z: SimState, s: SimState)
    requires
        follows(z, s),
    ensures
        z.numbered() && s.next.op < u64::MAX ==> !s.ops.contains_key(OpId(s.next.op)),
        z.numbered() && s.next.alloc < u64::MAX ==> !s.allocs.contains_key(AllocId(s.next.alloc)),
        z.numbered() && s.next.graph < u32::MAX ==> !s.graphs.contains_key(GraphId(s.next.graph)),
        z.numbered() && s.next.pool < u32::MAX ==> !s.pools.contains_key(PoolId(s.next.pool)),
{
    reveal(follows);
}

/// The copies have numbers before the next one.
pub open spec fn copies_numbered(remap: Map<GraphId, GraphId>, next: u32) -> bool {
    next < u32::MAX ==> forall|k: GraphId| #[trigger] remap.contains_key(k) ==> remap[k].0 < next
}

/// [`Sim::number_clones`] continues the history, from position `i` on.
pub proof fn number_clones_from_follows(
    z: SimState,
    s0: SimState,
    order: Seq<GraphId>,
    remap: Map<GraphId, GraphId>,
    i: int,
)
    requires
        follows(z, s0),
        copies_numbered(remap, s0.next.graph),
    ensures
        s0.number_clones_from(order, remap, i).0.capturing == s0.capturing,
        follows(z, s0.number_clones_from(order, remap, i).0),
        copies_numbered(
            s0.number_clones_from(order, remap, i).1,
            s0.number_clones_from(order, remap, i).0.next.graph,
        ),
    decreases order.len() - i,
{
    if 0 <= i < order.len() {
        let id = GraphId(s0.next.graph);
        let s = SimState {
            next: NextIds { graph: s0.next.graph.saturating_add(1), ..s0.next },
            ..s0
        };
        assert(follows(z, s)) by {
            reveal(follows);
        }
        number_clones_from_follows(z, s, order, remap.insert(order[i], id), i + 1);
    }
}

/// [`Sim::number_clones`] continues the history.
pub proof fn number_clones_follows(z: SimState, s0: SimState, order: Seq<GraphId>)
    requires
        follows(z, s0),
    ensures
        s0.number_clones(order).0.capturing == s0.capturing,
        follows(z, s0.number_clones(order).0),
        copies_numbered(s0.number_clones(order).1, s0.number_clones(order).0.next.graph),
{
    number_clones_from_follows(z, s0, order, Map::empty(), 0);
}

/// [`Sim::clone_graph`] continues the history.
pub proof fn clone_graph_follows(z: SimState, s0: SimState, graph: GraphId)
    requires
        follows(z, s0),
    ensures
        follows(z, s0.clone_graph(graph).0),
{
    let none = Seq::<GraphId>::empty();
    match s0.collect_clone_tree(graph, none, none, s0.tree_fuel()) {
        Err(_e) => {},
        Ok(order) => if s0.capturing is None {
            number_clones_follows(z, s0, order);
            let (s1, remap) = s0.number_clones(order);
            let origins = s1.origins_of(order);
            build_clones_follows(z, s1, order, remap);
            match s1.build_clones(order, remap) {
                (_s2, Err(_e)) => {},
                (s2, Ok(built)) => {
                    follows_itself(s1);
                    build_clones_follows(s1, s1, order, remap);
                    history(s1, s2);
                    assert(copies_numbered(remap, s2.next.graph));
                    build_clones_keeps_capture(s1, order, remap);
                    if planned(z, s2) {
                        history(z, s1);
                        copies_are_sound(s1, order, remap, Seq::empty(), 0);
                        build_clones_keeps_profile(s1, order, remap);
                    }
                    insert_clones_follows(z, s2, order, remap, origins, built);
                    match s2.insert_clones(order, remap, origins, built) {
                        (_s3, Err(_e)) => {},
                        (s3, Ok(_v)) => {
                            note_clones_follows(z, s3, remap);
                            clone_conditionals_follows(z, s3.note_clones(remap), remap);
                        },
                    }
                },
            }
        },
    }
}

/// Charging a replica uses no copy engine.
pub proof fn replica_keeps_engines(s: SimState, m: MemcpyOp)
    ensures
        s.charge_replica_hbm(m).0.profile == s.profile,
        forall|d: DeviceId| #[trigger]
            s.gpus.contains_key(d) ==> s.charge_replica_hbm(m).0.gpus[d].copies == s.gpus[d].copies,
{
    reveal(SimState::reserve_hbm);
}

/// [`Sim::reserve_hbm`] continues the history.
pub proof fn reserve_hbm_follows(z: SimState, s0: SimState, device: DeviceId, bytes: u64)
    requires
        follows(z, s0),
    ensures
        follows(z, s0.reserve_hbm(device, bytes).0),
{
    reveal(SimState::reserve_hbm);
    reveal(follows);
    let t = s0.reserve_hbm(device, bytes).0;
    assert(s0.bump_hbm_peak(device).0.gpus == s0.gpus);
    if s0.within_limits() && t != s0 {
        assert forall|d: DeviceId| #[trigger] t.gpus.contains_key(d) implies t.gpus[d].used
            <= t.hbm_peak by {
            assert(s0.gpus.contains_key(d));
        }
    }
}

} // verus!
