//! Readings: what is asked of graphs, memory and devices is what was put there.
use vstd::prelude::*;
use crate::error::SimError;
use crate::ids::{AllocId, CondId, DeviceId, EventId, GraphId, Lane, OpId, StreamId};
use crate::laws::admission::usable_on;
use crate::laws::answers::truth;
use crate::laws::costs::{held, no_less};
use crate::laws::launching::in_good_order;
use crate::laws::shorthand::{held_wait_value, held_write_value, taken_is_gone};
use crate::laws::submission::submitted_is_queued;
use crate::list::{lemma_picked_holds, with_new};
use crate::ops::{
    BatchMemOp, FuncAttr, GpuOpView, GraphInstantiateFlags, KernelBuf, KernelKind, strided_extent,
};
use crate::sim::SimState;
use crate::state::{Alloc, LaunchCost};

verus! {

/// What a node of a graph holds is read as it is, and a node of another kind is refused.
pub proof fn nodes_are_read_as_they_are(s: SimState, graph: GraphId, id: GraphId, node: usize)
    requires
        s.resolved_graph(graph) == Ok::<GraphId, SimError>(id),
        s.graphs.contains_key(id),
        node < s.graphs[id].current().len(),
        !s.graphs[id].current()[node as int].destroyed,
    ensures
        ({
            let k = s.graphs[id].current()[node as int].kind;
            &&& k is ChildGraph ==> s.graph_child_get_graph(graph, node) == Ok::<GraphId, SimError>(
                k->ChildGraph_graph,
            )
            &&& !(k is ChildGraph) ==> s.graph_child_get_graph(graph, node) is Err
            &&& k is EventRecord ==> s.graph_event_record_get_event(graph, node) == Ok::<
                EventId,
                SimError,
            >(k->EventRecord_event)
            &&& !(k is EventRecord) ==> s.graph_event_record_get_event(graph, node) is Err
            &&& k is EventWait ==> s.graph_event_wait_get_event(graph, node) == Ok::<
                EventId,
                SimError,
            >(k->EventWait_event)
            &&& !(k is EventWait) ==> s.graph_event_wait_get_event(graph, node) is Err
            &&& k is Alloc ==> s.graph_alloc_get_params(graph, node) == Ok::<
                (AllocId, u64),
                SimError,
            >((k->Alloc_id, k->Alloc_bytes))
            &&& !(k is Alloc) ==> s.graph_alloc_get_params(graph, node) is Err
            &&& k is Free ==> s.graph_free_get_params(graph, node) == Ok::<AllocId, SimError>(
                k->Free_id,
            )
            &&& !(k is Free) ==> s.graph_free_get_params(graph, node) is Err
            &&& k is BatchMem ==> s.graph_batch_mem_ops(graph, node) == Ok::<
                Seq<BatchMemOp>,
                SimError,
            >(k->ops)
            &&& k is WriteValue ==> s.graph_batch_mem_ops(graph, node)->Ok_0.len() == 1
                && held_write_value(k) == Some(s.graph_batch_mem_ops(graph, node)->Ok_0[0])
            &&& k is WaitValue ==> s.graph_batch_mem_ops(graph, node)->Ok_0.len() == 1
                && held_wait_value(k) == Some(s.graph_batch_mem_ops(graph, node)->Ok_0[0])
        }),
{
}

/// Child, if and while nodes are listed with what they launch, and nothing else is listed.
pub proof fn nested_nodes_are_listed(s: SimState, graph: GraphId, i: usize, h: CondId, b: GraphId)
    requires
        s.graphs.contains_key(graph),
        s.graphs[graph].steps.len() <= usize::MAX,
    ensures
        ({
            let q = s.graphs[graph].steps;
            let live = i < q.len() && !q[i as int].destroyed;
            &&& s.graph_if_nodes(graph) is Ok
            &&& s.graph_if_nodes(graph)->Ok_0.contains((i, h, b)) <==> live && q[i as int].kind == (
            GpuOpView::If { handle: h, body: b })
            &&& s.graph_while_nodes(graph) is Ok
            &&& s.graph_while_nodes(graph)->Ok_0.contains((i, h, b)) <==> live && q[i as int].kind
                == (GpuOpView::While { handle: h, body: b })
        }),
{
    let g = s.graphs[graph];
    let q = g.steps;
    let f = |k: int| s.graph_if_nodes_at(g, k);
    let w = |k: int| s.graph_while_nodes_at(g, k);
    lemma_picked_holds(q.len(), f, (i, h, b));
    lemma_picked_holds(q.len(), w, (i, h, b));
    if i < q.len() {
        assert(f(i as int) == s.graph_if_nodes_at(g, i as int));
        assert(w(i as int) == s.graph_while_nodes_at(g, i as int));
    }
    if exists|k: int| 0 <= k < q.len() && #[trigger] f(k) == Some((i, h, b)) {
        let k = choose|k: int| 0 <= k < q.len() && #[trigger] f(k) == Some((i, h, b));
        assert(k == i);
    }
    if exists|k: int| 0 <= k < q.len() && #[trigger] w(k) == Some((i, h, b)) {
        let k = choose|k: int| 0 <= k < q.len() && #[trigger] w(k) == Some((i, h, b));
        assert(k == i);
    }
}

/// A new graph is an empty definition on its stream.
pub proof fn new_graph_is_empty(s: SimState, device: DeviceId, stream: StreamId)
    requires
        s.create_graph(device, stream).1 is Ok,
    ensures
        ({
            let (t, r) = s.create_graph(device, stream);
            let g = t.graphs[r->Ok_0];
            &&& s.capturing is None
            &&& s.profile.gpu(device) is Ok
            &&& r->Ok_0 == GraphId(s.next.graph)
            &&& t.graphs == s.graphs.insert(r->Ok_0, g)
            &&& g.steps.len() == 0
            &&& g.origin == Lane(device, stream)
            &&& !g.instantiated
            &&& g.src is None
            &&& g.primary_exec is None
            &&& t.graph_len(r->Ok_0) == Ok::<usize, SimError>(0)
            &&& t.clock == held(s.clock + 1)
        }),
{
    reveal(SimState::insert_graph);
}

/// An instantiation without flags, and one that frees its memory before each launch, are
/// instantiations with these flags, and the flags are read back from what they give.
pub proof fn flags_are_those_of_instantiation(s: SimState, graph: GraphId, flags: u32)
    ensures
        s.instantiate_graph(graph) == s.instantiate_graph_with_flags(graph, 0),
        s.instantiate_graph_auto_free(graph) == s.instantiate_graph_with_flags(
            graph,
            GraphInstantiateFlags::AUTO_FREE_ON_LAUNCH,
        ),
        s.as_exec(graph) is Ok && s.graphs.contains_key(s.as_exec(graph)->Ok_0) ==> {
            let x = s.graphs[s.as_exec(graph)->Ok_0];
            &&& s.graph_exec_get_flags(graph) == Ok::<u32, SimError>(x.instantiate_flags)
            &&& s.graph_auto_free_on_launch(graph) == Ok::<bool, SimError>(x.auto_free_on_launch)
        },
{
}

/// Memory is on a GPU exactly where it lives there. A range of addresses is there where maps cover it.
pub proof fn residence_is_told(s: SimState, id: AllocId, device: DeviceId, stream: StreamId)
    requires
        s.allocs.contains_key(id),
    ensures
        ({
            let a = s.allocs[id];
            &&& s.is_resident(id, device) is Ok
            &&& !a.live ==> !s.is_resident(id, device)->Ok_0
            &&& a.live && !a.vmm ==> (s.is_resident(id, device)->Ok_0 <==> a.devices.contains(
                device,
            ))
            &&& s.is_host_pinned(id) == Ok::<bool, SimError>(a.live && a.host_pinned)
            &&& s.is_host_mapped(id) == Ok::<bool, SimError>(a.live && a.host_mapped)
            &&& s.is_vmm(id) == Ok::<bool, SimError>(a.live && a.vmm)
            &&& s.is_attached_to(id, stream) == Ok::<bool, SimError>(usable_on(a, stream))
        }),
{
}

/// The function attributes of a device are read together as they are read one by one.
pub proof fn function_attributes_agree(s: SimState, device: DeviceId)
    requires
        s.profile.gpu(device) is Ok,
        s.func_get_attribute(device, FuncAttr::MaxDynamicSharedMemorySize) is Ok,
    ensures
        ({
            let p = s.func_get_attributes(device)->Ok_0;
            &&& s.func_get_attributes(device) is Ok
            &&& p.max_dynamic_shared_size_bytes == s.func_get_attribute(
                device,
                FuncAttr::MaxDynamicSharedMemorySize,
            )->Ok_0
            &&& truth(p.non_portable_cluster_size_allowed) == s.func_get_attribute(
                device,
                FuncAttr::NonPortableClusterSizeAllowed,
            )->Ok_0
        }),
{
}

/// A word that is written or waited for is aligned to its width and lies in its allocation.
pub proof fn words_lie_in_memory(s: SimState, op: BatchMemOp)
    requires
        s.check_batch_mem(op) is Ok,
    ensures
        ({
            let (id, offset, width) = match op {
                BatchMemOp::Write { id, offset, bits32, .. } => (
                    id,
                    offset,
                    if bits32 {
                        4u64
                    } else {
                        8u64
                    },
                ),
                BatchMemOp::Wait { id, offset, bits32, .. } => (
                    id,
                    offset,
                    if bits32 {
                        4u64
                    } else {
                        8u64
                    },
                ),
            };
            &&& s.allocs.contains_key(id)
            &&& offset % width == 0
            &&& held(offset + width) <= s.allocs[id].bytes
        }),
{
}

/// The rows of a strided copy or fill end where the last row of the last slice ends.
pub proof fn strided_work_ends_with_its_last_row(
    width: u64,
    height: u64,
    depth: u64,
    pitch: u64,
    rows: u64,
)
    requires
        height > 0,
        depth > 0,
        pitch * rows <= u64::MAX,
        (depth - 1) * (pitch * rows) <= u64::MAX,
        (height - 1) * pitch <= u64::MAX,
        (depth - 1) * (pitch * rows) + (height - 1) * pitch + width <= u64::MAX,
    ensures
        strided_extent(width, height, depth, pitch, rows) == (depth - 1) * (pitch * rows) + (height
            - 1) * pitch + width,
{
}

/// Persisting lines are reset on their device alone, and the limit stays.
pub proof fn reset_drops_lines(s: SimState, device: DeviceId, other: DeviceId)
    requires
        s.reset_persisting_l2_cache(device).1 is Ok,
    ensures
        ({
            let t = s.reset_persisting_l2_cache(device).0;
            &&& t.gpus[device].persist_lines.len() == 0
            &&& t.gpus[device].persist_limit == s.gpus[device].persist_limit
            &&& t.gpus[device].used == s.gpus[device].used
            &&& other != device && s.gpus.contains_key(other) ==> t.gpus[other] == s.gpus[other]
        }),
{
}

/// Persisting lines are switched on with all of the cache of a device as their limit, on every
/// device.
pub proof fn persisting_is_enabled_everywhere(s: SimState, i: int)
    requires
        s.enable_persisting_l2().1 is Ok,
        0 <= i < s.profile.gpus.len(),
        forall|a: int, b: int|
            0 <= a < b < s.profile.gpus.len() ==> (#[trigger] s.profile.gpus[a]).id != (
            #[trigger] s.profile.gpus[b]).id,
    ensures
        ({
            let t = s.enable_persisting_l2().0;
            let g = s.profile.gpus[i];
            &&& g.l2_bytes > 0
            &&& t.gpus[g.id].persist_limit == g.l2_bytes
        }),
{
    lemma_enabled(s, 0, i);
}

proof fn lemma_enabled(s: SimState, j: int, i: int)
    requires
        s.enable_persisting_l2_from(j).1 is Ok,
        0 <= j,
        0 <= i < s.profile.gpus.len(),
        forall|a: int, b: int|
            0 <= a < b < s.profile.gpus.len() ==> (#[trigger] s.profile.gpus[a]).id != (
            #[trigger] s.profile.gpus[b]).id,
        i < j ==> s.profile.gpus[i].l2_bytes > 0 && s.gpus[s.profile.gpus[i].id].persist_limit
            == s.profile.gpus[i].l2_bytes,
    ensures
        ({
            let t = s.enable_persisting_l2_from(j).0;
            let g = s.profile.gpus[i];
            &&& g.l2_bytes > 0
            &&& t.gpus[g.id].persist_limit == g.l2_bytes
        }),
    decreases s.profile.gpus.len() - j,
{
    if j < s.profile.gpus.len() {
        let g = s.profile.gpus[j];
        let t = s.set_persisting_l2_cache_size(g.id, g.l2_bytes).0;
        assert(t.profile == s.profile);
        lemma_enabled(t, j + 1, i);
    }
}

/// A range that is taken is the whole of it mapped on the GPU, and has the size asked for.
pub proof fn acquired_range_is_mapped(s: SimState, device: DeviceId, bytes: u64)
    requires
        s.va_acquire(device, bytes).1 is Ok,
    ensures
        ({
            let (t, r) = s.va_acquire(device, bytes);
            let u = s.idle_or_new_va(bytes).0;
            let a = t.allocs[r->Ok_0];
            &&& s.idle_or_new_va(bytes).1 == r
            &&& a.live && a.vmm
            &&& a.vmm_maps == u.allocs[r->Ok_0].vmm_maps.push((device, 0, a.bytes))
            &&& a.devices.contains(device)
        }),
{
    reveal(SimState::reserve_hbm);
    let u = s.idle_or_new_va(bytes).0;
    let id = s.idle_or_new_va(bytes).1->Ok_0;
    let q = with_new(u.allocs[id].devices, device);
    if !u.allocs[id].devices.contains(device) {
        assert(q[u.allocs[id].devices.len() as int] == device);
    }
}

/// A range that is freed is dead and is not idle.
pub proof fn freed_range_is_gone(s: SimState, id: AllocId, x: AllocId)
    requires
        s.va_free(id).1 is Ok,
    ensures
        ({
            let t = s.va_free(id).0;
            &&& s.allocs[id].live && s.allocs[id].vmm && s.allocs[id].devices.len() == 0
            &&& !t.allocs[id].live
            &&& t.vmm_idle.contains(x) <==> s.vmm_idle.contains(x) && x != id
        }),
{
    taken_is_gone(s.vmm_idle, id, x);
}

/// A cooperative kernel is taken only by a device that has such launches.
pub proof fn cooperative_kernels_need_support(
    s: SimState,
    device: DeviceId,
    kind: KernelKind,
    reads: Seq<KernelBuf>,
    writes: Seq<KernelBuf>,
    stream: StreamId,
)
    requires
        s.cooperative_kernel_bufs(device, kind, reads, writes, stream).1 is Ok,
        s.capturing is None,
    ensures
        ({
            let (t, r) = s.cooperative_kernel_bufs(device, kind, reads, writes, stream);
            &&& s.profile.gpu(device)->Ok_0.cooperative_launch
            &&& t.ops[r->Ok_0].kind is Kernel
            &&& t.ops[r->Ok_0].kind->cooperative
            &&& t.ops[r->Ok_0].kind->Kernel_kind == kind
        }),
{
    let rd = s.resolve_bufs(reads)->Ok_0;
    let wr = s.resolve_bufs(writes)->Ok_0;
    submitted_is_queued(
        s,
        device,
        stream,
        GpuOpView::Kernel { kind, reads: rd, writes: wr, cooperative: true },
    );
}

proof fn lemma_frees(
    s: SimState,
    device: DeviceId,
    stream: StreamId,
    ids: Seq<AllocId>,
    i: int,
    j: int,
)
    requires
        0 <= i <= j < ids.len(),
        s.capturing is None,
        s.allocs.contains_key(ids[j]),
        s.allocs[ids[j]].live,
        s.allocs[ids[j]].devices.contains(device),
        in_good_order(s, ids.len() - i),
        s.free_each_from(device, stream, ids, i).1 is Ok,
    ensures
        ({
            let t = s.free_each_from(device, stream, ids, i).0;
            exists|k: OpId| #[trigger]
                t.ops.contains_key(k) && k.0 >= s.next.op && t.ops[k].kind == (GpuOpView::Free {
                    id: ids[j],
                }) && t.ops[k].device == device && t.ops[k].stream == stream
        }),
    decreases ids.len() - i,
{
    let a = s.allocs[ids[i]];
    let live = s.allocs.contains_key(ids[i]) && a.live && a.devices.contains(device);
    if !live {
        lemma_frees(s, device, stream, ids, i + 1, j);
    } else {
        let kind = GpuOpView::Free { id: ids[i] };
        free_is_submitted(s, device, stream, ids[i]);
        let t = s.submit_launch(device, stream, kind, LaunchCost::GraphBody).0;
        if i == j {
            let k = OpId(s.next.op);
            lemma_frees_keep(t, device, stream, ids, i + 1, k);
            let u = t.free_each_from(device, stream, ids, i + 1).0;
            assert(u.ops.contains_key(k));
        } else {
            lemma_frees(t, device, stream, ids, i + 1, j);
        }
    }
}

proof fn lemma_frees_keep(
    s: SimState,
    device: DeviceId,
    stream: StreamId,
    ids: Seq<AllocId>,
    i: int,
    k: OpId,
)
    requires
        0 <= i,
        in_good_order(s, no_less(ids.len() - i, 0)),
        s.ops.contains_key(k),
        s.free_each_from(device, stream, ids, i).1 is Ok,
    ensures
        ({
            let t = s.free_each_from(device, stream, ids, i).0;
            t.ops.contains_key(k) && t.ops[k] == s.ops[k]
        }),
    decreases ids.len() - i,
{
    if i < ids.len() {
        let a = s.allocs[ids[i]];
        let live = s.allocs.contains_key(ids[i]) && a.live && a.devices.contains(device);
        if !live {
            lemma_frees_keep(s, device, stream, ids, i + 1, k);
        } else {
            free_is_submitted(s, device, stream, ids[i]);
            let kind = GpuOpView::Free { id: ids[i] };
            let t = s.submit_launch(device, stream, kind, LaunchCost::GraphBody).0;
            lemma_frees_keep(t, device, stream, ids, i + 1, k);
        }
    }
}

/// A free that goes before a launch is one more operation, and everything else is in order as before.
pub proof fn free_is_submitted(s: SimState, device: DeviceId, stream: StreamId, id: AllocId)
    requires
        s.capturing is None,
        s.next.op < u64::MAX,
        forall|k: OpId| #[trigger] s.ops.contains_key(k) ==> k.0 < s.next.op,
        s.submit_launch(device, stream, GpuOpView::Free { id }, LaunchCost::GraphBody).1 is Ok,
    ensures
        ({
            let t = s.submit_launch(
                device,
                stream,
                GpuOpView::Free { id },
                LaunchCost::GraphBody,
            ).0;
            let k = OpId(s.next.op);
            &&& t.ops == s.ops.insert(k, t.ops[k])
            &&& t.ops[k].kind == (GpuOpView::Free { id })
            &&& t.ops[k].device == device
            &&& t.ops[k].stream == stream
            &&& t.next.op == s.next.op + 1
            &&& t.capturing is None
            &&& t.allocs == s.allocs
        }),
{
    reveal(SimState::submit_live);
}

/// An executable that frees its memory on launch first frees each of its allocations that is still on
/// the GPU.
pub proof fn launch_frees_what_is_left(s: SimState, graph: GraphId, stream: StreamId, j: int)
    requires
        s.graphs.contains_key(graph),
        s.graphs[graph].auto_free_on_launch,
        0 <= j < s.graph_mem_ids(graph).len(),
        s.allocs.contains_key(s.graph_mem_ids(graph)[j]),
        s.allocs[s.graph_mem_ids(graph)[j]].live,
        s.allocs[s.graph_mem_ids(graph)[j]].devices.contains(s.graphs[graph].origin.0),
        in_good_order(s, s.graph_mem_ids(graph).len() as int),
        s.enqueue_auto_frees(graph, stream).1 is Ok,
    ensures
        ({
            let t = s.enqueue_auto_frees(graph, stream).0;
            exists|k: OpId| #[trigger]
                t.ops.contains_key(k) && k.0 >= s.next.op && t.ops[k].kind == (GpuOpView::Free {
                    id: s.graph_mem_ids(graph)[j],
                }) && t.ops[k].device == s.graphs[graph].origin.0 && t.ops[k].stream == stream
        }),
{
    lemma_frees(s, s.graphs[graph].origin.0, stream, s.graph_mem_ids(graph), 0, j);
}

} // verus!
