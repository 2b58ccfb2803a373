//! What operations cost: how long they stay in flight once they start.
use vstd::prelude::*;
use crate::error::SimError;
use crate::history::{follows_itself, replica_keeps_engines};
use crate::ids::{AllocId, DeviceId, Lane, OpId, StreamId};
use crate::laws::frames::{
    bill_kernel_keeps_work, bill_memset_keeps_work, charge_replica_hbm_keeps_rates,
    charge_replica_hbm_keeps_work, invalidate_read_mostly_writes_keeps_rates,
    invalidate_read_mostly_writes_keeps_work, lease_kernel_keeps_rates, lease_kernel_keeps_work,
    lease_parts_keeps_work, mark_recorded_keeps_work, take_compute_keeps_work,
    take_compute_n_keeps_rates, take_compute_n_keeps_work,
};
use crate::list::lemma_ok_each;
use crate::num::{max_u64, min_u64, mul_sat};
use crate::ops::{
    DType, GpuOpView, KernelBuf, KernelKind, MemcpyOp, MemsetOp, Place, SharedMemoryMode,
};
use crate::profile::{GpuProfile, Link, link_index_from, ns_for_bytes, ProfileView};
use crate::sim::SimState;
use crate::state::{AllocView, Attach, LaunchCost, Running, Share};
use crate::table::{lemma_order_exists, order_of};

verus! {

/// A number, or the last one that a counter can hold where it is larger.
pub open spec fn held(n: int) -> int {
    if n > u64::MAX {
        u64::MAX as int
    } else {
        n
    }
}

/// The larger of two numbers.
pub open spec fn no_less(n: int, least: int) -> int {
    if n < least {
        least
    } else {
        n
    }
}

/// Whole nanoseconds in which `n` units pass at a rate a second. A rate of none counts as one.
pub open spec fn time_for(n: int, rate: int) -> int {
    let r = no_less(rate, 1);
    held((n * 1_000_000_000 + r - 1) / r)
}

/// In this time the units pass, and in a nanosecond less they do not.
pub proof fn time_is_least(n: u64, rate: u64)
    requires
        rate > 0,
        time_for(n as int, rate as int) < u64::MAX,
    ensures
        time_for(n as int, rate as int) * rate >= n * 1_000_000_000,
        n > 0 ==> (time_for(n as int, rate as int) - 1) * rate < n * 1_000_000_000,
        n == 0 ==> time_for(n as int, rate as int) == 0,
{
    let a = n * 1_000_000_000;
    let r = rate as int;
    let t = (a + r - 1) / r;
    assert(a + r - 1 == t * r + (a + r - 1) % r && 0 <= (a + r - 1) % r < r) by (nonlinear_arith)
        requires
            t == (a + r - 1) / r,
            r > 0,
            a >= 0,
    ;
    assert((t - 1) * r == t * r - r) by (nonlinear_arith);
    if n == 0 {
        assert((r - 1) / r == 0) by (nonlinear_arith)
            requires
                r > 0,
        ;
    }
}

proof fn lemma_time_counts(n: int, rate: int)
    requires
        n >= 0,
    ensures
        time_for(n, rate) >= 0,
{
    let r = no_less(rate, 1);
    assert((n * 1_000_000_000 + r - 1) / r >= 0) by (nonlinear_arith)
        requires
            r >= 1,
            n >= 0,
    ;
}

/// Element type of a kernel.
pub open spec fn element(kind: KernelKind) -> DType {
    match kind {
        KernelKind::Gemm { m: _, n: _, k: _, dtype } => dtype,
        KernelKind::GroupedMoeGemm { rows: _, n: _, k: _, experts: _, dtype } => dtype,
        KernelKind::Other { flops: _, bytes: _, dtype } => dtype,
    }
}

/// Size of an element.
pub open spec fn width(d: DType) -> int {
    match d {
        DType::F32 => 4,
        DType::F16 => 2,
        DType::Bf16 => 2,
        DType::F8 => 1,
    }
}

/// Operations of a kernel: two for each product of a matrix element.
pub open spec fn work_of(kind: KernelKind) -> int {
    match kind {
        KernelKind::Gemm { m, n, k, dtype: _ } => 2 * (m * (n * k)),
        KernelKind::GroupedMoeGemm { rows, n, k, experts: _, dtype: _ } => 2 * (rows * (n * k)),
        KernelKind::Other { flops, bytes: _, dtype: _ } => flops as int,
    }
}

/// Bytes that a kernel reads and writes: each operand and the result once, the weights once for each
/// expert.
pub open spec fn traffic_of(kind: KernelKind) -> int {
    match kind {
        KernelKind::Gemm { m, n, k, dtype } => width(dtype) * (m * k + k * n + m * n),
        KernelKind::GroupedMoeGemm { rows, n, k, experts, dtype } => width(dtype) * (rows * k
            + experts * (k * n) + rows * n),
        KernelKind::Other { flops: _, bytes, dtype: _ } => bytes as int,
    }
}

/// Peak of a GPU for an element type.
pub open spec fn peak_of(g: GpuProfile, d: DType) -> int {
    match d {
        DType::F32 => g.flops_f32 as int,
        DType::F16 => g.flops_f16 as int,
        DType::Bf16 => g.flops_f16 as int,
        DType::F8 => g.flops_f8 as int,
    }
}

/// What a launch costs before the kernel itself: a stream launch, the head of a graph, or nothing in
/// the body of a graph.
pub open spec fn launch_cost(g: GpuProfile, launch: LaunchCost) -> int {
    match launch {
        LaunchCost::Kernel => g.launch_overhead_ns as int,
        LaunchCost::GraphHead => g.graph_launch_ns as int,
        LaunchCost::GraphBody => 0,
    }
}

/// Thousandths of the multiprocessors that a stream may use.
pub open spec fn share_of(s: SimState, device: DeviceId, stream: StreamId) -> int {
    if s.sm_permille.contains_key(Lane(device, stream)) {
        no_less(s.sm_permille[Lane(device, stream)] as int, 1)
    } else {
        1000
    }
}

/// Time of a kernel: the launch, then the longer of its work at the share of the peak and of its
/// traffic at the rate of memory, stretched by how well the GPU is used and by the modes.
pub open spec fn kernel_time(
    g: GpuProfile,
    share: int,
    launch: LaunchCost,
    kind: KernelKind,
    traffic: int,
    rate: int,
    mode: SharedMemoryMode,
) -> int {
    let compute = time_for(held(work_of(kind)), held(peak_of(g, element(kind)) * share) / 1000);
    let memory = time_for(traffic, rate);
    let plain = held(held(launch_cost(g, launch) + no_less(compute, memory)) * 1000) / no_less(
        g.gemm_util_permille as int,
        1,
    );
    let grouped = if kind is GroupedMoeGemm {
        held(plain * no_less(g.grouped_moe_permille as int, 1)) / 1000
    } else {
        plain
    };
    match mode {
        SharedMemoryMode::Default => grouped,
        SharedMemoryMode::FourByte => held(grouped * g.shared_mem_four_byte_permille / 1000),
        SharedMemoryMode::EightByte => held(grouped * g.shared_mem_eight_byte_permille / 1000),
    }
}

proof fn lemma_held_product(a: u64, b: u64)
    ensures
        mul_sat(a, b) == held(a * b),
{
}

proof fn lemma_held_twice(a: u64, b: int)
    requires
        b >= 0,
    ensures
        held(a * held(b)) == held(a * b),
{
    assert(a >= 1 && b > u64::MAX ==> a * b > u64::MAX && a * u64::MAX >= u64::MAX)
        by (nonlinear_arith);
    assert(a == 0 ==> a * b == 0 && a * held(b) == 0);
}

proof fn lemma_products(a: u64, b: u64)
    ensures
        a * b >= 0,
{
    assert(a * b >= 0) by (nonlinear_arith);
}

/// What a kernel computes and touches, as far as a counter goes.
pub proof fn kernel_work_and_traffic(kind: KernelKind)
    ensures
        kind.flops() == held(work_of(kind)),
        kind.traffic() == held(traffic_of(kind)),
        kind.dtype() == element(kind),
{
    match kind {
        KernelKind::Gemm { m, n, k, dtype } => {
            lemma_products(n, k);
            lemma_products(m, k);
            lemma_products(k, n);
            lemma_products(m, n);
            lemma_held_twice(m, n * k);
            let mnk = m * (n * k);
            assert(mnk >= 0) by (nonlinear_arith)
                requires
                    mnk == m * (n * k),
                    n * k >= 0,
            ;
            lemma_held_twice(2, mnk);
            lemma_held_twice(dtype.bytes(), m * k + k * n + m * n);
            let sum = mul_sat(m, k).saturating_add(mul_sat(k, n)).saturating_add(mul_sat(m, n));
            assert(sum == held(m * k + k * n + m * n));
        },
        KernelKind::GroupedMoeGemm { rows, n, k, experts, dtype } => {
            lemma_products(n, k);
            lemma_products(k, n);
            lemma_products(rows, k);
            lemma_products(rows, n);
            lemma_held_twice(rows, n * k);
            lemma_held_twice(experts, k * n);
            let all = rows * (n * k);
            assert(all >= 0) by (nonlinear_arith)
                requires
                    all == rows * (n * k),
                    n * k >= 0,
            ;
            let weights = experts * (k * n);
            assert(weights >= 0) by (nonlinear_arith)
                requires
                    weights == experts * (k * n),
                    k * n >= 0,
            ;
            lemma_held_twice(2, all);
            lemma_held_twice(dtype.bytes(), rows * k + weights + rows * n);
            let sum = mul_sat(rows, k).saturating_add(mul_sat(experts, mul_sat(k, n)))
                .saturating_add(mul_sat(rows, n));
            assert(sum == held(rows * k + weights + rows * n));
        },
        KernelKind::Other { flops: _, bytes: _, dtype: _ } => {},
    }
}

proof fn lemma_kernel_ns(
    s: SimState,
    device: DeviceId,
    stream: StreamId,
    kind: KernelKind,
    launch: LaunchCost,
    rate: u64,
    billed: u64,
    mode: SharedMemoryMode,
)
    requires
        s.profile.gpu(device) is Ok,
    ensures
        s.kernel_ns(device, stream, kind, launch, rate, billed) is Ok,
        s.shared_mem_ns(
            device,
            mode,
            s.kernel_ns(device, stream, kind, launch, rate, billed)->Ok_0,
        ) is Ok,
        s.shared_mem_ns(
            device,
            mode,
            s.kernel_ns(device, stream, kind, launch, rate, billed)->Ok_0,
        )->Ok_0 == kernel_time(
            s.profile.gpu(device)->Ok_0,
            share_of(s, device, stream),
            launch,
            kind,
            billed as int,
            rate as int,
            mode,
        ),
{
    kernel_work_and_traffic(kind);
    let g = s.profile.gpu(device)->Ok_0;
    let sm = s.stream_sm_permille(device, stream) as u64;
    assert(sm == share_of(s, device, stream));
    lemma_held_product(g.flops(kind.dtype()), sm);
    let peak = max_u64(mul_sat(g.flops(kind.dtype()), sm) / 1000, 1);
    assert(ns_for_bytes(kind.flops(), peak) == time_for(
        held(work_of(kind)),
        held(peak_of(g, element(kind)) * sm) / 1000,
    ));
    assert(ns_for_bytes(billed, max_u64(rate, 1)) == time_for(billed as int, rate as int));
}

/// Whether memory is on a device and no multicast object.
pub open spec fn at_home(s: SimState, device: DeviceId, id: AllocId) -> bool {
    &&& s.allocs.contains_key(id)
    &&& s.allocs[id].devices.contains(device)
    &&& !s.mc_vas.contains_key(id)
}

/// Whether each buffer is on a device and no multicast object.
pub open spec fn all_at_home(s: SimState, device: DeviceId, bufs: Seq<KernelBuf>) -> bool {
    forall|i: int| 0 <= i < bufs.len() ==> at_home(s, device, (#[trigger] bufs[i]).id)
}

proof fn lemma_home_rate(s: SimState, device: DeviceId, bufs: Seq<KernelBuf>, bps: u64, i: int)
    requires
        all_at_home(s, device, bufs),
        0 <= i,
    ensures
        s.kernel_mem_bps_from(device, bufs, bps, i) == Ok::<u64, SimError>(bps),
    decreases bufs.len() - i,
{
    if i < bufs.len() {
        assert(at_home(s, device, bufs[i].id));
        lemma_home_rate(s, device, bufs, bps, i + 1);
    }
}

/// What a buffer that is not on the device is read or written at.
pub open spec fn away_rate(s: SimState, device: DeviceId, id: AllocId) -> Option<u64> {
    match s.buf_remote_bps(device, id) {
        Ok(r) => r,
        Err(_e) => None,
    }
}

proof fn lemma_slowest(s: SimState, device: DeviceId, bufs: Seq<KernelBuf>, bps: u64, i: int)
    requires
        0 <= i <= bufs.len(),
        s.kernel_mem_bps_from(device, bufs, bps, i) is Ok,
    ensures
        ({
            let r = s.kernel_mem_bps_from(device, bufs, bps, i)->Ok_0;
            &&& r <= bps
            &&& forall|j: int|
                i <= j < bufs.len() ==> match away_rate(s, device, (#[trigger] bufs[j]).id) {
                    Some(x) => r <= x,
                    None => true,
                }
            &&& r == bps || exists|j: int|
                i <= j < bufs.len() && away_rate(s, device, (#[trigger] bufs[j]).id) == Some(r)
        }),
    decreases bufs.len() - i,
{
    if i < bufs.len() {
        let next = match s.buf_remote_bps(device, bufs[i].id)->Ok_0 {
            Some(x) => min_u64(bps, x),
            None => bps,
        };
        lemma_slowest(s, device, bufs, next, i + 1);
        assert(away_rate(s, device, bufs[i].id) == s.buf_remote_bps(device, bufs[i].id)->Ok_0);
    }
}

/// A kernel touches memory at the rate of its GPU, or at that of the slowest buffer that is
/// elsewhere.
pub proof fn slowest_source_sets_rate(s: SimState, device: DeviceId, bufs: Seq<KernelBuf>)
    requires
        s.kernel_mem_bps(device, bufs) is Ok,
    ensures
        ({
            let r = s.kernel_mem_bps(device, bufs)->Ok_0;
            let own = s.profile.gpu(device)->Ok_0.hbm_bps;
            &&& r <= own
            &&& forall|j: int|
                0 <= j < bufs.len() ==> match away_rate(s, device, (#[trigger] bufs[j]).id) {
                    Some(x) => r <= x,
                    None => true,
                }
            &&& r == own || exists|j: int|
                0 <= j < bufs.len() && away_rate(s, device, (#[trigger] bufs[j]).id) == Some(r)
            &&& all_at_home(s, device, bufs) ==> r == own
        }),
{
    let own = s.profile.gpu(device)->Ok_0.hbm_bps;
    lemma_slowest(s, device, bufs, own, 0);
    if all_at_home(s, device, bufs) {
        lemma_home_rate(s, device, bufs, own, 0);
    }
}

proof fn lemma_bill(
    s: SimState,
    id: OpId,
    device: DeviceId,
    stream: StreamId,
    launch: LaunchCost,
    kind: KernelKind,
    reads: Seq<KernelBuf>,
    writes: Seq<KernelBuf>,
    rate: u64,
)
    requires
        s.ops.contains_key(id),
        s.ops[id].attrs.access_policy is None,
        s.profile.gpu(device) is Ok,
        s.bill_kernel(id, device, stream, launch, kind, reads, writes, rate).1 is Ok,
    ensures
        s.bill_kernel(id, device, stream, launch, kind, reads, writes, rate).1->Ok_0 == kernel_time(
            s.profile.gpu(device)->Ok_0,
            share_of(s, device, stream),
            launch,
            kind,
            held(traffic_of(kind)),
            rate as int,
            s.ops[id].attrs.shared_mem,
        ),
{
    reveal(SimState::bill_kernel);
    reveal(SimState::persist_kernel_bytes);
    kernel_work_and_traffic(kind);
    lease_kernel_keeps_rates(s, device, reads, writes, true);
    lease_kernel_keeps_work(s, device, reads, writes, true);
    let s1 = s.lease_kernel(device, reads, writes, true).0;
    invalidate_read_mostly_writes_keeps_rates(s1, device, writes);
    invalidate_read_mostly_writes_keeps_work(s1, device, writes);
    let s2 = s1.invalidate_read_mostly_writes(device, writes).0;
    lemma_kernel_ns(
        s2,
        device,
        stream,
        kind,
        launch,
        rate,
        kind.traffic(),
        s.ops[id].attrs.shared_mem,
    );
}

/// Whether an operation went into flight by itself, for a time.
pub open spec fn put_in_flight(s: SimState, t: SimState, id: OpId, ns: int) -> bool {
    t.running == s.running.push(
        Running { op: id, remaining_ns: no_less(ns, 1) as u64, share: Share::Solo },
    )
}

/// Whether `id` is a kernel that has no persisting window.
pub open spec fn is_plain_kernel(
    s: SimState,
    id: OpId,
    kind: KernelKind,
    reads: Seq<KernelBuf>,
    writes: Seq<KernelBuf>,
) -> bool {
    &&& s.ops.contains_key(id)
    &&& s.ops[id].kind matches GpuOpView::Kernel { kind: k, reads: r, writes: w, .. } && k == kind
        && r == reads && w == writes
    &&& s.ops[id].attrs.access_policy is None
}

proof fn lemma_kernel_starts(
    s: SimState,
    id: OpId,
    kind: KernelKind,
    reads: Seq<KernelBuf>,
    writes: Seq<KernelBuf>,
)
    requires
        is_plain_kernel(s, id, kind, reads, writes),
        all_at_home(s, s.ops[id].device, reads),
        all_at_home(s, s.ops[id].device, writes),
        ({
            let o = s.ops[id];
            let (t, r) = s.start_kernel(
                id,
                o.device,
                o.stream,
                o.launch,
                kind,
                reads,
                writes,
            );
            r == Ok::<bool, SimError>(true) && t.running != s.running
        }),
        !s.is_running(id),
    ensures
        ({
            let o = s.ops[id];
            let t = s.start_kernel(id, o.device, o.stream, o.launch, kind, reads, writes).0;
            &&& s.profile.gpu(o.device) is Ok
            &&& put_in_flight(
                s,
                t,
                id,
                kernel_time(
                    s.profile.gpu(o.device)->Ok_0,
                    share_of(s, o.device, o.stream),
                    o.launch,
                    kind,
                    held(traffic_of(kind)),
                    s.profile.gpu(o.device)->Ok_0.hbm_bps as int,
                    o.attrs.shared_mem,
                ),
            )
        }),
{
    reveal(SimState::start_kernel);
    let o = s.ops[id];
    let device = o.device;
    if o.launch == LaunchCost::Kernel {
        let (u, f) = s.inject_managed_faults(id, device, reads, writes);
        if f == Ok::<bool, SimError>(true) {
            follows_itself(s);
            assert(u.running == s.running) by {
                lemma_faults_keep_running(s, id, device, reads, writes);
            }
        }
        assert(f == Ok::<bool, SimError>(false));
        assert(u == s);
    }
    let slots = s.slots_of(id)->Ok_0;
    take_compute_n_keeps_rates(s, device, slots);
    take_compute_n_keeps_work(s, device, slots);
    let s1 = s.take_compute_n(device, slots).0;
    let bufs = reads + writes;
    assert(s1.allocs == s.allocs && s1.mc_vas == s.mc_vas) by {
        reveal(SimState::take_compute_n);
    }
    assert(all_at_home(s1, device, bufs)) by {
        assert forall|i: int| 0 <= i < bufs.len() implies at_home(
            s1,
            device,
            (#[trigger] bufs[i]).id,
        ) by {
            if i < reads.len() {
                assert(at_home(s, device, reads[i].id));
            } else {
                assert(at_home(s, device, writes[i - reads.len()].id));
            }
        }
    }
    let g = s.profile.gpu(device)->Ok_0;
    lemma_home_rate(s1, device, bufs, g.hbm_bps, 0);
    bill_kernel_keeps_work(s1, id, device, o.stream, o.launch, kind, reads, writes, g.hbm_bps);
    if s1.bill_kernel(id, device, o.stream, o.launch, kind, reads, writes, g.hbm_bps).1 is Ok {
        lemma_bill(s1, id, device, o.stream, o.launch, kind, reads, writes, g.hbm_bps);
    }
}

proof fn lemma_one_fault_keeps_running(
    s: SimState,
    kernel: OpId,
    device: DeviceId,
    alloc: AllocId,
    deps: Seq<OpId>,
)
    ensures
        s.inject_fault_memcpy(kernel, device, alloc, deps).0.running == s.running,
{
    reveal(SimState::inject_fault_memcpy);
    reveal(SimState::add_op_dep);
}

proof fn lemma_each_fault_keeps_running(
    s: SimState,
    kernel: OpId,
    device: DeviceId,
    wait: Seq<AllocId>,
    deps: Seq<OpId>,
    i: int,
)
    ensures
        s.inject_faults_from(kernel, device, wait, deps, i).0.running == s.running,
    decreases wait.len() - i,
{
    if 0 <= i < wait.len() {
        lemma_one_fault_keeps_running(s, kernel, device, wait[i], deps);
        lemma_each_fault_keeps_running(
            s.inject_fault_memcpy(kernel, device, wait[i], deps).0,
            kernel,
            device,
            wait,
            deps,
            i + 1,
        );
    }
}

proof fn lemma_faults_keep_running(
    s: SimState,
    kernel: OpId,
    device: DeviceId,
    reads: Seq<KernelBuf>,
    writes: Seq<KernelBuf>,
)
    ensures
        s.inject_managed_faults(kernel, device, reads, writes).0.running == s.running,
{
    match s.managed_fault_ids(device, reads, writes) {
        Err(_e) => {},
        Ok(wait) => {
            if s.ops.contains_key(kernel) {
                lemma_each_fault_keeps_running(s, kernel, device, wait, s.ops[kernel].deps, 0);
            }
        },
    }
}

/// Whether an operation starts now: no condition skips it, and it goes into flight.
pub open spec fn starts_now(s: SimState, id: OpId) -> bool {
    &&& !s.is_running(id)
    &&& !s.cond_skip(s.ops[id].preds)
    &&& s.try_start(id).1 == Ok::<bool, SimError>(true)
    &&& s.try_start(id).0.running != s.running
}

/// A kernel whose memory is on its GPU stays in flight for its launch, then for the longer of its
/// work at its share of the peak of its own element type and of its traffic at the rate of memory,
/// stretched by utilization and modes.
pub proof fn kernel_runs_for_its_time(
    s: SimState,
    id: OpId,
    kind: KernelKind,
    reads: Seq<KernelBuf>,
    writes: Seq<KernelBuf>,
)
    requires
        is_plain_kernel(s, id, kind, reads, writes),
        all_at_home(s, s.ops[id].device, reads),
        all_at_home(s, s.ops[id].device, writes),
        starts_now(s, id),
    ensures
        s.profile.gpu(s.ops[id].device) is Ok,
        put_in_flight(
            s,
            s.try_start(id).0,
            id,
            kernel_time(
                s.profile.gpu(s.ops[id].device)->Ok_0,
                share_of(s, s.ops[id].device, s.ops[id].stream),
                s.ops[id].launch,
                kind,
                held(traffic_of(kind)),
                s.profile.gpu(s.ops[id].device)->Ok_0.hbm_bps as int,
                s.ops[id].attrs.shared_mem,
            ),
        ),
{
    reveal(SimState::try_start);
    reveal(SimState::start_kind);
    lemma_kernel_starts(s, id, kind, reads, writes);
}

/// On a whole GPU that is fully used, a kernel other than a grouped one takes its launch and the
/// least time in which both its work gets done, at the peak of its own element type, and its bytes
/// pass, at the rate of memory.
pub proof fn kernel_takes_least_time(
    s: SimState,
    device: DeviceId,
    stream: StreamId,
    kind: KernelKind,
    launch: LaunchCost,
    rate: u64,
)
    requires
        s.profile.gpu(device) is Ok,
        share_of(s, device, stream) == 1000,
        s.profile.gpu(device)->Ok_0.gemm_util_permille == 1000,
        !(kind is GroupedMoeGemm),
        rate > 0,
        peak_of(s.profile.gpu(device)->Ok_0, element(kind)) > 0,
        peak_of(s.profile.gpu(device)->Ok_0, element(kind)) * 1000 <= u64::MAX,
        work_of(kind) <= u64::MAX,
        traffic_of(kind) <= u64::MAX,
        s.kernel_ns(device, stream, kind, launch, rate, kind.traffic())->Ok_0 * 1000 < u64::MAX
            - 1000,
    ensures
        ({
            let g = s.profile.gpu(device)->Ok_0;
            let ns = s.kernel_ns(device, stream, kind, launch, rate, kind.traffic())->Ok_0
                - launch_cost(g, launch);
            let peak = peak_of(g, element(kind));
            &&& s.kernel_ns(device, stream, kind, launch, rate, kind.traffic()) is Ok
            &&& ns >= 0
            &&& ns * peak >= work_of(kind) * 1_000_000_000
            &&& ns * rate >= traffic_of(kind) * 1_000_000_000
            &&& ns == 0 || (ns - 1) * peak < work_of(kind) * 1_000_000_000 || (ns - 1) * rate
                < traffic_of(kind) * 1_000_000_000
        }),
{
    let g = s.profile.gpu(device)->Ok_0;
    let peak = peak_of(g, element(kind));
    kernel_work_and_traffic(kind);
    assert(work_of(kind) >= 0 && traffic_of(kind) >= 0) by {
        assert(kind.flops() >= 0 && kind.traffic() >= 0);
    }
    lemma_kernel_ns(
        s,
        device,
        stream,
        kind,
        launch,
        rate,
        kind.traffic(),
        SharedMemoryMode::Default,
    );
    assert(held(peak * 1000) / 1000 == peak);
    let compute = time_for(work_of(kind), peak);
    let memory = time_for(traffic_of(kind), rate as int);
    let most = no_less(compute, memory);
    let all = launch_cost(g, launch) + most;
    assert(s.kernel_ns(device, stream, kind, launch, rate, kind.traffic())->Ok_0 == held(
        held(all) * 1000,
    ) / 1000);
    let ns = s.kernel_ns(device, stream, kind, launch, rate, kind.traffic())->Ok_0;
    if all * 1000 > u64::MAX {
        assert(held(all) * 1000 > u64::MAX);
        assert(held(held(all) * 1000) == u64::MAX);
        assert(ns == u64::MAX / 1000);
        assert(u64::MAX / 1000 * 1000 >= u64::MAX - 1000);
        assert(false);
    }
    assert(most >= 0 && all >= 0) by {
        lemma_time_counts(work_of(kind), peak);
        lemma_time_counts(traffic_of(kind), rate as int);
    }
    assert(all <= u64::MAX && held(all) == all);
    assert(held(all * 1000) == all * 1000);
    assert(all * 1000 / 1000 == all);
    assert(ns == all);
    time_is_least(kind.flops(), peak as u64);
    time_is_least(kind.traffic(), rate);
    assert(most * peak >= compute * peak) by (nonlinear_arith)
        requires
            most >= compute,
            peak > 0,
    ;
    assert(most * rate >= memory * rate) by (nonlinear_arith)
        requires
            most >= memory,
            rate > 0,
    ;
}

/// Whether two GPUs are alike but for the peaks of element types other than the given one.
pub open spec fn alike_for(a: GpuProfile, b: GpuProfile, d: DType) -> bool {
    &&& peak_of(a, d) == peak_of(b, d)
    &&& b == (GpuProfile {
        flops_f32: b.flops_f32,
        flops_f16: b.flops_f16,
        flops_f8: b.flops_f8,
        ..a
    })
}

/// The peaks of other element types make no difference to a kernel.
pub proof fn other_peaks_do_not_matter(
    s: SimState,
    t: SimState,
    device: DeviceId,
    stream: StreamId,
    kind: KernelKind,
    launch: LaunchCost,
    rate: u64,
    billed: u64,
)
    requires
        s.profile.gpu(device) is Ok,
        t.profile.gpu(device) is Ok,
        alike_for(s.profile.gpu(device)->Ok_0, t.profile.gpu(device)->Ok_0, element(kind)),
        t.sm_permille == s.sm_permille,
    ensures
        t.kernel_ns(device, stream, kind, launch, rate, billed) == s.kernel_ns(
            device,
            stream,
            kind,
            launch,
            rate,
            billed,
        ),
{
    lemma_kernel_ns(s, device, stream, kind, launch, rate, billed, SharedMemoryMode::Default);
    lemma_kernel_ns(t, device, stream, kind, launch, rate, billed, SharedMemoryMode::Default);
}

/// Whether a link is the first one between two places.
pub open spec fn first_link(
    links: Seq<Link>,
    src: Option<DeviceId>,
    dst: Option<DeviceId>,
    i: int,
) -> bool {
    &&& 0 <= i < links.len()
    &&& joins(links[i], src, dst)
    &&& forall|j: int| 0 <= j < i ==> !joins(#[trigger] links[j], src, dst)
}

/// Whether a link is between two places, whichever end is which.
pub open spec fn joins(l: Link, src: Option<DeviceId>, dst: Option<DeviceId>) -> bool {
    (l.a == src && l.b == dst) || (l.a == dst && l.b == src)
}

proof fn lemma_link_found(
    links: Seq<Link>,
    src: Option<DeviceId>,
    dst: Option<DeviceId>,
    from: int,
)
    requires
        0 <= from <= links.len() <= usize::MAX,
        forall|j: int| 0 <= j < from ==> !joins(#[trigger] links[j], src, dst),
    ensures
        match link_index_from(links, src, dst, from) {
            Some(i) => first_link(links, src, dst, i as int),
            None => forall|j: int| 0 <= j < links.len() ==> !joins(#[trigger] links[j], src, dst),
        },
    decreases links.len() - from,
{
    if from < links.len() && !joins(links[from], src, dst) {
        lemma_link_found(links, src, dst, from + 1);
    }
}

/// The link between two places is the first one in the profile, in either direction.
pub proof fn first_link_is_used(p: ProfileView, src: Option<DeviceId>, dst: Option<DeviceId>)
    requires
        p.links.len() <= usize::MAX,
    ensures
        match p.link_index(src, dst) {
            Some(i) => first_link(p.links, src, dst, i as int) && p.link(src, dst) == Ok::<
                Link,
                SimError,
            >(p.links[i as int]),
            None => (forall|j: int|
                0 <= j < p.links.len() ==> !joins(#[trigger] p.links[j], src, dst)) && p.link(
                src,
                dst,
            ) is Err,
        },
{
    lemma_link_found(p.links, src, dst, 0);
}

/// Time of a transfer over a link: its latency, then the bytes at its rate.
pub open spec fn hop_time(l: Link, bytes: int) -> int {
    held(l.latency_ns + time_for(bytes, l.bps as int))
}

/// The GPU of a place.
pub open spec fn gpu_of(p: Place) -> Option<DeviceId> {
    match p {
        Place::Device(d) => Some(d),
        Place::Host => None,
        Place::HostPinned => None,
    }
}

/// Bytes that a copy or a fill moves: rows of a slice, in each slice.
pub open spec fn moved_bytes(bytes: u64, height: u64, depth: u64) -> int {
    held(held(bytes * no_less(height as int, 1)) * no_less(depth as int, 1))
}

/// A copy over a link stays in flight on the first link between its ends, for the latency and for
/// its bytes at the rate of the link: the slower one where an end is pageable. The extra transfer
/// time and the head of a graph come on top. It takes a copy engine, and memory on a GPU that had no
/// copy yet.
pub proof fn copy_runs_for_its_time(s: SimState, id: OpId, m: MemcpyOp)
    requires
        s.ops.contains_key(id),
        s.ops[id].kind == GpuOpView::Memcpy(m),
        starts_now(s, id),
        s.profile.links.len() <= usize::MAX,
        s.within_limits(),
        !(s.allocs[m.alloc].managed && match m.dst {
            Place::Device(d) => s.allocs[m.alloc].devices.contains(d),
            Place::Host => s.allocs[m.alloc].devices.len() == 0,
            Place::HostPinned => s.allocs[m.alloc].devices.len() == 0,
        }),
    ensures
        ({
            let o = s.ops[id];
            let t = s.try_start(id).0;
            let k = s.profile.link_index(gpu_of(m.src), gpu_of(m.dst))->0;
            let l = s.profile.links[k as int];
            let g = s.profile.gpu(o.device)->Ok_0;
            let rate = if m.src is Host || m.dst is Host {
                l.pageable_bps
            } else {
                l.bps
            };
            let head = if o.launch is GraphHead {
                g.graph_launch_ns as int
            } else {
                0
            };
            let ns = held(
                held(
                    held(
                        l.latency_ns + time_for(
                            moved_bytes(m.bytes, m.height, m.depth),
                            rate as int,
                        ),
                    ) + s.extra_transfer_ns,
                ) + head,
            );
            &&& first_link(s.profile.links, gpu_of(m.src), gpu_of(m.dst), k as int)
            &&& t.running == s.running.push(
                Running { op: id, remaining_ns: no_less(ns, 1) as u64, share: Share::Link(k) },
            )
            &&& s.gpus[o.device].copies < g.copy_engines
            &&& t.gpus[o.device].copies == s.gpus[o.device].copies + 1
            &&& m.dst matches Place::Device(d) ==> t.gpus[d].used == s.gpus[d].used + (
            if s.allocs[m.alloc].devices.contains(d) {
                0
            } else {
                s.allocs[m.alloc].bytes as int
            })
            &&& t.allocs == s.allocs
        }),
{
    reveal(SimState::try_start);
    reveal(SimState::start_kind);
    reveal(SimState::start_memcpy);
    reveal(SimState::reserve_hbm);
    charge_replica_hbm_keeps_rates(s, m);
    charge_replica_hbm_keeps_work(s, m);
    first_link_is_used(s.profile, gpu_of(m.src), gpu_of(m.dst));
    replica_keeps_engines(s, m);
    lemma_held_product(m.bytes, max_u64(m.height, 1));
    lemma_held_product(mul_sat(m.bytes, max_u64(m.height, 1)), max_u64(m.depth, 1));
}

/// A copy of managed memory to where it already is takes a nanosecond and moves nothing.
pub proof fn copy_to_itself_is_short(s: SimState, id: OpId, m: MemcpyOp)
    requires
        s.ops.contains_key(id),
        s.ops[id].kind == GpuOpView::Memcpy(m),
        starts_now(s, id),
        s.allocs[m.alloc].managed,
        match m.dst {
            Place::Device(d) => s.allocs[m.alloc].devices.contains(d),
            Place::Host => s.allocs[m.alloc].devices.len() == 0,
            Place::HostPinned => s.allocs[m.alloc].devices.len() == 0,
        },
    ensures
        put_in_flight(s, s.try_start(id).0, id, 1),
        s.try_start(id).0.gpus == s.gpus,
        s.try_start(id).0.allocs == s.allocs,
{
    reveal(SimState::try_start);
    reveal(SimState::start_kind);
    reveal(SimState::start_memcpy);
}

/// A fill of memory on its GPU stays in flight for its launch and for its bytes at the rate of
/// memory.
pub proof fn fill_runs_for_its_time(s: SimState, id: OpId, op: MemsetOp)
    requires
        s.ops.contains_key(id),
        s.ops[id].kind == GpuOpView::Memset(op),
        starts_now(s, id),
        at_home(s, s.ops[id].device, op.id),
        !s.allocs[op.id].read_mostly,
    ensures
        ({
            let o = s.ops[id];
            let g = s.profile.gpu(o.device)->Ok_0;
            &&& s.profile.gpu(o.device) is Ok
            &&& put_in_flight(
                s,
                s.try_start(id).0,
                id,
                held(
                    launch_cost(g, o.launch) + time_for(
                        moved_bytes(op.bytes, op.height, op.depth),
                        g.hbm_bps as int,
                    ),
                ),
            )
        }),
{
    reveal(SimState::try_start);
    reveal(SimState::start_kind);
    reveal(SimState::bill_memset);
    let o = s.ops[id];
    let device = o.device;
    take_compute_n_keeps_rates(s, device, 1);
    take_compute_keeps_work(s, device);
    let s1 = s.take_compute(device).0;
    bill_memset_keeps_work(s1, device, o.launch, op);
    assert(s1.allocs == s.allocs && s1.mc_vas == s.mc_vas) by {
        reveal(SimState::take_compute_n);
    }
    let none = Seq::<KernelBuf>::empty();
    let writes = seq![KernelBuf::span(op.id, op.offset, op.extent_bytes())];
    assert(s1.bill_memset(device, o.launch, op).1 is Ok);
    assert(s1.lease_kernel(device, none, writes, false).1 is Ok);
    lease_kernel_keeps_rates(s1, device, none, writes, false);
    lemma_lease_devices(s1, device, none, writes, false, op.id);
    let s2 = s1.lease_kernel(device, none, writes, false).0;
    invalidate_read_mostly_writes_keeps_rates(s2, device, writes);
    assert(s2.invalidate_read_mostly_writes(device, writes) == (s2, Ok::<(), SimError>(()))) by {
        reveal_with_fuel(SimState::replicated_writes_from, 2);
        assert(writes[0].id == op.id);
        lemma_order_exists(Set::<AllocId>::empty());
        let q = order_of(Set::<AllocId>::empty());
        if q.len() > 0 {
            assert(q.contains(q[0]));
        }
    }
    assert(all_at_home(s2, device, writes)) by {
        assert(writes[0].id == op.id);
    }
    lemma_home_rate(s2, device, writes, s.profile.gpu(device)->Ok_0.hbm_bps, 0);
    lemma_held_product(op.bytes, max_u64(op.height, 1));
    lemma_held_product(mul_sat(op.bytes, max_u64(op.height, 1)), max_u64(op.depth, 1));
}

proof fn lemma_leases(s: SimState, bufs: Seq<KernelBuf>, i: int, id: AllocId)
    requires
        s.allocs.contains_key(id),
    ensures
        ({
            let t = s.lease_bufs_from(bufs, i).0;
            &&& t.allocs.contains_key(id)
            &&& t.allocs[id] == (AllocView { leases: t.allocs[id].leases, ..s.allocs[id] })
            &&& t.mc_vas == s.mc_vas
        }),
    decreases bufs.len() - i,
{
    if 0 <= i < bufs.len() && s.allocs.contains_key(bufs[i].id) {
        let a = s.allocs[bufs[i].id];
        let b = AllocView { leases: a.leases.saturating_add(1), ..a };
        lemma_leases(
            SimState { allocs: s.allocs.insert(bufs[i].id, b), ..s },
            bufs,
            i + 1,
            id,
        );
    }
}

proof fn lemma_lease_devices(
    s: SimState,
    device: DeviceId,
    reads: Seq<KernelBuf>,
    writes: Seq<KernelBuf>,
    mapped: bool,
    id: AllocId,
)
    requires
        s.allocs.contains_key(id),
    ensures
        ({
            let t = s.lease_kernel(device, reads, writes, mapped).0;
            &&& t.allocs.contains_key(id)
            &&& t.allocs[id] == (AllocView { leases: t.allocs[id].leases, ..s.allocs[id] })
            &&& t.mc_vas == s.mc_vas
        }),
{
    lemma_leases(s, reads, 0, id);
    lemma_leases(s.lease_bufs(reads).0, writes, 0, id);
}

/// Host functions take their time after the head of a graph; empty nodes, attachments, records and
/// conditional values a nanosecond; a launch from the device the time of a graph launch.
pub proof fn other_work_takes_fixed_time(s: SimState, id: OpId)
    requires
        s.ops.contains_key(id),
        starts_now(s, id),
    ensures
        ({
            let o = s.ops[id];
            let t = s.try_start(id).0;
            let g = s.profile.gpu(o.device)->Ok_0;
            &&& o.kind is HostFunc ==> put_in_flight(
                s,
                t,
                id,
                held(
                    (if o.launch is GraphHead {
                        g.graph_launch_ns as int
                    } else {
                        0
                    }) + no_less(g.host_func_ns as int, 1),
                ),
            )
            &&& o.kind is Empty || o.kind is Attach || o.kind is WhileTick || o.kind is EventRecord
                || o.kind is EventWait || o.kind is SetConditional || o.kind is WriteValue
                || o.kind is WaitValue || o.kind is BatchMem ==> put_in_flight(s, t, id, 1)
            &&& o.kind is DeviceLaunch ==> put_in_flight(s, t, id, g.graph_launch_ns as int)
        }),
{
    reveal(SimState::try_start);
    reveal(SimState::start_kind);
    let o = s.ops[id];
    take_compute_keeps_work(s, o.device);
    take_compute_n_keeps_rates(s, o.device, 1);
    match o.kind {
        GpuOpView::EventRecord { event, external: _e } => {
            mark_recorded_keeps_work(s, s.event_root(event), id);
        },
        _ => {},
    }
}

/// Time of the hop from a rank of a ring to the next one, the last one's next being the first.
pub open spec fn ring_hop(
    p: ProfileView,
    parts: Seq<(DeviceId, AllocId)>,
    bytes: u64,
    i: int,
) -> int {
    let next = if i + 1 == parts.len() {
        0
    } else {
        i + 1
    };
    hop_time(p.link(Some(parts[i].0), Some(parts[next].0))->Ok_0, bytes as int)
}

/// Whether a time is that of the slowest hop of a ring.
pub open spec fn slowest_hop(
    p: ProfileView,
    parts: Seq<(DeviceId, AllocId)>,
    bytes: u64,
    worst: int,
) -> bool {
    &&& forall|i: int| 0 <= i < parts.len() ==> #[trigger] ring_hop(p, parts, bytes, i) <= worst
    &&& exists|i: int| 0 <= i < parts.len() && #[trigger] ring_hop(p, parts, bytes, i) == worst
}

proof fn lemma_ring(
    s: SimState,
    parts: Seq<(DeviceId, AllocId)>,
    bytes: u64,
    worst: u64,
    i: int,
)
    requires
        0 <= i <= parts.len() < usize::MAX,
        parts.len() > 0,
        s.ring_hop_ns_from(parts, bytes, worst, i) is Ok,
        forall|j: int| 0 <= j < i ==> #[trigger] ring_hop(s.profile, parts, bytes, j) <= worst,
        i > 0 ==> exists|j: int|
            0 <= j < i && #[trigger] ring_hop(s.profile, parts, bytes, j) == worst,
        i == 0 ==> worst == 0,
    ensures
        slowest_hop(
            s.profile,
            parts,
            bytes,
            s.ring_hop_ns_from(parts, bytes, worst, i)->Ok_0 as int,
        ),
    decreases parts.len() - i,
{
    if i < parts.len() {
        let k = if i + 1 == parts.len() {
            0
        } else {
            i + 1
        };
        let l = s.profile.link(Some(parts[i].0), Some(parts[k].0))->Ok_0;
        let hop = ring_hop(s.profile, parts, bytes, i);
        assert(l.copy_ns(bytes) == hop);
        let next = max_u64(worst, l.copy_ns(bytes));
        lemma_ring(s, parts, bytes, next, i + 1);
    }
}

/// A reduction among ranks stays in flight for as many hops as there are other ranks, each as long
/// as the slowest hop between neighbours of the ring, and for the extra transfer time. Each rank
/// needs its memory to be there.
pub proof fn reduction_takes_a_hop_for_each_other_rank(
    s: SimState,
    id: OpId,
    parts: Seq<(DeviceId, AllocId)>,
    bytes: u64,
    worst: int,
)
    requires
        s.ops.contains_key(id),
        s.ops[id].kind == (GpuOpView::AllReduce { parts, bytes }),
        parts.len() < usize::MAX,
        starts_now(s, id),
        slowest_hop(s.profile, parts, bytes, worst),
    ensures
        parts.len() >= 2,
        put_in_flight(
            s,
            s.try_start(id).0,
            id,
            held(held(worst * (parts.len() - 1)) + s.extra_transfer_ns),
        ),
        forall|i: int|
            0 <= i < parts.len() ==> s.allocs.contains_key((#[trigger] parts[i]).1)
                && s.allocs[parts[i].1].live && s.allocs[parts[i].1].devices.contains(parts[i].0),
{
    reveal(SimState::try_start);
    reveal(SimState::start_kind);
    let o = s.ops[id];
    let f = |i: int| s.require_parts_at(parts, i);
    lemma_ok_each(parts.len(), f);
    assert forall|i: int| 0 <= i < parts.len() implies s.allocs.contains_key(
        (#[trigger] parts[i]).1,
    ) && s.allocs[parts[i].1].live && s.allocs[parts[i].1].devices.contains(parts[i].0) by {
        assert(f(i) is Ok);
    }
    lemma_ring(s, parts, bytes, 0, 0);
    let w = s.ring_hop_ns(parts, bytes)->Ok_0;
    assert(w == worst) by {
        let a = choose|i: int|
            0 <= i < parts.len() && #[trigger] ring_hop(s.profile, parts, bytes, i) == worst;
        let b = choose|i: int|
            0 <= i < parts.len() && #[trigger] ring_hop(s.profile, parts, bytes, i) == w;
        assert(ring_hop(s.profile, parts, bytes, a) <= w);
        assert(ring_hop(s.profile, parts, bytes, b) <= worst);
    }
    take_compute_keeps_work(s, o.device);
    lease_parts_keeps_work(s.take_compute(o.device).0, parts);
}

/// One more rank on equal links adds one hop to a reduction.
pub proof fn one_more_rank_adds_a_hop(
    s: SimState,
    parts: Seq<(DeviceId, AllocId)>,
    more: Seq<(DeviceId, AllocId)>,
    bytes: u64,
    hop: u64,
)
    requires
        2 <= parts.len() < usize::MAX - 1,
        more.len() == parts.len() + 1,
        s.allreduce_ns(parts, bytes) is Ok,
        s.allreduce_ns(more, bytes) is Ok,
        forall|i: int|
            0 <= i < parts.len() ==> #[trigger] ring_hop(s.profile, parts, bytes, i) == hop,
        forall|i: int|
            0 <= i < more.len() ==> #[trigger] ring_hop(s.profile, more, bytes, i) == hop,
        hop * more.len() + s.extra_transfer_ns <= u64::MAX,
    ensures
        s.allreduce_ns(more, bytes)->Ok_0 == s.allreduce_ns(parts, bytes)->Ok_0 + hop,
        s.allreduce_ns(parts, bytes)->Ok_0 == hop * (parts.len() - 1) + s.extra_transfer_ns,
{
    lemma_ring(s, parts, bytes, 0, 0);
    lemma_ring(s, more, bytes, 0, 0);
    assert(ring_hop(s.profile, parts, bytes, 0) == hop);
    assert(ring_hop(s.profile, more, bytes, 0) == hop);
    let n = parts.len() as int;
    assert(hop * n == hop * (n - 1) + hop && hop * (n + 1) == hop * n + hop && hop * (n - 1) >= 0)
        by (nonlinear_arith)
        requires
            n >= 2,
            hop >= 0,
    ;
}

} // verus!
