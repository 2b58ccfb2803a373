//! When operations start and end.
use gpu_sim::error::SimError;
use gpu_sim::ids::{DeviceId, EventId, OpId, StreamId};
use gpu_sim::ops::{KernelKind};
use gpu_sim::profile::{GpuProfile, HardwareProfile, Link, LinkKind};
use gpu_sim::sim::Sim;


const D0: DeviceId = DeviceId(0);
const D1: DeviceId = DeviceId(1);
const S1: StreamId = StreamId(1);
const S2: StreamId = StreamId(2);

fn gpu(id: u16) -> GpuProfile {
    GpuProfile {
        id: DeviceId(id),
        hbm_bytes: 1000,
        hbm_bps: 1_000_000_000,
        compute_slots: 2,
        copy_engines: 1,
        cooperative_launch: true,
        flops_f32: 1_000_000_000,
        flops_f16: 1_000_000_000,
        flops_f8: 1_000_000_000,
        alloc_overhead_ns: 10,
        pool_reuse_ns: 3,
        launch_overhead_ns: 5,
        graph_launch_ns: 7,
        graph_instantiate_ns: 11,
        graph_upload_ns: 13,
        graph_update_ns: 17,
        graph_set_params_ns: 19,
        graph_clone_ns: 23,
        host_func_ns: 29,
        host_sync_spin_ns: 1,
        host_sync_yield_ns: 2,
        host_sync_blocking_ns: 3,
        l2_bytes: 256,
        l2_persist_hit_permille: 500,
        pdl_trigger_permille: 500,
        gemm_util_permille: 1000,
        grouped_moe_permille: 2000,
        shared_mem_four_byte_permille: 1000,
        shared_mem_eight_byte_permille: 500,
        same_domain_fence_permille: 0,
        mem_sync_domain_count: 4,
        max_blocks_per_cluster: 8,
        portable_cluster_size: 4,
        max_shared_mem_per_block: 48,
        max_shared_mem_per_block_optin: 96,
    }
}

fn link(a: Option<u16>, b: Option<u16>, kind: LinkKind, bps: u64, latency_ns: u64) -> Link {
    Link {
        a: a.map(DeviceId),
        b: b.map(DeviceId),
        kind,
        bps,
        pageable_bps: bps / 2,
        latency_ns,
    }
}

fn node() -> Sim {
    Sim::new(HardwareProfile {
        name: String::from("pair"),
        gpus: vec![gpu(0), gpu(1)],
        links: vec![
            link(None, Some(0), LinkKind::Pcie, 1_000_000_000, 100),
            link(None, Some(1), LinkKind::Pcie, 1_000_000_000, 100),
            link(Some(0), Some(1), LinkKind::Nvlink, 2_000_000_000, 50),
        ],
        host_pin_bytes: 500,
        va_granularity_bytes: 1,
        multicast_granularity_bytes: 1,
    })
}

fn invalid<T>(why: &'static str) -> Result<T, SimError> {
    Err(SimError::Invalid { why })
}

fn work(ns: u64) -> KernelKind {
    KernelKind::other(ns, 0)
}

fn start(sim: &Sim, id: OpId) -> u64 {
    sim.operation(id).expect("op").start_ns.expect("start")
}

fn end(sim: &Sim, id: OpId) -> u64 {
    sim.operation(id).expect("op").done_ns.expect("end")
}

#[test]
fn an_operation_waits_for_its_stream() {
    let mut sim = node();
    let a = sim.kernel(D0, work(95), &[], &[], S1).ok().expect("op");
    let b = sim.host_func(D0, S1).ok().expect("op");
    let other = sim.kernel(D0, work(5), &[], &[], S2).ok().expect("op");
    let c = sim.kernel(D0, work(45), &[], &[], S1).ok().expect("op");
    let op = sim.operation(c).expect("op");
    assert_eq!(op.deps.contains(&a), true);
    assert_eq!(op.deps.contains(&b), true);
    assert_eq!(op.deps.contains(&other), false);
    assert_eq!(op.submit_ns, 0);
    assert_eq!(op.start_ns, None);
    assert_eq!(op.done, false);
    assert_eq!(sim.synchronize(), Ok(()));
    assert_eq!((start(&sim, a), end(&sim, a)), (0, 100));
    assert_eq!((start(&sim, b), end(&sim, b)), (100, 129));
    assert_eq!((start(&sim, c), end(&sim, c)), (129, 179));
    assert_eq!((start(&sim, other), end(&sim, other)), (0, 10));
    assert_eq!(sim.clock_ns(), 179);
}

#[test]
fn nothing_starts_before_what_it_waits_for_has_ended() {
    let mut sim = node();
    let a = sim.malloc(D0, 40).ok().expect("alloc");
    assert!(sim.memcpy_pinned_to_device(D0, a, 40, S1).is_ok());
    assert!(sim.kernel(D0, work(30), &[a], &[], S1).is_ok());
    assert!(sim.record_event(D0, EventId(1), S1).is_ok());
    assert!(sim.wait_event(D0, EventId(1), S2).is_ok());
    assert!(sim.kernel(D0, work(70), &[], &[a], S2).is_ok());
    assert!(sim.kernel(D1, work(70), &[], &[], S2).is_ok());
    assert!(sim.memcpy_device_to_device(D0, D1, a, 40, S2).is_ok());
    assert_eq!(sim.synchronize(), Ok(()));
    let all = sim.operations();
    assert_eq!(all.len(), 7);
    let mut i = 0;
    while i < all.len() {
        let op = all.at(i);
        let begun = op.start_ns.expect("start");
        assert!(op.submit_ns <= begun);
        assert!(begun <= op.done_ns.expect("end"));
        assert!(op.done_ns.expect("end") <= sim.clock_ns());
        for d in op.deps.iter() {
            assert!(end(&sim, *d) <= begun);
        }
        i += 1;
    }
}

#[test]
fn times_stay_once_they_are_known() {
    let mut sim = node();
    let a = sim.kernel(D0, work(95), &[], &[], S1).ok().expect("op");
    assert_eq!(sim.synchronize(), Ok(()));
    let b = sim.kernel(D0, work(95), &[], &[], S1).ok().expect("op");
    assert_eq!(sim.operation(b).expect("op").deps.contains(&a), true);
    assert_eq!(sim.synchronize(), Ok(()));
    assert_eq!((start(&sim, a), end(&sim, a)), (0, 100));
    assert_eq!((start(&sim, b), end(&sim, b)), (100, 200));
    assert_eq!(sim.cancel_stream(D0, S1), Ok(0));
    assert_eq!((start(&sim, a), end(&sim, a)), (0, 100));
}

#[test]
fn a_cancelled_operation_never_starts() {
    let mut sim = node();
    let a = sim.kernel(D0, work(95), &[], &[], S1).ok().expect("op");
    let b = sim.kernel(D0, work(95), &[], &[], S1).ok().expect("op");
    assert_eq!(sim.synchronize_device(D1), Ok(()));
    assert_eq!(sim.cancel_stream(D0, S1), Ok(2));
    let op = sim.operation(b).expect("op");
    assert_eq!((op.done, op.cancelled), (true, true));
    assert_eq!((op.start_ns, op.done_ns), (None, Some(0)));
    assert_eq!(sim.operation(a).expect("op").cancelled, true);
    let c = sim.kernel(D0, work(95), &[], &[], S1).ok().expect("op");
    assert_eq!(sim.cancelled_count(), 2);
    assert!(sim.synchronize().is_err());
    assert_eq!(end(&sim, c), 100);
}

#[test]
fn a_wait_is_over_after_the_record() {
    let mut sim = node();
    assert!(sim.kernel(D0, work(195), &[], &[], S1).is_ok());
    let rec = sim.record_event(D0, EventId(1), S1).ok().expect("op");
    let wait = sim.wait_event(D1, EventId(1), S2).ok().expect("op");
    let after = sim.kernel(D1, work(5), &[], &[], S2).ok().expect("op");
    assert_eq!(sim.synchronize(), Ok(()));
    assert_eq!((start(&sim, rec), end(&sim, rec)), (200, 201));
    assert_eq!((start(&sim, wait), end(&sim, wait)), (201, 202));
    assert_eq!((start(&sim, after), end(&sim, after)), (202, 212));
    let again = sim.wait_event(D0, EventId(1), S2).ok().expect("op");
    assert_eq!(sim.operation(again).expect("op").deps, vec![rec]);
}

#[test]
fn launched_nodes_run_in_the_order_of_their_edges() {
    let mut sim = node();
    let g = sim.create_graph(D0, S1).ok().expect("graph");
    let mut i = 0;
    while i < 4 {
        assert_eq!(sim.graph_add_kernel(g, work(93), &[], &[]), Ok(()));
        i += 1;
    }
    assert_eq!(sim.graph_add_dependencies_n(g, &[(3, 1), (3, 2), (1, 0), (2, 0)]), Ok(()));
    assert_eq!(sim.launch_graph(g, S1), Ok(4));
    assert_eq!(sim.synchronize(), Ok(()));
    let all = sim.operations();
    assert_eq!(all.len(), 4);
    let first = all.at(0);
    let left = all.at(1);
    let right = all.at(2);
    let last = all.at(3);
    assert_eq!(left.deps.contains(&first.id), true);
    assert_eq!(right.deps.contains(&first.id), true);
    assert_eq!(last.deps.contains(&left.id), true);
    assert_eq!(last.deps.contains(&right.id), true);
    assert_eq!(left.start_ns, first.done_ns);
    assert_eq!(right.start_ns, left.done_ns);
    assert_eq!(last.start_ns, right.done_ns);
}

#[test]
fn transfers_share_a_link() {
    let mut sim = node();
    let a = sim.malloc(D0, 100).ok().expect("alloc");
    let b = sim.malloc(D1, 100).ok().expect("alloc");
    let there = sim.memcpy_device_to_device(D0, D1, a, 100, S1).ok().expect("op");
    assert_eq!(sim.synchronize(), Ok(()));
    let alone = end(&sim, there) - start(&sim, there);
    assert_eq!(alone, 100);
    let c = sim.malloc(D0, 100).ok().expect("alloc");
    let there = sim.memcpy_device_to_device(D0, D1, c, 100, S1).ok().expect("op");
    let back = sim.memcpy_device_to_device(D1, D0, b, 100, S1).ok().expect("op");
    assert_eq!(sim.synchronize(), Ok(()));
    assert_eq!(end(&sim, there) - start(&sim, there), 2 * alone);
    assert_eq!(end(&sim, back) - start(&sim, back), 2 * alone);
    assert_eq!(start(&sim, there), start(&sim, back));
}

#[test]
fn idle_time_passes_only_forward() {
    let mut sim = node();
    assert_eq!(sim.idle_until(500), Ok(500));
    assert_eq!(sim.clock_ns(), 500);
    assert_eq!(sim.idle_until(400), Ok(0));
    assert_eq!(sim.clock_ns(), 500);
    assert!(sim.kernel(D0, work(95), &[], &[], S1).is_ok());
    assert_eq!(sim.idle_until(700), Ok(100));
    assert_eq!(sim.clock_ns(), 700);
    assert_eq!(sim.synchronize(), Ok(()));
    assert_eq!(sim.clock_ns(), 700);
}

#[test]
fn the_null_stream_waits_for_the_others() {
    let mut sim = node();
    sim.set_legacy_null_stream(true);
    let a = sim.kernel(D0, work(95), &[], &[], S1).ok().expect("op");
    let null = sim.kernel(D0, work(45), &[], &[], StreamId(0)).ok().expect("op");
    let b = sim.kernel(D0, work(5), &[], &[], S2).ok().expect("op");
    assert_eq!(sim.synchronize(), Ok(()));
    assert_eq!(start(&sim, null), end(&sim, a));
    assert_eq!(start(&sim, b), end(&sim, null));
}

#[test]
fn a_second_cancel_drops_nothing() {
    let mut sim = node();
    assert!(sim.kernel(D0, work(95), &[], &[], S1).is_ok());
    assert!(sim.kernel(D0, work(95), &[], &[], S1).is_ok());
    let kept = sim.kernel(D0, work(95), &[], &[], S2).ok().expect("op");
    assert_eq!(sim.cancelled_count(), 0);
    assert_eq!(sim.cancel_stream(D0, S1), Ok(2));
    assert_eq!(sim.cancelled_count(), 2);
    assert_eq!(sim.cancel_stream(D0, S1), Ok(0));
    assert_eq!(sim.cancelled_count(), 2);
    assert_eq!(sim.operation(kept).expect("op").cancelled, false);
    assert_eq!(sim.cancel_stream(D0, S2), Ok(1));
    assert_eq!(sim.cancelled_count(), 3);
}
