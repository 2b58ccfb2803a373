//! Kernels, copies, events and their virtual time.
use gpu_sim::error::SimError;
use gpu_sim::ids::{AllocId, DeviceId, EventId, StreamId};
use gpu_sim::ops::{AccessPolicyWindow, AccessProperty, BatchMemOp, EventCreateFlags, KernelAttrs, KernelBuf, KernelKind, MemcpyOp, Place, ProgrammaticLaunch, SharedMemoryMode, SynchronizationPolicy, WaitValueCmp};
use gpu_sim::profile::{GpuProfile, HardwareProfile, Link, LinkKind};
use gpu_sim::sim::Sim;


const D0: DeviceId = DeviceId(0);
const D1: DeviceId = DeviceId(1);
const S1: StreamId = StreamId(1);
const S2: StreamId = StreamId(2);

fn gpu(id: u16) -> GpuProfile {
    GpuProfile {
        id: DeviceId(id),
        hbm_bytes: 1000,
        hbm_bps: 1_000_000_000,
        compute_slots: 2,
        copy_engines: 1,
        cooperative_launch: true,
        flops_f32: 1_000_000_000,
        flops_f16: 1_000_000_000,
        flops_f8: 1_000_000_000,
        alloc_overhead_ns: 10,
        pool_reuse_ns: 3,
        launch_overhead_ns: 5,
        graph_launch_ns: 7,
        graph_instantiate_ns: 11,
        graph_upload_ns: 13,
        graph_update_ns: 17,
        graph_set_params_ns: 19,
        graph_clone_ns: 23,
        host_func_ns: 29,
        host_sync_spin_ns: 1,
        host_sync_yield_ns: 2,
        host_sync_blocking_ns: 3,
        l2_bytes: 256,
        l2_persist_hit_permille: 500,
        pdl_trigger_permille: 500,
        gemm_util_permille: 1000,
        grouped_moe_permille: 2000,
        shared_mem_four_byte_permille: 1000,
        shared_mem_eight_byte_permille: 500,
        same_domain_fence_permille: 0,
        mem_sync_domain_count: 4,
        max_blocks_per_cluster: 8,
        portable_cluster_size: 4,
        max_shared_mem_per_block: 48,
        max_shared_mem_per_block_optin: 96,
    }
}

fn link(a: Option<u16>, b: Option<u16>, kind: LinkKind, bps: u64, latency_ns: u64) -> Link {
    Link {
        a: a.map(DeviceId),
        b: b.map(DeviceId),
        kind,
        bps,
        pageable_bps: bps / 2,
        latency_ns,
    }
}

fn node() -> Sim {
    Sim::new(HardwareProfile {
        name: String::from("pair"),
        gpus: vec![gpu(0), gpu(1)],
        links: vec![
            link(None, Some(0), LinkKind::Pcie, 1_000_000_000, 100),
            link(None, Some(1), LinkKind::Pcie, 1_000_000_000, 100),
            link(Some(0), Some(1), LinkKind::Nvlink, 2_000_000_000, 50),
        ],
        host_pin_bytes: 500,
        va_granularity_bytes: 1,
        multicast_granularity_bytes: 1,
    })
}

fn invalid<T>(why: &'static str) -> Result<T, SimError> {
    Err(SimError::Invalid { why })
}

fn work(ns: u64) -> KernelKind {
    KernelKind::other(ns, 0)
}

#[test]
fn a_kernel_pays_overhead_and_the_larger_of_compute_and_memory() {
    let mut sim = node();
    let a = sim.malloc(D0, 100).ok().expect("alloc");
    assert!(sim.kernel(D0, KernelKind::other(1000, 10), &[a], &[], S1).is_ok());
    assert_eq!(sim.synchronize(), Ok(()));
    assert_eq!(sim.clock_ns(), 10 + 5 + 1000);
    assert!(sim.kernel(D0, KernelKind::other(10, 2000), &[a], &[], S1).is_ok());
    assert_eq!(sim.synchronize(), Ok(()));
    assert_eq!(sim.clock_ns(), 1015 + 5 + 2000);
}

#[test]
fn streams_overlap_and_one_stream_is_in_order() {
    let mut sim = node();
    assert!(sim.kernel(D0, work(100), &[], &[], S1).is_ok());
    assert!(sim.kernel(D0, work(100), &[], &[], S2).is_ok());
    assert_eq!(sim.synchronize(), Ok(()));
    assert_eq!(sim.clock_ns(), 105);
    assert!(sim.kernel(D0, work(100), &[], &[], S1).is_ok());
    assert!(sim.kernel(D0, work(100), &[], &[], S1).is_ok());
    assert_eq!(sim.synchronize(), Ok(()));
    assert_eq!(sim.clock_ns(), 105 + 210);
}

#[test]
fn a_cooperative_kernel_takes_every_slot() {
    let mut sim = node();
    assert!(sim.cooperative_kernel(D0, work(100), &[], &[], S1).is_ok());
    assert!(sim.kernel(D0, work(100), &[], &[], S2).is_ok());
    assert_eq!(sim.synchronize(), Ok(()));
    assert_eq!(sim.clock_ns(), 210);
}

#[test]
fn higher_priority_starts_first() {
    let mut sim = node();
    assert_eq!(sim.set_stream_priority(D0, S2, 5), Ok(()));
    let low = sim.cooperative_kernel(D0, work(100), &[], &[], S1).ok().expect("op");
    let high = sim.cooperative_kernel(D0, work(100), &[], &[], S2).ok().expect("op");
    assert_eq!(sim.synchronize(), Ok(()));
    let low = sim.operation(low).expect("op");
    let high = sim.operation(high).expect("op");
    assert_eq!(high.start_ns, Some(0));
    assert_eq!(high.done_ns, Some(105));
    assert_eq!(low.start_ns, Some(105));
    assert_eq!(low.done_ns, Some(210));
}

#[test]
fn a_share_of_the_multiprocessors_slows_compute_only() {
    let mut sim = node();
    let a = sim.malloc(D0, 100).ok().expect("alloc");
    assert_eq!(sim.set_stream_sm_permille(D0, S1, 500), Ok(()));
    assert!(sim.kernel(D0, work(100), &[a], &[], S1).is_ok());
    assert_eq!(sim.synchronize(), Ok(()));
    assert_eq!(sim.clock_ns(), 10 + 5 + 200);
    assert!(sim.kernel(D0, KernelKind::other(0, 100), &[a], &[], S1).is_ok());
    assert_eq!(sim.synchronize(), Ok(()));
    assert_eq!(sim.clock_ns(), 215 + 5 + 100);
    assert_eq!(sim.set_stream_sm_permille(D0, S1, 0), invalid("sm permille must be 1..=1000"));
}

#[test]
fn grouped_products_and_bank_modes_scale() {
    let mut sim = node();
    let kind = KernelKind::GroupedMoeGemm {
        rows: 1,
        n: 1,
        k: 50,
        experts: 1,
        dtype: gpu_sim::ops::DType::F8,
    };
    assert!(sim.kernel(D0, kind, &[], &[], S1).is_ok());
    assert_eq!(sim.synchronize(), Ok(()));
    assert_eq!(sim.clock_ns(), (5 + 101) * 2);
    let mut attrs = KernelAttrs::plain();
    attrs.shared_mem = SharedMemoryMode::EightByte;
    assert!(sim.kernel_with(D0, work(95), &[], &[], S1, attrs).is_ok());
    assert_eq!(sim.synchronize(), Ok(()));
    assert_eq!(sim.clock_ns(), 212 + 50);
}

#[test]
fn copies_share_one_engine() {
    let mut sim = node();
    let a = sim.malloc(D0, 100).ok().expect("alloc");
    let b = sim.malloc(D0, 100).ok().expect("alloc");
    assert_eq!(sim.clock_ns(), 20);
    assert!(sim.memcpy_pinned_to_device(D0, a, 100, S1).is_ok());
    assert!(sim.memcpy_pinned_to_device(D0, b, 100, S2).is_ok());
    assert_eq!(sim.synchronize(), Ok(()));
    assert_eq!(sim.clock_ns(), 20 + 2 * (100 + 100));
    assert_eq!(sim.bytes_moved(), 200);
}

#[test]
fn a_pageable_copy_has_finished_when_it_returns() {
    let mut sim = node();
    let a = sim.malloc(D0, 100).ok().expect("alloc");
    assert!(sim.memcpy_host_to_device(D0, a, 100, S1).is_ok());
    assert_eq!(sim.clock_ns(), 10 + 100 + 200);
    assert_eq!(sim.stream_is_idle(D0, S1), Ok(true));
    let op = MemcpyOp::packed_1d(Place::Device(D0), Place::HostPinned, a, 100);
    assert!(sim.memcpy_sync(D0, op, S1).is_ok());
    assert_eq!(sim.clock_ns(), 310 + 200);
}

#[test]
fn a_peer_copy_leaves_a_replica() {
    let mut sim = node();
    let a = sim.malloc(D0, 100).ok().expect("alloc");
    assert!(sim.memcpy_device_to_device(D0, D1, a, 100, S1).is_ok());
    assert_eq!(sim.synchronize(), Ok(()));
    assert_eq!(sim.clock_ns(), 10 + 50 + 50);
    assert_eq!(sim.is_resident(a, D0), Ok(true));
    assert_eq!(sim.is_resident(a, D1), Ok(true));
    assert_eq!(sim.hbm_used(D1), Ok(100));
}

#[test]
fn extra_transfer_time_is_added() {
    let mut sim = node();
    let a = sim.malloc(D0, 100).ok().expect("alloc");
    sim.set_extra_transfer_ns(7);
    assert!(sim.memcpy_pinned_to_device(D0, a, 100, S1).is_ok());
    assert_eq!(sim.synchronize(), Ok(()));
    assert_eq!(sim.clock_ns(), 10 + 207);
}

#[test]
fn fills_and_host_functions_take_their_time() {
    let mut sim = node();
    let a = sim.malloc(D0, 100).ok().expect("alloc");
    assert!(sim.memset(D0, a, 50, S1).is_ok());
    assert_eq!(sim.synchronize(), Ok(()));
    assert_eq!(sim.clock_ns(), 10 + 5 + 50);
    assert!(sim.host_func(D0, S1).is_ok());
    assert_eq!(sim.synchronize(), Ok(()));
    assert_eq!(sim.clock_ns(), 65 + 29);
    assert_eq!(sim.memset(D0, a, 0, S1), invalid("zero-byte memset"));
    assert_eq!(sim.memset(D0, a, 101, S1).is_err(), true);
}

#[test]
fn a_ring_reduction_takes_the_slowest_hop_for_each_step() {
    let mut sim = node();
    let a = sim.malloc(D0, 100).ok().expect("alloc");
    let b = sim.malloc(D1, 100).ok().expect("alloc");
    assert_eq!(sim.allreduce(&[(D0, a)], 100, S1), invalid("allreduce needs >= 2 ranks"));
    assert!(sim.allreduce(&[(D0, a), (D1, b)], 100, S1).is_ok());
    assert_eq!(sim.synchronize(), Ok(()));
    assert_eq!(sim.clock_ns(), 20 + 50 + 50);
}

#[test]
fn events_order_streams_and_measure_time() {
    let mut sim = node();
    let start = EventId(1);
    let end = EventId(2);
    assert!(sim.record_event(D0, start, S1).is_ok());
    assert!(sim.kernel(D0, work(100), &[], &[], S1).is_ok());
    assert!(sim.record_event(D0, end, S1).is_ok());
    assert!(sim.wait_event(D0, end, S2).is_ok());
    let after = sim.kernel(D0, work(10), &[], &[], S2).ok().expect("op");
    assert_eq!(sim.query_event(end), Ok(false));
    assert_eq!(sim.synchronize_event(end), Ok(()));
    assert_eq!(sim.query_event(end), Ok(true));
    assert_eq!(sim.synchronize(), Ok(()));
    let elapsed = sim.event_elapsed_ns(start, end).ok().expect("elapsed");
    assert!(elapsed >= 105);
    let after = sim.operation(after).expect("op");
    assert!(after.start_ns.expect("start") >= 105);
    assert_eq!(sim.destroy_event(end), Ok(()));
    assert_eq!(sim.query_event(end), Err(SimError::UnknownEvent { event: 2 }));
    assert_eq!(sim.create_event(end), Ok(()));
    assert_eq!(sim.query_event(end), Ok(false));
}

#[test]
fn events_without_timing_measure_nothing() {
    let mut sim = node();
    assert_eq!(sim.create_event_disable_timing(EventId(1)), Ok(()));
    assert_eq!(sim.event_timing(EventId(1)), Ok(false));
    assert_eq!(sim.create_event_with_flags(EventId(2), 0x40).is_err(), true);
    assert_eq!(sim.create_event_interprocess(EventId(3)), Ok(()));
    let h = sim.ipc_get_event(EventId(3)).ok().expect("handle");
    assert_eq!(sim.ipc_get_event(EventId(3)), Ok(h));
    assert_eq!(sim.ipc_get_event(EventId(1)), invalid("not interprocess"));
    let alias = sim.ipc_open_event(h).ok().expect("alias");
    assert_eq!(sim.is_ipc_event_import(alias), Ok(true));
    assert_eq!(sim.ipc_get_event(alias), invalid("ipc event import"));
    assert_eq!(sim.destroy_event(EventId(3)), invalid("ipc mapped"));
    assert_eq!(sim.destroy_event(alias), Ok(()));
    assert_eq!(sim.destroy_event(EventId(3)), Ok(()));
    assert_eq!(EventCreateFlags::DEFAULT, 0);
}

#[test]
fn a_programmatic_launch_starts_at_the_trigger() {
    let mut sim = node();
    let first = ProgrammaticLaunch { wait: false, trigger: true };
    let second = ProgrammaticLaunch { wait: true, trigger: false };
    assert!(sim.kernel_pdl(D0, work(95), &[], &[], S1, first).is_ok());
    let b = sim.kernel_pdl(D0, work(95), &[], &[], S1, second).ok().expect("op");
    assert_eq!(sim.synchronize(), Ok(()));
    assert_eq!(sim.operation(b).expect("op").start_ns, Some(50));
    assert_eq!(sim.clock_ns(), 150);
}

#[test]
fn waits_hold_a_stream_until_the_word_compares() {
    let mut sim = node();
    let a = sim.malloc(D0, 16).ok().expect("alloc");
    let wait = sim.wait_value64(D0, a, 0, 5, WaitValueCmp::Geq, S1).ok().expect("op");
    assert!(sim.kernel(D0, work(95), &[], &[], S2).is_ok());
    assert!(sim.write_value64(D0, a, 0, 7, S2).is_ok());
    assert_eq!(sim.synchronize(), Ok(()));
    assert!(sim.operation(wait).expect("op").done_ns.expect("done") >= 110);
    assert_eq!(sim.write_value64(D0, a, 12, 1, S1).is_err(), true);
    assert_eq!(sim.batch_mem_op(D0, S1, &[]), invalid("empty batch mem op"));
    let ops = [
        BatchMemOp::Write { id: a, offset: 8, value: 1, bits32: false },
        BatchMemOp::Wait { id: a, offset: 8, value: 1, bits32: false, cmp: WaitValueCmp::Eq },
    ];
    assert!(sim.batch_mem_op(D0, S1, &ops).is_ok());
    assert_eq!(sim.synchronize(), Ok(()));
}

#[test]
fn a_wait_that_nothing_satisfies_is_a_deadlock() {
    let mut sim = node();
    let a = sim.malloc(D0, 16).ok().expect("alloc");
    assert!(sim.wait_value64(D0, a, 0, 5, WaitValueCmp::Eq, S1).is_ok());
    assert_eq!(sim.synchronize(), invalid("deadlock: waiting ops but nothing running"));
}

#[test]
fn persisting_lines_save_traffic_when_they_are_warm() {
    let mut sim = node();
    let a = sim.malloc(D0, 128).ok().expect("alloc");
    assert_eq!(sim.set_persisting_l2_cache_size(D0, 257), invalid("persisting L2 cache size"));
    assert_eq!(sim.set_persisting_l2_cache_size(D0, 256), Ok(()));
    assert_eq!(sim.persisting_l2_cache_size(D0), Ok(256));
    let window = AccessPolicyWindow {
        buf: KernelBuf::whole(a),
        hit_ratio_permille: 1000,
        hit: AccessProperty::Persisting,
        miss: AccessProperty::Normal,
    };
    let t0 = sim.clock_ns();
    assert!(sim.kernel_access_policy(D0, KernelKind::other(0, 128), &[a], &[], S1, window).is_ok());
    assert_eq!(sim.synchronize(), Ok(()));
    assert_eq!(sim.clock_ns(), t0 + 5 + 128);
    assert!(sim.kernel_access_policy(D0, KernelKind::other(0, 128), &[a], &[], S1, window).is_ok());
    assert_eq!(sim.synchronize(), Ok(()));
    assert_eq!(sim.clock_ns(), t0 + 133 + 5 + 64);
    assert_eq!(sim.reset_persisting_l2_cache(D0), Ok(()));
    let t1 = sim.clock_ns();
    assert!(sim.kernel_access_policy(D0, KernelKind::other(0, 128), &[a], &[], S1, window).is_ok());
    assert_eq!(sim.synchronize(), Ok(()));
    assert_eq!(sim.clock_ns(), t1 + 133);
}

#[test]
fn waiting_on_a_stream_pays_its_policy() {
    let mut sim = node();
    assert_eq!(sim.set_stream_sync_policy(D0, S1, SynchronizationPolicy::BlockingSync), Ok(()));
    assert!(sim.kernel(D0, work(95), &[], &[], S1).is_ok());
    assert_eq!(sim.synchronize_stream(D0, S1), Ok(()));
    assert_eq!(sim.clock_ns(), 103);
    assert_eq!(sim.idle_until(200), Ok(97));
    assert_eq!(sim.clock_ns(), 200);
    assert_eq!(sim.idle_until(100), Ok(0));
    assert_eq!(sim.clock_ns(), 200);
}

#[test]
fn one_stream_or_device_is_awaited_alone() {
    let mut sim = node();
    assert!(sim.kernel(D0, work(995), &[], &[], S1).is_ok());
    assert!(sim.kernel(D0, work(95), &[], &[], S2).is_ok());
    assert!(sim.kernel(D1, work(45), &[], &[], S1).is_ok());
    assert_eq!(sim.synchronize_device(D1), Ok(()));
    assert_eq!(sim.clock_ns(), 50);
    assert_eq!(sim.synchronize_stream(D0, S2), Ok(()));
    assert_eq!(sim.clock_ns(), 100);
    assert_eq!(sim.stream_is_idle(D0, S1), Ok(false));
    assert_eq!(sim.synchronize(), Ok(()));
    assert_eq!(sim.clock_ns(), 1000);
    assert_eq!(sim.operations().len(), 3);
}

#[test]
fn refusals_name_what_is_wrong() {
    let mut sim = node();
    let a = sim.malloc(D0, 10).ok().expect("alloc");
    assert!(sim.kernel(D1, work(1), &[a], &[], S1).is_ok());
    assert_eq!(sim.synchronize(), Err(SimError::NotResident { alloc: a, device: D1 }));

    let mut sim = node();
    let a = sim.malloc(D0, 10).ok().expect("alloc");
    sim.fail_next_memcpy();
    assert!(sim.memcpy_pinned_to_device(D0, a, 10, S1).is_ok());
    assert_eq!(sim.synchronize(), Err(SimError::TransferFailed { alloc: a }));
    assert_eq!(sim.cancelled_count(), 1);

    let mut sim = node();
    let a = sim.malloc(D0, 10).ok().expect("alloc");
    assert_eq!(sim.disable_peer(D0, D1), Ok(()));
    assert!(sim.memcpy_device_to_device(D0, D1, a, 10, S1).is_ok());
    assert_eq!(sim.synchronize(), Err(SimError::PeerDisabled { src: D0, dst: D1 }));

    let mut sim = Sim::new(HardwareProfile {
        name: String::from("apart"),
        gpus: vec![gpu(0), gpu(1)],
        links: vec![link(None, Some(0), LinkKind::Pcie, 1_000_000_000, 100)],
        host_pin_bytes: 500,
        va_granularity_bytes: 1,
        multicast_granularity_bytes: 1,
    });
    assert_eq!(sim.enable_peer(D0, D1), Err(SimError::NoPeer { src: D0, dst: D1 }));
    assert_eq!(sim.device_can_access_peer(D0, D1), Ok(false));

    let mut sim = node();
    assert_eq!(sim.set_unavailable(D0, true), Ok(()));
    assert_eq!(
        sim.kernel(D0, work(1), &[], &[], S1),
        Err(SimError::Unavailable { device: D0 }),
    );
    assert_eq!(sim.set_unavailable(D0, false), Ok(()));
    assert!(sim.kernel(D0, work(1), &[], &[], S1).is_ok());

    let mut sim = node();
    assert!(sim.kernel(D0, work(1), &[], &[], S1).is_ok());
    assert_eq!(sim.cancel_stream(D0, S1), Ok(1));
    assert_eq!(sim.synchronize(), Err(SimError::Cancelled { stream: S1, n: 1 }));
    assert_eq!(
        sim.kernel(D0, work(1), &[AllocId(5)], &[], S1),
        Err(SimError::UnknownAlloc { alloc: AllocId(5) }),
    );
}

#[test]
fn memory_in_use_is_leased() {
    let mut sim = node();
    let va = sim.va_reserve(64).ok().expect("range");
    assert_eq!(sim.va_map_range(va, D0, 0, 32), Ok(()));
    let span = KernelBuf::span(va, 0, 32);
    assert!(sim.kernel_bufs(D0, work(1000), &[span], &[], S1).is_ok());
    assert!(sim.host_func(D0, S2).is_ok());
    assert_eq!(sim.synchronize_stream(D0, S2), Ok(()));
    assert_eq!(sim.va_map_range(va, D0, 32, 32), Err(SimError::Leased { alloc: va }));
    assert_eq!(sim.synchronize(), Ok(()));
    assert_eq!(sim.va_map_range(va, D0, 32, 32), Ok(()));
}

#[test]
fn times_between_events_add_up() {
    let mut sim = node();
    let a = EventId(1);
    let b = EventId(2);
    let c = EventId(3);
    assert_eq!(sim.event_elapsed_ns(a, b), Err(SimError::UnknownEvent { event: 1 }));
    assert!(sim.record_event(D0, a, S1).is_ok());
    assert_eq!(sim.event_elapsed_ns(a, a), invalid("event elapsed: not complete"));
    assert!(sim.kernel(D0, work(100), &[], &[], S1).is_ok());
    assert!(sim.record_event(D0, b, S1).is_ok());
    assert!(sim.kernel(D0, work(40), &[], &[], S1).is_ok());
    assert!(sim.record_event(D0, c, S1).is_ok());
    assert_eq!(sim.synchronize(), Ok(()));
    let ab = sim.event_elapsed_ns(a, b).ok().expect("time");
    let bc = sim.event_elapsed_ns(b, c).ok().expect("time");
    assert!(ab > bc && bc > 0);
    assert_eq!(sim.event_elapsed_ns(a, c), Ok(ab + bc));
    assert_eq!(sim.event_elapsed_ns(a, a), Ok(0));
    assert_eq!(sim.event_elapsed_ns(c, a), invalid("event elapsed: end before start"));
}
