//! Copies, kernels, fills and other stream work.
use vstd::prelude::*;
use crate::error::{invalid, SimError};
use crate::ids::{AllocId, DeviceId, EventId, OpId, StreamId};
use crate::kinds::{batch_node, kind_from_batch};
use crate::list::copy_slice;
use crate::ops::{
    AccessPolicyWindow, BatchMemOp, EventRecordFlags, EventWaitFlags, GpuOp, GpuOpView,
    HostNodeParams, KernelAttrs, KernelBuf, KernelKind, LaunchCompletionEvent, MemAttach, MemcpyOp,
    MemsetOp, PdlLaunch, Place, ProgrammaticLaunch, WaitValueCmp,
};
use crate::sim::{Sim, SimState};
use crate::spans::memcpy_2d_check;
use crate::state::Enq;

verus! {

impl SimState {
    /// Effect of [`Sim::memcpy`].
    pub open spec fn memcpy(
        self,
        device: DeviceId,
        op: MemcpyOp,
        stream: StreamId,
    ) -> (SimState, Result<OpId, SimError>) {
        let s = self;
        let pageable = op.src.is_pageable() || op.dst.is_pageable();
        if pageable && s.in_capture(device, stream) {
            (s, Err(invalid("cannot capture pageable memcpy")))
        } else {
            match memcpy_2d_check(op) {
                Err(e) => (s, Err(e)),
                Ok(_v) => match s.submit(device, stream, GpuOpView::Memcpy(op)) {
                    (s, Err(e)) => (s, Err(e)),
                    (s, Ok(id)) => if pageable {
                        match s.synchronize_stream(device, stream) {
                            (s, Err(e)) => (s, Err(e)),
                            (s, Ok(_v)) => (s, Ok(id)),
                        }
                    } else {
                        (s, Ok(id))
                    },
                },
            }
        }
    }

    /// Effect of [`Sim::memcpy_sync`].
    pub open spec fn memcpy_sync(
        self,
        device: DeviceId,
        op: MemcpyOp,
        stream: StreamId,
    ) -> (SimState, Result<OpId, SimError>) {
        let s = self;
        match s.fail_if_capturing("cannot capture host-sync memcpy") {
            Err(e) => (s, Err(e)),
            Ok(_v) => match s.memcpy(device, op, stream) {
                (s, Err(e)) => (s, Err(e)),
                (s, Ok(id)) => match s.synchronize_stream(device, stream) {
                    (s, Err(e)) => (s, Err(e)),
                    (s, Ok(_v)) => (s, Ok(id)),
                },
            },
        }
    }

    /// Effect of [`Sim::memcpy_host_to_device`].
    pub open spec fn memcpy_host_to_device(
        self,
        device: DeviceId,
        alloc: AllocId,
        bytes: u64,
        stream: StreamId,
    ) -> (SimState, Result<OpId, SimError>) {
        let s = self;
        s.memcpy(
            device,
            MemcpyOp::packed_1d(Place::Host, Place::Device(device), alloc, bytes),
            stream,
        )
    }

    /// Effect of [`Sim::memcpy_pinned_to_device`].
    pub open spec fn memcpy_pinned_to_device(
        self,
        device: DeviceId,
        alloc: AllocId,
        bytes: u64,
        stream: StreamId,
    ) -> (SimState, Result<OpId, SimError>) {
        let s = self;
        s.memcpy(
            device,
            MemcpyOp::packed_1d(Place::HostPinned, Place::Device(device), alloc, bytes),
            stream,
        )
    }

    /// Effect of [`Sim::memcpy_device_to_host`].
    pub open spec fn memcpy_device_to_host(
        self,
        device: DeviceId,
        alloc: AllocId,
        bytes: u64,
        stream: StreamId,
    ) -> (SimState, Result<OpId, SimError>) {
        let s = self;
        s.memcpy(
            device,
            MemcpyOp::packed_1d(Place::Device(device), Place::Host, alloc, bytes),
            stream,
        )
    }

    /// Effect of [`Sim::memcpy_device_to_pinned`].
    pub open spec fn memcpy_device_to_pinned(
        self,
        device: DeviceId,
        alloc: AllocId,
        bytes: u64,
        stream: StreamId,
    ) -> (SimState, Result<OpId, SimError>) {
        let s = self;
        s.memcpy(
            device,
            MemcpyOp::packed_1d(Place::Device(device), Place::HostPinned, alloc, bytes),
            stream,
        )
    }

    /// Effect of [`Sim::memcpy_device_to_device`].
    pub open spec fn memcpy_device_to_device(
        self,
        src: DeviceId,
        dst: DeviceId,
        alloc: AllocId,
        bytes: u64,
        stream: StreamId,
    ) -> (SimState, Result<OpId, SimError>) {
        let s = self;
        s.memcpy(
            src,
            MemcpyOp::packed_1d(Place::Device(src), Place::Device(dst), alloc, bytes),
            stream,
        )
    }

    /// Effect of [`Sim::prefetch`].
    pub open spec fn prefetch(
        self,
        device: DeviceId,
        alloc: AllocId,
        stream: StreamId,
    ) -> (SimState, Result<OpId, SimError>) {
        let s = self;
        match s.managed_move_src(alloc, Some(device)) {
            Err(e) => (s, Err(e)),
            Ok((bytes, src)) => s.memcpy(
                device,
                MemcpyOp::packed_1d(src, Place::Device(device), alloc, bytes),
                stream,
            ),
        }
    }

    /// Effect of [`Sim::prefetch_host`].
    pub open spec fn prefetch_host(
        self,
        device: DeviceId,
        alloc: AllocId,
        stream: StreamId,
    ) -> (SimState, Result<OpId, SimError>) {
        let s = self;
        match s.managed_move_src(alloc, None) {
            Err(e) => (s, Err(e)),
            Ok((bytes, src)) => {
                let on = (match src {
                    Place::Device(d) => d,
                    _ => device,
                });
                s.memcpy(on, MemcpyOp::packed_1d(src, Place::HostPinned, alloc, bytes), stream)
            },
        }
    }

    /// Effect of [`Sim::submit_kernel`].
    pub open spec fn submit_kernel(
        self,
        device: DeviceId,
        kind: KernelKind,
        reads: Seq<KernelBuf>,
        writes: Seq<KernelBuf>,
        stream: StreamId,
        cooperative: bool,
    ) -> (SimState, Result<OpId, SimError>) {
        let s = self;
        match s.resolve_bufs(reads) {
            Err(e) => (s, Err(e)),
            Ok(r) => match s.resolve_bufs(writes) {
                Err(e) => (s, Err(e)),
                Ok(w) => s.submit(
                    device,
                    stream,
                    GpuOpView::Kernel { kind, reads: r, writes: w, cooperative },
                ),
            },
        }
    }

    /// Effect of [`Sim::submit_kernel_under`].
    pub open spec fn submit_kernel_under(
        self,
        enq: Enq,
        device: DeviceId,
        kind: KernelKind,
        reads: Seq<KernelBuf>,
        writes: Seq<KernelBuf>,
        stream: StreamId,
        cooperative: bool,
    ) -> (SimState, Result<OpId, SimError>) {
        let s = self;
        let prev = s.enq;
        let s = SimState { enq: enq, ..s };
        let (s, out) = s.submit_kernel(device, kind, reads, writes, stream, cooperative);
        let s = SimState { enq: prev, ..s };
        (s, out)
    }

    /// Effect of [`Sim::kernel_bufs`].
    pub open spec fn kernel_bufs(
        self,
        device: DeviceId,
        kind: KernelKind,
        reads: Seq<KernelBuf>,
        writes: Seq<KernelBuf>,
        stream: StreamId,
    ) -> (SimState, Result<OpId, SimError>) {
        let s = self;
        let enq = s.enq;
        let enq = Enq { nvlink_util_centric: s.stream_nvlink_util_centric(device, stream), ..enq };
        s.submit_kernel_under(enq, device, kind, reads, writes, stream, false)
    }

    /// Effect of [`Sim::kernel_pdl_bufs`].
    pub open spec fn kernel_pdl_bufs(
        self,
        device: DeviceId,
        kind: KernelKind,
        reads: Seq<KernelBuf>,
        writes: Seq<KernelBuf>,
        stream: StreamId,
        pdl: ProgrammaticLaunch,
    ) -> (SimState, Result<OpId, SimError>) {
        let s = self;
        let enq = s.enq;
        let enq = Enq { pdl: pdl, ..enq };
        s.submit_kernel_under(enq, device, kind, reads, writes, stream, false)
    }

    /// Effect of [`Sim::kernel_pdl_event_bufs`].
    pub open spec fn kernel_pdl_event_bufs(
        self,
        device: DeviceId,
        kind: KernelKind,
        reads: Seq<KernelBuf>,
        writes: Seq<KernelBuf>,
        stream: StreamId,
        launch: PdlLaunch,
    ) -> (SimState, Result<OpId, SimError>) {
        let s = self;
        let enq = s.enq;
        let enq = Enq { pdl: launch.pdl, ..enq };
        let enq = Enq { programmatic_event: launch.event, ..enq };
        s.submit_kernel_under(enq, device, kind, reads, writes, stream, false)
    }

    /// Effect of [`Sim::kernel_launch_completion_bufs`].
    pub open spec fn kernel_launch_completion_bufs(
        self,
        device: DeviceId,
        kind: KernelKind,
        reads: Seq<KernelBuf>,
        writes: Seq<KernelBuf>,
        stream: StreamId,
        event: LaunchCompletionEvent,
    ) -> (SimState, Result<OpId, SimError>) {
        let s = self;
        let enq = s.enq;
        let enq = Enq { launch_completion: Some(event), ..enq };
        s.submit_kernel_under(enq, device, kind, reads, writes, stream, false)
    }

    /// Effect of [`Sim::cooperative_kernel_bufs`].
    pub open spec fn cooperative_kernel_bufs(
        self,
        device: DeviceId,
        kind: KernelKind,
        reads: Seq<KernelBuf>,
        writes: Seq<KernelBuf>,
        stream: StreamId,
    ) -> (SimState, Result<OpId, SimError>) {
        let s = self;
        match s.require_cooperative(device) {
            Err(e) => (s, Err(e)),
            Ok(_v) => s.submit_kernel(device, kind, reads, writes, stream, true),
        }
    }

    /// Value of [`Sim::kernel_attrs_ok`].
    pub open spec fn kernel_attrs_ok(
        self,
        device: DeviceId,
        attrs: KernelAttrs,
    ) -> Result<(), SimError> {
        match attrs.access_policy {
            Some(w) => match self.validate_access_policy_window(device, w) {
                Err(e) => Err(e),
                Ok(_v) => match attrs.mem_sync_map {
                    Some(map) => match self.validate_mem_sync_map(device, map) {
                        Err(e) => Err(e),
                        Ok(_v) => match self.validate_cluster_attrs(
                            device,
                            attrs.cluster,
                            attrs.preferred_cluster,
                            attrs.portable_cluster,
                        ) {
                            Err(e) => Err(e),
                            Ok(_v) => match self.validate_dynamic_shared(
                                device,
                                attrs.dynamic_shared,
                                attrs.portable_shared,
                            ) {
                                Err(e) => Err(e),
                                Ok(_v) => if attrs.cooperative {
                                    match self.require_cooperative(device) {
                                        Err(e) => Err(e),
                                        Ok(_v) => if attrs.device_updatable && self.capturing.is_none() {
                                            Err(invalid("device-updatable is graphs-only"))
                                        } else {
                                            Ok(())
                                        },
                                    }
                                } else if attrs.device_updatable && self.capturing.is_none() {
                                    Err(invalid("device-updatable is graphs-only"))
                                } else {
                                    Ok(())
                                },
                            },
                        },
                    },
                    _ => match self.validate_cluster_attrs(
                        device,
                        attrs.cluster,
                        attrs.preferred_cluster,
                        attrs.portable_cluster,
                    ) {
                        Err(e) => Err(e),
                        Ok(_v) => match self.validate_dynamic_shared(
                            device,
                            attrs.dynamic_shared,
                            attrs.portable_shared,
                        ) {
                            Err(e) => Err(e),
                            Ok(_v) => if attrs.cooperative {
                                match self.require_cooperative(device) {
                                    Err(e) => Err(e),
                                    Ok(_v) => if attrs.device_updatable && self.capturing.is_none() {
                                        Err(invalid("device-updatable is graphs-only"))
                                    } else {
                                        Ok(())
                                    },
                                }
                            } else if attrs.device_updatable && self.capturing.is_none() {
                                Err(invalid("device-updatable is graphs-only"))
                            } else {
                                Ok(())
                            },
                        },
                    },
                },
            },
            _ => match attrs.mem_sync_map {
                Some(map) => match self.validate_mem_sync_map(device, map) {
                    Err(e) => Err(e),
                    Ok(_v) => match self.validate_cluster_attrs(
                        device,
                        attrs.cluster,
                        attrs.preferred_cluster,
                        attrs.portable_cluster,
                    ) {
                        Err(e) => Err(e),
                        Ok(_v) => match self.validate_dynamic_shared(
                            device,
                            attrs.dynamic_shared,
                            attrs.portable_shared,
                        ) {
                            Err(e) => Err(e),
                            Ok(_v) => if attrs.cooperative {
                                match self.require_cooperative(device) {
                                    Err(e) => Err(e),
                                    Ok(_v) => if attrs.device_updatable && self.capturing.is_none() {
                                        Err(invalid("device-updatable is graphs-only"))
                                    } else {
                                        Ok(())
                                    },
                                }
                            } else if attrs.device_updatable && self.capturing.is_none() {
                                Err(invalid("device-updatable is graphs-only"))
                            } else {
                                Ok(())
                            },
                        },
                    },
                },
                _ => match self.validate_cluster_attrs(
                    device,
                    attrs.cluster,
                    attrs.preferred_cluster,
                    attrs.portable_cluster,
                ) {
                    Err(e) => Err(e),
                    Ok(_v) => match self.validate_dynamic_shared(
                        device,
                        attrs.dynamic_shared,
                        attrs.portable_shared,
                    ) {
                        Err(e) => Err(e),
                        Ok(_v) => if attrs.cooperative {
                            match self.require_cooperative(device) {
                                Err(e) => Err(e),
                                Ok(_v) => if attrs.device_updatable && self.capturing.is_none() {
                                    Err(invalid("device-updatable is graphs-only"))
                                } else {
                                    Ok(())
                                },
                            }
                        } else if attrs.device_updatable && self.capturing.is_none() {
                            Err(invalid("device-updatable is graphs-only"))
                        } else {
                            Ok(())
                        },
                    },
                },
            },
        }
    }

    /// Value of [`Sim::enq_with`].
    pub open spec fn enq_with(self, attrs: KernelAttrs) -> Enq {
        let enq = self.enq;
        let enq = Enq { pdl: attrs.pdl, ..enq };
        let enq = Enq { access_policy: attrs.access_policy, ..enq };
        let enq = Enq { mem_sync_domain: attrs.mem_sync_domain, ..enq };
        let enq = Enq { mem_sync_map: attrs.mem_sync_map, ..enq };
        let enq = Enq { cluster: attrs.cluster, ..enq };
        let enq = Enq { cluster_policy: attrs.cluster_policy, ..enq };
        let enq = Enq { preferred_cluster: attrs.preferred_cluster, ..enq };
        let enq = Enq { carveout: attrs.carveout, ..enq };
        let enq = Enq { device_updatable: attrs.device_updatable, ..enq };
        let enq = Enq { shared_mem: attrs.shared_mem, ..enq };
        let enq = Enq { portable_cluster: attrs.portable_cluster, ..enq };
        let enq = Enq { dynamic_shared: attrs.dynamic_shared, ..enq };
        let enq = Enq { portable_shared: attrs.portable_shared, ..enq };
        let enq = Enq { nvlink_util_centric: attrs.nvlink_util_centric, ..enq };
        let enq = Enq { priority: attrs.priority, ..enq };
        enq
    }

    /// Effect of [`Sim::kernel_bufs_with`].
    pub open spec fn kernel_bufs_with(
        self,
        device: DeviceId,
        kind: KernelKind,
        reads: Seq<KernelBuf>,
        writes: Seq<KernelBuf>,
        stream: StreamId,
        attrs: KernelAttrs,
    ) -> (SimState, Result<OpId, SimError>) {
        let s = self;
        match s.kernel_attrs_ok(device, attrs) {
            Err(e) => (s, Err(e)),
            Ok(_v) => {
                let enq = s.enq_with(attrs);
                s.submit_kernel_under(enq, device, kind, reads, writes, stream, attrs.cooperative)
            },
        }
    }

    /// Effect of [`Sim::kernel_access_policy_bufs`].
    pub open spec fn kernel_access_policy_bufs(
        self,
        device: DeviceId,
        kind: KernelKind,
        reads: Seq<KernelBuf>,
        writes: Seq<KernelBuf>,
        stream: StreamId,
        window: AccessPolicyWindow,
    ) -> (SimState, Result<OpId, SimError>) {
        let s = self;
        let attrs = KernelAttrs::plain();
        let attrs = KernelAttrs { access_policy: Some(window), ..attrs };
        s.kernel_bufs_with(device, kind, reads, writes, stream, attrs)
    }

    /// Effect of [`Sim::kernel`].
    pub open spec fn kernel(
        self,
        device: DeviceId,
        kind: KernelKind,
        reads: Seq<AllocId>,
        writes: Seq<AllocId>,
        stream: StreamId,
    ) -> (SimState, Result<OpId, SimError>) {
        let s = self;
        let r = s.whole_bufs(reads);
        let w = s.whole_bufs(writes);
        s.kernel_bufs(device, kind, r, w, stream)
    }

    /// Effect of [`Sim::kernel_pdl`].
    pub open spec fn kernel_pdl(
        self,
        device: DeviceId,
        kind: KernelKind,
        reads: Seq<AllocId>,
        writes: Seq<AllocId>,
        stream: StreamId,
        pdl: ProgrammaticLaunch,
    ) -> (SimState, Result<OpId, SimError>) {
        let s = self;
        let r = s.whole_bufs(reads);
        let w = s.whole_bufs(writes);
        s.kernel_pdl_bufs(device, kind, r, w, stream, pdl)
    }

    /// Effect of [`Sim::kernel_pdl_event`].
    pub open spec fn kernel_pdl_event(
        self,
        device: DeviceId,
        kind: KernelKind,
        reads: Seq<AllocId>,
        writes: Seq<AllocId>,
        stream: StreamId,
        launch: PdlLaunch,
    ) -> (SimState, Result<OpId, SimError>) {
        let s = self;
        let r = s.whole_bufs(reads);
        let w = s.whole_bufs(writes);
        s.kernel_pdl_event_bufs(device, kind, r, w, stream, launch)
    }

    /// Effect of [`Sim::kernel_launch_completion`].
    pub open spec fn kernel_launch_completion(
        self,
        device: DeviceId,
        kind: KernelKind,
        reads: Seq<AllocId>,
        writes: Seq<AllocId>,
        stream: StreamId,
        event: LaunchCompletionEvent,
    ) -> (SimState, Result<OpId, SimError>) {
        let s = self;
        let r = s.whole_bufs(reads);
        let w = s.whole_bufs(writes);
        s.kernel_launch_completion_bufs(device, kind, r, w, stream, event)
    }

    /// Effect of [`Sim::kernel_with`].
    pub open spec fn kernel_with(
        self,
        device: DeviceId,
        kind: KernelKind,
        reads: Seq<AllocId>,
        writes: Seq<AllocId>,
        stream: StreamId,
        attrs: KernelAttrs,
    ) -> (SimState, Result<OpId, SimError>) {
        let s = self;
        let r = s.whole_bufs(reads);
        let w = s.whole_bufs(writes);
        s.kernel_bufs_with(device, kind, r, w, stream, attrs)
    }

    /// Effect of [`Sim::kernel_access_policy`].
    pub open spec fn kernel_access_policy(
        self,
        device: DeviceId,
        kind: KernelKind,
        reads: Seq<AllocId>,
        writes: Seq<AllocId>,
        stream: StreamId,
        window: AccessPolicyWindow,
    ) -> (SimState, Result<OpId, SimError>) {
        let s = self;
        let r = s.whole_bufs(reads);
        let w = s.whole_bufs(writes);
        s.kernel_access_policy_bufs(device, kind, r, w, stream, window)
    }

    /// Effect of [`Sim::cooperative_kernel`].
    pub open spec fn cooperative_kernel(
        self,
        device: DeviceId,
        kind: KernelKind,
        reads: Seq<AllocId>,
        writes: Seq<AllocId>,
        stream: StreamId,
    ) -> (SimState, Result<OpId, SimError>) {
        let s = self;
        let r = s.whole_bufs(reads);
        let w = s.whole_bufs(writes);
        s.cooperative_kernel_bufs(device, kind, r, w, stream)
    }

    /// Effect of [`Sim::memset`].
    pub open spec fn memset(
        self,
        device: DeviceId,
        alloc: AllocId,
        bytes: u64,
        stream: StreamId,
    ) -> (SimState, Result<OpId, SimError>) {
        let s = self;
        if bytes == 0 {
            (s, Err(invalid("zero-byte memset")))
        } else {
            s.memset_buf(device, KernelBuf::span(alloc, 0, bytes), stream)
        }
    }

    /// Effect of [`Sim::memset_buf`].
    pub open spec fn memset_buf(
        self,
        device: DeviceId,
        buf: KernelBuf,
        stream: StreamId,
    ) -> (SimState, Result<OpId, SimError>) {
        let s = self;
        s.memset_op(device, MemsetOp::from_buf(buf), stream)
    }

    /// Effect of [`Sim::memset_op`].
    pub open spec fn memset_op(
        self,
        device: DeviceId,
        op: MemsetOp,
        stream: StreamId,
    ) -> (SimState, Result<OpId, SimError>) {
        let s = self;
        match s.resolve_memset_op(op) {
            Err(e) => (s, Err(e)),
            Ok(full) => s.submit(device, stream, GpuOpView::Memset(full)),
        }
    }

    /// Effect of [`Sim::host_func`].
    pub open spec fn host_func(
        self,
        device: DeviceId,
        stream: StreamId,
    ) -> (SimState, Result<OpId, SimError>) {
        let s = self;
        s.host_func_params(device, stream, HostNodeParams { fn_id: 0, user_data: 0 })
    }

    /// Effect of [`Sim::host_func_params`].
    pub open spec fn host_func_params(
        self,
        device: DeviceId,
        stream: StreamId,
        params: HostNodeParams,
    ) -> (SimState, Result<OpId, SimError>) {
        let s = self;
        s.submit(
            device,
            stream,
            GpuOpView::HostFunc { fn_id: params.fn_id, user_data: params.user_data },
        )
    }

    /// Effect of [`Sim::write_value64`].
    pub open spec fn write_value64(
        self,
        device: DeviceId,
        id: AllocId,
        offset: u64,
        value: u64,
        stream: StreamId,
    ) -> (SimState, Result<OpId, SimError>) {
        let s = self;
        s.submit_batch_mem(device, stream, BatchMemOp::Write { id, offset, value, bits32: false })
    }

    /// Effect of [`Sim::write_value32`].
    pub open spec fn write_value32(
        self,
        device: DeviceId,
        id: AllocId,
        offset: u64,
        value: u64,
        stream: StreamId,
    ) -> (SimState, Result<OpId, SimError>) {
        let s = self;
        s.submit_batch_mem(device, stream, BatchMemOp::Write { id, offset, value, bits32: true })
    }

    /// Effect of [`Sim::wait_value64`].
    pub open spec fn wait_value64(
        self,
        device: DeviceId,
        id: AllocId,
        offset: u64,
        value: u64,
        cmp: WaitValueCmp,
        stream: StreamId,
    ) -> (SimState, Result<OpId, SimError>) {
        let s = self;
        s.submit_batch_mem(
            device,
            stream,
            BatchMemOp::Wait { id, offset, value, bits32: false, cmp },
        )
    }

    /// Effect of [`Sim::wait_value32`].
    pub open spec fn wait_value32(
        self,
        device: DeviceId,
        id: AllocId,
        offset: u64,
        value: u64,
        cmp: WaitValueCmp,
        stream: StreamId,
    ) -> (SimState, Result<OpId, SimError>) {
        let s = self;
        s.submit_batch_mem(
            device,
            stream,
            BatchMemOp::Wait { id, offset, value, bits32: true, cmp },
        )
    }

    /// Effect of [`Sim::batch_mem_op`].
    pub open spec fn batch_mem_op(
        self,
        device: DeviceId,
        stream: StreamId,
        ops: Seq<BatchMemOp>,
    ) -> (SimState, Result<OpId, SimError>) {
        let s = self;
        match s.check_batch_mem_ops(ops) {
            Err(e) => (s, Err(e)),
            Ok(_v) => if ops.len() == 1 {
                s.submit(device, stream, batch_node(ops[0]))
            } else {
                s.submit(device, stream, GpuOpView::BatchMem { ops })
            },
        }
    }

    /// Effect of [`Sim::submit_batch_mem`].
    pub open spec fn submit_batch_mem(
        self,
        device: DeviceId,
        stream: StreamId,
        op: BatchMemOp,
    ) -> (SimState, Result<OpId, SimError>) {
        let s = self;
        match s.check_batch_mem(op) {
            Err(e) => (s, Err(e)),
            Ok(_v) => s.submit(device, stream, batch_node(op)),
        }
    }

    /// Effect of [`Sim::stream_attach`].
    pub open spec fn stream_attach(
        self,
        device: DeviceId,
        id: AllocId,
        stream: StreamId,
        flags: MemAttach,
    ) -> (SimState, Result<OpId, SimError>) {
        let s = self;
        match s.fail_if_capturing("cannot capture stream attach") {
            Err(e) => (s, Err(e)),
            Ok(_v) => match s.alloc_ref(id) {
                Err(e) => (s, Err(e)),
                Ok(a) => if !a.live {
                    (s, Err(invalid("freed")))
                } else if !a.managed {
                    (s, Err(invalid("not managed")))
                } else if flags == MemAttach::Single && stream.is_null() {
                    (s, Err(invalid("cannot attach single to null stream")))
                } else {
                    s.submit(device, stream, GpuOpView::Attach { id, flags })
                },
            },
        }
    }

    /// Effect of [`Sim::record_event`].
    pub open spec fn record_event(
        self,
        device: DeviceId,
        event: EventId,
        stream: StreamId,
    ) -> (SimState, Result<OpId, SimError>) {
        let s = self;
        s.record_event_with_flags(device, event, stream, EventRecordFlags::DEFAULT)
    }

    /// Effect of [`Sim::record_event_external`].
    pub open spec fn record_event_external(
        self,
        device: DeviceId,
        event: EventId,
        stream: StreamId,
    ) -> (SimState, Result<OpId, SimError>) {
        let s = self;
        s.record_event_with_flags(device, event, stream, EventRecordFlags::EXTERNAL)
    }

    /// Effect of [`Sim::record_event_with_flags`].
    pub open spec fn record_event_with_flags(
        self,
        device: DeviceId,
        event: EventId,
        stream: StreamId,
        flags: u32,
    ) -> (SimState, Result<OpId, SimError>) {
        let s = self;
        if flags & !EventRecordFlags::EXTERNAL != 0 {
            (s, Err(invalid("event record flags")))
        } else {
            let s = s.ensure_event(event);
            let external = flags & EventRecordFlags::EXTERNAL != 0;
            s.submit(device, stream, GpuOpView::EventRecord { event, external })
        }
    }

    /// Effect of [`Sim::wait_event`].
    pub open spec fn wait_event(
        self,
        device: DeviceId,
        event: EventId,
        stream: StreamId,
    ) -> (SimState, Result<OpId, SimError>) {
        let s = self;
        s.wait_event_with_flags(device, event, stream, EventWaitFlags::DEFAULT)
    }

    /// Effect of [`Sim::wait_event_external`].
    pub open spec fn wait_event_external(
        self,
        device: DeviceId,
        event: EventId,
        stream: StreamId,
    ) -> (SimState, Result<OpId, SimError>) {
        let s = self;
        s.wait_event_with_flags(device, event, stream, EventWaitFlags::EXTERNAL)
    }

    /// Effect of [`Sim::wait_event_with_flags`].
    pub open spec fn wait_event_with_flags(
        self,
        device: DeviceId,
        event: EventId,
        stream: StreamId,
        flags: u32,
    ) -> (SimState, Result<OpId, SimError>) {
        let s = self;
        if flags & !EventWaitFlags::EXTERNAL != 0 {
            (s, Err(invalid("event wait flags")))
        } else {
            let s = s.ensure_event(event);
            let external = flags & EventWaitFlags::EXTERNAL != 0;
            s.submit(device, stream, GpuOpView::EventWait { event, external })
        }
    }

    /// Effect of [`Sim::free`].
    pub open spec fn free(
        self,
        device: DeviceId,
        id: AllocId,
        stream: StreamId,
    ) -> (SimState, Result<(), SimError>) {
        let s = self;
        match s.submit(device, stream, GpuOpView::Free { id }) {
            (s, Err(e)) => (s, Err(e)),
            (s, Ok(_op)) => (s, Ok(())),
        }
    }
}

impl Sim {
    /// Submit a copy. One with pageable memory at an end has finished when this returns.
    pub fn memcpy(
        &mut self,
        device: DeviceId,
        op: MemcpyOp,
        stream: StreamId,
    ) -> (r: Result<OpId, SimError>)
        ensures
            final(self)@ == old(self)@.memcpy(device, op, stream).0,
            r == old(self)@.memcpy(device, op, stream).1,
    {
        let pageable: bool = op.src.is_pageable() || op.dst.is_pageable();
        if pageable && self.in_capture(device, stream) {
            return Err(invalid("cannot capture pageable memcpy"));
        }
        memcpy_2d_check(op)?;
        let id = self.submit(device, stream, GpuOp::Memcpy(op))?;
        if pageable {
            self.synchronize_stream(device, stream)?;
        }
        Ok(id)
    }

    /// Submit a copy and wait for its stream.
    pub fn memcpy_sync(
        &mut self,
        device: DeviceId,
        op: MemcpyOp,
        stream: StreamId,
    ) -> (r: Result<OpId, SimError>)
        ensures
            final(self)@ == old(self)@.memcpy_sync(device, op, stream).0,
            r == old(self)@.memcpy_sync(device, op, stream).1,
    {
        self.fail_if_capturing("cannot capture host-sync memcpy")?;
        let id = self.memcpy(device, op, stream)?;
        self.synchronize_stream(device, stream)?;
        Ok(id)
    }

    /// Copy pageable host memory to the device, and wait.
    pub fn memcpy_host_to_device(
        &mut self,
        device: DeviceId,
        alloc: AllocId,
        bytes: u64,
        stream: StreamId,
    ) -> (r: Result<OpId, SimError>)
        ensures
            final(self)@ == old(self)@.memcpy_host_to_device(device, alloc, bytes, stream).0,
            r == old(self)@.memcpy_host_to_device(device, alloc, bytes, stream).1,
    {
        self.memcpy(
            device,
            MemcpyOp::packed_1d(Place::Host, Place::Device(device), alloc, bytes),
            stream,
        )
    }

    /// Copy page-locked host memory to the device.
    pub fn memcpy_pinned_to_device(
        &mut self,
        device: DeviceId,
        alloc: AllocId,
        bytes: u64,
        stream: StreamId,
    ) -> (r: Result<OpId, SimError>)
        ensures
            final(self)@ == old(self)@.memcpy_pinned_to_device(device, alloc, bytes, stream).0,
            r == old(self)@.memcpy_pinned_to_device(device, alloc, bytes, stream).1,
    {
        self.memcpy(
            device,
            MemcpyOp::packed_1d(Place::HostPinned, Place::Device(device), alloc, bytes),
            stream,
        )
    }

    /// Copy device memory to pageable host memory, and wait.
    pub fn memcpy_device_to_host(
        &mut self,
        device: DeviceId,
        alloc: AllocId,
        bytes: u64,
        stream: StreamId,
    ) -> (r: Result<OpId, SimError>)
        ensures
            final(self)@ == old(self)@.memcpy_device_to_host(device, alloc, bytes, stream).0,
            r == old(self)@.memcpy_device_to_host(device, alloc, bytes, stream).1,
    {
        self.memcpy(
            device,
            MemcpyOp::packed_1d(Place::Device(device), Place::Host, alloc, bytes),
            stream,
        )
    }

    /// Copy device memory to page-locked host memory.
    pub fn memcpy_device_to_pinned(
        &mut self,
        device: DeviceId,
        alloc: AllocId,
        bytes: u64,
        stream: StreamId,
    ) -> (r: Result<OpId, SimError>)
        ensures
            final(self)@ == old(self)@.memcpy_device_to_pinned(device, alloc, bytes, stream).0,
            r == old(self)@.memcpy_device_to_pinned(device, alloc, bytes, stream).1,
    {
        self.memcpy(
            device,
            MemcpyOp::packed_1d(Place::Device(device), Place::HostPinned, alloc, bytes),
            stream,
        )
    }

    /// Copy between devices, on the engine of the source. The source keeps its copy.
    pub fn memcpy_device_to_device(
        &mut self,
        src: DeviceId,
        dst: DeviceId,
        alloc: AllocId,
        bytes: u64,
        stream: StreamId,
    ) -> (r: Result<OpId, SimError>)
        ensures
            final(self)@ == old(self)@.memcpy_device_to_device(src, dst, alloc, bytes, stream).0,
            r == old(self)@.memcpy_device_to_device(src, dst, alloc, bytes, stream).1,
    {
        self.memcpy(
            src,
            MemcpyOp::packed_1d(Place::Device(src), Place::Device(dst), alloc, bytes),
            stream,
        )
    }

    /// Move managed memory to a device in stream order, or replicate read-mostly memory.
    pub fn prefetch(
        &mut self,
        device: DeviceId,
        alloc: AllocId,
        stream: StreamId,
    ) -> (r: Result<OpId, SimError>)
        ensures
            final(self)@ == old(self)@.prefetch(device, alloc, stream).0,
            r == old(self)@.prefetch(device, alloc, stream).1,
    {
        let (bytes, src) = self.managed_move_src(alloc, Some(device))?;
        self.memcpy(device, MemcpyOp::packed_1d(src, Place::Device(device), alloc, bytes), stream)
    }

    /// Move managed memory to the host in stream order.
    pub fn prefetch_host(
        &mut self,
        device: DeviceId,
        alloc: AllocId,
        stream: StreamId,
    ) -> (r: Result<OpId, SimError>)
        ensures
            final(self)@ == old(self)@.prefetch_host(device, alloc, stream).0,
            r == old(self)@.prefetch_host(device, alloc, stream).1,
    {
        let (bytes, src) = self.managed_move_src(alloc, None)?;
        let on: DeviceId = match src {
            Place::Device(d) => d,
            _ => device,
        };
        self.memcpy(on, MemcpyOp::packed_1d(src, Place::HostPinned, alloc, bytes), stream)
    }

    pub(crate) fn submit_kernel(
        &mut self,
        device: DeviceId,
        kind: KernelKind,
        reads: &[KernelBuf],
        writes: &[KernelBuf],
        stream: StreamId,
        cooperative: bool,
    ) -> (r: Result<OpId, SimError>)
        ensures
            final(self)@ == old(self)@.submit_kernel(
                device,
                kind,
                reads@,
                writes@,
                stream,
                cooperative,
            ).0,
            r == old(self)@.submit_kernel(device, kind, reads@, writes@, stream, cooperative).1,
    {
        let r: Vec<KernelBuf> = self.resolve_bufs(reads)?;
        let w: Vec<KernelBuf> = self.resolve_bufs(writes)?;
        self.submit(device, stream, GpuOp::Kernel { kind, reads: r, writes: w, cooperative })
    }

    /// Submit a kernel with the launch attributes `enq` in force.
    pub(crate) fn submit_kernel_under(
        &mut self,
        enq: Enq,
        device: DeviceId,
        kind: KernelKind,
        reads: &[KernelBuf],
        writes: &[KernelBuf],
        stream: StreamId,
        cooperative: bool,
    ) -> (r: Result<OpId, SimError>)
        ensures
            final(self)@ == old(self)@.submit_kernel_under(
                enq,
                device,
                kind,
                reads@,
                writes@,
                stream,
                cooperative,
            ).0,
            r == old(self)@.submit_kernel_under(
                enq,
                device,
                kind,
                reads@,
                writes@,
                stream,
                cooperative,
            ).1,
    {
        let prev: Enq = self.enq;
        self.enq = enq;
        let out = self.submit_kernel(device, kind, reads, writes, stream, cooperative);
        self.enq = prev;
        out
    }

    /// Submit a kernel on buffer spans.
    pub fn kernel_bufs(
        &mut self,
        device: DeviceId,
        kind: KernelKind,
        reads: &[KernelBuf],
        writes: &[KernelBuf],
        stream: StreamId,
    ) -> (r: Result<OpId, SimError>)
        ensures
            final(self)@ == old(self)@.kernel_bufs(device, kind, reads@, writes@, stream).0,
            r == old(self)@.kernel_bufs(device, kind, reads@, writes@, stream).1,
    {
        let mut enq: Enq = self.enq;
        enq.nvlink_util_centric = self.stream_nvlink_util_centric(device, stream);
        self.submit_kernel_under(enq, device, kind, reads, writes, stream, false)
    }

    /// Submit a kernel with programmatic launch on buffer spans.
    pub fn kernel_pdl_bufs(
        &mut self,
        device: DeviceId,
        kind: KernelKind,
        reads: &[KernelBuf],
        writes: &[KernelBuf],
        stream: StreamId,
        pdl: ProgrammaticLaunch,
    ) -> (r: Result<OpId, SimError>)
        ensures
            final(self)@ == old(self)@.kernel_pdl_bufs(
                device,
                kind,
                reads@,
                writes@,
                stream,
                pdl,
            ).0,
            r == old(self)@.kernel_pdl_bufs(device, kind, reads@, writes@, stream, pdl).1,
    {
        let mut enq: Enq = self.enq;
        enq.pdl = pdl;
        self.submit_kernel_under(enq, device, kind, reads, writes, stream, false)
    }

    /// Submit a kernel with programmatic launch and its event on buffer spans.
    pub fn kernel_pdl_event_bufs(
        &mut self,
        device: DeviceId,
        kind: KernelKind,
        reads: &[KernelBuf],
        writes: &[KernelBuf],
        stream: StreamId,
        launch: PdlLaunch,
    ) -> (r: Result<OpId, SimError>)
        ensures
            final(self)@ == old(self)@.kernel_pdl_event_bufs(
                device,
                kind,
                reads@,
                writes@,
                stream,
                launch,
            ).0,
            r == old(self)@.kernel_pdl_event_bufs(device, kind, reads@, writes@, stream, launch).1,
    {
        let mut enq: Enq = self.enq;
        enq.pdl = launch.pdl;
        enq.programmatic_event = launch.event;
        self.submit_kernel_under(enq, device, kind, reads, writes, stream, false)
    }

    /// Submit a kernel that records an event when it starts, on buffer spans.
    pub fn kernel_launch_completion_bufs(
        &mut self,
        device: DeviceId,
        kind: KernelKind,
        reads: &[KernelBuf],
        writes: &[KernelBuf],
        stream: StreamId,
        event: LaunchCompletionEvent,
    ) -> (r: Result<OpId, SimError>)
        ensures
            final(self)@ == old(self)@.kernel_launch_completion_bufs(
                device,
                kind,
                reads@,
                writes@,
                stream,
                event,
            ).0,
            r == old(self)@.kernel_launch_completion_bufs(
                device,
                kind,
                reads@,
                writes@,
                stream,
                event,
            ).1,
    {
        let mut enq: Enq = self.enq;
        enq.launch_completion = Some(event);
        self.submit_kernel_under(enq, device, kind, reads, writes, stream, false)
    }

    /// Submit a kernel that takes every compute slot, on buffer spans.
    pub fn cooperative_kernel_bufs(
        &mut self,
        device: DeviceId,
        kind: KernelKind,
        reads: &[KernelBuf],
        writes: &[KernelBuf],
        stream: StreamId,
    ) -> (r: Result<OpId, SimError>)
        ensures
            final(self)@ == old(self)@.cooperative_kernel_bufs(
                device,
                kind,
                reads@,
                writes@,
                stream,
            ).0,
            r == old(self)@.cooperative_kernel_bufs(device, kind, reads@, writes@, stream).1,
    {
        self.require_cooperative(device)?;
        self.submit_kernel(device, kind, reads, writes, stream, true)
    }

    /// The device takes the launch attributes.
    pub(crate) fn kernel_attrs_ok(
        &self,
        device: DeviceId,
        attrs: KernelAttrs,
    ) -> (r: Result<(), SimError>)
        ensures
            r == self@.kernel_attrs_ok(device, attrs),
    {
        if let Some(w) = attrs.access_policy {
            self.validate_access_policy_window(device, w)?;
        }
        if let Some(map) = attrs.mem_sync_map {
            self.validate_mem_sync_map(device, map)?;
        }
        self.validate_cluster_attrs(
            device,
            attrs.cluster,
            attrs.preferred_cluster,
            attrs.portable_cluster,
        )?;
        self.validate_dynamic_shared(device, attrs.dynamic_shared, attrs.portable_shared)?;
        if attrs.cooperative {
            self.require_cooperative(device)?;
        }
        if attrs.device_updatable && self.capturing.is_none() {
            return Err(invalid("device-updatable is graphs-only"));
        }
        Ok(())
    }

    /// The launch attributes in force, changed as a kernel asks.
    pub(crate) fn enq_with(&self, attrs: KernelAttrs) -> (r: Enq)
        ensures
            r == self@.enq_with(attrs),
    {
        let mut enq: Enq = self.enq;
        enq.pdl = attrs.pdl;
        enq.access_policy = attrs.access_policy;
        enq.mem_sync_domain = attrs.mem_sync_domain;
        enq.mem_sync_map = attrs.mem_sync_map;
        enq.cluster = attrs.cluster;
        enq.cluster_policy = attrs.cluster_policy;
        enq.preferred_cluster = attrs.preferred_cluster;
        enq.carveout = attrs.carveout;
        enq.device_updatable = attrs.device_updatable;
        enq.shared_mem = attrs.shared_mem;
        enq.portable_cluster = attrs.portable_cluster;
        enq.dynamic_shared = attrs.dynamic_shared;
        enq.portable_shared = attrs.portable_shared;
        enq.nvlink_util_centric = attrs.nvlink_util_centric;
        enq.priority = attrs.priority;
        enq
    }

    /// Submit a kernel with launch attributes on buffer spans.
    pub fn kernel_bufs_with(
        &mut self,
        device: DeviceId,
        kind: KernelKind,
        reads: &[KernelBuf],
        writes: &[KernelBuf],
        stream: StreamId,
        attrs: KernelAttrs,
    ) -> (r: Result<OpId, SimError>)
        ensures
            final(self)@ == old(self)@.kernel_bufs_with(
                device,
                kind,
                reads@,
                writes@,
                stream,
                attrs,
            ).0,
            r == old(self)@.kernel_bufs_with(device, kind, reads@, writes@, stream, attrs).1,
    {
        self.kernel_attrs_ok(device, attrs)?;
        let enq: Enq = self.enq_with(attrs);
        self.submit_kernel_under(enq, device, kind, reads, writes, stream, attrs.cooperative)
    }

    /// Submit a kernel with an access-policy window on buffer spans.
    pub fn kernel_access_policy_bufs(
        &mut self,
        device: DeviceId,
        kind: KernelKind,
        reads: &[KernelBuf],
        writes: &[KernelBuf],
        stream: StreamId,
        window: AccessPolicyWindow,
    ) -> (r: Result<OpId, SimError>)
        ensures
            final(self)@ == old(self)@.kernel_access_policy_bufs(
                device,
                kind,
                reads@,
                writes@,
                stream,
                window,
            ).0,
            r == old(self)@.kernel_access_policy_bufs(
                device,
                kind,
                reads@,
                writes@,
                stream,
                window,
            ).1,
    {
        let mut attrs: KernelAttrs = KernelAttrs::plain();
        attrs.access_policy = Some(window);
        self.kernel_bufs_with(device, kind, reads, writes, stream, attrs)
    }

    /// Submit a kernel on whole allocations.
    pub fn kernel(
        &mut self,
        device: DeviceId,
        kind: KernelKind,
        reads: &[AllocId],
        writes: &[AllocId],
        stream: StreamId,
    ) -> (r: Result<OpId, SimError>)
        ensures
            final(self)@ == old(self)@.kernel(device, kind, reads@, writes@, stream).0,
            r == old(self)@.kernel(device, kind, reads@, writes@, stream).1,
    {
        let r: Vec<KernelBuf> = self.whole_bufs(reads);
        let w: Vec<KernelBuf> = self.whole_bufs(writes);
        self.kernel_bufs(device, kind, r.as_slice(), w.as_slice(), stream)
    }

    /// Submit a kernel with programmatic launch.
    pub fn kernel_pdl(
        &mut self,
        device: DeviceId,
        kind: KernelKind,
        reads: &[AllocId],
        writes: &[AllocId],
        stream: StreamId,
        pdl: ProgrammaticLaunch,
    ) -> (r: Result<OpId, SimError>)
        ensures
            final(self)@ == old(self)@.kernel_pdl(device, kind, reads@, writes@, stream, pdl).0,
            r == old(self)@.kernel_pdl(device, kind, reads@, writes@, stream, pdl).1,
    {
        let r: Vec<KernelBuf> = self.whole_bufs(reads);
        let w: Vec<KernelBuf> = self.whole_bufs(writes);
        self.kernel_pdl_bufs(device, kind, r.as_slice(), w.as_slice(), stream, pdl)
    }

    /// Submit a kernel with programmatic launch and its event.
    pub fn kernel_pdl_event(
        &mut self,
        device: DeviceId,
        kind: KernelKind,
        reads: &[AllocId],
        writes: &[AllocId],
        stream: StreamId,
        launch: PdlLaunch,
    ) -> (r: Result<OpId, SimError>)
        ensures
            final(self)@ == old(self)@.kernel_pdl_event(
                device,
                kind,
                reads@,
                writes@,
                stream,
                launch,
            ).0,
            r == old(self)@.kernel_pdl_event(device, kind, reads@, writes@, stream, launch).1,
    {
        let r: Vec<KernelBuf> = self.whole_bufs(reads);
        let w: Vec<KernelBuf> = self.whole_bufs(writes);
        self.kernel_pdl_event_bufs(device, kind, r.as_slice(), w.as_slice(), stream, launch)
    }

    /// Submit a kernel that records an event when it starts.
    pub fn kernel_launch_completion(
        &mut self,
        device: DeviceId,
        kind: KernelKind,
        reads: &[AllocId],
        writes: &[AllocId],
        stream: StreamId,
        event: LaunchCompletionEvent,
    ) -> (r: Result<OpId, SimError>)
        ensures
            final(self)@ == old(self)@.kernel_launch_completion(
                device,
                kind,
                reads@,
                writes@,
                stream,
                event,
            ).0,
            r == old(self)@.kernel_launch_completion(
                device,
                kind,
                reads@,
                writes@,
                stream,
                event,
            ).1,
    {
        let r: Vec<KernelBuf> = self.whole_bufs(reads);
        let w: Vec<KernelBuf> = self.whole_bufs(writes);
        self.kernel_launch_completion_bufs(device, kind, r.as_slice(), w.as_slice(), stream, event)
    }

    /// Submit a kernel with launch attributes.
    pub fn kernel_with(
        &mut self,
        device: DeviceId,
        kind: KernelKind,
        reads: &[AllocId],
        writes: &[AllocId],
        stream: StreamId,
        attrs: KernelAttrs,
    ) -> (r: Result<OpId, SimError>)
        ensures
            final(self)@ == old(self)@.kernel_with(device, kind, reads@, writes@, stream, attrs).0,
            r == old(self)@.kernel_with(device, kind, reads@, writes@, stream, attrs).1,
    {
        let r: Vec<KernelBuf> = self.whole_bufs(reads);
        let w: Vec<KernelBuf> = self.whole_bufs(writes);
        self.kernel_bufs_with(device, kind, r.as_slice(), w.as_slice(), stream, attrs)
    }

    /// Submit a kernel with an access-policy window.
    pub fn kernel_access_policy(
        &mut self,
        device: DeviceId,
        kind: KernelKind,
        reads: &[AllocId],
        writes: &[AllocId],
        stream: StreamId,
        window: AccessPolicyWindow,
    ) -> (r: Result<OpId, SimError>)
        ensures
            final(self)@ == old(self)@.kernel_access_policy(
                device,
                kind,
                reads@,
                writes@,
                stream,
                window,
            ).0,
            r == old(self)@.kernel_access_policy(device, kind, reads@, writes@, stream, window).1,
    {
        let r: Vec<KernelBuf> = self.whole_bufs(reads);
        let w: Vec<KernelBuf> = self.whole_bufs(writes);
        self.kernel_access_policy_bufs(device, kind, r.as_slice(), w.as_slice(), stream, window)
    }

    /// Submit a kernel that takes every compute slot.
    pub fn cooperative_kernel(
        &mut self,
        device: DeviceId,
        kind: KernelKind,
        reads: &[AllocId],
        writes: &[AllocId],
        stream: StreamId,
    ) -> (r: Result<OpId, SimError>)
        ensures
            final(self)@ == old(self)@.cooperative_kernel(device, kind, reads@, writes@, stream).0,
            r == old(self)@.cooperative_kernel(device, kind, reads@, writes@, stream).1,
    {
        let r: Vec<KernelBuf> = self.whole_bufs(reads);
        let w: Vec<KernelBuf> = self.whole_bufs(writes);
        self.cooperative_kernel_bufs(device, kind, r.as_slice(), w.as_slice(), stream)
    }

    /// Fill the first bytes of an allocation.
    pub fn memset(
        &mut self,
        device: DeviceId,
        alloc: AllocId,
        bytes: u64,
        stream: StreamId,
    ) -> (r: Result<OpId, SimError>)
        ensures
            final(self)@ == old(self)@.memset(device, alloc, bytes, stream).0,
            r == old(self)@.memset(device, alloc, bytes, stream).1,
    {
        if bytes == 0 {
            return Err(invalid("zero-byte memset"));
        }
        self.memset_buf(device, KernelBuf::span(alloc, 0, bytes), stream)
    }

    /// Fill a buffer span.
    pub fn memset_buf(
        &mut self,
        device: DeviceId,
        buf: KernelBuf,
        stream: StreamId,
    ) -> (r: Result<OpId, SimError>)
        ensures
            final(self)@ == old(self)@.memset_buf(device, buf, stream).0,
            r == old(self)@.memset_buf(device, buf, stream).1,
    {
        self.memset_op(device, MemsetOp::from_buf(buf), stream)
    }

    /// Fill a packed or strided range.
    pub fn memset_op(
        &mut self,
        device: DeviceId,
        op: MemsetOp,
        stream: StreamId,
    ) -> (r: Result<OpId, SimError>)
        ensures
            final(self)@ == old(self)@.memset_op(device, op, stream).0,
            r == old(self)@.memset_op(device, op, stream).1,
    {
        let full = self.resolve_memset_op(op)?;
        self.submit(device, stream, GpuOp::Memset(full))
    }

    /// Submit the unnamed host callback.
    pub fn host_func(&mut self, device: DeviceId, stream: StreamId) -> (r: Result<OpId, SimError>)
        ensures
            final(self)@ == old(self)@.host_func(device, stream).0,
            r == old(self)@.host_func(device, stream).1,
    {
        self.host_func_params(device, stream, HostNodeParams { fn_id: 0, user_data: 0 })
    }

    /// Submit a host callback.
    pub fn host_func_params(
        &mut self,
        device: DeviceId,
        stream: StreamId,
        params: HostNodeParams,
    ) -> (r: Result<OpId, SimError>)
        ensures
            final(self)@ == old(self)@.host_func_params(device, stream, params).0,
            r == old(self)@.host_func_params(device, stream, params).1,
    {
        self.submit(
            device,
            stream,
            GpuOp::HostFunc { fn_id: params.fn_id, user_data: params.user_data },
        )
    }

    /// Write a 64-bit word.
    pub fn write_value64(
        &mut self,
        device: DeviceId,
        id: AllocId,
        offset: u64,
        value: u64,
        stream: StreamId,
    ) -> (r: Result<OpId, SimError>)
        ensures
            final(self)@ == old(self)@.write_value64(device, id, offset, value, stream).0,
            r == old(self)@.write_value64(device, id, offset, value, stream).1,
    {
        self.submit_batch_mem(
            device,
            stream,
            BatchMemOp::Write { id, offset, value, bits32: false },
        )
    }

    /// Write the low half of a word.
    pub fn write_value32(
        &mut self,
        device: DeviceId,
        id: AllocId,
        offset: u64,
        value: u64,
        stream: StreamId,
    ) -> (r: Result<OpId, SimError>)
        ensures
            final(self)@ == old(self)@.write_value32(device, id, offset, value, stream).0,
            r == old(self)@.write_value32(device, id, offset, value, stream).1,
    {
        self.submit_batch_mem(device, stream, BatchMemOp::Write { id, offset, value, bits32: true })
    }

    /// Hold the stream until a 64-bit word compares.
    pub fn wait_value64(
        &mut self,
        device: DeviceId,
        id: AllocId,
        offset: u64,
        value: u64,
        cmp: WaitValueCmp,
        stream: StreamId,
    ) -> (r: Result<OpId, SimError>)
        ensures
            final(self)@ == old(self)@.wait_value64(device, id, offset, value, cmp, stream).0,
            r == old(self)@.wait_value64(device, id, offset, value, cmp, stream).1,
    {
        self.submit_batch_mem(
            device,
            stream,
            BatchMemOp::Wait { id, offset, value, bits32: false, cmp },
        )
    }

    /// Hold the stream until the low half of a word compares.
    pub fn wait_value32(
        &mut self,
        device: DeviceId,
        id: AllocId,
        offset: u64,
        value: u64,
        cmp: WaitValueCmp,
        stream: StreamId,
    ) -> (r: Result<OpId, SimError>)
        ensures
            final(self)@ == old(self)@.wait_value32(device, id, offset, value, cmp, stream).0,
            r == old(self)@.wait_value32(device, id, offset, value, cmp, stream).1,
    {
        self.submit_batch_mem(
            device,
            stream,
            BatchMemOp::Wait { id, offset, value, bits32: true, cmp },
        )
    }

    /// Write and wait for words, in order, as one operation.
    pub fn batch_mem_op(
        &mut self,
        device: DeviceId,
        stream: StreamId,
        ops: &[BatchMemOp],
    ) -> (r: Result<OpId, SimError>)
        ensures
            final(self)@ == old(self)@.batch_mem_op(device, stream, ops@).0,
            r == old(self)@.batch_mem_op(device, stream, ops@).1,
    {
        self.check_batch_mem_ops(ops)?;
        if ops.len() == 1 {
            return self.submit(device, stream, kind_from_batch(ops[0]));
        }
        self.submit(device, stream, GpuOp::BatchMem { ops: copy_slice(ops) })
    }

    pub(crate) fn submit_batch_mem(
        &mut self,
        device: DeviceId,
        stream: StreamId,
        op: BatchMemOp,
    ) -> (r: Result<OpId, SimError>)
        ensures
            final(self)@ == old(self)@.submit_batch_mem(device, stream, op).0,
            r == old(self)@.submit_batch_mem(device, stream, op).1,
    {
        self.check_batch_mem(op)?;
        self.submit(device, stream, kind_from_batch(op))
    }

    /// Change which streams see managed memory, in stream order.
    pub fn stream_attach(
        &mut self,
        device: DeviceId,
        id: AllocId,
        stream: StreamId,
        flags: MemAttach,
    ) -> (r: Result<OpId, SimError>)
        ensures
            final(self)@ == old(self)@.stream_attach(device, id, stream, flags).0,
            r == old(self)@.stream_attach(device, id, stream, flags).1,
    {
        self.fail_if_capturing("cannot capture stream attach")?;
        let a = self.alloc_ref(id)?;
        if !a.live {
            return Err(invalid("freed"));
        }
        if !a.managed {
            return Err(invalid("not managed"));
        }
        if flags == MemAttach::Single && stream.is_null() {
            return Err(invalid("cannot attach single to null stream"));
        }
        self.submit(device, stream, GpuOp::Attach { id, flags })
    }

    /// Record an event behind the work of a stream.
    pub fn record_event(
        &mut self,
        device: DeviceId,
        event: EventId,
        stream: StreamId,
    ) -> (r: Result<OpId, SimError>)
        ensures
            final(self)@ == old(self)@.record_event(device, event, stream).0,
            r == old(self)@.record_event(device, event, stream).1,
    {
        self.record_event_with_flags(device, event, stream, EventRecordFlags::DEFAULT)
    }

    /// Record an event that does not make waiters join a capture.
    pub fn record_event_external(
        &mut self,
        device: DeviceId,
        event: EventId,
        stream: StreamId,
    ) -> (r: Result<OpId, SimError>)
        ensures
            final(self)@ == old(self)@.record_event_external(device, event, stream).0,
            r == old(self)@.record_event_external(device, event, stream).1,
    {
        self.record_event_with_flags(device, event, stream, EventRecordFlags::EXTERNAL)
    }

    /// Record an event behind the work of a stream, with the bits of [`EventRecordFlags`].
    pub fn record_event_with_flags(
        &mut self,
        device: DeviceId,
        event: EventId,
        stream: StreamId,
        flags: u32,
    ) -> (r: Result<OpId, SimError>)
        ensures
            final(self)@ == old(self)@.record_event_with_flags(device, event, stream, flags).0,
            r == old(self)@.record_event_with_flags(device, event, stream, flags).1,
    {
        if flags & !EventRecordFlags::EXTERNAL != 0 {
            return Err(invalid("event record flags"));
        }
        self.ensure_event(event);
        let external: bool = flags & EventRecordFlags::EXTERNAL != 0;
        self.submit(device, stream, GpuOp::EventRecord { event, external })
    }

    /// Let a stream wait for an event.
    pub fn wait_event(
        &mut self,
        device: DeviceId,
        event: EventId,
        stream: StreamId,
    ) -> (r: Result<OpId, SimError>)
        ensures
            final(self)@ == old(self)@.wait_event(device, event, stream).0,
            r == old(self)@.wait_event(device, event, stream).1,
    {
        self.wait_event_with_flags(device, event, stream, EventWaitFlags::DEFAULT)
    }

    /// Let a stream wait for an event without joining a capture.
    pub fn wait_event_external(
        &mut self,
        device: DeviceId,
        event: EventId,
        stream: StreamId,
    ) -> (r: Result<OpId, SimError>)
        ensures
            final(self)@ == old(self)@.wait_event_external(device, event, stream).0,
            r == old(self)@.wait_event_external(device, event, stream).1,
    {
        self.wait_event_with_flags(device, event, stream, EventWaitFlags::EXTERNAL)
    }

    /// Let a stream wait for an event, with the bits of [`EventWaitFlags`].
    pub fn wait_event_with_flags(
        &mut self,
        device: DeviceId,
        event: EventId,
        stream: StreamId,
        flags: u32,
    ) -> (r: Result<OpId, SimError>)
        ensures
            final(self)@ == old(self)@.wait_event_with_flags(device, event, stream, flags).0,
            r == old(self)@.wait_event_with_flags(device, event, stream, flags).1,
    {
        if flags & !EventWaitFlags::EXTERNAL != 0 {
            return Err(invalid("event wait flags"));
        }
        self.ensure_event(event);
        let external: bool = flags & EventWaitFlags::EXTERNAL != 0;
        self.submit(device, stream, GpuOp::EventWait { event, external })
    }

    /// Free an allocation in stream order.
    pub fn free(
        &mut self,
        device: DeviceId,
        id: AllocId,
        stream: StreamId,
    ) -> (r: Result<(), SimError>)
        ensures
            final(self)@ == old(self)@.free(device, id, stream).0,
            r == old(self)@.free(device, id, stream).1,
    {
        let _op = self.submit(device, stream, GpuOp::Free { id })?;
        Ok(())
    }
}

} // verus!
