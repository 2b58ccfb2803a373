//! Operations, launch attributes and query values.
use vstd::prelude::*;
use crate::ids::{AllocId, CondId, DeviceId, EventId, GraphId, OpId, StreamId};
use crate::list::{copy_vec, Dup};
use crate::num::{max_u64, mul_sat};

verus! {

/// Span of `depth` slices of `height` rows of `width` bytes, `rows * pitch` apart.
#[verifier::allow_in_spec]
pub fn strided_extent(width: u64, height: u64, depth: u64, pitch: u64, rows: u64) -> u64
    returns
        (
            mul_sat(
                depth.saturating_sub(1),
                mul_sat(pitch, rows),
            ).saturating_add(mul_sat(height.saturating_sub(1), pitch)).saturating_add(width)
        ),
{
    mul_sat(
        depth.saturating_sub(1),
        mul_sat(pitch, rows),
    ).saturating_add(mul_sat(height.saturating_sub(1), pitch)).saturating_add(width)
}

/// Endpoint of a copy.
#[derive(Clone, Copy, Debug, PartialEq, Eq, Structural)]
pub enum Place {
    /// Pageable host memory.
    Host,
    /// Page-locked host memory.
    HostPinned,
    /// HBM of one GPU.
    Device(DeviceId),
}

impl Place {
    /// The GPU of a device endpoint.
    #[verifier::allow_in_spec]
    pub fn device(self) -> Option<DeviceId>
        returns
            (match self {
                Place::Device(d) => Some(d),
                Place::Host | Place::HostPinned => None,
            }),
    {
        match self {
            Place::Device(d) => Some(d),
            Place::Host | Place::HostPinned => None,
        }
    }

    /// Whether the endpoint is pageable host memory.
    #[verifier::allow_in_spec]
    pub fn is_pageable(self) -> bool
        returns
            (self == Place::Host),
    {
        self == Place::Host
    }
}

/// Span of an allocation that a kernel touches. `bytes == 0` is the whole allocation.
#[derive(Clone, Copy, Debug, PartialEq, Eq, Structural)]
pub struct KernelBuf {
    pub id: AllocId,
    pub offset: u64,
    pub bytes: u64,
}

impl KernelBuf {
    /// The whole allocation.
    #[verifier::allow_in_spec]
    pub fn whole(id: AllocId) -> KernelBuf
        returns
            (KernelBuf { id, offset: 0, bytes: 0 }),
    {
        KernelBuf { id, offset: 0, bytes: 0 }
    }

    /// `[offset, offset + bytes)` of the allocation.
    #[verifier::allow_in_spec]
    pub fn span(id: AllocId, offset: u64, bytes: u64) -> KernelBuf
        returns
            (KernelBuf { id, offset, bytes }),
    {
        KernelBuf { id, offset, bytes }
    }
}

/// Element type of a kernel.
#[derive(Clone, Copy, Debug, PartialEq, Eq, Structural)]
pub enum DType {
    F32,
    F16,
    Bf16,
    F8,
}

impl DType {
    /// Bytes of one element.
    #[verifier::allow_in_spec]
    pub fn bytes(self) -> u64
        returns
            (match self {
                DType::F32 => 4u64,
                DType::F16 | DType::Bf16 => 2u64,
                DType::F8 => 1u64,
            }),
    {
        match self {
            DType::F32 => 4,
            DType::F16 | DType::Bf16 => 2,
            DType::F8 => 1,
        }
    }
}

/// What a kernel computes, for its cost.
#[derive(Clone, Copy, Debug, PartialEq, Eq, Structural)]
pub enum KernelKind {
    /// Dense `m x k` times `k x n`.
    Gemm { m: u64, n: u64, k: u64, dtype: DType },
    /// One grouped product over the rows routed to `experts` weight blocks.
    GroupedMoeGemm { rows: u64, n: u64, k: u64, experts: u64, dtype: DType },
    /// Explicit cost.
    Other { flops: u64, bytes: u64, dtype: DType },
}

impl KernelKind {
    /// A kernel of explicit cost.
    #[verifier::allow_in_spec]
    pub fn other(flops: u64, bytes: u64) -> KernelKind
        returns
            (KernelKind::Other { flops, bytes, dtype: DType::Bf16 }),
    {
        KernelKind::Other { flops, bytes, dtype: DType::Bf16 }
    }

    #[verifier::allow_in_spec]
    pub fn dtype(self) -> DType
        returns
            (match self {
                KernelKind::Gemm { m, n, k, dtype } => dtype,
                KernelKind::GroupedMoeGemm { rows, n, k, experts, dtype } => dtype,
                KernelKind::Other { flops, bytes, dtype } => dtype,
            }),
    {
        match self {
            KernelKind::Gemm { m, n, k, dtype } => dtype,
            KernelKind::GroupedMoeGemm { rows, n, k, experts, dtype } => dtype,
            KernelKind::Other { flops, bytes, dtype } => dtype,
        }
    }

    /// Floating-point operations, saturating.
    #[verifier::allow_in_spec]
    pub fn flops(self) -> u64
        returns
            (match self {
                KernelKind::Gemm { m, n, k, dtype } => mul_sat(2, mul_sat(m, mul_sat(n, k))),
                KernelKind::GroupedMoeGemm { rows, n, k, experts, dtype } => mul_sat(
                    2,
                    mul_sat(rows, mul_sat(n, k)),
                ),
                KernelKind::Other { flops, bytes, dtype } => flops,
            }),
    {
        match self {
            KernelKind::Gemm { m, n, k, dtype } => mul_sat(2, mul_sat(m, mul_sat(n, k))),
            KernelKind::GroupedMoeGemm { rows, n, k, experts, dtype } => mul_sat(
                2,
                mul_sat(rows, mul_sat(n, k)),
            ),
            KernelKind::Other { flops, bytes, dtype } => flops,
        }
    }

    /// Bytes read and written, saturating.
    #[verifier::allow_in_spec]
    pub fn traffic(self) -> u64
        returns
            (match self {
                KernelKind::Gemm { m, n, k, dtype } => mul_sat(
                    dtype.bytes(),
                    mul_sat(m, k).saturating_add(mul_sat(k, n)).saturating_add(mul_sat(m, n)),
                ),
                KernelKind::GroupedMoeGemm { rows, n, k, experts, dtype } => mul_sat(
                    dtype.bytes(),
                    mul_sat(rows, k).saturating_add(
                        mul_sat(experts, mul_sat(k, n)),
                    ).saturating_add(mul_sat(rows, n)),
                ),
                KernelKind::Other { flops, bytes, dtype } => bytes,
            }),
    {
        match self {
            KernelKind::Gemm { m, n, k, dtype } => mul_sat(
                dtype.bytes(),
                mul_sat(m, k).saturating_add(mul_sat(k, n)).saturating_add(mul_sat(m, n)),
            ),
            KernelKind::GroupedMoeGemm { rows, n, k, experts, dtype } => mul_sat(
                dtype.bytes(),
                mul_sat(rows, k).saturating_add(mul_sat(experts, mul_sat(k, n))).saturating_add(
                    mul_sat(rows, n),
                ),
            ),
            KernelKind::Other { flops, bytes, dtype } => bytes,
        }
    }

    /// `(flops, bytes)` of the kernel.
    #[verifier::allow_in_spec]
    pub fn flops_and_bytes(self) -> (u64, u64)
        returns
            (self.flops(), self.traffic()),
    {
        (self.flops(), self.traffic())
    }
}

/// Copy of `bytes`-wide rows. `height > 1` is 2D, `depth > 1` is 3D; a zero pitch or slice
/// height means packed.
#[derive(Clone, Copy, Debug, PartialEq, Eq, Structural)]
pub struct MemcpyOp {
    pub src: Place,
    pub dst: Place,
    pub alloc: AllocId,
    /// Row width.
    pub bytes: u64,
    /// Start in the allocation.
    pub offset: u64,
    pub height: u64,
    pub src_pitch: u64,
    pub dst_pitch: u64,
    pub depth: u64,
    pub src_height: u64,
    pub dst_height: u64,
}

impl MemcpyOp {
    /// One contiguous row.
    #[verifier::allow_in_spec]
    pub fn packed_1d(src: Place, dst: Place, alloc: AllocId, bytes: u64) -> MemcpyOp
        returns
            (
                MemcpyOp {
                    src,
                    dst,
                    alloc,
                    bytes,
                    offset: 0,
                    height: 0,
                    src_pitch: 0,
                    dst_pitch: 0,
                    depth: 0,
                    src_height: 0,
                    dst_height: 0,
                }
            ),
    {
        MemcpyOp {
            src,
            dst,
            alloc,
            bytes,
            offset: 0,
            height: 0,
            src_pitch: 0,
            dst_pitch: 0,
            depth: 0,
            src_height: 0,
            dst_height: 0,
        }
    }

    /// More than one row.
    #[verifier::allow_in_spec]
    pub fn is_2d(self) -> bool
        returns
            (self.height > 1),
    {
        self.height > 1
    }

    /// More than one slice.
    #[verifier::allow_in_spec]
    pub fn is_3d(self) -> bool
        returns
            (self.depth > 1),
    {
        self.depth > 1
    }

    #[verifier::allow_in_spec]
    pub fn src_pitch_or_width(self) -> u64
        returns
            (if self.src_pitch == 0 { self.bytes } else { self.src_pitch }),
    {
        if self.src_pitch == 0 { self.bytes } else { self.src_pitch }
    }

    #[verifier::allow_in_spec]
    pub fn dst_pitch_or_width(self) -> u64
        returns
            (if self.dst_pitch == 0 { self.bytes } else { self.dst_pitch }),
    {
        if self.dst_pitch == 0 { self.bytes } else { self.dst_pitch }
    }

    #[verifier::allow_in_spec]
    pub fn src_height_or_extent(self) -> u64
        returns
            (if self.src_height == 0 { max_u64(self.height, 1) } else { self.src_height }),
    {
        if self.src_height == 0 { max_u64(self.height, 1) } else { self.src_height }
    }

    #[verifier::allow_in_spec]
    pub fn dst_height_or_extent(self) -> u64
        returns
            (if self.dst_height == 0 { max_u64(self.height, 1) } else { self.dst_height }),
    {
        if self.dst_height == 0 { max_u64(self.height, 1) } else { self.dst_height }
    }

    /// Bytes moved, without padding.
    #[verifier::allow_in_spec]
    pub fn payload_bytes(self) -> u64
        returns
            (mul_sat(mul_sat(self.bytes, max_u64(self.height, 1)), max_u64(self.depth, 1))),
    {
        mul_sat(mul_sat(self.bytes, max_u64(self.height, 1)), max_u64(self.depth, 1))
    }

    /// Bytes from the first to the last byte touched, with padding of the wider side.
    #[verifier::allow_in_spec]
    pub fn extent_bytes(self) -> u64
        returns
            (
                strided_extent(
                    self.bytes,
                    max_u64(self.height, 1),
                    max_u64(self.depth, 1),
                    max_u64(self.src_pitch_or_width(), self.dst_pitch_or_width()),
                    max_u64(self.src_height_or_extent(), self.dst_height_or_extent()),
                )
            ),
    {
        strided_extent(
            self.bytes,
            max_u64(self.height, 1),
            max_u64(self.depth, 1),
            max_u64(self.src_pitch_or_width(), self.dst_pitch_or_width()),
            max_u64(self.src_height_or_extent(), self.dst_height_or_extent()),
        )
    }
}

/// Fill of `bytes`-wide rows. `height > 1` is 2D, `depth > 1` is 3D; a zero pitch or slice
/// height means packed.
#[derive(Clone, Copy, Debug, PartialEq, Eq, Structural)]
pub struct MemsetOp {
    pub id: AllocId,
    pub offset: u64,
    /// Row width; `0` is the whole allocation.
    pub bytes: u64,
    pub height: u64,
    pub pitch: u64,
    pub depth: u64,
    /// Allocated rows of one slice.
    pub ysize: u64,
}

impl MemsetOp {
    /// One contiguous span.
    #[verifier::allow_in_spec]
    pub fn from_buf(buf: KernelBuf) -> MemsetOp
        returns
            (
                MemsetOp {
                    id: buf.id,
                    offset: buf.offset,
                    bytes: buf.bytes,
                    height: 0,
                    pitch: 0,
                    depth: 0,
                    ysize: 0,
                }
            ),
    {
        MemsetOp {
            id: buf.id,
            offset: buf.offset,
            bytes: buf.bytes,
            height: 0,
            pitch: 0,
            depth: 0,
            ysize: 0,
        }
    }

    #[verifier::allow_in_spec]
    pub fn is_2d(self) -> bool
        returns
            (self.height > 1),
    {
        self.height > 1
    }

    #[verifier::allow_in_spec]
    pub fn is_3d(self) -> bool
        returns
            (self.depth > 1),
    {
        self.depth > 1
    }

    #[verifier::allow_in_spec]
    pub fn pitch_or_width(self) -> u64
        returns
            (if self.pitch == 0 { self.bytes } else { self.pitch }),
    {
        if self.pitch == 0 { self.bytes } else { self.pitch }
    }

    #[verifier::allow_in_spec]
    pub fn ysize_or_extent(self) -> u64
        returns
            (if self.ysize == 0 { max_u64(self.height, 1) } else { self.ysize }),
    {
        if self.ysize == 0 { max_u64(self.height, 1) } else { self.ysize }
    }

    /// Bytes written, without padding.
    #[verifier::allow_in_spec]
    pub fn payload_bytes(self) -> u64
        returns
            (mul_sat(mul_sat(self.bytes, max_u64(self.height, 1)), max_u64(self.depth, 1))),
    {
        mul_sat(mul_sat(self.bytes, max_u64(self.height, 1)), max_u64(self.depth, 1))
    }

    /// Bytes from the first to the last byte written, with padding.
    #[verifier::allow_in_spec]
    pub fn extent_bytes(self) -> u64
        returns
            (
                strided_extent(
                    self.bytes,
                    max_u64(self.height, 1),
                    max_u64(self.depth, 1),
                    self.pitch_or_width(),
                    self.ysize_or_extent(),
                )
            ),
    {
        strided_extent(
            self.bytes,
            max_u64(self.height, 1),
            max_u64(self.depth, 1),
            self.pitch_or_width(),
            self.ysize_or_extent(),
        )
    }
}

/// Condition of a wait-value.
#[derive(Clone, Copy, Debug, PartialEq, Eq, Structural)]
pub enum WaitValueCmp {
    /// Word is at least the value.
    Geq,
    /// Word equals the value.
    Eq,
    /// Word and value share a bit.
    And,
    /// Some bit is clear in both.
    Nor,
}

impl WaitValueCmp {
    /// Whether the word `loc` satisfies the condition.
    #[verifier::allow_in_spec]
    pub fn matches(self, loc: u64, value: u64) -> bool
        returns
            (match self {
                WaitValueCmp::Geq => loc >= value,
                WaitValueCmp::Eq => loc == value,
                WaitValueCmp::And => loc & value != 0,
                WaitValueCmp::Nor => !(loc | value) != 0,
            }),
    {
        match self {
            WaitValueCmp::Geq => loc >= value,
            WaitValueCmp::Eq => loc == value,
            WaitValueCmp::And => loc & value != 0,
            WaitValueCmp::Nor => !(loc | value) != 0,
        }
    }
}

/// One element of a batched stream memory operation.
#[derive(Clone, Copy, Debug, PartialEq, Eq, Structural)]
pub enum BatchMemOp {
    Write { id: AllocId, offset: u64, value: u64, bits32: bool },
    Wait { id: AllocId, offset: u64, value: u64, bits32: bool, cmp: WaitValueCmp },
}

/// Stream visibility of managed memory.
#[derive(Clone, Copy, Debug, PartialEq, Eq, Structural)]
pub enum MemAttach {
    Global,
    Host,
    Single,
}

/// Programmatic dependent launch flags.
#[derive(Clone, Copy, Debug, PartialEq, Eq, Structural)]
pub struct ProgrammaticLaunch {
    /// Wait for the programmatic trigger of the predecessor instead of its completion.
    pub wait: bool,
    /// Signal a programmatic trigger before completion.
    pub trigger: bool,
}

impl ProgrammaticLaunch {
    /// Ordinary stream serialization.
    #[verifier::allow_in_spec]
    pub fn none() -> ProgrammaticLaunch
        returns
            (ProgrammaticLaunch { wait: false, trigger: false }),
    {
        ProgrammaticLaunch { wait: false, trigger: false }
    }
}

/// Event recorded at a programmatic trigger.
#[derive(Clone, Copy, Debug, PartialEq, Eq, Structural)]
pub struct ProgrammaticEvent {
    pub event: EventId,
    pub external: bool,
}

/// Event recorded when a kernel has launched.
#[derive(Clone, Copy, Debug, PartialEq, Eq, Structural)]
pub struct LaunchCompletionEvent {
    pub event: EventId,
    pub external: bool,
}

/// Programmatic dependent launch with an optional trigger event.
#[derive(Clone, Copy, Debug, PartialEq, Eq, Structural)]
pub struct PdlLaunch {
    pub pdl: ProgrammaticLaunch,
    pub event: Option<ProgrammaticEvent>,
}

/// L2 residency class.
#[derive(Clone, Copy, Debug, PartialEq, Eq, Structural)]
pub enum AccessProperty {
    Normal,
    Streaming,
    Persisting,
}

/// L2 access-policy window of a kernel.
#[derive(Clone, Copy, Debug, PartialEq, Eq, Structural)]
pub struct AccessPolicyWindow {
    pub buf: KernelBuf,
    pub hit_ratio_permille: u16,
    pub hit: AccessProperty,
    pub miss: AccessProperty,
}

/// Logical memory-synchronization domain.
#[derive(Clone, Copy, Debug, PartialEq, Eq, Structural)]
pub enum MemSyncDomain {
    Default,
    Remote,
}

impl View for MemSyncDomain {
    type V = MemSyncDomain;

    open spec fn view(&self) -> MemSyncDomain {
        *self
    }
}

/// Logical to physical memory-synchronization domains.
#[derive(Clone, Copy, Debug, PartialEq, Eq, Structural)]
pub struct MemSyncDomainMap {
    pub default: u8,
    pub remote: u8,
}

impl View for MemSyncDomainMap {
    type V = MemSyncDomainMap;

    open spec fn view(&self) -> MemSyncDomainMap {
        *self
    }
}

impl MemSyncDomainMap {
    /// Default on domain 0 and remote on domain 1 where there are two.
    #[verifier::allow_in_spec]
    pub fn identity(count: u8) -> MemSyncDomainMap
        returns
            (MemSyncDomainMap { default: 0, remote: if count > 1 { 1 } else { 0 } }),
    {
        MemSyncDomainMap { default: 0, remote: if count > 1 { 1 } else { 0 } }
    }

    /// Physical domain of `domain`.
    #[verifier::allow_in_spec]
    pub fn physical(self, domain: MemSyncDomain) -> u8
        returns
            (match domain {
                MemSyncDomain::Default => self.default,
                MemSyncDomain::Remote => self.remote,
            }),
    {
        match domain {
            MemSyncDomain::Default => self.default,
            MemSyncDomain::Remote => self.remote,
        }
    }
}

/// Thread-block cluster shape.
#[derive(Clone, Copy, Debug, PartialEq, Eq, Structural)]
pub struct ClusterDim {
    pub x: u32,
    pub y: u32,
    pub z: u32,
}

impl ClusterDim {
    /// Blocks of the cluster; `None` when a side is zero or the product overflows.
    #[verifier::allow_in_spec]
    pub fn blocks(self) -> Option<u32>
        returns
            (if self.x == 0 || self.y == 0 || self.z == 0 || self.x * self.y > u32::MAX || self.x
                * self.y * self.z > u32::MAX {
                None
            } else {
                Some((self.x * self.y * self.z) as u32)
            }),
    {
        if self.x == 0 || self.y == 0 || self.z == 0 {
            return None;
        }
        match self.x.checked_mul(self.y) {
            Some(xy) => xy.checked_mul(self.z),
            None => None,
        }
    }

    /// Whether each side is a multiple of the same side of `other`.
    #[verifier::allow_in_spec]
    pub fn multiple_of(self, other: ClusterDim) -> bool
        returns
            (other.x > 0 && other.y > 0 && other.z > 0 && self.x % other.x == 0 && self.y % other.y
                == 0 && self.z % other.z == 0),
    {
        other.x > 0 && other.y > 0 && other.z > 0 && self.x % other.x == 0 && self.y % other.y == 0
            && self.z % other.z == 0
    }
}

/// Placement of the blocks of a cluster.
#[derive(Clone, Copy, Debug, PartialEq, Eq, Structural)]
pub enum ClusterSchedulingPolicy {
    Default,
    Spread,
    LoadBalancing,
}

/// Preferred split of L1 and shared memory.
#[derive(Clone, Copy, Debug, PartialEq, Eq, Structural)]
pub enum SharedMemCarveout {
    Default,
    MaxL1,
    MaxShared,
}

impl SharedMemCarveout {
    /// A kernel with all of shared memory leaves no room for another.
    #[verifier::allow_in_spec]
    pub fn occupies_all_slots(self) -> bool
        returns
            (self == SharedMemCarveout::MaxShared),
    {
        self == SharedMemCarveout::MaxShared
    }
}

/// Shared-memory bank width.
#[derive(Clone, Copy, Debug, PartialEq, Eq, Structural)]
pub enum SharedMemoryMode {
    Default,
    FourByte,
    EightByte,
}

/// Whether a launch may use a non-portable cluster size.
#[derive(Clone, Copy, Debug, PartialEq, Eq, Structural)]
pub enum PortableClusterMode {
    Default,
    RequirePortable,
    AllowNonPortable,
}

impl PortableClusterMode {
    /// `func` is the function attribute that decides under `Default`.
    #[verifier::allow_in_spec]
    pub fn allows_non_portable(self, func: bool) -> bool
        returns
            (match self {
                PortableClusterMode::Default => func,
                PortableClusterMode::RequirePortable => false,
                PortableClusterMode::AllowNonPortable => true,
            }),
    {
        match self {
            PortableClusterMode::Default => func,
            PortableClusterMode::RequirePortable => false,
            PortableClusterMode::AllowNonPortable => true,
        }
    }
}

/// Whether a launch may use more than the portable dynamic shared memory.
#[derive(Clone, Copy, Debug, PartialEq, Eq, Structural)]
pub enum PortableSharedMode {
    Default,
    RequirePortable,
    AllowNonPortable,
}

impl PortableSharedMode {
    /// `func` is the function limit that decides under `Default`.
    #[verifier::allow_in_spec]
    pub fn allows_oversize(self, func: u32, bytes: u32, portable: u32) -> bool
        returns
            (match self {
                PortableSharedMode::Default => bytes <= portable || bytes <= func,
                PortableSharedMode::RequirePortable => bytes <= portable,
                PortableSharedMode::AllowNonPortable => true,
            }),
    {
        match self {
            PortableSharedMode::Default => bytes <= portable || bytes <= func,
            PortableSharedMode::RequirePortable => bytes <= portable,
            PortableSharedMode::AllowNonPortable => true,
        }
    }
}

/// Capture interaction mode.
#[derive(Clone, Copy, Debug, PartialEq, Eq, Structural)]
pub enum StreamCaptureMode {
    Global,
    ThreadLocal,
    Relaxed,
}

impl StreamCaptureMode {
    /// Whether streams outside the capture keep running live.
    #[verifier::allow_in_spec]
    pub fn live_uncaptured(self) -> bool
        returns
            (self == StreamCaptureMode::Relaxed),
    {
        self == StreamCaptureMode::Relaxed
    }
}

/// How new capture dependencies combine with pending ones.
#[derive(Clone, Copy, Debug, PartialEq, Eq, Structural)]
pub enum CaptureDepOp {
    Replace,
    Append,
}

/// How the host waits on a stream.
#[derive(Clone, Copy, Debug, PartialEq, Eq, Structural)]
pub enum SynchronizationPolicy {
    Auto,
    Spin,
    Yield,
    BlockingSync,
}

impl View for SynchronizationPolicy {
    type V = SynchronizationPolicy;

    open spec fn view(&self) -> SynchronizationPolicy {
        *self
    }
}

/// Stream attribute name.
#[derive(Clone, Copy, Debug, PartialEq, Eq, Structural)]
pub enum StreamAttr {
    Priority,
    SynchronizationPolicy,
    MemSyncDomain,
    MemSyncDomainMap,
    NvlinkUtilCentric,
}

/// Stream attribute value.
#[derive(Clone, Copy, Debug, PartialEq, Eq, Structural)]
pub enum StreamAttrValue {
    Priority(i32),
    SynchronizationPolicy(SynchronizationPolicy),
    MemSyncDomain(MemSyncDomain),
    MemSyncDomainMap(MemSyncDomainMap),
    NvlinkUtilCentric(bool),
}

/// Graph-memory counter.
#[derive(Clone, Copy, Debug, PartialEq, Eq, Structural)]
pub enum GraphMemAttr {
    UsedMemCurrent,
    UsedMemHigh,
    ReservedMemCurrent,
    ReservedMemHigh,
}

/// Memory-pool attribute.
#[derive(Clone, Copy, Debug, PartialEq, Eq, Structural)]
pub enum MemPoolAttr {
    ReleaseThreshold,
    UsedMemCurrent,
    ReservedMemCurrent,
}

/// Managed-range attribute name.
#[derive(Clone, Copy, Debug, PartialEq, Eq, Structural)]
pub enum MemRangeAttr {
    ReadMostly,
    PreferredLocation,
    AccessedBy,
}

/// Managed-memory advice.
#[derive(Clone, Copy, Debug, PartialEq, Eq, Structural)]
pub enum MemAdvise {
    SetReadMostly,
    UnsetReadMostly,
    SetPreferredLocation,
    SetPreferredLocationHost,
    UnsetPreferredLocation,
    SetAccessedBy,
    UnsetAccessedBy,
}

/// What a pointer refers to.
#[derive(Clone, Copy, Debug, PartialEq, Eq, Structural)]
pub enum MemoryType {
    Unregistered,
    Host,
    Device,
    Managed,
}

/// Attributes of a pointer.
#[derive(Clone, Copy, Debug, PartialEq, Eq, Structural)]
pub struct PointerAttributes {
    pub kind: MemoryType,
    pub device: Option<DeviceId>,
    pub device_pointer: bool,
    pub host_pointer: bool,
}

/// Outcome of an instantiation.
#[derive(Clone, Copy, Debug, PartialEq, Eq, Structural)]
pub enum GraphInstantiateResult {
    Success,
    Error,
    InvalidStructure,
    NodeOperationNotSupported,
    MultipleDevicesNotSupported,
}

/// Instantiation request and outcome.
#[derive(Clone, Copy, Debug, PartialEq, Eq, Structural)]
pub struct GraphInstantiateParams {
    pub flags: u32,
    pub result: GraphInstantiateResult,
    /// Node at fault, where one is known.
    pub err_node: Option<usize>,
}

impl Default for GraphInstantiateParams {
    /// No flags and no fault.
    fn default() -> (r: Self)
        ensures
            r == (GraphInstantiateParams {
                flags: 0,
                result: GraphInstantiateResult::Success,
                err_node: None,
            }),
    {
        GraphInstantiateParams {
            flags: 0,
            result: GraphInstantiateResult::Success,
            err_node: None,
        }
    }
}

/// Outcome of a whole-graph update.
#[derive(Clone, Copy, Debug, PartialEq, Eq, Structural)]
pub enum GraphExecUpdateResult {
    Success,
    Error,
    TopologyChanged,
    NodeTypeChanged,
    DependenciesChanged,
    ParametersChanged,
    AttributesChanged,
    NotSupported,
}

/// Outcome of a whole-graph update with the nodes at fault.
#[derive(Clone, Copy, Debug, PartialEq, Eq, Structural)]
pub struct GraphExecUpdateResultInfo {
    pub result: GraphExecUpdateResult,
    pub error_node: Option<usize>,
    pub error_from_node: Option<usize>,
}

impl Default for GraphExecUpdateResultInfo {
    /// No fault.
    fn default() -> (r: Self)
        ensures
            r == (GraphExecUpdateResultInfo {
                result: GraphExecUpdateResult::Success,
                error_node: None,
                error_from_node: None,
            }),
    {
        GraphExecUpdateResultInfo {
            result: GraphExecUpdateResult::Success,
            error_node: None,
            error_from_node: None,
        }
    }
}

/// Kind of a graph node.
#[derive(Clone, Copy, Debug, PartialEq, Eq, Structural)]
pub enum GraphNodeKind {
    Kernel,
    Memcpy,
    Memset,
    Host,
    Empty,
    EventRecord,
    EventWait,
    ChildGraph,
    Alloc,
    Free,
    AllReduce,
    Attach,
    If,
    SetConditional,
    While,
    WhileTick,
    Switch,
    BatchMemOp,
    DeviceLaunch,
}

/// Kernel-node attribute name.
#[derive(Clone, Copy, Debug, PartialEq, Eq, Structural)]
pub enum KernelNodeAttr {
    AccessPolicy,
    Carveout,
    Cluster,
    ClusterPolicy,
    DeviceUpdatable,
    DynamicShared,
    LaunchCompletion,
    MemSyncDomain,
    MemSyncDomainMap,
    NvlinkUtilCentric,
    Pdl,
    PortableCluster,
    PortableShared,
    PreferredCluster,
    Priority,
    ProgrammaticEvent,
    SharedMem,
}

/// Kernel-node attribute value.
#[derive(Clone, Copy, Debug, PartialEq, Eq, Structural)]
pub enum KernelNodeAttrValue {
    AccessPolicy(Option<AccessPolicyWindow>),
    Carveout(SharedMemCarveout),
    Cluster(Option<ClusterDim>),
    ClusterPolicy(ClusterSchedulingPolicy),
    DeviceUpdatable(bool),
    DynamicShared(u32),
    LaunchCompletion(Option<LaunchCompletionEvent>),
    MemSyncDomain(MemSyncDomain),
    MemSyncDomainMap(MemSyncDomainMap),
    NvlinkUtilCentric(bool),
    Pdl(ProgrammaticLaunch),
    PortableCluster(PortableClusterMode),
    PortableShared(PortableSharedMode),
    PreferredCluster(Option<ClusterDim>),
    Priority(i32),
    ProgrammaticEvent(Option<ProgrammaticEvent>),
    SharedMem(SharedMemoryMode),
}

/// Device attribute name.
#[derive(Clone, Copy, Debug, PartialEq, Eq, Structural)]
pub enum DeviceAttr {
    AsyncEngineCount,
    CanMapHostMemory,
    CanUseHostPointerForRegisteredMem,
    ClusterLaunch,
    ConcurrentKernels,
    CooperativeLaunch,
    HostRegisterSupported,
    IpcEventSupport,
    L2CacheSize,
    ManagedMemory,
    MaxBlocksPerCluster,
    MaxPersistingL2CacheSize,
    MaxSharedMemoryPerBlock,
    MaxSharedMemoryPerBlockOptin,
    MemSyncDomainCount,
    MemoryPoolSupportedHandleTypes,
    MemoryPoolsSupported,
    TotalGlobalMem,
}

/// Device limit name.
#[derive(Clone, Copy, Debug, PartialEq, Eq, Structural)]
pub enum DeviceLimit {
    StackSize,
    PrintfFifoSize,
    MallocHeapSize,
    DevRuntimeSyncDepth,
    DevRuntimePendingLaunchCount,
    MaxL2FetchGranularity,
    PersistingL2CacheSize,
}

/// Peer-to-peer attribute name.
#[derive(Clone, Copy, Debug, PartialEq, Eq, Structural)]
pub enum DeviceP2pAttr {
    PerformanceRank,
    AccessSupported,
}

/// Function attribute name.
#[derive(Clone, Copy, Debug, PartialEq, Eq, Structural)]
pub enum FuncAttr {
    MaxDynamicSharedMemorySize,
    NonPortableClusterSizeAllowed,
}

/// Function attributes of one device.
#[derive(Clone, Copy, Debug, PartialEq, Eq, Structural)]
pub struct FuncAttributes {
    pub max_dynamic_shared_size_bytes: u32,
    pub non_portable_cluster_size_allowed: bool,
}

/// Host callback.
#[derive(Clone, Copy, Debug, PartialEq, Eq, Structural)]
pub struct HostNodeParams {
    pub fn_id: u64,
    pub user_data: u64,
}

/// Node added to a graph, with the allocation that an alloc node created.
#[derive(Clone, Copy, Debug, PartialEq, Eq, Structural)]
pub struct GraphAddNode {
    pub node: usize,
    pub alloc: Option<AllocId>,
}

/// Launch attributes of one kernel.
#[derive(Clone, Copy, Debug, PartialEq, Eq, Structural)]
pub struct KernelAttrs {
    pub cooperative: bool,
    pub pdl: ProgrammaticLaunch,
    pub access_policy: Option<AccessPolicyWindow>,
    pub mem_sync_domain: Option<MemSyncDomain>,
    pub mem_sync_map: Option<MemSyncDomainMap>,
    pub cluster: Option<ClusterDim>,
    pub cluster_policy: ClusterSchedulingPolicy,
    pub preferred_cluster: Option<ClusterDim>,
    pub carveout: SharedMemCarveout,
    pub device_updatable: bool,
    pub shared_mem: SharedMemoryMode,
    pub portable_cluster: PortableClusterMode,
    pub dynamic_shared: u32,
    pub portable_shared: PortableSharedMode,
    pub nvlink_util_centric: bool,
    pub priority: Option<i32>,
}

impl KernelAttrs {
    /// Every attribute at its default.
    #[verifier::allow_in_spec]
    pub fn plain() -> KernelAttrs
        returns
            (
                KernelAttrs {
                    cooperative: false,
                    pdl: ProgrammaticLaunch::none(),
                    access_policy: None,
                    mem_sync_domain: None,
                    mem_sync_map: None,
                    cluster: None,
                    cluster_policy: ClusterSchedulingPolicy::Default,
                    preferred_cluster: None,
                    carveout: SharedMemCarveout::Default,
                    device_updatable: false,
                    shared_mem: SharedMemoryMode::Default,
                    portable_cluster: PortableClusterMode::Default,
                    dynamic_shared: 0,
                    portable_shared: PortableSharedMode::Default,
                    nvlink_util_centric: false,
                    priority: None,
                }
            ),
    {
        KernelAttrs {
            cooperative: false,
            pdl: ProgrammaticLaunch::none(),
            access_policy: None,
            mem_sync_domain: None,
            mem_sync_map: None,
            cluster: None,
            cluster_policy: ClusterSchedulingPolicy::Default,
            preferred_cluster: None,
            carveout: SharedMemCarveout::Default,
            device_updatable: false,
            shared_mem: SharedMemoryMode::Default,
            portable_cluster: PortableClusterMode::Default,
            dynamic_shared: 0,
            portable_shared: PortableSharedMode::Default,
            nvlink_util_centric: false,
            priority: None,
        }
    }
}

/// Event creation bits.
#[derive(Clone, Copy, Debug)]
pub struct EventCreateFlags;

impl EventCreateFlags {
    /// Timed, local to the process.
    pub const DEFAULT: u32 = 0;

    /// No timing.
    pub const DISABLE_TIMING: u32 = 2;

    /// May be exported.
    pub const INTERPROCESS: u32 = 4;
}

/// Event record bits.
#[derive(Clone, Copy, Debug)]
pub struct EventRecordFlags;

impl EventRecordFlags {
    /// Ordinary record.
    pub const DEFAULT: u32 = 0;

    /// A graph node of its own during capture.
    pub const EXTERNAL: u32 = 1;
}

/// Event wait bits.
#[derive(Clone, Copy, Debug)]
pub struct EventWaitFlags;

impl EventWaitFlags {
    /// Ordinary wait.
    pub const DEFAULT: u32 = 0;

    /// A graph node of its own during capture.
    pub const EXTERNAL: u32 = 1;
}

/// Instantiation bits.
#[derive(Clone, Copy, Debug)]
pub struct GraphInstantiateFlags;

impl GraphInstantiateFlags {
    /// Free graph allocations before a relaunch.
    pub const AUTO_FREE_ON_LAUNCH: u32 = 1;

    /// Upload at instantiation.
    pub const UPLOAD: u32 = 2;

    /// May be launched from the device.
    pub const DEVICE_LAUNCH: u32 = 4;

    /// Node priorities override the stream.
    pub const USE_NODE_PRIORITY: u32 = 8;
}

/// Host allocation bits.
#[derive(Clone, Copy, Debug)]
pub struct HostAllocFlags;

impl HostAllocFlags {
    /// Page-locked only.
    pub const DEFAULT: u32 = 0;

    /// Mapped into the device address space.
    pub const MAPPED: u32 = 2;
}

/// Stream creation bits.
#[derive(Clone, Copy, Debug)]
pub struct StreamCreateFlags;

impl StreamCreateFlags {
    /// Serializes with the null stream.
    pub const DEFAULT: u32 = 0;

    /// Does not serialize with the null stream.
    pub const NON_BLOCKING: u32 = 1;
}

/// Peer access bits.
#[derive(Clone, Copy, Debug)]
pub struct PeerAccessFlags;

impl PeerAccessFlags {
    /// The only value.
    pub const DEFAULT: u32 = 0;
}

/// Access protection.
#[derive(Clone, Copy, Debug)]
pub struct MemAccessFlags;

impl MemAccessFlags {
    /// No access.
    pub const PROT_NONE: u32 = 0;

    /// Read and write.
    pub const PROT_READ_WRITE: u32 = 3;
}

/// Shareable handle types.
#[derive(Clone, Copy, Debug)]
pub struct MemHandleType;

impl MemHandleType {
    /// File descriptor.
    pub const POSIX_FILE_DESCRIPTOR: u64 = 1;
}

/// User object bits.
#[derive(Clone, Copy, Debug)]
pub struct UserObjectFlags;

impl UserObjectFlags {
    /// The destructor is not waited for; required.
    pub const NO_DESTRUCTOR_SYNC: u32 = 1;
}

/// User object retain bits.
#[derive(Clone, Copy, Debug)]
pub struct GraphUserObjectFlags;

impl GraphUserObjectFlags {
    /// Transfer references of the caller.
    pub const MOVE: u32 = 1;
}

/// What a debug graph prints.
#[derive(Clone, Copy, Debug)]
pub struct GraphDebugDotFlags;

impl GraphDebugDotFlags {
    /// Everything.
    pub const VERBOSE: u32 = 0x1;

    /// Kernel parameters.
    pub const KERNEL_NODE_PARAMS: u32 = 0x4;

    /// Copy parameters.
    pub const MEMCPY_NODE_PARAMS: u32 = 0x8;

    /// Fill parameters.
    pub const MEMSET_NODE_PARAMS: u32 = 0x10;

    /// Callback parameters.
    pub const HOST_NODE_PARAMS: u32 = 0x20;

    /// Event parameters.
    pub const EVENT_NODE_PARAMS: u32 = 0x40;

    /// Kernel attributes.
    pub const KERNEL_NODE_ATTRIBUTES: u32 = 0x200;

    /// Handles.
    pub const HANDLES: u32 = 0x400;

    /// Allocation parameters.
    pub const MEM_ALLOC_NODE_PARAMS: u32 = 0x800;

    /// Free parameters.
    pub const MEM_FREE_NODE_PARAMS: u32 = 0x1000;

    /// Batched memory operations.
    pub const BATCH_MEM_OP_NODE_PARAMS: u32 = 0x2000;

    /// Conditional parameters.
    pub const CONDITIONAL_NODE_PARAMS: u32 = 0x8000;
}

/// Kernel launch parameters of a graph node.
pub struct KernelNodeParams {
    pub kind: KernelKind,
    pub reads: Vec<KernelBuf>,
    pub writes: Vec<KernelBuf>,
    pub cooperative: bool,
}

/// Mathematical form of [`KernelNodeParams`].
#[verifier::ext_equal]
pub struct KernelParamsView {
    pub kind: KernelKind,
    pub reads: Seq<KernelBuf>,
    pub writes: Seq<KernelBuf>,
    pub cooperative: bool,
}

impl View for KernelNodeParams {
    type V = KernelParamsView;

    open spec fn view(&self) -> KernelParamsView {
        KernelParamsView {
            kind: self.kind,
            reads: self.reads@,
            writes: self.writes@,
            cooperative: self.cooperative,
        }
    }
}

impl Dup for KernelNodeParams {
    fn dup(&self) -> (r: Self) {
        KernelNodeParams {
            kind: self.kind,
            reads: copy_vec(&self.reads),
            writes: copy_vec(&self.writes),
            cooperative: self.cooperative,
        }
    }
}

/// Work submitted to a stream or recorded as a graph node.
#[allow(inconsistent_fields)]
pub enum GpuOp {
    Alloc { id: AllocId, bytes: u64 },
    Free { id: AllocId },
    Memcpy(MemcpyOp),
    Kernel { kind: KernelKind, reads: Vec<KernelBuf>, writes: Vec<KernelBuf>, cooperative: bool },
    Memset(MemsetOp),
    HostFunc { fn_id: u64, user_data: u64 },
    Empty,
    EventRecord { event: EventId, external: bool },
    EventWait { event: EventId, external: bool },
    AllReduce { parts: Vec<(DeviceId, AllocId)>, bytes: u64 },
    ChildGraph { graph: GraphId },
    Attach { id: AllocId, flags: MemAttach },
    If { handle: CondId, body: GraphId },
    While { handle: CondId, body: GraphId },
    Switch { handle: CondId, bodies: Vec<GraphId> },
    WhileTick { handle: CondId, body: GraphId, iter: u32 },
    SetConditional { handle: CondId, value: u32 },
    WriteValue { id: AllocId, offset: u64, value: u64, bits32: bool },
    WaitValue { id: AllocId, offset: u64, value: u64, bits32: bool, cmp: WaitValueCmp },
    BatchMem { ops: Vec<BatchMemOp> },
    DeviceLaunch { graph: GraphId },
}

/// Mathematical form of [`GpuOp`].
#[allow(inconsistent_fields)]
#[verifier::ext_equal]
pub enum GpuOpView {
    Alloc { id: AllocId, bytes: u64 },
    Free { id: AllocId },
    Memcpy(MemcpyOp),
    Kernel { kind: KernelKind, reads: Seq<KernelBuf>, writes: Seq<KernelBuf>, cooperative: bool },
    Memset(MemsetOp),
    HostFunc { fn_id: u64, user_data: u64 },
    Empty,
    EventRecord { event: EventId, external: bool },
    EventWait { event: EventId, external: bool },
    AllReduce { parts: Seq<(DeviceId, AllocId)>, bytes: u64 },
    ChildGraph { graph: GraphId },
    Attach { id: AllocId, flags: MemAttach },
    If { handle: CondId, body: GraphId },
    While { handle: CondId, body: GraphId },
    Switch { handle: CondId, bodies: Seq<GraphId> },
    WhileTick { handle: CondId, body: GraphId, iter: u32 },
    SetConditional { handle: CondId, value: u32 },
    WriteValue { id: AllocId, offset: u64, value: u64, bits32: bool },
    WaitValue { id: AllocId, offset: u64, value: u64, bits32: bool, cmp: WaitValueCmp },
    BatchMem { ops: Seq<BatchMemOp> },
    DeviceLaunch { graph: GraphId },
}

impl View for GpuOp {
    type V = GpuOpView;

    open spec fn view(&self) -> GpuOpView {
        match *self {
            GpuOp::Alloc { id, bytes } => GpuOpView::Alloc { id, bytes },
            GpuOp::Free { id } => GpuOpView::Free { id },
            GpuOp::Memcpy(p) => GpuOpView::Memcpy(p),
            GpuOp::Kernel { kind, reads, writes, cooperative } => GpuOpView::Kernel {
                kind,
                reads: reads@,
                writes: writes@,
                cooperative,
            },
            GpuOp::Memset(p) => GpuOpView::Memset(p),
            GpuOp::HostFunc { fn_id, user_data } => GpuOpView::HostFunc { fn_id, user_data },
            GpuOp::Empty => GpuOpView::Empty,
            GpuOp::EventRecord { event, external } => GpuOpView::EventRecord { event, external },
            GpuOp::EventWait { event, external } => GpuOpView::EventWait { event, external },
            GpuOp::AllReduce { parts, bytes } => GpuOpView::AllReduce { parts: parts@, bytes },
            GpuOp::ChildGraph { graph } => GpuOpView::ChildGraph { graph },
            GpuOp::Attach { id, flags } => GpuOpView::Attach { id, flags },
            GpuOp::If { handle, body } => GpuOpView::If { handle, body },
            GpuOp::While { handle, body } => GpuOpView::While { handle, body },
            GpuOp::Switch { handle, bodies } => GpuOpView::Switch { handle, bodies: bodies@ },
            GpuOp::WhileTick { handle, body, iter } => GpuOpView::WhileTick { handle, body, iter },
            GpuOp::SetConditional { handle, value } => GpuOpView::SetConditional { handle, value },
            GpuOp::WriteValue { id, offset, value, bits32 } => GpuOpView::WriteValue {
                id,
                offset,
                value,
                bits32,
            },
            GpuOp::WaitValue { id, offset, value, bits32, cmp } => GpuOpView::WaitValue {
                id,
                offset,
                value,
                bits32,
                cmp,
            },
            GpuOp::BatchMem { ops } => GpuOpView::BatchMem { ops: ops@ },
            GpuOp::DeviceLaunch { graph } => GpuOpView::DeviceLaunch { graph },
        }
    }
}

impl Dup for GpuOp {
    fn dup(&self) -> (r: Self) {
        match self {
            GpuOp::Alloc { id, bytes } => GpuOp::Alloc { id: *id, bytes: *bytes },
            GpuOp::Free { id } => GpuOp::Free { id: *id },
            GpuOp::Memcpy(p) => GpuOp::Memcpy(*p),
            GpuOp::Kernel { kind, reads, writes, cooperative } => GpuOp::Kernel {
                kind: *kind,
                reads: copy_vec(reads),
                writes: copy_vec(writes),
                cooperative: *cooperative,
            },
            GpuOp::Memset(p) => GpuOp::Memset(*p),
            GpuOp::HostFunc { fn_id, user_data } => GpuOp::HostFunc {
                fn_id: *fn_id,
                user_data: *user_data,
            },
            GpuOp::Empty => GpuOp::Empty,
            GpuOp::EventRecord { event, external } => GpuOp::EventRecord {
                event: *event,
                external: *external,
            },
            GpuOp::EventWait { event, external } => GpuOp::EventWait {
                event: *event,
                external: *external,
            },
            GpuOp::AllReduce { parts, bytes } => GpuOp::AllReduce {
                parts: copy_vec(parts),
                bytes: *bytes,
            },
            GpuOp::ChildGraph { graph } => GpuOp::ChildGraph { graph: *graph },
            GpuOp::Attach { id, flags } => GpuOp::Attach { id: *id, flags: *flags },
            GpuOp::If { handle, body } => GpuOp::If { handle: *handle, body: *body },
            GpuOp::While { handle, body } => GpuOp::While { handle: *handle, body: *body },
            GpuOp::Switch { handle, bodies } => GpuOp::Switch {
                handle: *handle,
                bodies: copy_vec(bodies),
            },
            GpuOp::WhileTick { handle, body, iter } => GpuOp::WhileTick {
                handle: *handle,
                body: *body,
                iter: *iter,
            },
            GpuOp::SetConditional { handle, value } => GpuOp::SetConditional {
                handle: *handle,
                value: *value,
            },
            GpuOp::WriteValue { id, offset, value, bits32 } => GpuOp::WriteValue {
                id: *id,
                offset: *offset,
                value: *value,
                bits32: *bits32,
            },
            GpuOp::WaitValue { id, offset, value, bits32, cmp } => GpuOp::WaitValue {
                id: *id,
                offset: *offset,
                value: *value,
                bits32: *bits32,
                cmp: *cmp,
            },
            GpuOp::BatchMem { ops } => GpuOp::BatchMem { ops: copy_vec(ops) },
            GpuOp::DeviceLaunch { graph } => GpuOp::DeviceLaunch { graph: *graph },
        }
    }
}

/// Parameters of a graph node, by kind.
#[allow(inconsistent_fields)]
pub enum GraphNodeParams {
    Kernel(KernelNodeParams),
    Memcpy(MemcpyOp),
    Memset(MemsetOp),
    Host(HostNodeParams),
    Empty,
    EventRecord { event: EventId, external: bool },
    EventWait { event: EventId, external: bool },
    ChildGraph(GraphId),
    Alloc { bytes: u64 },
    Free(AllocId),
    BatchMemOp(Vec<BatchMemOp>),
}

/// Mathematical form of [`GraphNodeParams`].
#[allow(inconsistent_fields)]
#[verifier::ext_equal]
pub enum NodeParamsView {
    Kernel(KernelParamsView),
    Memcpy(MemcpyOp),
    Memset(MemsetOp),
    Host(HostNodeParams),
    Empty,
    EventRecord { event: EventId, external: bool },
    EventWait { event: EventId, external: bool },
    ChildGraph(GraphId),
    Alloc { bytes: u64 },
    Free(AllocId),
    BatchMemOp(Seq<BatchMemOp>),
}

impl View for GraphNodeParams {
    type V = NodeParamsView;

    open spec fn view(&self) -> NodeParamsView {
        match *self {
            GraphNodeParams::Kernel(p) => NodeParamsView::Kernel(p@),
            GraphNodeParams::Memcpy(p) => NodeParamsView::Memcpy(p),
            GraphNodeParams::Memset(p) => NodeParamsView::Memset(p),
            GraphNodeParams::Host(p) => NodeParamsView::Host(p),
            GraphNodeParams::Empty => NodeParamsView::Empty,
            GraphNodeParams::EventRecord { event, external } => NodeParamsView::EventRecord {
                event,
                external,
            },
            GraphNodeParams::EventWait { event, external } => NodeParamsView::EventWait {
                event,
                external,
            },
            GraphNodeParams::ChildGraph(p) => NodeParamsView::ChildGraph(p),
            GraphNodeParams::Alloc { bytes } => NodeParamsView::Alloc { bytes },
            GraphNodeParams::Free(p) => NodeParamsView::Free(p),
            GraphNodeParams::BatchMemOp(p) => NodeParamsView::BatchMemOp(p@),
        }
    }
}

impl Dup for GraphNodeParams {
    fn dup(&self) -> (r: Self) {
        match self {
            GraphNodeParams::Kernel(p) => GraphNodeParams::Kernel(p.dup()),
            GraphNodeParams::Memcpy(p) => GraphNodeParams::Memcpy(*p),
            GraphNodeParams::Memset(p) => GraphNodeParams::Memset(*p),
            GraphNodeParams::Host(p) => GraphNodeParams::Host(*p),
            GraphNodeParams::Empty => GraphNodeParams::Empty,
            GraphNodeParams::EventRecord { event, external } => GraphNodeParams::EventRecord {
                event: *event,
                external: *external,
            },
            GraphNodeParams::EventWait { event, external } => GraphNodeParams::EventWait {
                event: *event,
                external: *external,
            },
            GraphNodeParams::ChildGraph(p) => GraphNodeParams::ChildGraph(*p),
            GraphNodeParams::Alloc { bytes } => GraphNodeParams::Alloc { bytes: *bytes },
            GraphNodeParams::Free(p) => GraphNodeParams::Free(*p),
            GraphNodeParams::BatchMemOp(p) => GraphNodeParams::BatchMemOp(copy_vec(p)),
        }
    }
}

/// Value of a managed-range attribute.
pub enum MemRangeAttrValue {
    ReadMostly(bool),
    PreferredLocation(Option<Place>),
    AccessedBy(Vec<DeviceId>),
}

/// Mathematical form of [`MemRangeAttrValue`].
#[verifier::ext_equal]
pub enum RangeAttrView {
    ReadMostly(bool),
    PreferredLocation(Option<Place>),
    AccessedBy(Seq<DeviceId>),
}

impl View for MemRangeAttrValue {
    type V = RangeAttrView;

    open spec fn view(&self) -> RangeAttrView {
        match *self {
            MemRangeAttrValue::ReadMostly(b) => RangeAttrView::ReadMostly(b),
            MemRangeAttrValue::PreferredLocation(p) => RangeAttrView::PreferredLocation(p),
            MemRangeAttrValue::AccessedBy(v) => RangeAttrView::AccessedBy(v@),
        }
    }
}

/// Snapshot of a submitted operation: a node of the dependency graph.
pub struct Operation {
    pub id: OpId,
    pub device: DeviceId,
    pub stream: StreamId,
    pub kind: GpuOp,
    pub deps: Vec<OpId>,
    pub done: bool,
    pub cancelled: bool,
    pub submit_ns: u64,
    pub start_ns: Option<u64>,
    pub done_ns: Option<u64>,
}

/// Mathematical form of [`Operation`].
#[verifier::ext_equal]
pub struct OperationView {
    pub id: OpId,
    pub device: DeviceId,
    pub stream: StreamId,
    pub kind: GpuOpView,
    pub deps: Seq<OpId>,
    pub done: bool,
    pub cancelled: bool,
    pub submit_ns: u64,
    pub start_ns: Option<u64>,
    pub done_ns: Option<u64>,
}

impl View for Operation {
    type V = OperationView;

    open spec fn view(&self) -> OperationView {
        OperationView {
            id: self.id,
            device: self.device,
            stream: self.stream,
            kind: self.kind@,
            deps: self.deps@,
            done: self.done,
            cancelled: self.cancelled,
            submit_ns: self.submit_ns,
            start_ns: self.start_ns,
            done_ns: self.done_ns,
        }
    }
}

/// State of a stream capture.
pub struct StreamCaptureInfo {
    pub graph: GraphId,
    pub origin: (DeviceId, StreamId),
    /// Extra dependencies of the next captured node.
    pub pending_deps: Vec<usize>,
    /// Dependencies of the next captured node.
    pub dependencies: Vec<usize>,
    pub id: u64,
    pub mode: StreamCaptureMode,
}

/// Mathematical form of [`StreamCaptureInfo`].
#[verifier::ext_equal]
pub struct CaptureInfoView {
    pub graph: GraphId,
    pub origin: (DeviceId, StreamId),
    pub pending_deps: Seq<usize>,
    pub dependencies: Seq<usize>,
    pub id: u64,
    pub mode: StreamCaptureMode,
}

impl View for StreamCaptureInfo {
    type V = CaptureInfoView;

    open spec fn view(&self) -> CaptureInfoView {
        CaptureInfoView {
            graph: self.graph,
            origin: self.origin,
            pending_deps: self.pending_deps@,
            dependencies: self.dependencies@,
            id: self.id,
            mode: self.mode,
        }
    }
}

} // verus!
