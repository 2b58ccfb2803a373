//! Hardware of the simulated node: GPUs, links and their costs.
use vstd::prelude::*;
use crate::error::{invalid, SimError};
use crate::ids::DeviceId;
use crate::num::mul_div_sat;
use crate::ops::DType;
use crate::table::{count, KeySet};

verus! {

/// Smallest multiple of `to` that is not below `n`, clamped to `u64::MAX`; `n` itself when `to`
/// is zero.
#[verifier::allow_in_spec]
pub fn align_up(n: u64, to: u64) -> u64
    returns
        (if to == 0 || n % to == 0 {
            n
        } else if n - n % to + to > u64::MAX {
            u64::MAX
        } else {
            (n - n % to + to) as u64
        }),
{
    if to == 0 || n % to == 0 {
        n
    } else {
        let over: u64 = n % to;
        assert(over <= n) by (nonlinear_arith)
            requires
                over == n % to,
                to > 0,
        ;
        (n - over).saturating_add(to)
    }
}

/// Nanoseconds to move `n` units at `per_sec` units a second, rounded up.
#[verifier::allow_in_spec]
pub fn ns_for_bytes(n: u64, per_sec: u64) -> u64
    returns
        (mul_div_sat(n, 1_000_000_000, if per_sec == 0 { 1 } else { per_sec }, true)),
{
    mul_div_sat(n, 1_000_000_000, if per_sec == 0 { 1 } else { per_sec }, true)
}

/// `ns * permille / 1000`, rounded down.
#[verifier::allow_in_spec]
pub fn scale_ns_permille(ns: u64, permille: u16) -> u64
    returns
        (mul_div_sat(ns, permille as u64, 1000, false)),
{
    mul_div_sat(ns, permille as u64, 1000, false)
}

/// Interconnect technology.
#[derive(Clone, Copy, Debug, PartialEq, Eq, Structural)]
pub enum LinkKind {
    Pcie,
    Nvlink,
}

/// Undirected interconnect; `None` is the host.
#[derive(Clone, Copy, Debug, PartialEq, Eq, Structural)]
pub struct Link {
    pub a: Option<DeviceId>,
    pub b: Option<DeviceId>,
    pub kind: LinkKind,
    /// Bytes a second.
    pub bps: u64,
    /// Bytes a second from or to pageable host memory.
    pub pageable_bps: u64,
    pub latency_ns: u64,
}

impl Link {
    /// Whether the link joins `src` and `dst`, in either direction.
    #[verifier::allow_in_spec]
    pub fn connects(self, src: Option<DeviceId>, dst: Option<DeviceId>) -> bool
        returns
            ((self.a == src && self.b == dst) || (self.a == dst && self.b == src)),
    {
        (self.a == src && self.b == dst) || (self.a == dst && self.b == src)
    }

    /// Nanoseconds to copy `bytes`.
    #[verifier::allow_in_spec]
    pub fn copy_ns(self, bytes: u64) -> u64
        returns
            (self.latency_ns.saturating_add(ns_for_bytes(bytes, self.bps))),
    {
        self.latency_ns.saturating_add(ns_for_bytes(bytes, self.bps))
    }

    /// Nanoseconds to copy `bytes` from or to pageable host memory.
    #[verifier::allow_in_spec]
    pub fn pageable_copy_ns(self, bytes: u64) -> u64
        returns
            (self.latency_ns.saturating_add(ns_for_bytes(bytes, self.pageable_bps))),
    {
        self.latency_ns.saturating_add(ns_for_bytes(bytes, self.pageable_bps))
    }
}

/// One GPU.
#[derive(Clone, Copy, Debug, PartialEq, Eq, Structural)]
pub struct GpuProfile {
    pub id: DeviceId,
    pub hbm_bytes: u64,
    pub hbm_bps: u64,
    /// Concurrent kernels.
    pub compute_slots: u8,
    /// Concurrent copies.
    pub copy_engines: u8,
    pub cooperative_launch: bool,
    pub flops_f32: u64,
    pub flops_f16: u64,
    pub flops_f8: u64,
    pub alloc_overhead_ns: u64,
    pub pool_reuse_ns: u64,
    pub launch_overhead_ns: u64,
    pub graph_launch_ns: u64,
    pub graph_instantiate_ns: u64,
    pub graph_upload_ns: u64,
    pub graph_update_ns: u64,
    pub graph_set_params_ns: u64,
    pub graph_clone_ns: u64,
    pub host_func_ns: u64,
    pub host_sync_spin_ns: u64,
    pub host_sync_yield_ns: u64,
    pub host_sync_blocking_ns: u64,
    pub l2_bytes: u64,
    /// Share of a persisting hit that skips HBM.
    pub l2_persist_hit_permille: u16,
    /// Point of a kernel at which a programmatic trigger fires.
    pub pdl_trigger_permille: u16,
    pub gemm_util_permille: u16,
    pub grouped_moe_permille: u16,
    pub shared_mem_four_byte_permille: u16,
    pub shared_mem_eight_byte_permille: u16,
    /// Share of leftover same-domain traffic that a completion fence waits for.
    pub same_domain_fence_permille: u16,
    pub mem_sync_domain_count: u8,
    pub max_blocks_per_cluster: u16,
    pub portable_cluster_size: u16,
    pub max_shared_mem_per_block: u32,
    pub max_shared_mem_per_block_optin: u32,
}

impl GpuProfile {
    /// Peak operations a second for an element type.
    #[verifier::allow_in_spec]
    pub fn flops(self, dtype: DType) -> u64
        returns
            (match dtype {
                DType::F32 => self.flops_f32,
                DType::F16 | DType::Bf16 => self.flops_f16,
                DType::F8 => self.flops_f8,
            }),
    {
        match dtype {
            DType::F32 => self.flops_f32,
            DType::F16 | DType::Bf16 => self.flops_f16,
            DType::F8 => self.flops_f8,
        }
    }
}

/// The simulated node.
pub struct HardwareProfile {
    pub name: String,
    pub gpus: Vec<GpuProfile>,
    pub links: Vec<Link>,
    /// Page-lockable host bytes; `u64::MAX` is unlimited.
    pub host_pin_bytes: u64,
    /// Granularity of address reservations; `0` and `1` are any size.
    pub va_granularity_bytes: u64,
    /// Granularity of multicast objects; `0` and `1` are any size.
    pub multicast_granularity_bytes: u64,
}

/// Mathematical form of [`HardwareProfile`].
#[verifier::ext_equal]
pub struct ProfileView {
    pub name: Seq<char>,
    pub gpus: Seq<GpuProfile>,
    pub links: Seq<Link>,
    pub host_pin_bytes: u64,
    pub va_granularity_bytes: u64,
    pub multicast_granularity_bytes: u64,
}

impl View for HardwareProfile {
    type V = ProfileView;

    open spec fn view(&self) -> ProfileView {
        ProfileView {
            name: self.name@,
            gpus: self.gpus@,
            links: self.links@,
            host_pin_bytes: self.host_pin_bytes,
            va_granularity_bytes: self.va_granularity_bytes,
            multicast_granularity_bytes: self.multicast_granularity_bytes,
        }
    }
}

/// Whether `n` is a multiple of a granularity, where `0` and `1` admit any size.
#[verifier::allow_in_spec]
pub fn aligned(n: u64, granularity: u64) -> bool
    returns
        (granularity <= 1 || n % granularity == 0),
{
    granularity <= 1 || n % granularity == 0
}

/// Index of the first GPU with this id at or after `from`.
pub open spec fn gpu_index(gpus: Seq<GpuProfile>, id: DeviceId, from: int) -> Option<int>
    decreases gpus.len() - from,
{
    if from < 0 || from >= gpus.len() {
        None
    } else if gpus[from].id == id {
        Some(from)
    } else {
        gpu_index(gpus, id, from + 1)
    }
}

/// Index of the first link between `src` and `dst` at or after `from`.
pub open spec fn link_index_from(
    links: Seq<Link>,
    src: Option<DeviceId>,
    dst: Option<DeviceId>,
    from: int,
) -> Option<usize>
    decreases links.len() - from,
{
    if from < 0 || from >= links.len() {
        None
    } else if links[from].connects(src, dst) {
        Some(from as usize)
    } else {
        link_index_from(links, src, dst, from + 1)
    }
}

/// The device of an endpoint in an error; the host is the last id.
#[verifier::allow_in_spec]
pub fn endpoint(d: Option<DeviceId>) -> DeviceId
    returns
        (match d {
            Some(d) => d,
            None => DeviceId(u16::MAX),
        }),
{
    match d {
        Some(d) => d,
        None => DeviceId(u16::MAX),
    }
}

/// Rates of GPU-to-GPU links above `bps`.
pub open spec fn faster_peer_rates(links: Seq<Link>, bps: u64) -> Set<u64> {
    Set::new(
        |r: u64|
            r > bps && exists|i: int|
                0 <= i < links.len() && (#[trigger] links[i]).a is Some && links[i].b is Some
                    && links[i].bps == r,
    )
}

impl ProfileView {
    /// The GPU `id`.
    pub open spec fn gpu(self, id: DeviceId) -> Result<GpuProfile, SimError> {
        match gpu_index(self.gpus, id, 0) {
            Some(i) => Ok(self.gpus[i]),
            None => Err(invalid("unknown device")),
        }
    }

    /// Index of the first link between two endpoints.
    pub open spec fn link_index(
        self,
        src: Option<DeviceId>,
        dst: Option<DeviceId>,
    ) -> Option<usize> {
        link_index_from(self.links, src, dst, 0)
    }

    /// The first link between two endpoints.
    pub open spec fn link(self, src: Option<DeviceId>, dst: Option<DeviceId>) -> Result<
        Link,
        SimError,
    > {
        match self.link_index(src, dst) {
            Some(i) => Ok(self.links[i as int]),
            None => Err(SimError::NoPeer { src: endpoint(src), dst: endpoint(dst) }),
        }
    }

    pub open spec fn has_nvlink(self) -> bool {
        exists|i: int| 0 <= i < self.links.len() && (
            #[trigger] self.links[i]
        ).kind == LinkKind::Nvlink
    }

    pub open spec fn va_aligned(self, n: u64) -> bool {
        aligned(n, self.va_granularity_bytes)
    }

    pub open spec fn multicast_aligned(self, n: u64) -> bool {
        aligned(n, self.multicast_granularity_bytes)
    }

    /// Number of distinct GPU-to-GPU rates above that of the link; `0` for one device and where
    /// no link joins the two.
    pub open spec fn p2p_performance_rank(self, src: DeviceId, dst: DeviceId) -> u64 {
        if src == dst {
            0
        } else {
            match self.link(Some(src), Some(dst)) {
                Ok(l) => count(faster_peer_rates(self.links, l.bps)) as u64,
                Err(_e) => 0,
            }
        }
    }
}

impl HardwareProfile {
    /// The GPU `id`; an unknown id is [`SimError::Invalid`].
    pub fn gpu(&self, id: DeviceId) -> (r: Result<GpuProfile, SimError>)
        ensures
            r == self@.gpu(id),
    {
        let mut i: usize = 0;
        while i < self.gpus.len()
            invariant
                i <= self.gpus@.len(),
                gpu_index(self.gpus@, id, 0) == gpu_index(self.gpus@, id, i as int),
            decreases self.gpus@.len() - i,
        {
            if self.gpus[i].id == id {
                return Ok(self.gpus[i]);
            }
            i += 1;
        }
        Err(invalid("unknown device"))
    }

    /// Position of the first link between two endpoints.
    pub fn link_index(&self, src: Option<DeviceId>, dst: Option<DeviceId>) -> (r: Option<usize>)
        ensures
            r == self@.link_index(src, dst),
            r matches Some(i) ==> i < self@.links.len(),
    {
        let mut i: usize = 0;
        while i < self.links.len()
            invariant
                i <= self.links@.len(),
                link_index_from(self.links@, src, dst, 0) == link_index_from(
                    self.links@,
                    src,
                    dst,
                    i as int,
                ),
            decreases self.links@.len() - i,
        {
            if self.links[i].connects(src, dst) {
                return Some(i);
            }
            i += 1;
        }
        None
    }

    /// The first link between two endpoints, or [`SimError::NoPeer`].
    pub fn link(&self, src: Option<DeviceId>, dst: Option<DeviceId>) -> (r: Result<
        Link,
        SimError,
    >)
        ensures
            r == self@.link(src, dst),
    {
        match self.link_index(src, dst) {
            Some(i) => Ok(self.links[i]),
            None => Err(SimError::NoPeer { src: endpoint(src), dst: endpoint(dst) }),
        }
    }

    /// Whether any link is NVLink.
    pub fn has_nvlink(&self) -> (r: bool)
        ensures
            r == self@.has_nvlink(),
    {
        let mut i: usize = 0;
        while i < self.links.len()
            invariant
                i <= self.links@.len(),
                forall|j: int| 0 <= j < i ==> (#[trigger] self.links@[j]).kind != LinkKind::Nvlink,
            decreases self.links@.len() - i,
        {
            if self.links[i].kind == LinkKind::Nvlink {
                assert(self@.links[i as int].kind == LinkKind::Nvlink);
                return true;
            }
            i += 1;
        }
        false
    }

    /// Whether a reservation size fits the granularity.
    pub fn va_aligned(&self, n: u64) -> (r: bool)
        ensures
            r == self@.va_aligned(n),
    {
        aligned(n, self.va_granularity_bytes)
    }

    /// Whether a multicast size fits the granularity.
    pub fn multicast_aligned(&self, n: u64) -> (r: bool)
        ensures
            r == self@.multicast_aligned(n),
    {
        aligned(n, self.multicast_granularity_bytes)
    }

    /// Place of a link among the distinct GPU-to-GPU rates, fastest first.
    pub fn p2p_performance_rank(&self, src: DeviceId, dst: DeviceId) -> (r: u64)
        ensures
            r == self@.p2p_performance_rank(src, dst),
    {
        if src == dst {
            return 0;
        }
        let bps: u64 = match self.link(Some(src), Some(dst)) {
            Ok(l) => l.bps,
            Err(_e) => {
                return 0;
            },
        };
        let mut rates: KeySet<u64> = KeySet::new();
        let mut i: usize = 0;
        assert(rates@ =~= faster_peer_rates(self.links@.take(0), bps));
        while i < self.links.len()
            invariant
                i <= self.links@.len(),
                rates@ == faster_peer_rates(self.links@.take(i as int), bps),
            decreases self.links@.len() - i,
        {
            let l = self.links[i];
            if l.a.is_some() && l.b.is_some() && l.bps > bps {
                let _new = rates.insert(l.bps);
            }
            proof {
                let p = self.links@.take(i as int);
                let q = self.links@.take(i + 1);
                assert(q =~= p.push(l));
                assert forall|r: u64| rates@.contains(r) == faster_peer_rates(q, bps).contains(r) by {
                    if faster_peer_rates(p, bps).contains(r) {
                        let j = choose|j: int|
                            0 <= j < p.len() && (#[trigger] p[j]).a is Some && p[j].b is Some
                                && p[j].bps == r;
                        assert(q[j] == p[j]);
                    }
                    if faster_peer_rates(q, bps).contains(r) {
                        let j = choose|j: int|
                            0 <= j < q.len() && (#[trigger] q[j]).a is Some && q[j].b is Some
                                && q[j].bps == r;
                        if j < i {
                            assert(p[j] == q[j]);
                        }
                    }
                    assert(q[i as int] == l);
                }
                assert(rates@ =~= faster_peer_rates(q, bps));
            }
            i += 1;
        }
        assert(self.links@.take(i as int) =~= self.links@);
        rates.card() as u64
    }
}

} // verus!
