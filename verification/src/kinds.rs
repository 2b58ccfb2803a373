//! What the kinds of operation hold.
use vstd::prelude::*;
use crate::error::{invalid, SimError};
use crate::ids::{AllocId, EventId, GraphId};
use crate::list::{copy_slice, copy_vec, extend_copy, ok_view, one, opt_view, Rows, same_keys};
use crate::ops::{
    BatchMemOp, GpuOp, GpuOpView, GraphExecUpdateResult, GraphNodeKind, GraphNodeParams,
    HostNodeParams, KernelNodeParams, KernelParamsView, MemcpyOp, MemsetOp, NodeParamsView,
};
use crate::state::{GraphStep, StepView};

verus! {

impl GpuOpView {
    /// Value of [`GpuOp::mem_sync_kind`].
    pub open spec fn mem_sync_kind(self) -> bool {
        (match self { GpuOpView::Kernel { .. } | GpuOpView::AllReduce { .. } => true, _ => false })
    }

    /// Value of [`GpuOp::device_launch_refused`].
    pub open spec fn device_launch_refused(self) -> bool {
        match self {
            GpuOpView::Alloc { .. } | GpuOpView::Free { .. } => true,
            GpuOpView::EventRecord { .. } | GpuOpView::EventWait { .. } => true,
            GpuOpView::ChildGraph { .. } | GpuOpView::If { .. } | GpuOpView::While { .. } => true,
            GpuOpView::Switch { .. } | GpuOpView::WhileTick { .. } | GpuOpView::Attach { .. } => true,
            GpuOpView::AllReduce { .. } | GpuOpView::HostFunc { .. } | GpuOpView::DeviceLaunch { .. } => true,
            _ => false,
        }
    }

    /// Value of [`GpuOp::batch_from_kind`].
    pub open spec fn batch_from_kind(self) -> Option<BatchMemOp> {
        match self {
            GpuOpView::WriteValue { id, offset, value, bits32 } => Some(
                BatchMemOp::Write { id, offset, value, bits32 },
            ),
            GpuOpView::WaitValue { id, offset, value, bits32, cmp } => Some(
                BatchMemOp::Wait { id, offset, value, bits32, cmp },
            ),
            _ => None,
        }
    }

    /// Value of [`GpuOp::batch_items`].
    pub open spec fn batch_items(self) -> Option<Seq<BatchMemOp>> {
        match self {
            GpuOpView::BatchMem { ops } => Some(ops),
            _ => match self.batch_from_kind() {
                Some(op) => Some(seq![op]),
                None => None,
            },
        }
    }

    /// Value of [`GpuOp::kernel_params_of`].
    pub open spec fn kernel_params_of(self) -> Result<KernelParamsView, SimError> {
        match self {
            GpuOpView::Kernel { kind, reads, writes, cooperative } => Ok(
                KernelParamsView { kind, reads, writes, cooperative },
            ),
            _ => Err(invalid("not a kernel node")),
        }
    }

    /// Value of [`GpuOp::memcpy_params_of`].
    pub open spec fn memcpy_params_of(self) -> Result<MemcpyOp, SimError> {
        match self {
            GpuOpView::Memcpy(op) => Ok(op),
            _ => Err(invalid("not a memcpy node")),
        }
    }

    /// Value of [`GpuOp::memset_params_of`].
    pub open spec fn memset_params_of(self) -> Result<MemsetOp, SimError> {
        match self {
            GpuOpView::Memset(op) => Ok(op),
            _ => Err(invalid("not a memset node")),
        }
    }

    /// Value of [`GpuOp::host_params_of`].
    pub open spec fn host_params_of(self) -> Result<HostNodeParams, SimError> {
        match self {
            GpuOpView::HostFunc { fn_id, user_data } => Ok(HostNodeParams { fn_id, user_data }),
            _ => Err(invalid("not a host node")),
        }
    }

    /// Value of [`GpuOp::node_params_of`].
    pub open spec fn node_params_of(self) -> Result<NodeParamsView, SimError> {
        match self {
            GpuOpView::Kernel { .. } => match self.kernel_params_of() {
                Err(e) => Err(e),
                Ok(p) => Ok(NodeParamsView::Kernel(p)),
            },
            GpuOpView::Memcpy(op) => Ok(NodeParamsView::Memcpy(op)),
            GpuOpView::Memset(op) => Ok(NodeParamsView::Memset(op)),
            GpuOpView::HostFunc { fn_id, user_data } => Ok(
                NodeParamsView::Host(HostNodeParams { fn_id, user_data }),
            ),
            GpuOpView::Empty => Ok(NodeParamsView::Empty),
            GpuOpView::EventRecord { event, external } => Ok(
                NodeParamsView::EventRecord { event, external },
            ),
            GpuOpView::EventWait { event, external } => Ok(
                NodeParamsView::EventWait { event, external },
            ),
            GpuOpView::ChildGraph { graph } => Ok(NodeParamsView::ChildGraph(graph)),
            GpuOpView::Alloc { id, bytes } => Ok(NodeParamsView::Alloc { bytes }),
            GpuOpView::Free { id } => Ok(NodeParamsView::Free(id)),
            GpuOpView::BatchMem { .. } | GpuOpView::WriteValue { .. } | GpuOpView::WaitValue { .. } => match (
                match self.batch_items() {
                    Some(x) => Ok(x),
                    None => Err(invalid("not a batch mem op node")),
                }
            ) {
                Err(e) => Err(e),
                Ok(items) => Ok(NodeParamsView::BatchMemOp(items)),
            },
            _ => Err(invalid("not a graph node params kind")),
        }
    }
}

impl GpuOp {
    /// Work whose memory traffic a completion fence orders.
    pub fn mem_sync_kind(&self) -> (r: bool)
        ensures
            r == self@.mem_sync_kind(),
    {
        matches!(self, GpuOp::Kernel { .. } | GpuOp::AllReduce { .. })
    }

    /// Work that a graph launched from the device may not hold.
    pub fn device_launch_refused(&self) -> (r: bool)
        ensures
            r == self@.device_launch_refused(),
    {
        match self {
            GpuOp::Alloc { .. } | GpuOp::Free { .. } => true,
            GpuOp::EventRecord { .. } | GpuOp::EventWait { .. } => true,
            GpuOp::ChildGraph { .. } | GpuOp::If { .. } | GpuOp::While { .. } => true,
            GpuOp::Switch { .. } | GpuOp::WhileTick { .. } | GpuOp::Attach { .. } => true,
            GpuOp::AllReduce { .. } | GpuOp::HostFunc { .. } | GpuOp::DeviceLaunch { .. } => true,
            _ => false,
        }
    }

    /// The single stream memory operation, if this is one.
    pub fn batch_from_kind(&self) -> (r: Option<BatchMemOp>)
        ensures
            r == self@.batch_from_kind(),
    {
        match self {
            GpuOp::WriteValue { id, offset, value, bits32 } => {
                Some(BatchMemOp::Write { id: *id, offset: *offset, value: *value, bits32: *bits32 })
            },
            GpuOp::WaitValue { id, offset, value, bits32, cmp } => {
                Some(
                    BatchMemOp::Wait {
                        id: *id,
                        offset: *offset,
                        value: *value,
                        bits32: *bits32,
                        cmp: *cmp,
                    },
                )
            },
            _ => None,
        }
    }

    /// The stream memory operations, single or batched.
    pub fn batch_items(&self) -> (r: Option<Vec<BatchMemOp>>)
        ensures
            opt_view(r) == self@.batch_items(),
    {
        match self {
            GpuOp::BatchMem { ops } => Some(copy_vec(ops)),
            _ => match self.batch_from_kind() {
                Some(op) => Some(one(op)),
                None => None,
            },
        }
    }

    /// Parameters of a kernel node.
    pub fn kernel_params_of(&self) -> (r: Result<KernelNodeParams, SimError>)
        ensures
            ok_view(r) == self@.kernel_params_of(),
    {
        match self {
            GpuOp::Kernel { kind, reads, writes, cooperative } => {
                Ok(
                    KernelNodeParams {
                        kind: *kind,
                        reads: copy_vec(reads),
                        writes: copy_vec(writes),
                        cooperative: *cooperative,
                    },
                )
            },
            _ => Err(invalid("not a kernel node")),
        }
    }

    /// Parameters of a copy node.
    pub fn memcpy_params_of(&self) -> (r: Result<MemcpyOp, SimError>)
        ensures
            r == self@.memcpy_params_of(),
    {
        match self {
            GpuOp::Memcpy(op) => Ok(*op),
            _ => Err(invalid("not a memcpy node")),
        }
    }

    /// Parameters of a fill node.
    pub fn memset_params_of(&self) -> (r: Result<MemsetOp, SimError>)
        ensures
            r == self@.memset_params_of(),
    {
        match self {
            GpuOp::Memset(op) => Ok(*op),
            _ => Err(invalid("not a memset node")),
        }
    }

    /// Parameters of a host callback node.
    pub fn host_params_of(&self) -> (r: Result<HostNodeParams, SimError>)
        ensures
            r == self@.host_params_of(),
    {
        match self {
            GpuOp::HostFunc { fn_id, user_data } => Ok(
                HostNodeParams { fn_id: *fn_id, user_data: *user_data },
            ),
            _ => Err(invalid("not a host node")),
        }
    }

    /// Parameters of a node, by kind.
    pub fn node_params_of(&self) -> (r: Result<GraphNodeParams, SimError>)
        ensures
            ok_view(r) == self@.node_params_of(),
    {
        match self {
            GpuOp::Kernel { .. } => {
                let p = self.kernel_params_of()?;
                Ok(GraphNodeParams::Kernel(p))
            },
            GpuOp::Memcpy(op) => Ok(GraphNodeParams::Memcpy(*op)),
            GpuOp::Memset(op) => Ok(GraphNodeParams::Memset(*op)),
            GpuOp::HostFunc { fn_id, user_data } => {
                Ok(GraphNodeParams::Host(HostNodeParams { fn_id: *fn_id, user_data: *user_data }))
            },
            GpuOp::Empty => Ok(GraphNodeParams::Empty),
            GpuOp::EventRecord { event, external } => {
                Ok(GraphNodeParams::EventRecord { event: *event, external: *external })
            },
            GpuOp::EventWait { event, external } => {
                Ok(GraphNodeParams::EventWait { event: *event, external: *external })
            },
            GpuOp::ChildGraph { graph } => Ok(GraphNodeParams::ChildGraph(*graph)),
            GpuOp::Alloc { id, bytes } => Ok(GraphNodeParams::Alloc { bytes: *bytes }),
            GpuOp::Free { id } => Ok(GraphNodeParams::Free(*id)),
            GpuOp::BatchMem { .. } | GpuOp::WriteValue { .. } | GpuOp::WaitValue { .. } => {
                let items = self.batch_items().ok_or(invalid("not a batch mem op node"))?;
                Ok(GraphNodeParams::BatchMemOp(items))
            },
            _ => Err(invalid("not a graph node params kind")),
        }
    }
}

impl GpuOpView {
    /// Value of [`GpuOp::nested_graphs`].
    pub open spec fn nested_graphs(self) -> Seq<GraphId> {
        match self {
            GpuOpView::ChildGraph { graph } => seq![graph],
            GpuOpView::If { handle, body } => seq![body],
            GpuOpView::While { handle, body } => seq![body],
            GpuOpView::Switch { handle, bodies } => bodies,
            _ => Seq::empty(),
        }
    }

    /// Value of [`GpuOp::cond_body_graphs`].
    pub open spec fn cond_body_graphs(self) -> Seq<GraphId> {
        match self {
            GpuOpView::If { handle, body } => seq![body],
            GpuOpView::While { handle, body } => seq![body],
            GpuOpView::Switch { handle, bodies } => bodies,
            _ => Seq::empty(),
        }
    }
}

impl GpuOp {
    /// Graphs that a node expands to.
    pub fn nested_graphs(&self) -> (r: Vec<GraphId>)
        ensures
            r@ == self@.nested_graphs(),
    {
        match self {
            GpuOp::ChildGraph { graph } => one(*graph),
            GpuOp::If { handle, body } => one(*body),
            GpuOp::While { handle, body } => one(*body),
            GpuOp::Switch { handle, bodies } => copy_vec(bodies),
            _ => Vec::new(),
        }
    }

    /// Body graphs of a conditional node.
    pub fn cond_body_graphs(&self) -> (r: Vec<GraphId>)
        ensures
            r@ == self@.cond_body_graphs(),
    {
        match self {
            GpuOp::If { handle, body } => one(*body),
            GpuOp::While { handle, body } => one(*body),
            GpuOp::Switch { handle, bodies } => copy_vec(bodies),
            _ => Vec::new(),
        }
    }
}

impl GpuOpView {
    /// Value of [`GpuOp::node_kind`].
    pub open spec fn node_kind(self) -> GraphNodeKind {
        match self {
            GpuOpView::Kernel { .. } => GraphNodeKind::Kernel,
            GpuOpView::Memcpy(_m) => GraphNodeKind::Memcpy,
            GpuOpView::Memset(_m) => GraphNodeKind::Memset,
            GpuOpView::HostFunc { .. } => GraphNodeKind::Host,
            GpuOpView::Empty => GraphNodeKind::Empty,
            GpuOpView::EventRecord { .. } => GraphNodeKind::EventRecord,
            GpuOpView::EventWait { .. } => GraphNodeKind::EventWait,
            GpuOpView::ChildGraph { .. } => GraphNodeKind::ChildGraph,
            GpuOpView::Alloc { .. } => GraphNodeKind::Alloc,
            GpuOpView::Free { .. } => GraphNodeKind::Free,
            GpuOpView::AllReduce { .. } => GraphNodeKind::AllReduce,
            GpuOpView::Attach { .. } => GraphNodeKind::Attach,
            GpuOpView::If { .. } => GraphNodeKind::If,
            GpuOpView::SetConditional { .. } => GraphNodeKind::SetConditional,
            GpuOpView::While { .. } => GraphNodeKind::While,
            GpuOpView::WhileTick { .. } => GraphNodeKind::WhileTick,
            GpuOpView::Switch { .. } => GraphNodeKind::Switch,
            GpuOpView::WriteValue { .. } | GpuOpView::WaitValue { .. } | GpuOpView::BatchMem { .. } => GraphNodeKind::BatchMemOp,
            GpuOpView::DeviceLaunch { .. } => GraphNodeKind::DeviceLaunch,
        }
    }

    /// Value of [`GpuOp::op_tag`].
    pub open spec fn op_tag(self) -> u8 {
        match self {
            GpuOpView::Alloc { .. } => 0u8,
            GpuOpView::Free { .. } => 1u8,
            GpuOpView::Memcpy(_m) => 2u8,
            GpuOpView::Kernel { .. } => 3u8,
            GpuOpView::Memset(_m) => 4u8,
            GpuOpView::HostFunc { .. } => 5u8,
            GpuOpView::EventRecord { .. } => 6u8,
            GpuOpView::EventWait { .. } => 7u8,
            GpuOpView::AllReduce { .. } => 8u8,
            GpuOpView::ChildGraph { .. } => 9u8,
            GpuOpView::Attach { .. } => 10u8,
            GpuOpView::Empty => 11u8,
            GpuOpView::If { .. } => 12u8,
            GpuOpView::SetConditional { .. } => 13u8,
            GpuOpView::While { .. } => 14u8,
            GpuOpView::WhileTick { .. } => 15u8,
            GpuOpView::Switch { .. } => 16u8,
            GpuOpView::WriteValue { .. } => 17u8,
            GpuOpView::WaitValue { .. } => 18u8,
            GpuOpView::DeviceLaunch { .. } => 19u8,
            GpuOpView::BatchMem { .. } => 20u8,
        }
    }

    /// Value of [`GpuOp::op_eq`].
    pub open spec fn op_eq(self, other: GpuOpView) -> bool {
        match (self, other) {
            (GpuOpView::ChildGraph { graph: x }, GpuOpView::ChildGraph { graph: y }) => x == y,
            (
                GpuOpView::If { handle: hx, body: bx },
                GpuOpView::If { handle: hy, body: by },
            ) => hx == hy && bx == by,
            (
                GpuOpView::SetConditional { handle: x, .. },
                GpuOpView::SetConditional { handle: y, .. },
            ) => x == y,
            (
                GpuOpView::While { handle: hx, body: bx },
                GpuOpView::While { handle: hy, body: by },
            ) => hx == hy && bx == by,
            (
                GpuOpView::Switch { handle: hx, bodies: bx },
                GpuOpView::Switch { handle: hy, bodies: by },
            ) => hx == hy && (bx == by),
            (
                GpuOpView::WhileTick { handle: x, .. },
                GpuOpView::WhileTick { handle: y, .. },
            ) => x == y,
            (
                GpuOpView::EventRecord { external: x, .. },
                GpuOpView::EventRecord { external: y, .. },
            ) => x == y,
            (
                GpuOpView::EventWait { external: x, .. },
                GpuOpView::EventWait { external: y, .. },
            ) => x == y,
            (
                GpuOpView::Kernel { cooperative: x, .. },
                GpuOpView::Kernel { cooperative: y, .. },
            ) => x == y,
            (
                GpuOpView::WriteValue { bits32: x, .. },
                GpuOpView::WriteValue { bits32: y, .. },
            ) => x == y,
            (
                GpuOpView::WaitValue { bits32: x, cmp: cx, .. },
                GpuOpView::WaitValue { bits32: y, cmp: cy, .. },
            ) => x == y && cx == cy,
            _ => self.op_tag() == other.op_tag(),
        }
    }

    /// Value of [`GpuOp::child_param_op_eq`].
    pub open spec fn child_param_op_eq(self, other: GpuOpView) -> bool {
        if (match self { GpuOpView::ChildGraph { .. } => true, _ => false })
            && (match other { GpuOpView::ChildGraph { .. } => true, _ => false }) {
            true
        } else {
            self.op_eq(other)
        }
    }

    /// Value of [`GpuOp::op_mismatch`].
    pub open spec fn op_mismatch(self) -> GraphExecUpdateResult {
        match self {
            GpuOpView::ChildGraph { .. } | GpuOpView::If { .. } | GpuOpView::While { .. } => GraphExecUpdateResult::TopologyChanged,
            GpuOpView::Switch { .. } | GpuOpView::SetConditional { .. } | GpuOpView::WhileTick { .. } => GraphExecUpdateResult::TopologyChanged,
            GpuOpView::EventRecord { .. } | GpuOpView::EventWait { .. } => GraphExecUpdateResult::AttributesChanged,
            _ => GraphExecUpdateResult::ParametersChanged,
        }
    }

    /// Value of [`GpuOp::is_mem_node`].
    pub open spec fn is_mem_node(self) -> bool {
        (match self { GpuOpView::Alloc { .. } | GpuOpView::Free { .. } => true, _ => false })
    }

    /// Value of [`GpuOp::pick_memcpy`].
    pub open spec fn pick_memcpy(self) -> Option<MemcpyOp> {
        match self {
            GpuOpView::Memcpy(op) => Some(op),
            _ => None,
        }
    }

    /// Value of [`GpuOp::pick_memset`].
    pub open spec fn pick_memset(self) -> Option<MemsetOp> {
        match self {
            GpuOpView::Memset(op) => Some(op),
            _ => None,
        }
    }

    /// Value of [`GpuOp::pick_host`].
    pub open spec fn pick_host(self) -> Option<HostNodeParams> {
        match self {
            GpuOpView::HostFunc { fn_id, user_data } => Some(HostNodeParams { fn_id, user_data }),
            _ => None,
        }
    }

    /// Value of [`GpuOp::pick_child`].
    pub open spec fn pick_child(self) -> Option<GraphId> {
        match self {
            GpuOpView::ChildGraph { graph } => Some(graph),
            _ => None,
        }
    }

    /// Value of [`GpuOp::pick_event_record`].
    pub open spec fn pick_event_record(self) -> Option<EventId> {
        match self {
            GpuOpView::EventRecord { event, external } => Some(event),
            _ => None,
        }
    }

    /// Value of [`GpuOp::pick_event_wait`].
    pub open spec fn pick_event_wait(self) -> Option<EventId> {
        match self {
            GpuOpView::EventWait { event, external } => Some(event),
            _ => None,
        }
    }

    /// Value of [`GpuOp::pick_write_value`].
    pub open spec fn pick_write_value(self) -> Option<BatchMemOp> {
        if (match self { GpuOpView::WriteValue { .. } => true, _ => false }) {
            self.batch_from_kind()
        } else {
            None
        }
    }

    /// Value of [`GpuOp::pick_wait_value`].
    pub open spec fn pick_wait_value(self) -> Option<BatchMemOp> {
        if (match self { GpuOpView::WaitValue { .. } => true, _ => false }) {
            self.batch_from_kind()
        } else {
            None
        }
    }
}

impl GpuOp {
    /// Kind of the node.
    pub fn node_kind(&self) -> (r: GraphNodeKind)
        ensures
            r == self@.node_kind(),
    {
        match self {
            GpuOp::Kernel { .. } => GraphNodeKind::Kernel,
            GpuOp::Memcpy(_m) => GraphNodeKind::Memcpy,
            GpuOp::Memset(_m) => GraphNodeKind::Memset,
            GpuOp::HostFunc { .. } => GraphNodeKind::Host,
            GpuOp::Empty => GraphNodeKind::Empty,
            GpuOp::EventRecord { .. } => GraphNodeKind::EventRecord,
            GpuOp::EventWait { .. } => GraphNodeKind::EventWait,
            GpuOp::ChildGraph { .. } => GraphNodeKind::ChildGraph,
            GpuOp::Alloc { .. } => GraphNodeKind::Alloc,
            GpuOp::Free { .. } => GraphNodeKind::Free,
            GpuOp::AllReduce { .. } => GraphNodeKind::AllReduce,
            GpuOp::Attach { .. } => GraphNodeKind::Attach,
            GpuOp::If { .. } => GraphNodeKind::If,
            GpuOp::SetConditional { .. } => GraphNodeKind::SetConditional,
            GpuOp::While { .. } => GraphNodeKind::While,
            GpuOp::WhileTick { .. } => GraphNodeKind::WhileTick,
            GpuOp::Switch { .. } => GraphNodeKind::Switch,
            GpuOp::WriteValue { .. } | GpuOp::WaitValue { .. } | GpuOp::BatchMem { .. } => GraphNodeKind::BatchMemOp,
            GpuOp::DeviceLaunch { .. } => GraphNodeKind::DeviceLaunch,
        }
    }

    /// Number of the operation kind.
    pub fn op_tag(&self) -> (r: u8)
        ensures
            r == self@.op_tag(),
    {
        match self {
            GpuOp::Alloc { .. } => 0u8,
            GpuOp::Free { .. } => 1u8,
            GpuOp::Memcpy(_m) => 2u8,
            GpuOp::Kernel { .. } => 3u8,
            GpuOp::Memset(_m) => 4u8,
            GpuOp::HostFunc { .. } => 5u8,
            GpuOp::EventRecord { .. } => 6u8,
            GpuOp::EventWait { .. } => 7u8,
            GpuOp::AllReduce { .. } => 8u8,
            GpuOp::ChildGraph { .. } => 9u8,
            GpuOp::Attach { .. } => 10u8,
            GpuOp::Empty => 11u8,
            GpuOp::If { .. } => 12u8,
            GpuOp::SetConditional { .. } => 13u8,
            GpuOp::While { .. } => 14u8,
            GpuOp::WhileTick { .. } => 15u8,
            GpuOp::Switch { .. } => 16u8,
            GpuOp::WriteValue { .. } => 17u8,
            GpuOp::WaitValue { .. } => 18u8,
            GpuOp::DeviceLaunch { .. } => 19u8,
            GpuOp::BatchMem { .. } => 20u8,
        }
    }

    /// Whether two nodes agree in what an executable update may not change.
    pub fn op_eq(&self, other: &GpuOp) -> (r: bool)
        ensures
            r == self@.op_eq(other@),
    {
        match (self, other) {
            (GpuOp::ChildGraph { graph: x }, GpuOp::ChildGraph { graph: y }) => *x == *y,
            (
                GpuOp::If { handle: hx, body: bx },
                GpuOp::If { handle: hy, body: by },
            ) => *hx == *hy && *bx == *by,
            (
                GpuOp::SetConditional { handle: x, .. },
                GpuOp::SetConditional { handle: y, .. },
            ) => *x == *y,
            (
                GpuOp::While { handle: hx, body: bx },
                GpuOp::While { handle: hy, body: by },
            ) => *hx == *hy && *bx == *by,
            (
                GpuOp::Switch { handle: hx, bodies: bx },
                GpuOp::Switch { handle: hy, bodies: by },
            ) => *hx == *hy && same_keys(bx, by),
            (GpuOp::WhileTick { handle: x, .. }, GpuOp::WhileTick { handle: y, .. }) => *x == *y,
            (
                GpuOp::EventRecord { external: x, .. },
                GpuOp::EventRecord { external: y, .. },
            ) => *x == *y,
            (
                GpuOp::EventWait { external: x, .. },
                GpuOp::EventWait { external: y, .. },
            ) => *x == *y,
            (
                GpuOp::Kernel { cooperative: x, .. },
                GpuOp::Kernel { cooperative: y, .. },
            ) => *x == *y,
            (GpuOp::WriteValue { bits32: x, .. }, GpuOp::WriteValue { bits32: y, .. }) => *x == *y,
            (
                GpuOp::WaitValue { bits32: x, cmp: cx, .. },
                GpuOp::WaitValue { bits32: y, cmp: cy, .. },
            ) => *x == *y && *cx == *cy,
            _ => self.op_tag() == other.op_tag(),
        }
    }

    /// The same, with nested graphs taken as parameters.
    pub fn child_param_op_eq(&self, other: &GpuOp) -> (r: bool)
        ensures
            r == self@.child_param_op_eq(other@),
    {
        if matches!(self, GpuOp::ChildGraph { .. }) && matches!(other, GpuOp::ChildGraph { .. }) {
            return true;
        }
        self.op_eq(other)
    }

    /// What an executable update reports for two nodes of one kind that do not agree.
    pub fn op_mismatch(&self) -> (r: GraphExecUpdateResult)
        ensures
            r == self@.op_mismatch(),
    {
        match self {
            GpuOp::ChildGraph { .. } | GpuOp::If { .. } | GpuOp::While { .. } => GraphExecUpdateResult::TopologyChanged,
            GpuOp::Switch { .. } | GpuOp::SetConditional { .. } | GpuOp::WhileTick { .. } => GraphExecUpdateResult::TopologyChanged,
            GpuOp::EventRecord { .. } | GpuOp::EventWait { .. } => GraphExecUpdateResult::AttributesChanged,
            _ => GraphExecUpdateResult::ParametersChanged,
        }
    }

    /// Allocation and free nodes.
    pub fn is_mem_node(&self) -> (r: bool)
        ensures
            r == self@.is_mem_node(),
    {
        matches!(self, GpuOp::Alloc { .. } | GpuOp::Free { .. })
    }

    /// What the node holds if it is of this kind.
    pub fn pick_memcpy(&self) -> (r: Option<MemcpyOp>)
        ensures
            r == self@.pick_memcpy(),
    {
        match self {
            GpuOp::Memcpy(op) => Some(*op),
            _ => None,
        }
    }

    /// What the node holds if it is of this kind.
    pub fn pick_memset(&self) -> (r: Option<MemsetOp>)
        ensures
            r == self@.pick_memset(),
    {
        match self {
            GpuOp::Memset(op) => Some(*op),
            _ => None,
        }
    }

    /// What the node holds if it is of this kind.
    pub fn pick_host(&self) -> (r: Option<HostNodeParams>)
        ensures
            r == self@.pick_host(),
    {
        match self {
            GpuOp::HostFunc { fn_id, user_data } => Some(
                HostNodeParams { fn_id: *fn_id, user_data: *user_data },
            ),
            _ => None,
        }
    }

    /// What the node holds if it is of this kind.
    pub fn pick_child(&self) -> (r: Option<GraphId>)
        ensures
            r == self@.pick_child(),
    {
        match self {
            GpuOp::ChildGraph { graph } => Some(*graph),
            _ => None,
        }
    }

    /// What the node holds if it is of this kind.
    pub fn pick_event_record(&self) -> (r: Option<EventId>)
        ensures
            r == self@.pick_event_record(),
    {
        match self {
            GpuOp::EventRecord { event, external } => Some(*event),
            _ => None,
        }
    }

    /// What the node holds if it is of this kind.
    pub fn pick_event_wait(&self) -> (r: Option<EventId>)
        ensures
            r == self@.pick_event_wait(),
    {
        match self {
            GpuOp::EventWait { event, external } => Some(*event),
            _ => None,
        }
    }

    /// The write of a write-value node.
    pub fn pick_write_value(&self) -> (r: Option<BatchMemOp>)
        ensures
            r == self@.pick_write_value(),
    {
        if matches!(self, GpuOp::WriteValue { .. }) {
            self.batch_from_kind()
        } else {
            None
        }
    }

    /// The wait of a wait-value node.
    pub fn pick_wait_value(&self) -> (r: Option<BatchMemOp>)
        ensures
            r == self@.pick_wait_value(),
    {
        if matches!(self, GpuOp::WaitValue { .. }) {
            self.batch_from_kind()
        } else {
            None
        }
    }
}

/// Graphs that the nodes expand to, node by node, destroyed ones left out.
pub open spec fn nested_of(steps: Seq<StepView>) -> Seq<GraphId>
    decreases steps.len(),
{
    if steps.len() == 0 {
        Seq::empty()
    } else if steps.last().destroyed {
        nested_of(steps.drop_last())
    } else {
        nested_of(steps.drop_last()) + steps.last().kind.nested_graphs()
    }
}

/// Graphs that the nodes expand to, node by node, destroyed ones left out.
pub fn all_nested(steps: &Rows<GraphStep>) -> (r: Vec<GraphId>)
    ensures
        r@ == nested_of(steps@),
{
    let mut out: Vec<GraphId> = Vec::new();
    let mut i: usize = 0;
    while i < steps.len()
        invariant
            i <= steps@.len(),
            out@ == nested_of(steps@.take(i as int)),
        decreases steps@.len() - i,
    {
        if !steps.at(i).destroyed {
            let more = steps.at(i).kind.nested_graphs();
            extend_copy(&mut out, &more);
        }
        i += 1;
        assert(steps@.take(i as int).drop_last() =~= steps@.take(i - 1));
    }
    assert(steps@.take(i as int) =~= steps@);
    out
}

/// Body graphs of the conditional nodes, node by node, destroyed ones left out.
pub open spec fn bodies_of(steps: Seq<StepView>) -> Seq<GraphId>
    decreases steps.len(),
{
    if steps.len() == 0 {
        Seq::empty()
    } else if steps.last().destroyed {
        bodies_of(steps.drop_last())
    } else {
        bodies_of(steps.drop_last()) + steps.last().kind.cond_body_graphs()
    }
}

/// Body graphs of the conditional nodes, node by node, destroyed ones left out.
pub fn all_bodies(steps: &Rows<GraphStep>) -> (r: Vec<GraphId>)
    ensures
        r@ == bodies_of(steps@),
{
    let mut out: Vec<GraphId> = Vec::new();
    let mut i: usize = 0;
    while i < steps.len()
        invariant
            i <= steps@.len(),
            out@ == bodies_of(steps@.take(i as int)),
        decreases steps@.len() - i,
    {
        if !steps.at(i).destroyed {
            let more = steps.at(i).kind.cond_body_graphs();
            extend_copy(&mut out, &more);
        }
        i += 1;
        assert(steps@.take(i as int).drop_last() =~= steps@.take(i - 1));
    }
    assert(steps@.take(i as int) =~= steps@);
    out
}

/// The node that one stream memory operation makes.
pub open spec fn batch_node(op: BatchMemOp) -> GpuOpView {
    match op {
        BatchMemOp::Write { id, offset, value, bits32 } => GpuOpView::WriteValue {
            id,
            offset,
            value,
            bits32,
        },
        BatchMemOp::Wait { id, offset, value, bits32, cmp } => GpuOpView::WaitValue {
            id,
            offset,
            value,
            bits32,
            cmp,
        },
    }
}

/// The node that one stream memory operation makes.
pub fn kind_from_batch(op: BatchMemOp) -> (r: GpuOp)
    ensures
        r@ == batch_node(op),
{
    match op {
        BatchMemOp::Write { id, offset, value, bits32 } => GpuOp::WriteValue {
            id,
            offset,
            value,
            bits32,
        },
        BatchMemOp::Wait { id, offset, value, bits32, cmp } => GpuOp::WaitValue {
            id,
            offset,
            value,
            bits32,
            cmp,
        },
    }
}

impl GpuOpView {
    /// Value of [`GpuOp::batch_set_params_ok`].
    pub open spec fn batch_set_params_ok(self, op: BatchMemOp) -> Result<(), SimError> {
        match self {
            GpuOpView::WriteValue { id, offset, value, bits32 } => match op {
                BatchMemOp::Write { id: i2, offset: o2, value: v2, bits32: b2 } => if bits32 == b2 {
                    Ok(())
                } else {
                    Err(invalid("not a write-value node"))
                },
                BatchMemOp::Wait { .. } => Err(invalid("not a write-value node")),
            },
            GpuOpView::WaitValue { id, offset, value, bits32, cmp } => match op {
                BatchMemOp::Wait {
                    id: i2,
                    offset: o2,
                    value: v2,
                    bits32: b2,
                    cmp: c2,
                } => if bits32 == b2 && cmp == c2 {
                    Ok(())
                } else {
                    Err(invalid("not a wait-value node"))
                },
                BatchMemOp::Write { .. } => Err(invalid("not a wait-value node")),
            },
            _ => Err(invalid("not a batch mem op node")),
        }
    }

    /// Value of [`GpuOp::batch_ops_set_params_kind`].
    pub open spec fn batch_ops_set_params_kind(
        self,
        ops: Seq<BatchMemOp>,
    ) -> Result<GpuOpView, SimError> {
        match self {
            GpuOpView::BatchMem { .. } => Ok(GpuOpView::BatchMem { ops }),
            GpuOpView::WriteValue { .. } | GpuOpView::WaitValue { .. } => if ops.len() != 1 {
                Err(invalid("batch mem op length"))
            } else {
                let op = ops[0];
                match self.batch_set_params_ok(op) {
                    Err(e) => Err(e),
                    Ok(_v) => Ok(batch_node(op)),
                }
            },
            _ => Err(invalid("not a batch mem op node")),
        }
    }
}

impl GpuOp {
    /// Whether one stream memory operation may replace this node: same operation, width and
    /// condition.
    pub fn batch_set_params_ok(&self, op: BatchMemOp) -> (r: Result<(), SimError>)
        ensures
            r == self@.batch_set_params_ok(op),
    {
        match self {
            GpuOp::WriteValue { id, offset, value, bits32 } => match op {
                BatchMemOp::Write {
                    id: i2,
                    offset: o2,
                    value: v2,
                    bits32: b2,
                } => if *bits32 == b2 {
                    Ok(())
                } else {
                    Err(invalid("not a write-value node"))
                },
                BatchMemOp::Wait { .. } => Err(invalid("not a write-value node")),
            },
            GpuOp::WaitValue { id, offset, value, bits32, cmp } => match op {
                BatchMemOp::Wait {
                    id: i2,
                    offset: o2,
                    value: v2,
                    bits32: b2,
                    cmp: c2,
                } => if *bits32 == b2 && *cmp == c2 {
                    Ok(())
                } else {
                    Err(invalid("not a wait-value node"))
                },
                BatchMemOp::Write { .. } => Err(invalid("not a wait-value node")),
            },
            _ => Err(invalid("not a batch mem op node")),
        }
    }

    /// This node with other stream memory operations.
    pub fn batch_ops_set_params_kind(&self, ops: &[BatchMemOp]) -> (r: Result<GpuOp, SimError>)
        ensures
            ok_view(r) == self@.batch_ops_set_params_kind(ops@),
    {
        match self {
            GpuOp::BatchMem { .. } => Ok(GpuOp::BatchMem { ops: copy_slice(ops) }),
            GpuOp::WriteValue { .. } | GpuOp::WaitValue { .. } => {
                if ops.len() != 1 {
                    return Err(invalid("batch mem op length"));
                }
                let op = ops[0];
                self.batch_set_params_ok(op)?;
                Ok(kind_from_batch(op))
            },
            _ => Err(invalid("not a batch mem op node")),
        }
    }
}

/// The words that an operation writes, in order: `(allocation, offset, value, 32-bit)`.
pub open spec fn writes_of(ops: Seq<BatchMemOp>) -> Seq<(AllocId, u64, u64, bool)>
    decreases ops.len(),
{
    if ops.len() == 0 {
        Seq::empty()
    } else {
        match ops.last() {
            BatchMemOp::Write { id, offset, value, bits32 } => writes_of(ops.drop_last()).push(
                (id, offset, value, bits32),
            ),
            BatchMemOp::Wait { .. } => writes_of(ops.drop_last()),
        }
    }
}

impl GpuOpView {
    /// The words that the operation writes, in order.
    pub open spec fn mailbox_writes(self) -> Seq<(AllocId, u64, u64, bool)> {
        match self {
            GpuOpView::WriteValue { id, offset, value, bits32 } => seq![
                (id, offset, value, bits32),
            ],
            GpuOpView::BatchMem { ops } => writes_of(ops),
            _ => Seq::empty(),
        }
    }
}

impl GpuOp {
    /// The words that the operation writes, in order.
    pub fn mailbox_writes(&self) -> (r: Vec<(AllocId, u64, u64, bool)>)
        ensures
            r@ == self@.mailbox_writes(),
    {
        let mut out: Vec<(AllocId, u64, u64, bool)> = Vec::new();
        match self {
            GpuOp::WriteValue { id, offset, value, bits32 } => {
                out.push((*id, *offset, *value, *bits32));
            },
            GpuOp::BatchMem { ops } => {
                let mut i: usize = 0;
                while i < ops.len()
                    invariant
                        i <= ops@.len(),
                        out@ == writes_of(ops@.take(i as int)),
                    decreases ops@.len() - i,
                {
                    if let BatchMemOp::Write { id, offset, value, bits32 } = ops[i] {
                        out.push((id, offset, value, bits32));
                    }
                    i += 1;
                    assert(ops@.take(i as int).drop_last() =~= ops@.take(i - 1));
                }
                assert(ops@.take(i as int) =~= ops@);
            },
            _ => {},
        }
        out
    }
}

} // verus!
