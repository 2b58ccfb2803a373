//! Text form of a graph definition for drawing.
use vstd::prelude::*;
use crate::error::{invalid, SimError};
use crate::ids::{AllocId, CondId, EventId, GraphId};
use crate::list::{ok_view, Rows};
use crate::num::bit;
use crate::ops::{GpuOp, GpuOpView, GraphDebugDotFlags, GraphNodeKind, KernelBuf, MemcpyOp, Place};
use crate::sim::{Sim, SimState};
use crate::state::{GraphStep, StepView};

verus! {

/// Character of a decimal digit.
pub open spec fn digit(d: nat) -> char {
    if d == 0 {
        '0'
    } else if d == 1 {
        '1'
    } else if d == 2 {
        '2'
    } else if d == 3 {
        '3'
    } else if d == 4 {
        '4'
    } else if d == 5 {
        '5'
    } else if d == 6 {
        '6'
    } else if d == 7 {
        '7'
    } else if d == 8 {
        '8'
    } else {
        '9'
    }
}

/// Decimal digits of a number.
pub open spec fn decimal(n: nat) -> Seq<char>
    decreases n,
{
    if n < 10 {
        seq![digit(n)]
    } else {
        decimal(n / 10).push(digit(n % 10))
    }
}

/// Decimal digits of a number, with a sign if it is negative.
pub open spec fn signed_decimal(n: int) -> Seq<char> {
    if n < 0 {
        "-"@ + decimal((-n) as nat)
    } else {
        decimal(n as nat)
    }
}

fn digit_text(d: u64) -> (r: &'static str)
    requires
        d < 10,
    ensures
        r@ == seq![digit(d as nat)],
{
    proof {
        reveal_strlit("0");
        reveal_strlit("1");
        reveal_strlit("2");
        reveal_strlit("3");
        reveal_strlit("4");
        reveal_strlit("5");
        reveal_strlit("6");
        reveal_strlit("7");
        reveal_strlit("8");
        reveal_strlit("9");
    }
    let r = if d == 0 {
        "0"
    } else if d == 1 {
        "1"
    } else if d == 2 {
        "2"
    } else if d == 3 {
        "3"
    } else if d == 4 {
        "4"
    } else if d == 5 {
        "5"
    } else if d == 6 {
        "6"
    } else if d == 7 {
        "7"
    } else if d == 8 {
        "8"
    } else {
        "9"
    };
    assert(r@ =~= seq![digit(d as nat)]);
    r
}

/// Append the decimal digits of a number.
fn push_number(out: &mut String, n: u64)
    ensures
        final(out)@ == old(out)@ + decimal(n as nat),
    decreases n,
{
    let ghost before = out@;
    if n < 10 {
        out.append(digit_text(n));
    } else {
        push_number(out, n / 10);
        out.append(digit_text(n % 10));
        assert(out@ =~= before + decimal(n as nat));
    }
}

/// Append a text and a number.
fn push_field(out: &mut String, name: &str, n: u64)
    ensures
        final(out)@ == old(out)@ + (name@ + decimal(n as nat)),
{
    let ghost before = out@;
    out.append(name);
    push_number(out, n);
    assert(out@ =~= before + (name@ + decimal(n as nat)));
}

/// Name of a node kind.
pub open spec fn kind_text(kind: GraphNodeKind) -> Seq<char> {
    match kind {
        GraphNodeKind::Kernel => "Kernel"@,
        GraphNodeKind::Memcpy => "Memcpy"@,
        GraphNodeKind::Memset => "Memset"@,
        GraphNodeKind::Host => "Host"@,
        GraphNodeKind::Empty => "Empty"@,
        GraphNodeKind::EventRecord => "EventRecord"@,
        GraphNodeKind::EventWait => "EventWait"@,
        GraphNodeKind::ChildGraph => "ChildGraph"@,
        GraphNodeKind::Alloc => "Alloc"@,
        GraphNodeKind::Free => "Free"@,
        GraphNodeKind::AllReduce => "AllReduce"@,
        GraphNodeKind::Attach => "Attach"@,
        GraphNodeKind::If => "If"@,
        GraphNodeKind::SetConditional => "SetConditional"@,
        GraphNodeKind::While => "While"@,
        GraphNodeKind::WhileTick => "WhileTick"@,
        GraphNodeKind::Switch => "Switch"@,
        GraphNodeKind::BatchMemOp => "BatchMemOp"@,
        GraphNodeKind::DeviceLaunch => "DeviceLaunch"@,
    }
}

fn kind_name(kind: GraphNodeKind) -> (r: &'static str)
    ensures
        r@ == kind_text(kind),
{
    match kind {
        GraphNodeKind::Kernel => "Kernel",
        GraphNodeKind::Memcpy => "Memcpy",
        GraphNodeKind::Memset => "Memset",
        GraphNodeKind::Host => "Host",
        GraphNodeKind::Empty => "Empty",
        GraphNodeKind::EventRecord => "EventRecord",
        GraphNodeKind::EventWait => "EventWait",
        GraphNodeKind::ChildGraph => "ChildGraph",
        GraphNodeKind::Alloc => "Alloc",
        GraphNodeKind::Free => "Free",
        GraphNodeKind::AllReduce => "AllReduce",
        GraphNodeKind::Attach => "Attach",
        GraphNodeKind::If => "If",
        GraphNodeKind::SetConditional => "SetConditional",
        GraphNodeKind::While => "While",
        GraphNodeKind::WhileTick => "WhileTick",
        GraphNodeKind::Switch => "Switch",
        GraphNodeKind::BatchMemOp => "BatchMemOp",
        GraphNodeKind::DeviceLaunch => "DeviceLaunch",
    }
}

/// Name of an end of a copy.
pub open spec fn place_text(p: Place) -> Seq<char> {
    match p {
        Place::Host => "Host"@,
        Place::HostPinned => "HostPinned"@,
        Place::Device(d) => "D"@ + decimal(d.0 as nat),
    }
}

fn push_place(out: &mut String, p: Place)
    ensures
        final(out)@ == old(out)@ + place_text(p),
{
    match p {
        Place::Host => out.append("Host"),
        Place::HostPinned => out.append("HostPinned"),
        Place::Device(d) => push_field(out, "D", d.0 as u64),
    }
}

/// Allocations of buffers, separated by commas.
pub open spec fn bufs_text(bufs: Seq<KernelBuf>) -> Seq<char>
    decreases bufs.len(),
{
    if bufs.len() == 0 {
        Seq::empty()
    } else if bufs.len() == 1 {
        decimal(bufs.last().id.0 as nat)
    } else {
        bufs_text(bufs.drop_last()) + (","@ + decimal(bufs.last().id.0 as nat))
    }
}

fn push_bufs(out: &mut String, bufs: &Vec<KernelBuf>)
    ensures
        final(out)@ == old(out)@ + bufs_text(bufs@),
{
    let ghost before = out@;
    let mut i: usize = 0;
    assert(out@ =~= before + bufs_text(bufs@.take(0)));
    while i < bufs.len()
        invariant
            i <= bufs@.len(),
            out@ == before + bufs_text(bufs@.take(i as int)),
        decreases bufs@.len() - i,
    {
        let id: u64 = bufs[i].id.0 as u64;
        let ghost t = bufs@.take(i + 1);
        assert(t.drop_last() =~= bufs@.take(i as int));
        if i > 0 {
            push_field(out, ",", id);
        } else {
            push_number(out, id);
        }
        i += 1;
        assert(out@ =~= before + bufs_text(t));
    }
    assert(bufs@.take(i as int) =~= bufs@);
}

/// Parameters of a node that the flags ask for.
pub open spec fn params_text(step: StepView, flags: u32) -> Seq<char> {
    match step.kind {
        GpuOpView::Kernel { cooperative, reads, writes, .. } => {
            let params = if flags & GraphDebugDotFlags::KERNEL_NODE_PARAMS != 0 {
                " coop="@ + decimal(
                    bit(cooperative) as nat,
                ) + " r="@ + bufs_text(reads) + " w="@ + bufs_text(writes)
            } else {
                Seq::empty()
            };
            let attrs = if flags & GraphDebugDotFlags::KERNEL_NODE_ATTRIBUTES != 0 && step.attrs.priority != 0 {
                " pri="@ + signed_decimal(step.attrs.priority as int)
            } else {
                Seq::empty()
            };
            params + attrs
        },
        GpuOpView::Memcpy(op) => if flags & GraphDebugDotFlags::MEMCPY_NODE_PARAMS != 0 {
            (
                " bytes="@ + decimal(op.bytes as nat)
            ) + " src="@ + place_text(op.src) + " dst="@ + place_text(op.dst)
        } else {
            Seq::empty()
        },
        GpuOpView::Memset(op) => if flags & GraphDebugDotFlags::MEMSET_NODE_PARAMS != 0 {
            (" bytes="@ + decimal(op.bytes as nat)) + (" id="@ + decimal(op.id.0 as nat))
        } else {
            Seq::empty()
        },
        GpuOpView::HostFunc {
            fn_id,
            user_data,
        } => if flags & GraphDebugDotFlags::HOST_NODE_PARAMS != 0 {
            (" fn="@ + decimal(fn_id as nat)) + (" data="@ + decimal(user_data as nat))
        } else {
            Seq::empty()
        },
        GpuOpView::EventRecord { event, external } => event_text(event, external, flags),
        GpuOpView::EventWait { event, external } => event_text(event, external, flags),
        GpuOpView::Alloc { id, bytes } => if flags & GraphDebugDotFlags::MEM_ALLOC_NODE_PARAMS != 0 {
            (" id="@ + decimal(id.0 as nat)) + (" bytes="@ + decimal(bytes as nat))
        } else {
            Seq::empty()
        },
        GpuOpView::Free { id } => if flags & GraphDebugDotFlags::MEM_FREE_NODE_PARAMS != 0 {
            " id="@ + decimal(id.0 as nat)
        } else {
            Seq::empty()
        },
        GpuOpView::WriteValue { id, .. } => word_text(id, flags),
        GpuOpView::WaitValue { id, .. } => word_text(id, flags),
        GpuOpView::BatchMem { ops } => if flags & GraphDebugDotFlags::BATCH_MEM_OP_NODE_PARAMS != 0 {
            " n="@ + decimal(ops.len())
        } else {
            Seq::empty()
        },
        GpuOpView::If { handle, body } => cond_text(handle, " body="@, body.0 as nat, flags),
        GpuOpView::While { handle, body } => cond_text(handle, " body="@, body.0 as nat, flags),
        GpuOpView::Switch { handle, bodies } => cond_text(handle, " n="@, bodies.len(), flags),
        GpuOpView::SetConditional { handle, value } => cond_text(
            handle,
            " v="@,
            value as nat,
            flags,
        ),
        GpuOpView::ChildGraph { graph } => if flags & GraphDebugDotFlags::HANDLES != 0 {
            " g="@ + decimal(graph.0 as nat)
        } else {
            Seq::empty()
        },
        _ => Seq::empty(),
    }
}

/// Event of a record or wait node.
pub open spec fn event_text(event: EventId, external: bool, flags: u32) -> Seq<char> {
    if flags & GraphDebugDotFlags::EVENT_NODE_PARAMS == 0 {
        Seq::empty()
    } else if external {
        (" ev="@ + decimal(event.0 as nat)) + " ext"@
    } else {
        " ev="@ + decimal(event.0 as nat)
    }
}

/// Word of a write or wait node.
pub open spec fn word_text(id: AllocId, flags: u32) -> Seq<char> {
    if flags & GraphDebugDotFlags::BATCH_MEM_OP_NODE_PARAMS == 0 {
        Seq::empty()
    } else {
        (" id="@ + decimal(id.0 as nat)) + " n=1"@
    }
}

/// Handle of a conditional node and what it selects.
pub open spec fn cond_text(handle: CondId, name: Seq<char>, n: nat, flags: u32) -> Seq<char> {
    if flags & GraphDebugDotFlags::CONDITIONAL_NODE_PARAMS == 0 {
        Seq::empty()
    } else {
        (" h="@ + decimal(handle.0 as nat)) + (name + decimal(n))
    }
}

fn push_event(out: &mut String, event: EventId, external: bool, flags: u32)
    ensures
        final(out)@ == old(out)@ + event_text(event, external, flags),
{
    let ghost before = out@;
    if flags & GraphDebugDotFlags::EVENT_NODE_PARAMS != 0 {
        push_field(out, " ev=", event.0 as u64);
        if external {
            out.append(" ext");
        }
    }
    assert(out@ =~= before + event_text(event, external, flags));
}

fn push_word(out: &mut String, id: AllocId, flags: u32)
    ensures
        final(out)@ == old(out)@ + word_text(id, flags),
{
    let ghost before = out@;
    if flags & GraphDebugDotFlags::BATCH_MEM_OP_NODE_PARAMS != 0 {
        push_field(out, " id=", id.0 as u64);
        out.append(" n=1");
    }
    assert(out@ =~= before + word_text(id, flags));
}

fn push_cond(out: &mut String, handle: CondId, name: &str, n: u64, flags: u32)
    ensures
        final(out)@ == old(out)@ + cond_text(handle, name@, n as nat, flags),
{
    let ghost before = out@;
    if flags & GraphDebugDotFlags::CONDITIONAL_NODE_PARAMS != 0 {
        push_field(out, " h=", handle.0 as u64);
        push_field(out, name, n);
    }
    assert(out@ =~= before + cond_text(handle, name@, n as nat, flags));
}

fn push_priority(out: &mut String, priority: i32)
    ensures
        final(out)@ == old(out)@ + (" pri="@ + signed_decimal(priority as int)),
{
    let ghost before = out@;
    out.append(" pri=");
    if priority < 0 {
        push_field(out, "-", (-(priority as i64)) as u64);
    } else {
        push_number(out, priority as u64);
    }
    assert(out@ =~= before + (" pri="@ + signed_decimal(priority as int)));
}

fn push_kernel(out: &mut String, cooperative: bool, reads: &Vec<KernelBuf>, writes: &Vec<KernelBuf>)
    ensures
        final(out)@ == old(out)@ + (" coop="@ + decimal(bit(cooperative) as nat) + " r="@ + bufs_text(reads@)
            + " w="@ + bufs_text(writes@)),
{
    let ghost before = out@;
    push_field(out, " coop=", bit(cooperative));
    out.append(" r=");
    push_bufs(out, reads);
    out.append(" w=");
    push_bufs(out, writes);
    assert(out@ =~= before + (" coop="@ + decimal(bit(cooperative) as nat) + " r="@ + bufs_text(reads@) + " w="@
        + bufs_text(writes@)));
}

fn push_memcpy(out: &mut String, op: MemcpyOp)
    ensures
        final(out)@ == old(out)@ + ((" bytes="@ + decimal(op.bytes as nat)) + " src="@ + place_text(op.src)
            + " dst="@ + place_text(op.dst)),
{
    let ghost before = out@;
    push_field(out, " bytes=", op.bytes);
    out.append(" src=");
    push_place(out, op.src);
    out.append(" dst=");
    push_place(out, op.dst);
    assert(out@ =~= before + ((" bytes="@ + decimal(op.bytes as nat)) + " src="@ + place_text(op.src) + " dst="@
        + place_text(op.dst)));
}

fn push_params(out: &mut String, step: &GraphStep, flags: u32)
    ensures
        final(out)@ == old(out)@ + params_text(step@, flags),
{
    let ghost before = out@;
    match &step.kind {
        GpuOp::Kernel { cooperative, reads, writes, .. } => {
            if flags & GraphDebugDotFlags::KERNEL_NODE_PARAMS != 0 {
                push_kernel(out, *cooperative, reads, writes);
            }
            if flags & GraphDebugDotFlags::KERNEL_NODE_ATTRIBUTES != 0 && step.attrs.priority != 0 {
                push_priority(out, step.attrs.priority);
            }
        },
        GpuOp::Memcpy(op) => {
            if flags & GraphDebugDotFlags::MEMCPY_NODE_PARAMS != 0 {
                push_memcpy(out, *op);
            }
        },
        GpuOp::Memset(op) => {
            if flags & GraphDebugDotFlags::MEMSET_NODE_PARAMS != 0 {
                push_field(out, " bytes=", op.bytes);
                push_field(out, " id=", op.id.0 as u64);
            }
        },
        GpuOp::HostFunc { fn_id, user_data } => {
            if flags & GraphDebugDotFlags::HOST_NODE_PARAMS != 0 {
                push_field(out, " fn=", *fn_id);
                push_field(out, " data=", *user_data);
            }
        },
        GpuOp::EventRecord { event, external } => push_event(out, *event, *external, flags),
        GpuOp::EventWait { event, external } => push_event(out, *event, *external, flags),
        GpuOp::Alloc { id, bytes } => {
            if flags & GraphDebugDotFlags::MEM_ALLOC_NODE_PARAMS != 0 {
                push_field(out, " id=", id.0 as u64);
                push_field(out, " bytes=", *bytes);
            }
        },
        GpuOp::Free { id } => {
            if flags & GraphDebugDotFlags::MEM_FREE_NODE_PARAMS != 0 {
                push_field(out, " id=", id.0 as u64);
            }
        },
        GpuOp::WriteValue { id, .. } => push_word(out, *id, flags),
        GpuOp::WaitValue { id, .. } => push_word(out, *id, flags),
        GpuOp::BatchMem { ops } => {
            if flags & GraphDebugDotFlags::BATCH_MEM_OP_NODE_PARAMS != 0 {
                push_field(out, " n=", ops.len() as u64);
            }
        },
        GpuOp::If { handle, body } => push_cond(out, *handle, " body=", body.0 as u64, flags),
        GpuOp::While { handle, body } => push_cond(out, *handle, " body=", body.0 as u64, flags),
        GpuOp::Switch { handle, bodies } => push_cond(
            out,
            *handle,
            " n=",
            bodies.len() as u64,
            flags,
        ),
        GpuOp::SetConditional { handle, value } => push_cond(
            out,
            *handle,
            " v=",
            *value as u64,
            flags,
        ),
        GpuOp::ChildGraph { graph } => {
            if flags & GraphDebugDotFlags::HANDLES != 0 {
                push_field(out, " g=", graph.0 as u64);
            }
        },
        _ => {},
    }
    assert(out@ =~= before + params_text(step@, flags));
}

/// Label of a node: its index, its kind and the parameters that the flags ask for.
pub open spec fn label_text(i: nat, step: StepView, flags: u32) -> Seq<char> {
    decimal(i) + " "@ + kind_text(step.kind.node_kind()) + params_text(step, flags)
}

/// Line of a node.
pub open spec fn node_text(i: nat, step: StepView, flags: u32) -> Seq<char> {
    "  n"@ + decimal(i) + " [label=\""@ + label_text(i, step, flags) + "\"];\n"@
}

/// Lines of the first `n` nodes, destroyed ones left out.
pub open spec fn nodes_text(steps: Seq<StepView>, n: nat, flags: u32) -> Seq<char>
    decreases n,
{
    if n == 0 {
        Seq::empty()
    } else {
        let i = (n - 1) as nat;
        let before = nodes_text(steps, i, flags);
        if steps[i as int].destroyed {
            before
        } else {
            before + node_text(i, steps[i as int], flags)
        }
    }
}

/// Line of an edge.
pub open spec fn edge_text(from: nat, to: nat) -> Seq<char> {
    ("  n"@ + decimal(from)) + (" -> n"@ + decimal(to)) + ";\n"@
}

/// Lines of the edges into a node.
pub open spec fn edges_to_text(deps: Seq<usize>, to: nat) -> Seq<char>
    decreases deps.len(),
{
    if deps.len() == 0 {
        Seq::empty()
    } else {
        edges_to_text(deps.drop_last(), to) + edge_text(deps.last() as nat, to)
    }
}

/// Lines of the edges into the first `n` nodes, destroyed ones left out.
pub open spec fn edges_text(steps: Seq<StepView>, n: nat) -> Seq<char>
    decreases n,
{
    if n == 0 {
        Seq::empty()
    } else {
        let i = (n - 1) as nat;
        let before = edges_text(steps, i);
        if steps[i as int].destroyed {
            before
        } else {
            before + edges_to_text(steps[i as int].deps, i)
        }
    }
}

/// First line of the text.
pub open spec fn head_text(graph: GraphId, flags: u32) -> Seq<char> {
    if flags & GraphDebugDotFlags::HANDLES != 0 {
        ("digraph g"@ + decimal(graph.0 as nat)) + " {\n"@
    } else {
        "digraph {\n"@
    }
}

/// Bits of [`GraphDebugDotFlags`].
#[verifier::allow_in_spec]
pub fn known_dot_flags() -> u32
    returns
        (GraphDebugDotFlags::VERBOSE | GraphDebugDotFlags::KERNEL_NODE_PARAMS
            | GraphDebugDotFlags::MEMCPY_NODE_PARAMS | GraphDebugDotFlags::MEMSET_NODE_PARAMS
            | GraphDebugDotFlags::HOST_NODE_PARAMS | GraphDebugDotFlags::EVENT_NODE_PARAMS
            | GraphDebugDotFlags::KERNEL_NODE_ATTRIBUTES | GraphDebugDotFlags::HANDLES
            | GraphDebugDotFlags::MEM_ALLOC_NODE_PARAMS | GraphDebugDotFlags::MEM_FREE_NODE_PARAMS
            | GraphDebugDotFlags::BATCH_MEM_OP_NODE_PARAMS
            | GraphDebugDotFlags::CONDITIONAL_NODE_PARAMS),
{
    GraphDebugDotFlags::VERBOSE | GraphDebugDotFlags::KERNEL_NODE_PARAMS
        | GraphDebugDotFlags::MEMCPY_NODE_PARAMS | GraphDebugDotFlags::MEMSET_NODE_PARAMS
        | GraphDebugDotFlags::HOST_NODE_PARAMS | GraphDebugDotFlags::EVENT_NODE_PARAMS
        | GraphDebugDotFlags::KERNEL_NODE_ATTRIBUTES | GraphDebugDotFlags::HANDLES
        | GraphDebugDotFlags::MEM_ALLOC_NODE_PARAMS | GraphDebugDotFlags::MEM_FREE_NODE_PARAMS
        | GraphDebugDotFlags::BATCH_MEM_OP_NODE_PARAMS
        | GraphDebugDotFlags::CONDITIONAL_NODE_PARAMS
}

/// The parameter classes that the flags ask for; verbose asks for all.
#[verifier::allow_in_spec]
pub fn dumped_flags(flags: u32) -> u32
    returns
        (if flags & GraphDebugDotFlags::VERBOSE != 0 {
            known_dot_flags()
        } else {
            flags
        }),
{
    if flags & GraphDebugDotFlags::VERBOSE != 0 {
        known_dot_flags()
    } else {
        flags
    }
}

impl SimState {
    /// Text form of a definition: a line for each live node, then one for each edge.
    pub open spec fn graph_debug_dot_with_flags(self, graph: GraphId, flags: u32) -> Result<
        Seq<char>,
        SimError,
    > {
        if flags & !known_dot_flags() != 0 {
            Err(invalid("graph debug dot flags"))
        } else {
            match self.graph_ref(graph) {
                Err(e) => Err(e),
                Ok(g) => Ok(
                    head_text(graph, dumped_flags(flags)) + nodes_text(
                        g.steps,
                        g.steps.len(),
                        dumped_flags(flags),
                    ) + edges_text(g.steps, g.steps.len()) + "}\n"@,
                ),
            }
        }
    }
}

fn push_edges_to(out: &mut String, deps: &Vec<usize>, to: usize)
    ensures
        final(out)@ == old(out)@ + edges_to_text(deps@, to as nat),
{
    let ghost before = out@;
    let mut i: usize = 0;
    assert(out@ =~= before + edges_to_text(deps@.take(0), to as nat));
    while i < deps.len()
        invariant
            i <= deps@.len(),
            out@ == before + edges_to_text(deps@.take(i as int), to as nat),
        decreases deps@.len() - i,
    {
        let ghost t = deps@.take(i + 1);
        assert(t.drop_last() =~= deps@.take(i as int));
        push_field(out, "  n", deps[i] as u64);
        push_field(out, " -> n", to as u64);
        out.append(";\n");
        i += 1;
        assert(out@ =~= before + edges_to_text(t, to as nat));
    }
    assert(deps@.take(i as int) =~= deps@);
}

fn push_node(out: &mut String, i: usize, step: &GraphStep, flags: u32)
    ensures
        final(out)@ == old(out)@ + node_text(i as nat, step@, flags),
{
    let ghost before = out@;
    push_field(out, "  n", i as u64);
    out.append(" [label=\"");
    push_number(out, i as u64);
    out.append(" ");
    out.append(kind_name(step.kind.node_kind()));
    push_params(out, step, flags);
    out.append("\"];\n");
    assert(out@ =~= before + node_text(i as nat, step@, flags));
}

fn push_nodes(out: &mut String, steps: &Rows<GraphStep>, flags: u32)
    ensures
        final(out)@ == old(out)@ + nodes_text(steps@, steps@.len(), flags),
{
    let ghost before = out@;
    let mut i: usize = 0;
    assert(out@ =~= before + nodes_text(steps@, 0, flags));
    while i < steps.len()
        invariant
            i <= steps@.len(),
            out@ == before + nodes_text(steps@, i as nat, flags),
        decreases steps@.len() - i,
    {
        let step = steps.at(i);
        if !step.destroyed {
            push_node(out, i, step, flags);
            assert(out@ =~= before + nodes_text(steps@, (i + 1) as nat, flags));
        }
        i += 1;
    }
}

fn push_edges(out: &mut String, steps: &Rows<GraphStep>)
    ensures
        final(out)@ == old(out)@ + edges_text(steps@, steps@.len()),
{
    let ghost before = out@;
    let mut i: usize = 0;
    assert(out@ =~= before + edges_text(steps@, 0));
    while i < steps.len()
        invariant
            i <= steps@.len(),
            out@ == before + edges_text(steps@, i as nat),
        decreases steps@.len() - i,
    {
        let step = steps.at(i);
        if !step.destroyed {
            push_edges_to(out, &step.deps, i);
            assert(out@ =~= before + edges_text(steps@, (i + 1) as nat));
        }
        i += 1;
    }
}

impl Sim {
    /// Text form of a definition: node kinds and edges.
    pub fn graph_debug_dot(&self, graph: GraphId) -> (r: Result<String, SimError>)
        ensures
            ok_view(r) == self@.graph_debug_dot_with_flags(graph, 0),
    {
        self.graph_debug_dot_with_flags(graph, 0)
    }

    /// Text form of a definition with the parameters that the flags ask for.
    pub fn graph_debug_dot_with_flags(
        &self,
        graph: GraphId,
        flags: u32,
    ) -> (r: Result<String, SimError>)
        ensures
            ok_view(r) == self@.graph_debug_dot_with_flags(graph, flags),
    {
        if flags & !known_dot_flags() != 0 {
            return Err(invalid("graph debug dot flags"));
        }
        let g = self.graph_ref(graph)?;
        let dump: u32 = dumped_flags(flags);
        let mut out = String::new();
        if dump & GraphDebugDotFlags::HANDLES != 0 {
            push_field(&mut out, "digraph g", graph.0 as u64);
            out.append(" {\n");
        } else {
            out.append("digraph {\n");
        }
        assert(out@ =~= head_text(graph, dump));
        push_nodes(&mut out, &g.steps, dump);
        push_edges(&mut out, &g.steps);
        out.append("}\n");
        Ok(out)
    }
}

} // verus!
