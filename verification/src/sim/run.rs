//! The event loop: scheduling, virtual time, completion and synchronization.
use vstd::prelude::*;
use crate::error::{invalid, SimError};
use crate::ids::{AllocId, DeviceId, EventId, GraphId, Lane, OpId, PoolId, StreamId};
use crate::list::{
    count_u32, count_u64, Dup, first_where, has_key, lemma_first_at, one, picked, push_new,
    with_new,
};
use crate::num::{max_u64, min_u64, mul_sat};
use crate::ops::{GpuOp, GpuOpView, KernelBuf, MemAttach, SynchronizationPolicy};
use crate::profile::Link;
use crate::sim::{Sim, SimState};
use crate::state::{
    AllocView, Attach, CondPred, Ev, GpuRtView, GraphView, Op, OpView, Running, Share,
};
use crate::table::{drop_value, lists, order_of, without_value};

verus! {

impl SimState {
    pub open spec fn is_graph_alloc_at(self, k: GraphId, id: AllocId) -> bool {
        let o = self.graph_allocs[k];
        o.contains(id)
    }

    /// Whether a graph node owns the allocation.
    pub open spec fn is_graph_alloc(self, id: AllocId) -> bool {
        exists|k: GraphId| self.graph_allocs.contains_key(k) && #[trigger] self.is_graph_alloc_at(k, id)
    }
}

impl Sim {
    /// Whether a graph node owns the allocation.
    pub(crate) fn is_graph_alloc(&self, id: AllocId) -> (r: bool)
        ensures
            r == self@.is_graph_alloc(id),
    {
        let ghost q = order_of(self@.graph_allocs.dom());
        let n: usize = self.graph_allocs.len();
        let mut i: usize = 0;
        while i < n
            invariant
                q == order_of(self@.graph_allocs.dom()),
                lists(q, self@.graph_allocs.dom()),
                n == q.len(),
                i <= n,
                forall|j: int| 0 <= j < i ==> !self@.is_graph_alloc_at(#[trigger] q[j], id),
            decreases n - i,
        {
            let o = self.graph_allocs.val_at(i);
            if has_key(o, id) {
                assert(self@.is_graph_alloc_at(q[i as int], id));
                return true;
            }
            i += 1;
        }
        assert forall|k: GraphId| self@.graph_allocs.contains_key(k) implies !self@.is_graph_alloc_at(k, id) by {
            assert(q.contains(k));
        }
        false
    }
}

impl SimState {
    /// Whether a dependency no longer holds `op` back.
    ///
    /// A finished dependency does not. Nor does a kernel of the same stream past its programmatic
    /// trigger when `op` waits for that, or one whose event has fired when `op` waits for the event.
    pub open spec fn dep_satisfied(self, op: OpView, dep: OpId) -> bool {
        self.op_done(dep) || match self.ops.get(dep) {
            None => false,
            Some(prev) => {
                ||| op.attrs.pdl.wait && prev.attrs.pdl.trigger && prev.device == op.device
                    && prev.stream == op.stream && self.reached(prev.pdl_trigger_ns)
                ||| match op.kind {
                    GpuOpView::EventWait { event, external } => {
                        let root = self.event_root(event);
                        ||| self.programmatic_is(prev.attrs.programmatic_event, root)
                            && prev.attrs.pdl.trigger && self.reached(prev.pdl_trigger_ns)
                        ||| self.completion_is(prev.attrs.launch_completion, root)
                            && prev.start_ns is Some
                    },
                    _ => false,
                }
            },
        }
    }

    /// Whether no dependency holds `op` back.
    pub open spec fn deps_ready(self, op: OpView) -> bool {
        forall|i: int| 0 <= i < op.deps.len() ==> self.dep_satisfied(op, #[trigger] op.deps[i])
    }

    /// Whether an operation is in flight.
    pub open spec fn is_running(self, id: OpId) -> bool {
        exists|i: int| 0 <= i < self.running.len() && (#[trigger] self.running[i]).op == id
    }

    /// Whether an operation is in flight on a link.
    pub open spec fn on_link(self, id: OpId) -> bool {
        exists|i: int|
            0 <= i < self.running.len() && (#[trigger] self.running[i]).op == id
                && self.running[i].share is Link
    }
}

impl Sim {
    fn dep_satisfied(&self, op: &Op, dep: OpId) -> (r: bool)
        ensures
            r == self@.dep_satisfied(op@, dep),
    {
        if self.op_done(dep) {
            return true;
        }
        match self.ops.get(dep) {
            None => false,
            Some(prev) => {
                if op.attrs.pdl.wait && prev.attrs.pdl.trigger && prev.device == op.device
                    && prev.stream == op.stream && self.reached(prev.pdl_trigger_ns) {
                    return true;
                }
                match &op.kind {
                    GpuOp::EventWait { event, external } => {
                        let root = self.event_root(*event);
                        if self.programmatic_is(prev.attrs.programmatic_event, root)
                            && prev.attrs.pdl.trigger && self.reached(prev.pdl_trigger_ns) {
                            return true;
                        }
                        self.completion_is(prev.attrs.launch_completion, root)
                            && prev.start_ns.is_some()
                    },
                    _ => false,
                }
            },
        }
    }

    fn deps_ready(&self, op: &Op) -> (r: bool)
        ensures
            r == self@.deps_ready(op@),
    {
        let mut i: usize = 0;
        while i < op.deps.len()
            invariant
                i <= op@.deps.len(),
                forall|k: int| 0 <= k < i ==> self@.dep_satisfied(op@, #[trigger] op@.deps[k]),
            decreases op@.deps.len() - i,
        {
            if !self.dep_satisfied(op, op.deps[i]) {
                assert(!self@.dep_satisfied(op@, op@.deps[i as int]));
                return false;
            }
            i += 1;
        }
        true
    }

    fn is_running(&self, id: OpId) -> (r: bool)
        ensures
            r == self@.is_running(id),
    {
        let mut i: usize = 0;
        while i < self.running.len()
            invariant
                i <= self@.running.len(),
                forall|k: int| 0 <= k < i ==> (#[trigger] self@.running[k]).op != id,
            decreases self@.running.len() - i,
        {
            if self.running[i].op == id {
                assert(self@.running[i as int].op == id);
                return true;
            }
            i += 1;
        }
        false
    }

    fn on_link(&self, id: OpId) -> (r: bool)
        ensures
            r == self@.on_link(id),
    {
        let mut i: usize = 0;
        while i < self.running.len()
            invariant
                i <= self@.running.len(),
                forall|k: int|
                    0 <= k < i ==> !((#[trigger] self@.running[k]).op == id
                        && self@.running[k].share is Link),
            decreases self@.running.len() - i,
        {
            let r = self.running[i];
            if r.op == id {
                if let Share::Link(_idx) = r.share {
                    assert(self@.running[i as int].op == id);
                    return true;
                }
            }
            i += 1;
        }
        false
    }
}

impl SimState {
    /// Scheduling priority of an operation.
    pub open spec fn priority_of(self, id: OpId) -> i32 {
        match self.ops.get(id) {
            Some(o) => o.attrs.priority,
            None => 0,
        }
    }

    /// Insert an operation behind the last one of at least its priority.
    pub open spec fn put_candidate(self, q: Seq<OpId>, id: OpId) -> Seq<OpId>
        decreases q.len(),
    {
        if q.len() == 0 || self.priority_of(q.last()) >= self.priority_of(id) {
            q.push(id)
        } else {
            self.put_candidate(q.drop_last(), id).push(q.last())
        }
    }

    /// Whether an operation could start now, resources aside.
    pub open spec fn startable(self, id: OpId) -> bool {
        !self.ops[id].done && !self.is_running(id) && self.deps_ready(self.ops[id])
    }

    /// The startable operations among the first `n` ids: by descending priority, then by id.
    pub open spec fn candidates_upto(self, n: int) -> Seq<OpId>
        decreases n,
    {
        if n <= 0 {
            Seq::empty()
        } else {
            let id = order_of(self.ops.dom())[n - 1];
            if self.startable(id) {
                self.put_candidate(self.candidates_upto(n - 1), id)
            } else {
                self.candidates_upto(n - 1)
            }
        }
    }

    /// The startable operations by descending priority, then by id.
    pub open spec fn candidates(self) -> Seq<OpId> {
        self.candidates_upto(order_of(self.ops.dom()).len() as int)
    }
}

impl Sim {
    fn priority_of(&self, id: OpId) -> (r: i32)
        ensures
            r == self@.priority_of(id),
    {
        match self.ops.get(id) {
            Some(o) => o.attrs.priority,
            None => 0,
        }
    }

    fn put_candidate(&self, v: &mut Vec<OpId>, id: OpId)
        ensures
            final(v)@ == self@.put_candidate(old(v)@, id),
    {
        let ghost q = v@;
        let pri: i32 = self.priority_of(id);
        let mut i: usize = v.len();
        assert(q.take(i as int) =~= q);
        assert(self@.put_candidate(q, id) + q.skip(i as int) =~= self@.put_candidate(q, id));
        while i > 0 && self.priority_of(v[i - 1]) < pri
            invariant
                pri == self@.priority_of(id),
                i <= v@.len(),
                v@ == q,
                self@.put_candidate(q, id) == self@.put_candidate(q.take(i as int), id) + q.skip(
                    i as int,
                ),
            decreases i,
        {
            proof {
                let t = q.take(i as int);
                assert(t.drop_last() =~= q.take(i - 1));
                assert(self@.put_candidate(t, id) + q.skip(i as int) =~= self@.put_candidate(
                    q.take(i - 1),
                    id,
                ) + q.skip(i - 1));
            }
            i -= 1;
        }
        v.insert(i, id);
        assert(v@ =~= q.take(i as int).push(id) + q.skip(i as int));
    }

    fn candidates(&self) -> (r: Vec<OpId>)
        ensures
            r@ == self@.candidates(),
    {
        let n: usize = self.ops.len();
        let mut out: Vec<OpId> = Vec::new();
        let mut i: usize = 0;
        while i < n
            invariant
                n == order_of(self@.ops.dom()).len(),
                i <= n,
                out@ == self@.candidates_upto(i as int),
            decreases n - i,
        {
            let id = self.ops.key_at(i);
            let o = self.ops.val_at(i);
            if !o.done && !self.is_running(id) && self.deps_ready(o) {
                self.put_candidate(&mut out, id);
            }
            i += 1;
        }
        out
    }
}

impl SimState {
    /// Effect of [`Sim::note_start`].
    pub open spec fn note_start(self, id: OpId) -> SimState {
        let s = self;
        let fresh = s.is_running(id) && (match s.ops.get(id) {
            Some(o) => o.start_ns.is_none() && !o.cancelled,
            None => false,
        });
        if fresh {
            let now = s.clock;
            match s.ops.get(id) {
                Some(op) => {
                    let op = OpView { start_ns: Some(now), ..op };
                    let s = SimState { ops: s.ops.insert(id, op), ..s };
                    s
                },
                _ => s,
            }
        } else {
            s
        }
    }

    /// Effect of [`Sim::start_each`].
    pub open spec fn start_each(self, ids: Seq<OpId>) -> (SimState, Result<bool, SimError>) {
        let s = self;
        let started = false;
        s.start_each_from(ids, started, 0)
    }

    /// [`Sim::start_each`] from position `i` on.
    pub open spec fn start_each_from(
        self,
        ids: Seq<OpId>,
        started: bool,
        i: int,
    ) -> (SimState, Result<bool, SimError>)
        decreases ids.len() - i,
    {
        let s = self;
        if 0 <= i < ids.len() {
            match s.try_start(ids[i]) {
                (s, Err(e)) => (s, Err(e)),
                (s, Ok(ok)) => {
                    let (s, started) = if ok {
                        let s = s.note_start(ids[i]);
                        let started = true;
                        (s, started)
                    } else {
                        (s, started)
                    };
                    s.start_each_from(ids, started, i + 1)
                },
            }
        } else {
            (s, Ok(started))
        }
    }
}

impl Sim {
    /// Stamp the start of an operation that is now in flight.
    pub(crate) fn note_start(&mut self, id: OpId)
        ensures
            final(self)@ == old(self)@.note_start(id),
    {
        let fresh: bool = self.is_running(id) && match self.ops.get(id) {
            Some(o) => o.start_ns.is_none() && !o.cancelled,
            None => false,
        };
        if fresh {
            let now: u64 = self.clock;
            if let Some(op) = self.ops.get_mut(id) {
                op.start_ns = Some(now);
            }
        }
    }

    /// Try to start each operation of the list. Returns whether any did.
    pub(crate) fn start_each(&mut self, ids: &Vec<OpId>) -> (r: Result<bool, SimError>)
        ensures
            final(self)@ == old(self)@.start_each(ids@).0,
            r == old(self)@.start_each(ids@).1,
    {
        let mut started: bool = false;
        let mut i: usize = 0;
        while i < ids.len()
            invariant
                i <= ids@.len(),
                old(self)@.start_each(ids@) == self@.start_each_from(ids@, started, i as int),
            decreases ids@.len() - i,
        {
            let ok: bool = self.try_start(ids[i])?;
            if ok {
                self.note_start(ids[i]);
                started = true;
            }
            i += 1;
        }
        Ok(started)
    }
}

impl SimState {
    /// Rounds of starting what is ready, until a round starts nothing. `rounds` bounds their
    /// number.
    pub open spec fn schedule_rounds(self, rounds: nat) -> (SimState, Result<(), SimError>)
        decreases rounds,
    {
        match self.start_each(self.candidates()) {
            (s, Err(e)) => (s, Err(e)),
            (s, Ok(started)) => if !started {
                (s, Ok(()))
            } else if rounds == 0 {
                (s, Err(invalid("simulator step limit")))
            } else {
                s.schedule_rounds((rounds - 1) as nat)
            },
        }
    }

    /// Start everything that can start now.
    #[verifier::opaque]
    pub open spec fn schedule(self) -> (SimState, Result<(), SimError>) {
        self.schedule_rounds(u64::MAX as nat)
    }
}

impl Sim {
    /// Start everything that can start now.
    pub(crate) fn schedule(&mut self) -> (r: Result<(), SimError>)
        ensures
            final(self)@ == old(self)@.schedule().0,
            r == old(self)@.schedule().1,
    {
        reveal(SimState::schedule);
        let mut rounds: u64 = u64::MAX;
        loop
            invariant
                old(self)@.schedule() == self@.schedule_rounds(rounds as nat),
            decreases rounds,
        {
            let ids = self.candidates();
            let started: bool = self.start_each(&ids)?;
            if !started {
                return Ok(());
            }
            if rounds == 0 {
                return Err(invalid("simulator step limit"));
            }
            rounds -= 1;
        }
    }
}

impl SimState {
    /// Effect of [`Sim::start_ready`].
    pub open spec fn start_ready(self) -> (SimState, Result<(), SimError>) {
        let s = self;
        s.schedule()
    }

    /// Whether position `i` counts for [`Sim::link_load`].
    pub open spec fn link_load_at(self, link: usize, i: int) -> bool {
        self.running[i].share == Share::Link(link)
    }

    /// Value of [`Sim::link_load`].
    pub open spec fn link_load(self, link: usize) -> u64 {
        count_u64(self.running.len(), |i: int| self.link_load_at(link, i))
    }

    /// Value of [`Sim::share_n`].
    pub open spec fn share_n(self, share: Share) -> u64 {
        match share {
            Share::Solo => 1,
            Share::Link(idx) => max_u64(self.link_load(idx), 1),
        }
    }

    /// Value of [`Sim::next_pdl_wake`].
    pub open spec fn next_pdl_wake(self) -> Option<u64> {
        let soonest = None;
        self.next_pdl_wake_from(soonest, 0)
    }

    /// [`Sim::next_pdl_wake`] from position `i` on.
    pub open spec fn next_pdl_wake_from(self, soonest: Option<u64>, i: int) -> Option<u64>
        decreases order_of(self.ops.dom()).len() - i,
    {
        if 0 <= i < order_of(self.ops.dom()).len() {
            let o = self.ops[order_of(self.ops.dom())[i]];
            let soonest = if !o.done && !o.cancelled {
                let soonest = match o.pdl_trigger_ns {
                    Some(t) => {
                        let soonest = if t > self.clock {
                            let soonest = (match soonest {
                                Some(x) => Some(min_u64(x, t)),
                                None => Some(t),
                            });
                            soonest
                        } else {
                            soonest
                        };
                        soonest
                    },
                    _ => soonest,
                };
                soonest
            } else {
                soonest
            };
            self.next_pdl_wake_from(soonest, i + 1)
        } else {
            soonest
        }
    }

    /// Value of [`Sim::next_completion_dt`].
    pub open spec fn next_completion_dt(self) -> u64 {
        let dt = u64::MAX;
        self.next_completion_dt_from(dt, 0)
    }

    /// [`Sim::next_completion_dt`] from position `i` on.
    pub open spec fn next_completion_dt_from(self, dt: u64, i: int) -> u64
        decreases self.running.len() - i,
    {
        if 0 <= i < self.running.len() {
            let r = self.running[i];
            let dt = min_u64(dt, mul_sat(r.remaining_ns, self.share_n(r.share)));
            self.next_completion_dt_from(dt, i + 1)
        } else {
            dt
        }
    }

    /// Value of [`Sim::next_dt`].
    pub open spec fn next_dt(self) -> u64 {
        let run = self.next_completion_dt();
        let dt = (match self.next_pdl_wake() {
            Some(wake) => min_u64(run, wake.saturating_sub(self.clock)),
            None => run,
        });
        if dt == 0 || dt == u64::MAX {
            1
        } else {
            dt
        }
    }
}

impl Sim {
    /// Start every ready operation without advancing the clock.
    pub fn start_ready(&mut self) -> (r: Result<(), SimError>)
        ensures
            final(self)@ == old(self)@.start_ready().0,
            r == old(self)@.start_ready().1,
    {
        self.schedule()
    }

    /// Operations in flight on one link.
    pub(crate) fn link_load(&self, link: usize) -> (r: u64)
        ensures
            r == self@.link_load(link),
    {
        let mut n: u64 = 0;
        let mut i: usize = 0;
        while i < self.running.len()
            invariant
                i <= self@.running.len(),
                n == count_u64(i as nat, |j: int| self@.link_load_at(link, j)),
            decreases self@.running.len() - i,
        {
            if self.running[i].share == Share::Link(link) {
                n = n.saturating_add(1);
            }
            i += 1;
        }
        n
    }

    /// Number of operations that share the bandwidth, at least one.
    pub(crate) fn share_n(&self, share: Share) -> (r: u64)
        ensures
            r == self@.share_n(share),
    {
        match share {
            Share::Solo => 1,
            Share::Link(idx) => max_u64(self.link_load(idx), 1),
        }
    }

    /// Next programmatic trigger after now, of an unfinished operation.
    pub(crate) fn next_pdl_wake(&self) -> (r: Option<u64>)
        ensures
            r == self@.next_pdl_wake(),
    {
        let mut soonest: Option<u64> = None;
        let mut i: usize = 0;
        while i < self.ops.len()
            invariant
                i <= order_of(self@.ops.dom()).len(),
                self@.next_pdl_wake() == self@.next_pdl_wake_from(soonest, i as int),
            decreases order_of(self@.ops.dom()).len() - i,
        {
            let o = self.ops.val_at(i);
            if !o.done && !o.cancelled {
                if let Some(t) = o.pdl_trigger_ns {
                    if t > self.clock {
                        soonest = match soonest {
                            Some(x) => Some(min_u64(x, t)),
                            None => Some(t),
                        };
                    }
                }
            }
            i += 1;
        }
        soonest
    }

    /// Time until the first operation in flight completes.
    pub(crate) fn next_completion_dt(&self) -> (r: u64)
        ensures
            r == self@.next_completion_dt(),
    {
        let mut dt: u64 = u64::MAX;
        let mut i: usize = 0;
        while i < self.running.len()
            invariant
                i <= self@.running.len(),
                self@.next_completion_dt() == self@.next_completion_dt_from(dt, i as int),
            decreases self@.running.len() - i,
        {
            let r = self.running[i];
            dt = min_u64(dt, mul_sat(r.remaining_ns, self.share_n(r.share)));
            i += 1;
        }
        dt
    }

    /// Time to the next completion or trigger, at least one.
    pub(crate) fn next_dt(&self) -> (r: u64)
        ensures
            r == self@.next_dt(),
    {
        let run: u64 = self.next_completion_dt();
        let dt: u64 = match self.next_pdl_wake() {
            Some(wake) => min_u64(run, wake.saturating_sub(self.clock)),
            None => run,
        };
        if dt == 0 || dt == u64::MAX {
            1
        } else {
            dt
        }
    }
}

impl SimState {
    /// An operation in flight after `dt` nanoseconds: shared bandwidth is split evenly.
    pub open spec fn drained(self, r: Running, dt: u64) -> Running {
        Running { remaining_ns: r.remaining_ns.saturating_sub(dt / self.share_n(r.share)), ..r }
    }

    /// Let `dt` nanoseconds pass for everything in flight.
    pub open spec fn drain(self, dt: u64) -> SimState {
        SimState {
            clock: self.clock.saturating_add(dt),
            running: self.running.map_values(|r: Running| self.drained(r, dt)),
            ..self
        }
    }

    /// Operations in flight with nothing left, in order.
    pub open spec fn finished_upto(self, n: int) -> Seq<OpId>
        decreases n,
    {
        if n <= 0 {
            Seq::empty()
        } else if self.running[n - 1].remaining_ns == 0 {
            self.finished_upto(n - 1).push(self.running[n - 1].op)
        } else {
            self.finished_upto(n - 1)
        }
    }

    /// Operations in flight with nothing left, in order.
    pub open spec fn finished(self) -> Seq<OpId> {
        self.finished_upto(self.running.len() as int)
    }
}

proof fn lemma_share_positive(s: SimState, share: Share)
    ensures
        s.share_n(share) >= 1,
{
}

impl Sim {
    fn drain(&mut self, dt: u64)
        ensures
            final(self)@ == old(self)@.drain(dt),
    {
        let ghost s0 = self@;
        let mut out: Vec<Running> = Vec::new();
        let mut i: usize = 0;
        while i < self.running.len()
            invariant
                self@ == s0,
                i <= s0.running.len(),
                out@.len() == i,
                forall|k: int| 0 <= k < i ==> #[trigger] out@[k] == s0.drained(s0.running[k], dt),
            decreases s0.running.len() - i,
        {
            let r = self.running[i];
            let n: u64 = self.share_n(r.share);
            proof {
                lemma_share_positive(s0, r.share);
            }
            out.push(
                Running {
                    op: r.op,
                    remaining_ns: r.remaining_ns.saturating_sub(dt / n),
                    share: r.share,
                },
            );
            i += 1;
        }
        assert(out@ =~= s0.running.map_values(|r: Running| s0.drained(r, dt)));
        self.running = out;
        self.clock = self.clock.saturating_add(dt);
    }

    fn finished(&self) -> (r: Vec<OpId>)
        ensures
            r@ == self@.finished(),
    {
        let mut out: Vec<OpId> = Vec::new();
        let mut i: usize = 0;
        while i < self.running.len()
            invariant
                i <= self@.running.len(),
                out@ == self@.finished_upto(i as int),
            decreases self@.running.len() - i,
        {
            if self.running[i].remaining_ns == 0 {
                out.push(self.running[i].op);
            }
            i += 1;
        }
        out
    }
}

impl SimState {
    /// The runs of other operations.
    pub open spec fn runs_apart(q: Seq<Running>, id: OpId) -> Seq<Running>
        decreases q.len(),
    {
        if q.len() == 0 {
            q
        } else if q.last().op == id {
            SimState::runs_apart(q.drop_last(), id)
        } else {
            SimState::runs_apart(q.drop_last(), id).push(q.last())
        }
    }

    /// Take an operation out of flight.
    pub open spec fn drop_running(self, id: OpId) -> SimState {
        SimState { running: SimState::runs_apart(self.running, id), ..self }
    }
}

impl Sim {
    fn drop_running(&mut self, id: OpId)
        ensures
            final(self)@ == old(self)@.drop_running(id),
    {
        let ghost q = self.running@;
        let mut out: Vec<Running> = Vec::new();
        let mut i: usize = 0;
        while i < self.running.len()
            invariant
                self@ == old(self)@,
                q == self.running@,
                q == self@.running,
                i <= q.len(),
                out@ == SimState::runs_apart(q.take(i as int), id),
            decreases q.len() - i,
        {
            if self.running[i].op != id {
                out.push(self.running[i]);
            }
            i += 1;
            assert(q.take(i as int).drop_last() =~= q.take(i - 1));
        }
        assert(q.take(i as int) =~= q);
        self.running = out;
    }
}

impl SimState {
    /// Value of [`Sim::domain_leftover`].
    pub open spec fn domain_leftover(self, id: OpId, device: DeviceId, phys: u8) -> u64 {
        let leftover = 0;
        self.domain_leftover_from(id, device, phys, leftover, 0)
    }

    /// [`Sim::domain_leftover`] from position `i` on.
    pub open spec fn domain_leftover_from(
        self,
        id: OpId,
        device: DeviceId,
        phys: u8,
        leftover: u64,
        i: int,
    ) -> u64
        decreases self.running.len() - i,
    {
        if 0 <= i < self.running.len() {
            let r = self.running[i];
            let leftover = if r.op != id && r.remaining_ns != 0 {
                let leftover = match self.ops.get(r.op) {
                    Some(other) => {
                        let leftover = if other.device == device && other.kind.mem_sync_kind() && other.attrs.mem_sync_physical == phys {
                            let leftover = max_u64(leftover, r.remaining_ns);
                            leftover
                        } else {
                            leftover
                        };
                        leftover
                    },
                    _ => leftover,
                };
                leftover
            } else {
                leftover
            };
            self.domain_leftover_from(id, device, phys, leftover, i + 1)
        } else {
            leftover
        }
    }

    /// Value of [`Sim::same_domain_fence_extra`].
    pub open spec fn same_domain_fence_extra(self, id: OpId) -> u64 {
        match self.ops.get(id) {
            None => 0,
            Some(op) => if op.domain_fence_paid || !op.kind.mem_sync_kind() {
                0
            } else {
                match self.profile.gpu(op.device) {
                    Err(_e) => 0,
                    Ok(g) => {
                        let tax = g.same_domain_fence_permille as u64;
                        mul_sat(
                            self.domain_leftover(id, op.device, op.attrs.mem_sync_physical),
                            tax,
                        ) / 1000
                    },
                }
            },
        }
    }

    /// Whether [`Sim::running_index`] finds something at position `i`.
    pub open spec fn running_index_at(self, id: OpId, i: int) -> bool {
        self.running[i].op == id
    }

    /// Value of [`Sim::running_index`].
    pub open spec fn running_index(self, id: OpId) -> Option<usize> {
        match first_where(self.running.len(), |i: int| self.running_index_at(id, i)) {
            Some(i) => Some(i as usize),
            None => None,
        }
    }

    /// Effect of [`Sim::pay_fence`].
    #[verifier::opaque]
    pub open spec fn pay_fence(self, id: OpId, extra: u64) -> SimState {
        let s = self;
        let s = match s.running_index(id) {
            Some(k) => {
                let s = if k < s.running.len() {
                    let r = s.running[k as int];
                    let s = SimState {
                        running: s.running.update(
                            k as int,
                            Running { op: r.op, remaining_ns: extra, share: r.share },
                        ),
                        ..s
                    };
                    s
                } else {
                    s
                };
                s
            },
            _ => s,
        };
        match s.ops.get(id) {
            Some(op) => {
                let op = OpView { domain_fence_paid: true, ..op };
                let s = SimState { ops: s.ops.insert(id, op), ..s };
                s
            },
            _ => s,
        }
    }

    /// Effect of [`Sim::fence_each`].
    pub open spec fn fence_each(self, ids: Seq<OpId>) -> SimState {
        let s = self;
        s.fence_each_from(ids, 0)
    }

    /// [`Sim::fence_each`] from position `i` on.
    pub open spec fn fence_each_from(self, ids: Seq<OpId>, i: int) -> SimState
        decreases ids.len() - i,
    {
        let s = self;
        if 0 <= i < ids.len() {
            let extra = s.same_domain_fence_extra(ids[i]);
            let s = if extra != 0 {
                let s = s.pay_fence(ids[i], extra);
                s
            } else {
                s
            };
            s.fence_each_from(ids, i + 1)
        } else {
            s
        }
    }

    /// Effect of [`Sim::apply_domain_fences`].
    pub open spec fn apply_domain_fences(self) -> SimState {
        let s = self;
        let ids = s.finished();
        let s = s.fence_each(ids);
        s
    }

    /// Value of [`Sim::graph_mem_used_reserved`].
    pub open spec fn graph_mem_used_reserved(
        self,
        device: DeviceId,
    ) -> Result<(u64, u64), SimError> {
        match self.graph_pool(device) {
            Err(e) => Err(e),
            Ok(pool) => match self.pool_ref(pool) {
                Err(e) => Err(e),
                Ok(p) => Ok((p.live, p.live.saturating_add(p.cached))),
            },
        }
    }

    /// Value of [`Sim::graph_pool`].
    pub open spec fn graph_pool(self, device: DeviceId) -> Result<PoolId, SimError> {
        match self.profile.gpu(device) {
            Err(e) => Err(e),
            Ok(_gpu) => match self.graph_pools.get(device) {
                Some(p) => Ok(p),
                None => Err(invalid("graph mem pool missing")),
            },
        }
    }

    /// Effect of [`Sim::bump_graph_mem_high`].
    pub open spec fn bump_graph_mem_high(
        self,
        device: DeviceId,
    ) -> (SimState, Result<(), SimError>) {
        let s = self;
        match s.graph_mem_used_reserved(device) {
            Err(e) => (s, Err(e)),
            Ok((used, reserved)) => match s.gpu_rt(device) {
                Err(e) => (s, Err(e)),
                Ok(rt) => {
                    let rt = GpuRtView {
                        graph_used_high: max_u64(rt.graph_used_high, used),
                        graph_reserved_high: max_u64(rt.graph_reserved_high, reserved),
                        ..rt
                    };
                    let s = SimState { gpus: s.gpus.insert(device, rt), ..s };
                    (s, Ok(()))
                },
            },
        }
    }

    /// Effect of [`Sim::bump_graph_mem_from_op`].
    pub open spec fn bump_graph_mem_from_op(
        self,
        device: DeviceId,
        kind: GpuOpView,
    ) -> (SimState, Result<(), SimError>) {
        let s = self;
        let alloc = (match kind {
            GpuOpView::Alloc { id, bytes } => Some(id),
            GpuOpView::Free { id } => Some(id),
            _ => None,
        });
        match alloc {
            Some(id) => if s.is_graph_alloc(id) {
                s.bump_graph_mem_high(device)
            } else {
                (s, Ok(()))
            },
            None => (s, Ok(())),
        }
    }

    /// Effect of [`Sim::unlease`].
    pub open spec fn unlease(self, id: AllocId) -> (SimState, Result<(), SimError>) {
        let s = self;
        match s.alloc_ref(id) {
            Err(e) => (s, Err(e)),
            Ok(a) => {
                let a = AllocView { leases: a.leases.saturating_sub(1), ..a };
                let s = SimState { allocs: s.allocs.insert(id, a), ..s };
                (s, Ok(()))
            },
        }
    }

    /// Effect of [`Sim::unlease_bufs`].
    pub open spec fn unlease_bufs(self, bufs: Seq<KernelBuf>) -> (SimState, Result<(), SimError>) {
        let s = self;
        s.unlease_bufs_from(bufs, 0)
    }

    /// [`Sim::unlease_bufs`] from position `i` on.
    pub open spec fn unlease_bufs_from(
        self,
        bufs: Seq<KernelBuf>,
        i: int,
    ) -> (SimState, Result<(), SimError>)
        decreases bufs.len() - i,
    {
        let s = self;
        if 0 <= i < bufs.len() {
            match s.unlease(bufs[i].id) {
                (s, Err(e)) => (s, Err(e)),
                (s, Ok(_v)) => s.unlease_bufs_from(bufs, i + 1),
            }
        } else {
            (s, Ok(()))
        }
    }

    /// Effect of [`Sim::unlease_parts`].
    pub open spec fn unlease_parts(
        self,
        parts: Seq<(DeviceId, AllocId)>,
    ) -> (SimState, Result<(), SimError>) {
        let s = self;
        s.unlease_parts_from(parts, 0)
    }

    /// [`Sim::unlease_parts`] from position `i` on.
    pub open spec fn unlease_parts_from(
        self,
        parts: Seq<(DeviceId, AllocId)>,
        i: int,
    ) -> (SimState, Result<(), SimError>)
        decreases parts.len() - i,
    {
        let s = self;
        if 0 <= i < parts.len() {
            match s.unlease(parts[i].1) {
                (s, Err(e)) => (s, Err(e)),
                (s, Ok(_v)) => s.unlease_parts_from(parts, i + 1),
            }
        } else {
            (s, Ok(()))
        }
    }

    /// Effect of [`Sim::apply_mailbox_writes`].
    pub open spec fn apply_mailbox_writes(
        self,
        writes: Seq<(AllocId, u64, u64, bool)>,
    ) -> SimState {
        let s = self;
        s.apply_mailbox_writes_from(writes, 0)
    }

    /// [`Sim::apply_mailbox_writes`] from position `i` on.
    pub open spec fn apply_mailbox_writes_from(
        self,
        writes: Seq<(AllocId, u64, u64, bool)>,
        i: int,
    ) -> SimState
        decreases writes.len() - i,
    {
        let s = self;
        if 0 <= i < writes.len() {
            let (id, offset, value, bits32) = writes[i];
            let s = s.apply_mailbox_write(id, offset, value, bits32);
            s.apply_mailbox_writes_from(writes, i + 1)
        } else {
            s
        }
    }

    /// Effect of [`Sim::finish_kernel`].
    #[verifier::opaque]
    pub open spec fn finish_kernel(
        self,
        id: OpId,
        device: DeviceId,
        reads: Seq<KernelBuf>,
        writes: Seq<KernelBuf>,
    ) -> (SimState, Result<(), SimError>) {
        let s = self;
        let moved = s.multicast_write_bytes(writes);
        match s.slots_of(id) {
            Err(e) => (s, Err(e)),
            Ok(slots) => match s.drop_compute_n(device, slots) {
                (s, Err(e)) => (s, Err(e)),
                (s, Ok(_v)) => match s.unlease_bufs(reads) {
                    (s, Err(e)) => (s, Err(e)),
                    (s, Ok(_v)) => match s.unlease_bufs(writes) {
                        (s, Err(e)) => (s, Err(e)),
                        (s, Ok(_v)) => {
                            let s = SimState {
                                bytes_moved: s.bytes_moved.saturating_add(moved),
                                ..s
                            };
                            (s, Ok(()))
                        },
                    },
                },
            },
        }
    }

    /// Effect of [`Sim::finish_alloc`].
    #[verifier::opaque]
    pub open spec fn finish_alloc(
        self,
        alloc: AllocId,
        device: DeviceId,
    ) -> (SimState, Result<(), SimError>) {
        let s = self;
        match s.alloc_ref(alloc) {
            Err(e) => (s, Err(e)),
            Ok(a) => {
                let a = AllocView { live: true, ..a };
                let a = AllocView { devices: with_new(a.devices, device), ..a };
                let s = SimState { allocs: s.allocs.insert(alloc, a), ..s };
                (s, Ok(()))
            },
        }
    }

    /// Effect of [`Sim::finish_memset`].
    #[verifier::opaque]
    pub open spec fn finish_memset(
        self,
        device: DeviceId,
        id: AllocId,
    ) -> (SimState, Result<(), SimError>) {
        let s = self;
        match s.drop_compute(device) {
            (s, Err(e)) => (s, Err(e)),
            (s, Ok(_v)) => s.unlease(id),
        }
    }

    /// Effect of [`Sim::finish_allreduce`].
    #[verifier::opaque]
    pub open spec fn finish_allreduce(
        self,
        device: DeviceId,
        parts: Seq<(DeviceId, AllocId)>,
    ) -> (SimState, Result<(), SimError>) {
        let s = self;
        match s.drop_compute(device) {
            (s, Err(e)) => (s, Err(e)),
            (s, Ok(_v)) => s.unlease_parts(parts),
        }
    }

    /// Effect of [`Sim::finish_attach`].
    #[verifier::opaque]
    pub open spec fn finish_attach(
        self,
        alloc: AllocId,
        flags: MemAttach,
        stream: StreamId,
    ) -> (SimState, Result<(), SimError>) {
        let s = self;
        match s.alloc_ref(alloc) {
            Err(e) => (s, Err(e)),
            Ok(a) => {
                let s = SimState {
                    allocs: s.allocs.insert(
                        alloc,
                        AllocView { attach: attach_state(flags, stream), ..a },
                    ),
                    ..s
                };
                (s, Ok(()))
            },
        }
    }

    /// Effect of [`Sim::finish_kind`].
    #[verifier::opaque]
    pub open spec fn finish_kind(
        self,
        id: OpId,
        device: DeviceId,
        stream: StreamId,
        dma: bool,
        kind: GpuOpView,
    ) -> (SimState, Result<(), SimError>) {
        let s = self;
        match kind {
            GpuOpView::Alloc { id: alloc, bytes } => s.finish_alloc(alloc, device),
            GpuOpView::Kernel {
                kind: k,
                reads,
                writes,
                cooperative,
            } => s.finish_kernel(id, device, reads, writes),
            GpuOpView::Memset(op) => s.finish_memset(device, op.id),
            GpuOpView::AllReduce { parts, bytes } => s.finish_allreduce(device, parts),
            GpuOpView::DeviceLaunch { graph } => s.drop_compute(device),
            GpuOpView::Memcpy(m) => s.finish_memcpy(device, m, dma),
            GpuOpView::Attach { id: alloc, flags } => s.finish_attach(alloc, flags, stream),
            _ => {
                let writes = kind.mailbox_writes();
                let s = s.apply_mailbox_writes(writes);
                (s, Ok(()))
            },
        }
    }

    /// Effect of [`Sim::finish_op`].
    pub open spec fn finish_op(self, id: OpId) -> SimState {
        let s = self;
        let now = s.clock;
        match s.ops.get(id) {
            Some(op) => {
                let op = OpView { done: true, done_ns: Some(now), ..op };
                let s = SimState { ops: s.ops.insert(id, op), ..s };
                s
            },
            _ => s,
        }
    }

    /// Effect of [`Sim::finish_device_launch`].
    #[verifier::opaque]
    pub open spec fn finish_device_launch(
        self,
        id: OpId,
        device: DeviceId,
        stream: StreamId,
        kind: GpuOpView,
    ) -> (SimState, Result<(), SimError>) {
        let s = self;
        match kind {
            GpuOpView::DeviceLaunch { graph } => {
                let s = s.reset_graph_tree_conds(graph);
                let wait = seq![id];
                match s.enqueue_root(graph, stream, false, wait) {
                    (s, Err(e)) => (s, Err(e)),
                    (s, Ok(n)) => {
                        let last = s.tail_of(Lane(device, stream));
                        let tail = if n == 0 {
                            id
                        } else {
                            (match last { Some(x) => x, None => id })
                        };
                        match s.graph_ref(graph) {
                            Err(e) => (s, Err(e)),
                            Ok(g) => {
                                let s = SimState {
                                    graphs: s.graphs.insert(
                                        graph,
                                        GraphView { device_launch_tail: Some(tail), ..g },
                                    ),
                                    ..s
                                };
                                (s, Ok(()))
                            },
                        }
                    },
                }
            },
            _ => (s, Ok(())),
        }
    }

    /// Effect of [`Sim::continue_while`].
    #[verifier::opaque]
    pub open spec fn continue_while(
        self,
        id: OpId,
        device: DeviceId,
        stream: StreamId,
        kind: GpuOpView,
    ) -> (SimState, Result<(), SimError>) {
        let s = self;
        match kind {
            GpuOpView::WhileTick { handle, body, iter } => match s.conds.get(handle) {
                Some(c) => {
                    let value = c.value;
                    if value == 0 {
                        (s, Ok(()))
                    } else if iter >= 64 {
                        (s, Err(invalid("while iteration cap")))
                    } else {
                        let wait = seq![id];
                        let none = Seq::empty();
                        let fuel = s.tree_fuel();
                        match s.enqueue_pred_graph(
                            CondPred::Nonzero(handle),
                            body,
                            stream,
                            false,
                            none,
                            wait,
                            fuel,
                        ) {
                            (s, Err(e)) => (s, Err(e)),
                            (s, Ok(_n)) => match s.submit_tick(
                                device,
                                stream,
                                handle,
                                body,
                                iter.saturating_add(1),
                                wait,
                            ) {
                                (s, Err(e)) => (s, Err(e)),
                                (s, Ok(_tick)) => (s, Ok(())),
                            },
                        }
                    }
                },
                None => (s, Err(invalid("unknown conditional"))),
            },
            _ => (s, Ok(())),
        }
    }

    /// Effect of [`Sim::complete`].
    #[verifier::opaque]
    pub open spec fn complete(self, id: OpId) -> (SimState, Result<(), SimError>) {
        let s = self;
        let dma = s.on_link(id);
        let s = s.drop_running(id);
        match (
            match s.ops.get(id) { Some(x) => Ok(x), None => Err(invalid("complete unknown op")) }
        ) {
            Err(e) => (s, Err(e)),
            Ok(op) => {
                let device = op.device;
                let stream = op.stream;
                let kind = op.kind;
                if op.skipped {
                    let s = s.finish_op(id);
                    (s, Ok(()))
                } else {
                    match s.finish_kind(id, device, stream, dma, kind) {
                        (s, Err(e)) => (s, Err(e)),
                        (s, Ok(_v)) => {
                            let s = s.finish_op(id);
                            match s.bump_graph_mem_from_op(device, kind) {
                                (s, Err(e)) => (s, Err(e)),
                                (s, Ok(_v)) => match s.finish_device_launch(
                                    id,
                                    device,
                                    stream,
                                    kind,
                                ) {
                                    (s, Err(e)) => (s, Err(e)),
                                    (s, Ok(_v)) => s.continue_while(id, device, stream, kind),
                                },
                            }
                        },
                    }
                }
            },
        }
    }

    /// Effect of [`Sim::complete_each`].
    pub open spec fn complete_each(self, ids: Seq<OpId>) -> (SimState, Result<(), SimError>) {
        let s = self;
        s.complete_each_from(ids, 0)
    }

    /// [`Sim::complete_each`] from position `i` on.
    pub open spec fn complete_each_from(
        self,
        ids: Seq<OpId>,
        i: int,
    ) -> (SimState, Result<(), SimError>)
        decreases ids.len() - i,
    {
        let s = self;
        if 0 <= i < ids.len() {
            match s.complete(ids[i]) {
                (s, Err(e)) => (s, Err(e)),
                (s, Ok(_v)) => s.complete_each_from(ids, i + 1),
            }
        } else {
            (s, Ok(()))
        }
    }

    /// Effect of [`Sim::advance_to_next_completion`].
    #[verifier::opaque]
    pub open spec fn advance_to_next_completion(self) -> (SimState, Result<(), SimError>) {
        let s = self;
        if s.running.len() == 0 {
            (s, Ok(()))
        } else {
            let dt = s.next_dt();
            let s = s.drain(dt);
            let s = s.apply_domain_fences();
            let ids = s.finished();
            s.complete_each(ids)
        }
    }
}

impl Sim {
    /// Longest remaining same-domain work next to an operation on its device.
    pub(crate) fn domain_leftover(&self, id: OpId, device: DeviceId, phys: u8) -> (r: u64)
        ensures
            r == self@.domain_leftover(id, device, phys),
    {
        let mut leftover: u64 = 0;
        let mut i: usize = 0;
        while i < self.running.len()
            invariant
                i <= self@.running.len(),
                self@.domain_leftover(id, device, phys) == self@.domain_leftover_from(
                    id,
                    device,
                    phys,
                    leftover,
                    i as int,
                ),
            decreases self@.running.len() - i,
        {
            let r = self.running[i];
            if r.op != id && r.remaining_ns != 0 {
                if let Some(other) = self.ops.get(r.op) {
                    if other.device == device && other.kind.mem_sync_kind()
                        && other.attrs.mem_sync_physical == phys {
                        leftover = max_u64(leftover, r.remaining_ns);
                    }
                }
            }
            i += 1;
        }
        leftover
    }

    /// Time that the completion fence of an operation adds, once, for leftover same-domain work.
    pub(crate) fn same_domain_fence_extra(&self, id: OpId) -> (r: u64)
        ensures
            r == self@.same_domain_fence_extra(id),
    {
        match self.ops.get(id) {
            None => 0,
            Some(op) => {
                if op.domain_fence_paid || !op.kind.mem_sync_kind() {
                    return 0;
                }
                match self.profile.gpu(op.device) {
                    Err(_e) => 0,
                    Ok(g) => {
                        let tax: u64 = g.same_domain_fence_permille as u64;
                        mul_sat(
                            self.domain_leftover(id, op.device, op.attrs.mem_sync_physical),
                            tax,
                        ) / 1000
                    },
                }
            },
        }
    }

    /// Position of the first run of an operation.
    pub(crate) fn running_index(&self, id: OpId) -> (r: Option<usize>)
        ensures
            r == self@.running_index(id),
    {
        let mut i: usize = 0;
        while i < self.running.len()
            invariant
                i <= self@.running.len(),
                forall|j: int| 0 <= j < i ==> !#[trigger] self@.running_index_at(id, j),
            decreases self@.running.len() - i,
        {
            if self.running[i].op == id {
                proof {
                    lemma_first_at(
                        self@.running.len(),
                        |j: int| self@.running_index_at(id, j),
                        i as int,
                    );
                }
                return Some(i);
            }
            i += 1;
        }
        None
    }

    /// Keep an operation in flight for the fence.
    pub(crate) fn pay_fence(&mut self, id: OpId, extra: u64)
        ensures
            final(self)@ == old(self)@.pay_fence(id, extra),
    {
        reveal(SimState::pay_fence);
        if let Some(k) = self.running_index(id) {
            if k < self.running.len() {
                let r = self.running[k];
                self.running.set(k, Running { op: r.op, remaining_ns: extra, share: r.share });
            }
        }
        if let Some(op) = self.ops.get_mut(id) {
            op.domain_fence_paid = true;
        }
    }

    /// Fences of the operations that are about to complete.
    pub(crate) fn fence_each(&mut self, ids: &Vec<OpId>)
        ensures
            final(self)@ == old(self)@.fence_each(ids@),
    {
        let mut i: usize = 0;
        while i < ids.len()
            invariant
                i <= ids@.len(),
                old(self)@.fence_each(ids@) == self@.fence_each_from(ids@, i as int),
            decreases ids@.len() - i,
        {
            let extra: u64 = self.same_domain_fence_extra(ids[i]);
            if extra != 0 {
                self.pay_fence(ids[i], extra);
            }
            i += 1;
        }
    }

    pub(crate) fn apply_domain_fences(&mut self)
        ensures
            final(self)@ == old(self)@.apply_domain_fences(),
    {
        let ids: Vec<OpId> = self.finished();
        self.fence_each(&ids);
    }

    pub(crate) fn graph_mem_used_reserved(
        &self,
        device: DeviceId,
    ) -> (r: Result<(u64, u64), SimError>)
        ensures
            r == self@.graph_mem_used_reserved(device),
    {
        let pool = self.graph_pool(device)?;
        let p = self.pool_ref(pool)?;
        Ok((p.live, p.live.saturating_add(p.cached)))
    }

    /// Device graph-memory pool. User pool calls refuse it.
    pub fn graph_pool(&self, device: DeviceId) -> (r: Result<PoolId, SimError>)
        ensures
            r == self@.graph_pool(device),
    {
        let _gpu = self.profile.gpu(device)?;
        match self.graph_pools.get(device) {
            Some(p) => Ok(*p),
            None => Err(invalid("graph mem pool missing")),
        }
    }

    pub(crate) fn bump_graph_mem_high(&mut self, device: DeviceId) -> (r: Result<(), SimError>)
        ensures
            final(self)@ == old(self)@.bump_graph_mem_high(device).0,
            r == old(self)@.bump_graph_mem_high(device).1,
    {
        let (used, reserved) = self.graph_mem_used_reserved(device)?;
        let rt = self.gpu_rt_mut(device)?;
        rt.graph_used_high = max_u64(rt.graph_used_high, used);
        rt.graph_reserved_high = max_u64(rt.graph_reserved_high, reserved);
        Ok(())
    }

    /// High-water marks of graph memory after an allocation or free node.
    pub(crate) fn bump_graph_mem_from_op(
        &mut self,
        device: DeviceId,
        kind: &GpuOp,
    ) -> (r: Result<(), SimError>)
        ensures
            final(self)@ == old(self)@.bump_graph_mem_from_op(device, kind@).0,
            r == old(self)@.bump_graph_mem_from_op(device, kind@).1,
    {
        let alloc: Option<AllocId> = match kind {
            GpuOp::Alloc { id, bytes } => Some(*id),
            GpuOp::Free { id } => Some(*id),
            _ => None,
        };
        match alloc {
            Some(id) => {
                if self.is_graph_alloc(id) {
                    return self.bump_graph_mem_high(device);
                }
                Ok(())
            },
            None => Ok(()),
        }
    }

    pub(crate) fn unlease(&mut self, id: AllocId) -> (r: Result<(), SimError>)
        ensures
            final(self)@ == old(self)@.unlease(id).0,
            r == old(self)@.unlease(id).1,
    {
        let a = self.alloc_mut(id)?;
        a.leases = a.leases.saturating_sub(1);
        Ok(())
    }

    pub(crate) fn unlease_bufs(&mut self, bufs: &Vec<KernelBuf>) -> (r: Result<(), SimError>)
        ensures
            final(self)@ == old(self)@.unlease_bufs(bufs@).0,
            r == old(self)@.unlease_bufs(bufs@).1,
    {
        let mut i: usize = 0;
        while i < bufs.len()
            invariant
                i <= bufs@.len(),
                old(self)@.unlease_bufs(bufs@) == self@.unlease_bufs_from(bufs@, i as int),
            decreases bufs@.len() - i,
        {
            self.unlease(bufs[i].id)?;
            i += 1;
        }
        Ok(())
    }

    pub(crate) fn unlease_parts(
        &mut self,
        parts: &Vec<(DeviceId, AllocId)>,
    ) -> (r: Result<(), SimError>)
        ensures
            final(self)@ == old(self)@.unlease_parts(parts@).0,
            r == old(self)@.unlease_parts(parts@).1,
    {
        let mut i: usize = 0;
        while i < parts.len()
            invariant
                i <= parts@.len(),
                old(self)@.unlease_parts(parts@) == self@.unlease_parts_from(parts@, i as int),
            decreases parts@.len() - i,
        {
            self.unlease(parts[i].1)?;
            i += 1;
        }
        Ok(())
    }

    pub(crate) fn apply_mailbox_writes(&mut self, writes: &Vec<(AllocId, u64, u64, bool)>)
        ensures
            final(self)@ == old(self)@.apply_mailbox_writes(writes@),
    {
        let mut i: usize = 0;
        while i < writes.len()
            invariant
                i <= writes@.len(),
                old(self)@.apply_mailbox_writes(writes@) == self@.apply_mailbox_writes_from(
                    writes@,
                    i as int,
                ),
            decreases writes@.len() - i,
        {
            let (id, offset, value, bits32) = writes[i];
            self.apply_mailbox_write(id, offset, value, bits32);
            i += 1;
        }
    }

    /// Release what a kernel held.
    pub(crate) fn finish_kernel(
        &mut self,
        id: OpId,
        device: DeviceId,
        reads: &Vec<KernelBuf>,
        writes: &Vec<KernelBuf>,
    ) -> (r: Result<(), SimError>)
        ensures
            final(self)@ == old(self)@.finish_kernel(id, device, reads@, writes@).0,
            r == old(self)@.finish_kernel(id, device, reads@, writes@).1,
    {
        reveal(SimState::finish_kernel);
        let moved: u64 = self.multicast_write_bytes(writes);
        let slots: u8 = self.slots_of(id)?;
        self.drop_compute_n(device, slots)?;
        self.unlease_bufs(reads)?;
        self.unlease_bufs(writes)?;
        self.bytes_moved = self.bytes_moved.saturating_add(moved);
        Ok(())
    }

    /// An allocation becomes live on `device`.
    pub(crate) fn finish_alloc(
        &mut self,
        alloc: AllocId,
        device: DeviceId,
    ) -> (r: Result<(), SimError>)
        ensures
            final(self)@ == old(self)@.finish_alloc(alloc, device).0,
            r == old(self)@.finish_alloc(alloc, device).1,
    {
        reveal(SimState::finish_alloc);
        let a = self.alloc_mut(alloc)?;
        a.live = true;
        push_new(&mut a.devices, device);
        Ok(())
    }

    /// Release what a fill held.
    pub(crate) fn finish_memset(
        &mut self,
        device: DeviceId,
        id: AllocId,
    ) -> (r: Result<(), SimError>)
        ensures
            final(self)@ == old(self)@.finish_memset(device, id).0,
            r == old(self)@.finish_memset(device, id).1,
    {
        reveal(SimState::finish_memset);
        self.drop_compute(device)?;
        self.unlease(id)
    }

    /// Release what a reduction held.
    pub(crate) fn finish_allreduce(
        &mut self,
        device: DeviceId,
        parts: &Vec<(DeviceId, AllocId)>,
    ) -> (r: Result<(), SimError>)
        ensures
            final(self)@ == old(self)@.finish_allreduce(device, parts@).0,
            r == old(self)@.finish_allreduce(device, parts@).1,
    {
        reveal(SimState::finish_allreduce);
        self.drop_compute(device)?;
        self.unlease_parts(parts)
    }

    /// Stream visibility takes effect.
    pub(crate) fn finish_attach(
        &mut self,
        alloc: AllocId,
        flags: MemAttach,
        stream: StreamId,
    ) -> (r: Result<(), SimError>)
        ensures
            final(self)@ == old(self)@.finish_attach(alloc, flags, stream).0,
            r == old(self)@.finish_attach(alloc, flags, stream).1,
    {
        reveal(SimState::finish_attach);
        self.alloc_mut(alloc)?.attach = attach_state(flags, stream);
        Ok(())
    }

    /// Effects of a completed operation by its kind.
    pub(crate) fn finish_kind(
        &mut self,
        id: OpId,
        device: DeviceId,
        stream: StreamId,
        dma: bool,
        kind: &GpuOp,
    ) -> (r: Result<(), SimError>)
        ensures
            final(self)@ == old(self)@.finish_kind(id, device, stream, dma, kind@).0,
            r == old(self)@.finish_kind(id, device, stream, dma, kind@).1,
    {
        reveal(SimState::finish_kind);
        match kind {
            GpuOp::Alloc { id: alloc, bytes } => self.finish_alloc(*alloc, device),
            GpuOp::Kernel {
                kind: k,
                reads,
                writes,
                cooperative,
            } => self.finish_kernel(id, device, reads, writes),
            GpuOp::Memset(op) => self.finish_memset(device, op.id),
            GpuOp::AllReduce { parts, bytes } => self.finish_allreduce(device, parts),
            GpuOp::DeviceLaunch { graph } => self.drop_compute(device),
            GpuOp::Memcpy(m) => self.finish_memcpy(device, *m, dma),
            GpuOp::Attach { id: alloc, flags } => self.finish_attach(*alloc, *flags, stream),
            _ => {
                let writes: Vec<(AllocId, u64, u64, bool)> = kind.mailbox_writes();
                self.apply_mailbox_writes(&writes);
                Ok(())
            },
        }
    }

    /// Mark an operation done now.
    pub(crate) fn finish_op(&mut self, id: OpId)
        ensures
            final(self)@ == old(self)@.finish_op(id),
    {
        let now: u64 = self.clock;
        if let Some(op) = self.ops.get_mut(id) {
            op.done = true;
            op.done_ns = Some(now);
        }
    }

    /// A device launch that has completed submits the graph behind itself.
    pub(crate) fn finish_device_launch(
        &mut self,
        id: OpId,
        device: DeviceId,
        stream: StreamId,
        kind: &GpuOp,
    ) -> (r: Result<(), SimError>)
        ensures
            final(self)@ == old(self)@.finish_device_launch(id, device, stream, kind@).0,
            r == old(self)@.finish_device_launch(id, device, stream, kind@).1,
    {
        reveal(SimState::finish_device_launch);
        match kind {
            GpuOp::DeviceLaunch { graph } => {
                self.reset_graph_tree_conds(*graph);
                let wait: Vec<OpId> = one(id);
                let n: u32 = self.enqueue_root(*graph, stream, false, &wait)?;
                let last: Option<OpId> = self.tail_of(Lane(device, stream));
                let tail: OpId = if n == 0 {
                    id
                } else {
                    last.unwrap_or(id)
                };
                self.graph_mut(*graph)?.device_launch_tail = Some(tail);
                Ok(())
            },
            _ => Ok(()),
        }
    }

    /// A loop tick that has completed submits the body once more while the handle is set, up to
    /// an iteration cap.
    pub(crate) fn continue_while(
        &mut self,
        id: OpId,
        device: DeviceId,
        stream: StreamId,
        kind: &GpuOp,
    ) -> (r: Result<(), SimError>)
        ensures
            final(self)@ == old(self)@.continue_while(id, device, stream, kind@).0,
            r == old(self)@.continue_while(id, device, stream, kind@).1,
    {
        reveal(SimState::continue_while);
        match kind {
            GpuOp::WhileTick { handle, body, iter } => {
                let value: u32 = match self.conds.get(*handle) {
                    Some(c) => c.value,
                    None => {
                        return Err(invalid("unknown conditional"));
                    },
                };
                if value == 0 {
                    return Ok(());
                }
                if *iter >= 64 {
                    return Err(invalid("while iteration cap"));
                }
                let wait: Vec<OpId> = one(id);
                let none: Vec<GraphId> = Vec::new();
                let fuel: usize = self.tree_fuel();
                let _n: u32 = self.enqueue_pred_graph(
                    CondPred::Nonzero(*handle),
                    *body,
                    stream,
                    false,
                    &none,
                    &wait,
                    fuel,
                )?;
                let _tick = self.submit_tick(
                    device,
                    stream,
                    *handle,
                    *body,
                    iter.saturating_add(1),
                    &wait,
                )?;
                Ok(())
            },
            _ => Ok(()),
        }
    }

    /// Complete an operation that was in flight.
    pub(crate) fn complete(&mut self, id: OpId) -> (r: Result<(), SimError>)
        ensures
            final(self)@ == old(self)@.complete(id).0,
            r == old(self)@.complete(id).1,
    {
        reveal(SimState::complete);
        let dma: bool = self.on_link(id);
        self.drop_running(id);
        let op = self.ops.get(id).ok_or(invalid("complete unknown op"))?;
        let device = op.device;
        let stream = op.stream;
        let kind: GpuOp = op.kind.dup();
        if op.skipped {
            self.finish_op(id);
            return Ok(());
        }
        self.finish_kind(id, device, stream, dma, &kind)?;
        self.finish_op(id);
        self.bump_graph_mem_from_op(device, &kind)?;
        self.finish_device_launch(id, device, stream, &kind)?;
        self.continue_while(id, device, stream, &kind)
    }

    pub(crate) fn complete_each(&mut self, ids: &Vec<OpId>) -> (r: Result<(), SimError>)
        ensures
            final(self)@ == old(self)@.complete_each(ids@).0,
            r == old(self)@.complete_each(ids@).1,
    {
        let mut i: usize = 0;
        while i < ids.len()
            invariant
                i <= ids@.len(),
                old(self)@.complete_each(ids@) == self@.complete_each_from(ids@, i as int),
            decreases ids@.len() - i,
        {
            self.complete(ids[i])?;
            i += 1;
        }
        Ok(())
    }

    /// Advance the clock to the next completion or trigger, and complete what is done.
    pub(crate) fn advance_to_next_completion(&mut self) -> (r: Result<(), SimError>)
        ensures
            final(self)@ == old(self)@.advance_to_next_completion().0,
            r == old(self)@.advance_to_next_completion().1,
    {
        reveal(SimState::advance_to_next_completion);
        if self.running.len() == 0 {
            return Ok(());
        }
        let dt: u64 = self.next_dt();
        self.drain(dt);
        self.apply_domain_fences();
        let ids: Vec<OpId> = self.finished();
        self.complete_each(&ids)
    }
}

/// What the event loop runs for.
#[derive(Clone, Copy, Debug, PartialEq, Eq, Structural)]
pub enum Goal {
    /// The whole node is idle.
    Node,
    /// One GPU is idle.
    Device(DeviceId),
    /// One stream is idle.
    Stream(DeviceId, StreamId),
    /// One event has fired.
    Event(EventId),
}

/// Stream visibility that an attach request asks for.
#[verifier::allow_in_spec]
pub fn attach_state(flags: MemAttach, stream: StreamId) -> Attach
    returns
        ({
            match flags {
                MemAttach::Global => Attach::Global,
                MemAttach::Host => Attach::Host,
                MemAttach::Single => Attach::Single(stream),
            }
        }),
{
    match flags {
        MemAttach::Global => Attach::Global,
        MemAttach::Host => Attach::Host,
        MemAttach::Single => Attach::Single(stream),
    }
}

impl SimState {
    /// Value of [`Sim::goal_reached`].
    pub open spec fn goal_reached(self, goal: Goal) -> bool {
        match goal {
            Goal::Node => self.running.len() == 0 && !self.op_pending(),
            Goal::Device(d) => self.device_idle(d),
            Goal::Stream(d, on) => self.stream_idle(d, on),
            Goal::Event(e) => self.event_complete(e),
        }
    }
}

impl Sim {
    /// Whether the event loop has what it runs for.
    pub(crate) fn goal_reached(&self, goal: Goal) -> (r: bool)
        ensures
            r == self@.goal_reached(goal),
    {
        match goal {
            Goal::Node => self.running.len() == 0 && !self.op_pending(),
            Goal::Device(d) => self.device_idle(d),
            Goal::Stream(d, on) => self.stream_idle(d, on),
            Goal::Event(e) => self.event_complete(e),
        }
    }
}

impl SimState {
    /// Run until the goal is reached or nothing is in flight. A goal that holds already starts
    /// nothing. `left` bounds the number of clock advances.
    pub open spec fn drive(self, goal: Goal, left: nat) -> (SimState, Result<(), SimError>)
        decreases left,
    {
        if self.goal_reached(goal) {
            (self, Ok(()))
        } else {
            match self.schedule() {
                (s, Err(e)) => (s, Err(e)),
                (s, Ok(_v)) => if s.goal_reached(goal) || s.running.len() == 0 {
                    (s, Ok(()))
                } else {
                    match s.advance_to_next_completion() {
                        (s, Err(e)) => (s, Err(e)),
                        (s, Ok(_v)) => if left == 0 {
                            (s, Err(invalid("simulator step limit")))
                        } else {
                            s.drive(goal, (left - 1) as nat)
                        },
                    }
                },
            }
        }
    }

    /// Run until the goal is reached or nothing is in flight, for at most ten million advances.
    #[verifier::opaque]
    pub open spec fn drive_until(self, goal: Goal) -> (SimState, Result<(), SimError>) {
        self.drive(goal, 10_000_000)
    }
}

impl Sim {
    /// Run until the goal is reached or nothing is in flight.
    pub(crate) fn drive_until(&mut self, goal: Goal) -> (r: Result<(), SimError>)
        ensures
            final(self)@ == old(self)@.drive_until(goal).0,
            r == old(self)@.drive_until(goal).1,
    {
        reveal(SimState::drive_until);
        let mut left: u32 = 10_000_000;
        loop
            invariant
                old(self)@.drive_until(goal) == self@.drive(goal, left as nat),
            decreases left,
        {
            if self.goal_reached(goal) {
                return Ok(());
            }
            self.schedule()?;
            if self.goal_reached(goal) || self.running.len() == 0 {
                return Ok(());
            }
            self.advance_to_next_completion()?;
            if left == 0 {
                return Err(invalid("simulator step limit"));
            }
            left -= 1;
        }
    }
}

impl SimState {
    /// Value of [`Sim::sync_outcome`].
    pub open spec fn sync_outcome(self) -> Result<(), SimError> {
        let n = 0;
        let stream = StreamId(0);
        self.sync_outcome_from(n, stream, 0)
    }

    /// [`Sim::sync_outcome`] from position `i` on.
    pub open spec fn sync_outcome_from(
        self,
        n: u32,
        stream: StreamId,
        i: int,
    ) -> Result<(), SimError>
        decreases order_of(self.ops.dom()).len() - i,
    {
        if 0 <= i < order_of(self.ops.dom()).len() {
            let o = self.ops[order_of(self.ops.dom())[i]];
            let (n, stream) = if o.cancelled {
                let n = n.saturating_add(1);
                let stream = o.stream;
                (n, stream)
            } else {
                (n, stream)
            };
            self.sync_outcome_from(n, stream, i + 1)
        } else if n > 0 {
            Err(SimError::Cancelled { stream, n })
        } else {
            Ok(())
        }
    }

    /// Value of [`Sim::device_sync_outcome`].
    pub open spec fn device_sync_outcome(self, device: DeviceId) -> Result<(), SimError> {
        let n = 0;
        let stream = StreamId(0);
        self.device_sync_outcome_from(device, n, stream, 0)
    }

    /// [`Sim::device_sync_outcome`] from position `i` on.
    pub open spec fn device_sync_outcome_from(
        self,
        device: DeviceId,
        n: u32,
        stream: StreamId,
        i: int,
    ) -> Result<(), SimError>
        decreases order_of(self.ops.dom()).len() - i,
    {
        if 0 <= i < order_of(self.ops.dom()).len() {
            let o = self.ops[order_of(self.ops.dom())[i]];
            let (n, stream) = if o.cancelled && o.device == device {
                let n = n.saturating_add(1);
                let stream = o.stream;
                (n, stream)
            } else {
                (n, stream)
            };
            self.device_sync_outcome_from(device, n, stream, i + 1)
        } else if n > 0 {
            Err(SimError::Cancelled { stream, n })
        } else {
            Ok(())
        }
    }

    /// Value of [`Sim::stream_sync_outcome`].
    pub open spec fn stream_sync_outcome(
        self,
        device: DeviceId,
        stream: StreamId,
    ) -> Result<(), SimError> {
        let n = 0;
        self.stream_sync_outcome_from(device, stream, n, 0)
    }

    /// [`Sim::stream_sync_outcome`] from position `i` on.
    pub open spec fn stream_sync_outcome_from(
        self,
        device: DeviceId,
        stream: StreamId,
        n: u32,
        i: int,
    ) -> Result<(), SimError>
        decreases order_of(self.ops.dom()).len() - i,
    {
        if 0 <= i < order_of(self.ops.dom()).len() {
            let o = self.ops[order_of(self.ops.dom())[i]];
            let n = if o.cancelled && o.device == device && o.stream == stream {
                let n = n.saturating_add(1);
                n
            } else {
                n
            };
            self.stream_sync_outcome_from(device, stream, n, i + 1)
        } else if n > 0 {
            Err(SimError::Cancelled { stream, n })
        } else {
            Ok(())
        }
    }

    /// Whether position `i` counts for [`Sim::cancelled_count`].
    pub open spec fn cancelled_count_at(self, i: int) -> bool {
        self.ops[order_of(self.ops.dom())[i]].cancelled
    }

    /// Value of [`Sim::cancelled_count`].
    pub open spec fn cancelled_count(self) -> u32 {
        count_u32(order_of(self.ops.dom()).len(), |i: int| self.cancelled_count_at(i))
    }

    /// Value of [`Sim::host_sync_policy_tax_ns`].
    pub open spec fn host_sync_policy_tax_ns(
        self,
        device: DeviceId,
        policy: SynchronizationPolicy,
    ) -> u64 {
        match self.profile.gpu(device) {
            Err(_e) => 0,
            Ok(g) => match policy {
                SynchronizationPolicy::Auto => 0,
                SynchronizationPolicy::Spin => g.host_sync_spin_ns,
                SynchronizationPolicy::Yield => g.host_sync_yield_ns,
                SynchronizationPolicy::BlockingSync => g.host_sync_blocking_ns,
            },
        }
    }

    /// Effect of [`Sim::apply_stream_sync_policy_tax`].
    pub open spec fn apply_stream_sync_policy_tax(
        self,
        device: DeviceId,
        stream: StreamId,
    ) -> SimState {
        let s = self;
        let policy = s.stream_sync_policy(device, stream);
        let tax = s.host_sync_policy_tax_ns(device, policy);
        let s = s.tick(tax);
        s
    }

    /// Effect of [`Sim::apply_event_sync_policy_tax`].
    pub open spec fn apply_event_sync_policy_tax(self, event: EventId) -> SimState {
        let s = self;
        let lane = (match s.event_recorded_by(event) {
            Some(id) => {
                (match s.ops.get(id) {
                    Some(row) => Some(Lane(row.device, row.stream)),
                    None => None,
                })
            },
            None => None,
        });
        match lane {
            Some(l) => {
                let s = s.apply_stream_sync_policy_tax(l.0, l.1);
                s
            },
            _ => s,
        }
    }

    /// Effect of [`Sim::synchronize`].
    pub open spec fn synchronize(self) -> (SimState, Result<(), SimError>) {
        let s = self;
        match s.fail_if_capturing("cannot synchronize during capture") {
            Err(e) => (s, Err(e)),
            Ok(_v) => match s.drive_until(Goal::Node) {
                (s, Err(e)) => (s, Err(e)),
                (s, Ok(_v)) => if s.running.len() == 0 && s.op_pending() {
                    (s, Err(invalid("deadlock: waiting ops but nothing running")))
                } else {
                    (s, s.sync_outcome())
                },
            },
        }
    }

    /// Effect of [`Sim::synchronize_device`].
    #[verifier::opaque]
    pub open spec fn synchronize_device(
        self,
        device: DeviceId,
    ) -> (SimState, Result<(), SimError>) {
        let s = self;
        match s.fail_if_capturing("cannot synchronize device during capture") {
            Err(e) => (s, Err(e)),
            Ok(_v) => match s.profile.gpu(device) {
                Err(e) => (s, Err(e)),
                Ok(_gpu) => match s.drive_until(Goal::Device(device)) {
                    (s, Err(e)) => (s, Err(e)),
                    (s, Ok(_v)) => if !s.device_idle(device) {
                        (s, Err(invalid("deadlock: device busy but nothing running")))
                    } else {
                        (s, s.device_sync_outcome(device))
                    },
                },
            },
        }
    }

    /// Effect of [`Sim::synchronize_stream`].
    pub open spec fn synchronize_stream(
        self,
        device: DeviceId,
        stream: StreamId,
    ) -> (SimState, Result<(), SimError>) {
        let s = self;
        match s.profile.gpu(device) {
            Err(e) => (s, Err(e)),
            Ok(_gpu) => if s.in_capture(device, stream) {
                (s, Err(invalid("cannot synchronize stream during capture")))
            } else {
                match s.drive_until(Goal::Stream(device, stream)) {
                    (s, Err(e)) => (s, Err(e)),
                    (s, Ok(_v)) => if !s.stream_idle(device, stream) {
                        (s, Err(invalid("deadlock: stream busy but nothing running")))
                    } else {
                        match s.stream_sync_outcome(device, stream) {
                            Err(e) => (s, Err(e)),
                            Ok(_v) => {
                                let s = s.apply_stream_sync_policy_tax(device, stream);
                                (s, Ok(()))
                            },
                        }
                    },
                }
            },
        }
    }

    /// Value of [`Sim::event_sync_outcome`].
    pub open spec fn event_sync_outcome(self, event: EventId) -> Result<(), SimError> {
        match self.event_recorded_by(event) {
            Some(id) => match self.ops.get(id) {
                Some(o) => if o.cancelled {
                    Err(SimError::Cancelled { stream: o.stream, n: 1 })
                } else {
                    Ok(())
                },
                None => Ok(()),
            },
            None => Ok(()),
        }
    }

    /// Effect of [`Sim::synchronize_event`].
    pub open spec fn synchronize_event(self, event: EventId) -> (SimState, Result<(), SimError>) {
        let s = self;
        if !s.events.contains_key(event) {
            (s, Err(SimError::UnknownEvent { event: event.0 }))
        } else {
            match s.drive_until(Goal::Event(event)) {
                (s, Err(e)) => (s, Err(e)),
                (s, Ok(_v)) => if !s.event_complete(event) {
                    (s, Err(invalid("deadlock: event not complete but nothing running")))
                } else {
                    match s.event_sync_outcome(event) {
                        Err(e) => (s, Err(e)),
                        Ok(_v) => {
                            let s = s.apply_event_sync_policy_tax(event);
                            (s, Ok(()))
                        },
                    }
                },
            }
        }
    }

    /// Effect of [`Sim::idle_until`].
    pub open spec fn idle_until(self, ns: u64) -> (SimState, Result<u64, SimError>) {
        let s = self;
        match s.synchronize() {
            (s, Err(e)) => (s, Err(e)),
            (s, Ok(_v)) => if ns > s.clock {
                let jumped = ns.saturating_sub(s.clock);
                let s = SimState { clock: ns, ..s };
                (s, Ok(jumped))
            } else {
                (s, Ok(0))
            },
        }
    }

    /// Effect of [`Sim::destroy_event`].
    pub open spec fn destroy_event(self, event: EventId) -> (SimState, Result<(), SimError>) {
        let s = self;
        match s.fail_if_capturing("cannot capture event destroy") {
            Err(e) => (s, Err(e)),
            Ok(_v) => match s.event_ref(event) {
                Err(e) => (s, Err(e)),
                Ok(ev) => {
                    let src = ev.ipc_src;
                    if ev.ipc_opens > 0 {
                        (s, Err(invalid("ipc mapped")))
                    } else if s.event_recorded_by(event).is_some() {
                        match s.synchronize_event(event) {
                            (s, Err(e)) => (s, Err(e)),
                            (s, Ok(_v)) => {
                                let s = s.drop_event(event, src);
                                (s, Ok(()))
                            },
                        }
                    } else {
                        let s = s.drop_event(event, src);
                        (s, Ok(()))
                    }
                },
            },
        }
    }

    /// Effect of [`Sim::drop_event`].
    #[verifier::opaque]
    pub open spec fn drop_event(self, event: EventId, src: Option<EventId>) -> SimState {
        let s = self;
        match src {
            Some(from) => {
                let s = SimState { events: s.events.remove(event), ..s };
                match s.events.get(from) {
                    Some(ev) => {
                        let ev = Ev { ipc_opens: ev.ipc_opens.saturating_sub(1), ..ev };
                        let s = SimState { events: s.events.insert(from, ev), ..s };
                        s
                    },
                    _ => s,
                }
            },
            None => {
                let s = SimState {
                    ipc_event_handles: without_value(s.ipc_event_handles, event),
                    ..s
                };
                let s = SimState { events: s.events.remove(event), ..s };
                s
            },
        }
    }

    /// Effect of [`Sim::cancel_each`].
    pub open spec fn cancel_each(self, ids: Seq<OpId>) -> (SimState, u32) {
        let s = self;
        let n = 0;
        s.cancel_each_from(ids, n, 0)
    }

    /// [`Sim::cancel_each`] from position `i` on.
    pub open spec fn cancel_each_from(self, ids: Seq<OpId>, n: u32, i: int) -> (SimState, u32)
        decreases ids.len() - i,
    {
        let s = self;
        if 0 <= i < ids.len() {
            let now = s.clock;
            let (n, s) = match s.ops.get(ids[i]) {
                Some(op) => {
                    let op = OpView { cancelled: true, done: true, done_ns: Some(now), ..op };
                    let s = SimState { ops: s.ops.insert(ids[i], op), ..s };
                    let n = n.saturating_add(1);
                    (n, s)
                },
                _ => (n, s),
            };
            s.cancel_each_from(ids, n, i + 1)
        } else {
            (s, n)
        }
    }

    /// What position `i` adds to [`Sim::queued_on`].
    pub open spec fn queued_on_at(
        self,
        device: DeviceId,
        stream: StreamId,
        i: int,
    ) -> Option<OpId> {
        let id = order_of(self.ops.dom())[i];
        let o = self.ops[order_of(self.ops.dom())[i]];
        if o.device == device && o.stream == stream && !o.done && !self.is_running(id) {
            Some(id)
        } else {
            None
        }
    }

    /// Value of [`Sim::queued_on`].
    pub open spec fn queued_on(self, device: DeviceId, stream: StreamId) -> Seq<OpId> {
        picked(order_of(self.ops.dom()).len(), |i: int| self.queued_on_at(device, stream, i))
    }

    /// Effect of [`Sim::cancel_stream`].
    pub open spec fn cancel_stream(
        self,
        device: DeviceId,
        stream: StreamId,
    ) -> (SimState, Result<u32, SimError>) {
        let s = self;
        match s.profile.gpu(device) {
            Err(e) => (s, Err(e)),
            Ok(_gpu) => {
                let ids = s.queued_on(device, stream);
                let (s, v2) = s.cancel_each(ids);
                (s, Ok(v2))
            },
        }
    }
}

impl Sim {
    /// The cancelled operations, as the error of a synchronization.
    pub(crate) fn sync_outcome(&self) -> (r: Result<(), SimError>)
        ensures
            r == self@.sync_outcome(),
    {
        let mut n: u32 = 0;
        let mut stream: StreamId = StreamId(0);
        let mut i: usize = 0;
        while i < self.ops.len()
            invariant
                i <= order_of(self@.ops.dom()).len(),
                self@.sync_outcome() == self@.sync_outcome_from(n, stream, i as int),
            decreases order_of(self@.ops.dom()).len() - i,
        {
            let o = self.ops.val_at(i);
            if o.cancelled {
                n = n.saturating_add(1);
                stream = o.stream;
            }
            i += 1;
        }
        if n > 0 {
            return Err(SimError::Cancelled { stream, n });
        }
        Ok(())
    }

    pub(crate) fn device_sync_outcome(&self, device: DeviceId) -> (r: Result<(), SimError>)
        ensures
            r == self@.device_sync_outcome(device),
    {
        let mut n: u32 = 0;
        let mut stream: StreamId = StreamId(0);
        let mut i: usize = 0;
        while i < self.ops.len()
            invariant
                i <= order_of(self@.ops.dom()).len(),
                self@.device_sync_outcome(device) == self@.device_sync_outcome_from(
                    device,
                    n,
                    stream,
                    i as int,
                ),
            decreases order_of(self@.ops.dom()).len() - i,
        {
            let o = self.ops.val_at(i);
            if o.cancelled && o.device == device {
                n = n.saturating_add(1);
                stream = o.stream;
            }
            i += 1;
        }
        if n > 0 {
            return Err(SimError::Cancelled { stream, n });
        }
        Ok(())
    }

    pub(crate) fn stream_sync_outcome(
        &self,
        device: DeviceId,
        stream: StreamId,
    ) -> (r: Result<(), SimError>)
        ensures
            r == self@.stream_sync_outcome(device, stream),
    {
        let mut n: u32 = 0;
        let mut i: usize = 0;
        while i < self.ops.len()
            invariant
                i <= order_of(self@.ops.dom()).len(),
                self@.stream_sync_outcome(device, stream) == self@.stream_sync_outcome_from(
                    device,
                    stream,
                    n,
                    i as int,
                ),
            decreases order_of(self@.ops.dom()).len() - i,
        {
            let o = self.ops.val_at(i);
            if o.cancelled && o.device == device && o.stream == stream {
                n = n.saturating_add(1);
            }
            i += 1;
        }
        if n > 0 {
            return Err(SimError::Cancelled { stream, n });
        }
        Ok(())
    }

    /// Operations that were cancelled or whose transfer failed.
    pub fn cancelled_count(&self) -> (r: u32)
        ensures
            r == self@.cancelled_count(),
    {
        let mut n: u32 = 0;
        let mut i: usize = 0;
        while i < self.ops.len()
            invariant
                i <= order_of(self@.ops.dom()).len(),
                n == count_u32(i as nat, |j: int| self@.cancelled_count_at(j)),
            decreases order_of(self@.ops.dom()).len() - i,
        {
            if self.ops.val_at(i).cancelled {
                n = n.saturating_add(1);
            }
            i += 1;
        }
        n
    }

    /// What the synchronization policy of a stream costs the host.
    pub(crate) fn host_sync_policy_tax_ns(
        &self,
        device: DeviceId,
        policy: SynchronizationPolicy,
    ) -> (r: u64)
        ensures
            r == self@.host_sync_policy_tax_ns(device, policy),
    {
        match self.profile.gpu(device) {
            Err(_e) => 0,
            Ok(g) => match policy {
                SynchronizationPolicy::Auto => 0,
                SynchronizationPolicy::Spin => g.host_sync_spin_ns,
                SynchronizationPolicy::Yield => g.host_sync_yield_ns,
                SynchronizationPolicy::BlockingSync => g.host_sync_blocking_ns,
            },
        }
    }

    pub(crate) fn apply_stream_sync_policy_tax(&mut self, device: DeviceId, stream: StreamId)
        ensures
            final(self)@ == old(self)@.apply_stream_sync_policy_tax(device, stream),
    {
        let policy = self.stream_sync_policy(device, stream);
        let tax: u64 = self.host_sync_policy_tax_ns(device, policy);
        self.tick(tax);
    }

    pub(crate) fn apply_event_sync_policy_tax(&mut self, event: EventId)
        ensures
            final(self)@ == old(self)@.apply_event_sync_policy_tax(event),
    {
        let lane: Option<Lane> = match self.event_recorded_by(event) {
            Some(id) => match self.ops.get(id) {
                Some(row) => Some(Lane(row.device, row.stream)),
                None => None,
            },
            None => None,
        };
        if let Some(l) = lane {
            self.apply_stream_sync_policy_tax(l.0, l.1);
        }
    }

    /// Run until the node is idle. Capture cannot include it. Cancelled operations fail it.
    pub fn synchronize(&mut self) -> (r: Result<(), SimError>)
        ensures
            final(self)@ == old(self)@.synchronize().0,
            r == old(self)@.synchronize().1,
    {
        self.fail_if_capturing("cannot synchronize during capture")?;
        self.drive_until(Goal::Node)?;
        if self.running.len() == 0 && self.op_pending() {
            return Err(invalid("deadlock: waiting ops but nothing running"));
        }
        self.sync_outcome()
    }

    /// Run until every stream of `device` is idle. Capture cannot include it.
    pub fn synchronize_device(&mut self, device: DeviceId) -> (r: Result<(), SimError>)
        ensures
            final(self)@ == old(self)@.synchronize_device(device).0,
            r == old(self)@.synchronize_device(device).1,
    {
        reveal(SimState::synchronize_device);
        self.fail_if_capturing("cannot synchronize device during capture")?;
        let _gpu = self.profile.gpu(device)?;
        self.drive_until(Goal::Device(device))?;
        if !self.device_idle(device) {
            return Err(invalid("deadlock: device busy but nothing running"));
        }
        self.device_sync_outcome(device)
    }

    /// Run until the stream is idle, then pay its synchronization policy. A capturing stream is
    /// [`SimError::Invalid`].
    pub fn synchronize_stream(
        &mut self,
        device: DeviceId,
        stream: StreamId,
    ) -> (r: Result<(), SimError>)
        ensures
            final(self)@ == old(self)@.synchronize_stream(device, stream).0,
            r == old(self)@.synchronize_stream(device, stream).1,
    {
        let _gpu = self.profile.gpu(device)?;
        if self.in_capture(device, stream) {
            return Err(invalid("cannot synchronize stream during capture"));
        }
        self.drive_until(Goal::Stream(device, stream))?;
        if !self.stream_idle(device, stream) {
            return Err(invalid("deadlock: stream busy but nothing running"));
        }
        self.stream_sync_outcome(device, stream)?;
        self.apply_stream_sync_policy_tax(device, stream);
        Ok(())
    }

    /// The error of waiting for an event whose record was cancelled.
    pub(crate) fn event_sync_outcome(&self, event: EventId) -> (r: Result<(), SimError>)
        ensures
            r == self@.event_sync_outcome(event),
    {
        match self.event_recorded_by(event) {
            Some(id) => match self.ops.get(id) {
                Some(o) => if o.cancelled {
                    Err(SimError::Cancelled { stream: o.stream, n: 1 })
                } else {
                    Ok(())
                },
                None => Ok(()),
            },
            None => Ok(()),
        }
    }

    /// Run until the event has fired, then pay the policy of the recording stream.
    pub fn synchronize_event(&mut self, event: EventId) -> (r: Result<(), SimError>)
        ensures
            final(self)@ == old(self)@.synchronize_event(event).0,
            r == old(self)@.synchronize_event(event).1,
    {
        if !self.events.contains_key(event) {
            return Err(SimError::UnknownEvent { event: event.0 });
        }
        self.drive_until(Goal::Event(event))?;
        if !self.event_complete(event) {
            return Err(invalid("deadlock: event not complete but nothing running"));
        }
        self.event_sync_outcome(event)?;
        self.apply_event_sync_policy_tax(event);
        Ok(())
    }

    /// Drain the node, then jump the clock to `ns` if that is in the future. Returns the jump.
    pub fn idle_until(&mut self, ns: u64) -> (r: Result<u64, SimError>)
        ensures
            final(self)@ == old(self)@.idle_until(ns).0,
            r == old(self)@.idle_until(ns).1,
    {
        self.synchronize()?;
        if ns > self.clock {
            let jumped: u64 = ns.saturating_sub(self.clock);
            self.clock = ns;
            return Ok(jumped);
        }
        Ok(0)
    }

    /// Destroy an event once it has fired. A never recorded event goes at once. Capture cannot
    /// include it. A source with live imports is refused.
    pub fn destroy_event(&mut self, event: EventId) -> (r: Result<(), SimError>)
        ensures
            final(self)@ == old(self)@.destroy_event(event).0,
            r == old(self)@.destroy_event(event).1,
    {
        self.fail_if_capturing("cannot capture event destroy")?;
        let ev = self.event_ref(event)?;
        let src: Option<EventId> = ev.ipc_src;
        if ev.ipc_opens > 0 {
            return Err(invalid("ipc mapped"));
        }
        if self.event_recorded_by(event).is_some() {
            self.synchronize_event(event)?;
        }
        self.drop_event(event, src);
        Ok(())
    }

    pub(crate) fn drop_event(&mut self, event: EventId, src: Option<EventId>)
        ensures
            final(self)@ == old(self)@.drop_event(event, src),
    {
        reveal(SimState::drop_event);
        match src {
            Some(from) => {
                let _gone = self.events.remove(event);
                if let Some(ev) = self.events.get_mut(from) {
                    ev.ipc_opens = ev.ipc_opens.saturating_sub(1);
                }
            },
            None => {
                drop_value(&mut self.ipc_event_handles, event);
                let _gone = self.events.remove(event);
            },
        }
    }

    /// Cancel each operation of the list now. Returns how many there were.
    pub(crate) fn cancel_each(&mut self, ids: &Vec<OpId>) -> (r: u32)
        ensures
            final(self)@ == old(self)@.cancel_each(ids@).0,
            r == old(self)@.cancel_each(ids@).1,
    {
        let mut n: u32 = 0;
        let mut i: usize = 0;
        while i < ids.len()
            invariant
                i <= ids@.len(),
                old(self)@.cancel_each(ids@) == self@.cancel_each_from(ids@, n, i as int),
            decreases ids@.len() - i,
        {
            let now: u64 = self.clock;
            if let Some(op) = self.ops.get_mut(ids[i]) {
                op.cancelled = true;
                op.done = true;
                op.done_ns = Some(now);
                n = n.saturating_add(1);
            }
            i += 1;
        }
        n
    }

    /// Operations of the stream that have not started.
    pub(crate) fn queued_on(&self, device: DeviceId, stream: StreamId) -> (r: Vec<OpId>)
        ensures
            r@ == self@.queued_on(device, stream),
    {
        let mut out: Vec<OpId> = Vec::new();
        let mut i: usize = 0;
        while i < self.ops.len()
            invariant
                i <= order_of(self@.ops.dom()).len(),
                out@ == picked(i as nat, |j: int| self@.queued_on_at(device, stream, j)),
            decreases order_of(self@.ops.dom()).len() - i,
        {
            let id = self.ops.key_at(i);
            let o = self.ops.val_at(i);
            if o.device == device && o.stream == stream && !o.done && !self.is_running(id) {
                out.push(id);
            }
            i += 1;
        }
        out
    }

    /// Drop the operations of the stream that have not started. Those in flight still complete.
    pub fn cancel_stream(
        &mut self,
        device: DeviceId,
        stream: StreamId,
    ) -> (r: Result<u32, SimError>)
        ensures
            final(self)@ == old(self)@.cancel_stream(device, stream).0,
            r == old(self)@.cancel_stream(device, stream).1,
    {
        let _gpu = self.profile.gpu(device)?;
        let ids: Vec<OpId> = self.queued_on(device, stream);
        Ok(self.cancel_each(&ids))
    }
}

} // verus!
