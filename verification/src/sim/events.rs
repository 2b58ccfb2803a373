//! Events: creation, recording state and elapsed time.
use vstd::prelude::*;
use crate::error::{invalid, SimError};
use crate::ids::{EventId, OpId, StreamId};
use crate::ops::{EventCreateFlags, GpuOp, GpuOpView, LaunchCompletionEvent, ProgrammaticEvent};
use crate::sim::{Sim, SimState};
use crate::state::{Ev, LaunchCost, Op, OpView};
use crate::table::order_of;

verus! {

impl SimState {
    /// Value of [`Sim::event_root`].
    pub open spec fn event_root(self, event: EventId) -> EventId {
        match self.events.get(event) {
            Some(e) => match e.ipc_src {
                Some(src) => src,
                None => event,
            },
            None => event,
        }
    }

    /// Value of [`Sim::event_recorded_by`].
    pub open spec fn event_recorded_by(self, event: EventId) -> Option<OpId> {
        match self.events.get(self.event_root(event)) {
            Some(e) => e.recorded_by,
            None => None,
        }
    }

    /// Value of [`Sim::programmatic_is`].
    pub open spec fn programmatic_is(
        self,
        event: Option<ProgrammaticEvent>,
        root: EventId,
    ) -> bool {
        match event {
            Some(p) => self.event_root(p.event) == root,
            None => false,
        }
    }

    /// Value of [`Sim::completion_is`].
    pub open spec fn completion_is(
        self,
        event: Option<LaunchCompletionEvent>,
        root: EventId,
    ) -> bool {
        match event {
            Some(p) => self.event_root(p.event) == root,
            None => false,
        }
    }

    /// Value of [`Sim::reached`].
    pub open spec fn reached(self, at: Option<u64>) -> bool {
        match at {
            Some(t) => self.clock >= t,
            None => false,
        }
    }

    /// Value of [`Sim::op_fired`].
    pub open spec fn op_fired(self, op: OpView, root: EventId) -> bool {
        if op.cancelled {
            false
        } else if op.done {
            true
        } else if self.programmatic_is(op.attrs.programmatic_event, root) && op.attrs.pdl.trigger && self.reached(op.pdl_trigger_ns) {
            true
        } else {
            self.completion_is(op.attrs.launch_completion, root) && op.start_ns.is_some()
        }
    }

    /// Value of [`Sim::event_is_recorded`].
    pub open spec fn event_is_recorded(self, event: EventId) -> bool {
        let root = self.event_root(event);
        match self.event_recorded_by(root) {
            Some(id) => match self.ops.get(id) {
                Some(op) => self.op_fired(op, root),
                None => false,
            },
            None => false,
        }
    }

    /// Value of [`Sim::event_complete`].
    pub open spec fn event_complete(self, event: EventId) -> bool {
        self.event_is_recorded(event)
    }

    /// Value of [`Sim::query_event`].
    pub open spec fn query_event(self, event: EventId) -> Result<bool, SimError> {
        if !self.events.contains_key(event) {
            Err(SimError::UnknownEvent { event: event.0 })
        } else {
            Ok(self.event_complete(event))
        }
    }

    /// Effect of [`Sim::create_event`].
    pub open spec fn create_event(self, event: EventId) -> (SimState, Result<(), SimError>) {
        let s = self;
        s.create_event_with_flags(event, EventCreateFlags::DEFAULT)
    }

    /// Effect of [`Sim::create_event_disable_timing`].
    pub open spec fn create_event_disable_timing(
        self,
        event: EventId,
    ) -> (SimState, Result<(), SimError>) {
        let s = self;
        s.create_event_with_flags(event, EventCreateFlags::DISABLE_TIMING)
    }

    /// Effect of [`Sim::create_event_interprocess`].
    pub open spec fn create_event_interprocess(
        self,
        event: EventId,
    ) -> (SimState, Result<(), SimError>) {
        let s = self;
        s.create_event_with_flags(
            event,
            EventCreateFlags::DISABLE_TIMING | EventCreateFlags::INTERPROCESS,
        )
    }

    /// Effect of [`Sim::create_event_with_flags`].
    pub open spec fn create_event_with_flags(
        self,
        event: EventId,
        flags: u32,
    ) -> (SimState, Result<(), SimError>) {
        let s = self;
        if flags & !(EventCreateFlags::DISABLE_TIMING | EventCreateFlags::INTERPROCESS) != 0 {
            (s, Err(invalid("event create flags")))
        } else {
            let disable = flags & EventCreateFlags::DISABLE_TIMING != 0;
            let interprocess = flags & EventCreateFlags::INTERPROCESS != 0;
            if interprocess && !disable {
                (s, Err(invalid("interprocess timing")))
            } else {
                s.insert_event(event, !disable, interprocess)
            }
        }
    }

    /// Effect of [`Sim::insert_event`].
    pub open spec fn insert_event(
        self,
        event: EventId,
        timing: bool,
        interprocess: bool,
    ) -> (SimState, Result<(), SimError>) {
        let s = self;
        match s.fail_if_capturing("cannot capture event create") {
            Err(e) => (s, Err(e)),
            Ok(_v) => if s.events.contains_key(event) {
                (s, Err(invalid("event already created")))
            } else {
                let ev = Ev::new(timing);
                let ev = Ev { interprocess: interprocess, ..ev };
                let s = SimState { events: s.events.insert(event, ev), ..s };
                (s, Ok(()))
            },
        }
    }

    /// Effect of [`Sim::ensure_event`].
    pub open spec fn ensure_event(self, event: EventId) -> SimState {
        let s = self;
        if !s.events.contains_key(event) {
            let s = SimState { events: s.events.insert(event, Ev::new(true)), ..s };
            s
        } else {
            s
        }
    }

    /// Effect of [`Sim::mark_recorded`].
    pub open spec fn mark_recorded(self, root: EventId, op: OpId) -> SimState {
        let s = self;
        match s.events.get(root) {
            Some(ev) => {
                let ev = Ev { recorded_by: Some(op), ..ev };
                let s = SimState { events: s.events.insert(root, ev), ..s };
                s
            },
            _ => s,
        }
    }

    /// Value of [`Sim::event_timing`].
    pub open spec fn event_timing(self, event: EventId) -> Result<bool, SimError> {
        match self.events.get(event) {
            Some(e) => Ok(e.timing),
            None => Err(SimError::UnknownEvent { event: event.0 }),
        }
    }

    /// Value of [`Sim::require_event_timing`].
    pub open spec fn require_event_timing(self, event: EventId) -> Result<(), SimError> {
        match self.event_timing(event) {
            Err(e) => Err(e),
            Ok(timing) => if timing {
                Ok(())
            } else {
                Err(invalid("event elapsed: disable timing"))
            },
        }
    }

    /// Value of [`Sim::event_done_ns`].
    pub open spec fn event_done_ns(self, event: EventId) -> Result<u64, SimError> {
        if !self.events.contains_key(event) {
            Err(SimError::UnknownEvent { event: event.0 })
        } else if !self.event_complete(event) {
            Err(invalid("event elapsed: not complete"))
        } else {
            match (
                match self.event_recorded_by(event) {
                    Some(x) => Ok(x),
                    None => Err(invalid("event elapsed: not recorded")),
                }
            ) {
                Err(e) => Err(e),
                Ok(id) => {
                    let root = self.event_root(event);
                    match (
                        match self.ops.get(id) {
                            Some(x) => Ok(x),
                            None => Err(invalid("event elapsed: missing record op")),
                        }
                    ) {
                        Err(e) => Err(e),
                        Ok(op) => if self.programmatic_is(
                            op.attrs.programmatic_event,
                            root,
                        ) && op.attrs.pdl.trigger {
                            (match op.pdl_trigger_ns {
                                Some(x) => Ok(x),
                                None => Err(invalid("event elapsed: programmatic trigger missing")),
                            })
                        } else if self.completion_is(op.attrs.launch_completion, root) {
                            (match op.start_ns {
                                Some(x) => Ok(x),
                                None => Err(
                                    invalid("event elapsed: launch completion missing start"),
                                ),
                            })
                        } else {
                            (match op.done_ns {
                                Some(x) => Ok(x),
                                None => Err(invalid("event elapsed: record has no done_ns")),
                            })
                        },
                    }
                },
            }
        }
    }

    /// Value of [`Sim::event_elapsed_ns`].
    pub open spec fn event_elapsed_ns(self, start: EventId, end: EventId) -> Result<u64, SimError> {
        match self.require_event_timing(start) {
            Err(e) => Err(e),
            Ok(_v) => match self.require_event_timing(end) {
                Err(e) => Err(e),
                Ok(_v) => match self.event_done_ns(start) {
                    Err(e) => Err(e),
                    Ok(start_ns) => match self.event_done_ns(end) {
                        Err(e) => Err(e),
                        Ok(end_ns) => if end_ns < start_ns {
                            Err(invalid("event elapsed: end before start"))
                        } else {
                            Ok(end_ns.saturating_sub(start_ns))
                        },
                    },
                },
            },
        }
    }

    /// Value of [`Sim::from_graph`].
    pub open spec fn from_graph(self, launch: LaunchCost) -> bool {
        launch != LaunchCost::Kernel
    }

    /// Value of [`Sim::op_records`].
    pub open spec fn op_records(self, op: OpView, root: EventId, skip_graph: bool) -> bool {
        match op.kind {
            GpuOpView::EventRecord { event, external } => self.event_root(event) == root && !(
                skip_graph && self.from_graph(op.launch)
            ),
            _ => false,
        }
    }

    /// Value of [`Sim::unrecorded_gate`].
    pub open spec fn unrecorded_gate(
        self,
        root: EventId,
        skip_graph: bool,
    ) -> Result<Option<OpId>, SimError> {
        let pending = false;
        let n = 0;
        let stream = StreamId(0);
        self.unrecorded_gate_from(root, skip_graph, pending, n, stream, 0)
    }

    /// [`Sim::unrecorded_gate`] from position `i` on.
    pub open spec fn unrecorded_gate_from(
        self,
        root: EventId,
        skip_graph: bool,
        pending: bool,
        n: u32,
        stream: StreamId,
        i: int,
    ) -> Result<Option<OpId>, SimError>
        decreases order_of(self.ops.dom()).len() - i,
    {
        if 0 <= i < order_of(self.ops.dom()).len() {
            let op = self.ops[order_of(self.ops.dom())[i]];
            let (n, pending, stream) = if self.op_records(op, root, skip_graph) {
                let (n, pending, stream) = if op.cancelled {
                    let n = n.saturating_add(1);
                    let stream = op.stream;
                    (n, pending, stream)
                } else {
                    let pending = if !op.done {
                        let pending = true;
                        pending
                    } else {
                        pending
                    };
                    (n, pending, stream)
                };
                (n, pending, stream)
            } else {
                (n, pending, stream)
            };
            self.unrecorded_gate_from(root, skip_graph, pending, n, stream, i + 1)
        } else if !pending && n > 0 {
            Err(SimError::Cancelled { stream, n })
        } else {
            Ok(None)
        }
    }

    /// Value of [`Sim::event_wait_gate`].
    pub open spec fn event_wait_gate(
        self,
        event: EventId,
        skip_graph: bool,
    ) -> Result<Option<OpId>, SimError> {
        let root = self.event_root(event);
        match self.event_recorded_by(root) {
            Some(rec) => match self.ops.get(rec) {
                Some(o) => if skip_graph && self.from_graph(o.launch) {
                    self.unrecorded_gate(root, skip_graph)
                } else if o.cancelled {
                    Err(SimError::Cancelled { stream: o.stream, n: 1 })
                } else if self.event_is_recorded(root) {
                    Ok(Some(rec))
                } else {
                    Ok(None)
                },
                None => if self.event_is_recorded(root) {
                    Ok(Some(rec))
                } else {
                    Ok(None)
                },
            },
            None => self.unrecorded_gate(root, skip_graph),
        }
    }
}

impl Sim {
    /// Source of an imported event, else the event itself.
    pub(crate) fn event_root(&self, event: EventId) -> (r: EventId)
        ensures
            r == self@.event_root(event),
    {
        match self.events.get(event) {
            Some(e) => match e.ipc_src {
                Some(src) => src,
                None => event,
            },
            None => event,
        }
    }

    /// Operation that last recorded the event.
    pub(crate) fn event_recorded_by(&self, event: EventId) -> (r: Option<OpId>)
        ensures
            r == self@.event_recorded_by(event),
    {
        match self.events.get(self.event_root(event)) {
            Some(e) => e.recorded_by,
            None => None,
        }
    }

    /// Whether a programmatic event of a kernel is the event `root`.
    pub(crate) fn programmatic_is(
        &self,
        event: Option<ProgrammaticEvent>,
        root: EventId,
    ) -> (r: bool)
        ensures
            r == self@.programmatic_is(event, root),
    {
        match event {
            Some(p) => self.event_root(p.event) == root,
            None => false,
        }
    }

    /// Whether a launch-completion event of a kernel is the event `root`.
    pub(crate) fn completion_is(
        &self,
        event: Option<LaunchCompletionEvent>,
        root: EventId,
    ) -> (r: bool)
        ensures
            r == self@.completion_is(event, root),
    {
        match event {
            Some(p) => self.event_root(p.event) == root,
            None => false,
        }
    }

    /// Whether the clock has reached a time.
    pub(crate) fn reached(&self, at: Option<u64>) -> (r: bool)
        ensures
            r == self@.reached(at),
    {
        match at {
            Some(t) => self.clock >= t,
            None => false,
        }
    }

    /// Whether an operation has fired the event `root` that it records.
    pub(crate) fn op_fired(&self, op: &Op, root: EventId) -> (r: bool)
        ensures
            r == self@.op_fired(op@, root),
    {
        if op.cancelled {
            return false;
        }
        if op.done {
            return true;
        }
        if self.programmatic_is(op.attrs.programmatic_event, root) && op.attrs.pdl.trigger
            && self.reached(op.pdl_trigger_ns) {
            return true;
        }
        self.completion_is(op.attrs.launch_completion, root) && op.start_ns.is_some()
    }

    pub(crate) fn event_is_recorded(&self, event: EventId) -> (r: bool)
        ensures
            r == self@.event_is_recorded(event),
    {
        let root = self.event_root(event);
        match self.event_recorded_by(root) {
            Some(id) => match self.ops.get(id) {
                Some(op) => self.op_fired(op, root),
                None => false,
            },
            None => false,
        }
    }

    /// Whether the event was recorded and has fired.
    ///
    /// A programmatic event fires at the trigger, before the kernel completes. An ordinary record
    /// fires when the record operation completes.
    pub fn event_complete(&self, event: EventId) -> (r: bool)
        ensures
            r == self@.event_complete(event),
    {
        self.event_is_recorded(event)
    }

    /// `cudaEventQuery`: does not wait.
    pub fn query_event(&self, event: EventId) -> (r: Result<bool, SimError>)
        ensures
            r == self@.query_event(event),
    {
        if !self.events.contains_key(event) {
            return Err(SimError::UnknownEvent { event: event.0 });
        }
        Ok(self.event_complete(event))
    }

    /// Timed event.
    pub fn create_event(&mut self, event: EventId) -> (r: Result<(), SimError>)
        ensures
            final(self)@ == old(self)@.create_event(event).0,
            r == old(self)@.create_event(event).1,
    {
        self.create_event_with_flags(event, EventCreateFlags::DEFAULT)
    }

    /// Event without timing: [`Self::event_elapsed_ns`] refuses it.
    pub fn create_event_disable_timing(&mut self, event: EventId) -> (r: Result<(), SimError>)
        ensures
            final(self)@ == old(self)@.create_event_disable_timing(event).0,
            r == old(self)@.create_event_disable_timing(event).1,
    {
        self.create_event_with_flags(event, EventCreateFlags::DISABLE_TIMING)
    }

    /// Event that may be exported; it has no timing.
    pub fn create_event_interprocess(&mut self, event: EventId) -> (r: Result<(), SimError>)
        ensures
            final(self)@ == old(self)@.create_event_interprocess(event).0,
            r == old(self)@.create_event_interprocess(event).1,
    {
        self.create_event_with_flags(
            event,
            EventCreateFlags::DISABLE_TIMING | EventCreateFlags::INTERPROCESS,
        )
    }

    /// `cudaEventCreateWithFlags`. Capture cannot include it. An interprocess event must disable
    /// timing.
    pub fn create_event_with_flags(
        &mut self,
        event: EventId,
        flags: u32,
    ) -> (r: Result<(), SimError>)
        ensures
            final(self)@ == old(self)@.create_event_with_flags(event, flags).0,
            r == old(self)@.create_event_with_flags(event, flags).1,
    {
        if flags & !(EventCreateFlags::DISABLE_TIMING | EventCreateFlags::INTERPROCESS) != 0 {
            return Err(invalid("event create flags"));
        }
        let disable: bool = flags & EventCreateFlags::DISABLE_TIMING != 0;
        let interprocess: bool = flags & EventCreateFlags::INTERPROCESS != 0;
        if interprocess && !disable {
            return Err(invalid("interprocess timing"));
        }
        self.insert_event(event, !disable, interprocess)
    }

    pub(crate) fn insert_event(
        &mut self,
        event: EventId,
        timing: bool,
        interprocess: bool,
    ) -> (r: Result<(), SimError>)
        ensures
            final(self)@ == old(self)@.insert_event(event, timing, interprocess).0,
            r == old(self)@.insert_event(event, timing, interprocess).1,
    {
        self.fail_if_capturing("cannot capture event create")?;
        if self.events.contains_key(event) {
            return Err(invalid("event already created"));
        }
        let mut ev: Ev = Ev::new(timing);
        ev.interprocess = interprocess;
        self.events.insert(event, ev);
        Ok(())
    }

    /// Create the event, timed, unless it exists.
    pub(crate) fn ensure_event(&mut self, event: EventId)
        ensures
            final(self)@ == old(self)@.ensure_event(event),
    {
        if !self.events.contains_key(event) {
            self.events.insert(event, Ev::new(true));
        }
    }

    /// Note that `op` records the event `root`.
    pub(crate) fn mark_recorded(&mut self, root: EventId, op: OpId)
        ensures
            final(self)@ == old(self)@.mark_recorded(root, op),
    {
        if let Some(ev) = self.events.get_mut(root) {
            ev.recorded_by = Some(op);
        }
    }

    /// Whether the event was created with timing.
    pub fn event_timing(&self, event: EventId) -> (r: Result<bool, SimError>)
        ensures
            r == self@.event_timing(event),
    {
        match self.events.get(event) {
            Some(e) => Ok(e.timing),
            None => Err(SimError::UnknownEvent { event: event.0 }),
        }
    }

    pub(crate) fn require_event_timing(&self, event: EventId) -> (r: Result<(), SimError>)
        ensures
            r == self@.require_event_timing(event),
    {
        let timing: bool = self.event_timing(event)?;
        if timing {
            Ok(())
        } else {
            Err(invalid("event elapsed: disable timing"))
        }
    }

    /// Clock at which the event fired.
    pub(crate) fn event_done_ns(&self, event: EventId) -> (r: Result<u64, SimError>)
        ensures
            r == self@.event_done_ns(event),
    {
        if !self.events.contains_key(event) {
            return Err(SimError::UnknownEvent { event: event.0 });
        }
        if !self.event_complete(event) {
            return Err(invalid("event elapsed: not complete"));
        }
        let id = self.event_recorded_by(event).ok_or(invalid("event elapsed: not recorded"))?;
        let root = self.event_root(event);
        let op = self.ops.get(id).ok_or(invalid("event elapsed: missing record op"))?;
        if self.programmatic_is(op.attrs.programmatic_event, root) && op.attrs.pdl.trigger {
            return op.pdl_trigger_ns.ok_or(invalid("event elapsed: programmatic trigger missing"));
        }
        if self.completion_is(op.attrs.launch_completion, root) {
            return op.start_ns.ok_or(invalid("event elapsed: launch completion missing start"));
        }
        op.done_ns.ok_or(invalid("event elapsed: record has no done_ns"))
    }

    /// Nanoseconds from one event to another. Both must be timed, recorded and complete, in this
    /// order.
    pub fn event_elapsed_ns(&self, start: EventId, end: EventId) -> (r: Result<u64, SimError>)
        ensures
            r == self@.event_elapsed_ns(start, end),
    {
        self.require_event_timing(start)?;
        self.require_event_timing(end)?;
        let start_ns: u64 = self.event_done_ns(start)?;
        let end_ns: u64 = self.event_done_ns(end)?;
        if end_ns < start_ns {
            return Err(invalid("event elapsed: end before start"));
        }
        Ok(end_ns.saturating_sub(start_ns))
    }

    /// Whether an operation was submitted by a graph launch.
    pub(crate) fn from_graph(&self, launch: LaunchCost) -> (r: bool)
        ensures
            r == self@.from_graph(launch),
    {
        launch != LaunchCost::Kernel
    }

    /// Whether `op` records the event `root`, graph operations left out if `skip_graph`.
    pub(crate) fn op_records(&self, op: &Op, root: EventId, skip_graph: bool) -> (r: bool)
        ensures
            r == self@.op_records(op@, root, skip_graph),
    {
        match &op.kind {
            GpuOp::EventRecord { event, external } => {
                self.event_root(*event) == root && !(skip_graph && self.from_graph(op.launch))
            },
            _ => false,
        }
    }

    /// Answer for a wait whose event has no usable record yet: wait, or fail if every record was
    /// cancelled.
    pub(crate) fn unrecorded_gate(
        &self,
        root: EventId,
        skip_graph: bool,
    ) -> (r: Result<Option<OpId>, SimError>)
        ensures
            r == self@.unrecorded_gate(root, skip_graph),
    {
        let mut pending: bool = false;
        let mut n: u32 = 0;
        let mut stream: StreamId = StreamId(0);
        let mut i: usize = 0;
        while i < self.ops.len()
            invariant
                i <= order_of(self@.ops.dom()).len(),
                self@.unrecorded_gate(root, skip_graph) == self@.unrecorded_gate_from(
                    root,
                    skip_graph,
                    pending,
                    n,
                    stream,
                    i as int,
                ),
            decreases order_of(self@.ops.dom()).len() - i,
        {
            let op = self.ops.val_at(i);
            if self.op_records(op, root, skip_graph) {
                if op.cancelled {
                    n = n.saturating_add(1);
                    stream = op.stream;
                } else if !op.done {
                    pending = true;
                }
            }
            i += 1;
        }
        if !pending && n > 0 {
            return Err(SimError::Cancelled { stream, n });
        }
        Ok(None)
    }

    /// Record that lets a wait on the event pass, if it has fired.
    pub(crate) fn event_wait_gate(
        &self,
        event: EventId,
        skip_graph: bool,
    ) -> (r: Result<Option<OpId>, SimError>)
        ensures
            r == self@.event_wait_gate(event, skip_graph),
    {
        let root = self.event_root(event);
        match self.event_recorded_by(root) {
            Some(rec) => match self.ops.get(rec) {
                Some(o) => {
                    if skip_graph && self.from_graph(o.launch) {
                        return self.unrecorded_gate(root, skip_graph);
                    }
                    if o.cancelled {
                        return Err(SimError::Cancelled { stream: o.stream, n: 1 });
                    }
                    if self.event_is_recorded(root) {
                        return Ok(Some(rec));
                    }
                    Ok(None)
                },
                None => {
                    if self.event_is_recorded(root) {
                        return Ok(Some(rec));
                    }
                    Ok(None)
                },
            },
            None => self.unrecorded_gate(root, skip_graph),
        }
    }
}

} // verus!
