//! Reference-counted user objects and the graphs that hold them.
use vstd::prelude::*;
use crate::error::{invalid, SimError};
use crate::ids::{GraphId, UserObjectId};
use crate::list::picked;
use crate::ops::{GraphUserObjectFlags, UserObjectFlags};
use crate::sim::{Sim, SimState};
use crate::state::{NextIds, UserObject, UserObjectView};
use crate::table::{order_of, Table, vacant};

verus! {

impl SimState {
    /// Effect of [`Sim::user_object_create`].
    pub open spec fn user_object_create(
        self,
        destroy_fn: u64,
        initial_refcount: u32,
        flags: u32,
    ) -> (SimState, Result<UserObjectId, SimError>) {
        let s = self;
        match s.fail_if_capturing("cannot capture user object") {
            Err(e) => (s, Err(e)),
            Ok(_v) => if flags != UserObjectFlags::NO_DESTRUCTOR_SYNC {
                (s, Err(invalid("user object flags")))
            } else if initial_refcount == 0 {
                (s, Err(invalid("user object initial refs")))
            } else {
                let id = UserObjectId(s.next.user_object);
                let s = SimState {
                    next: NextIds { user_object: s.next.user_object.saturating_add(1), ..s.next },
                    ..s
                };
                let s = SimState {
                    user_objects: s.user_objects.insert(
                        id,
                        UserObjectView {
                            destroy_fn,
                            caller: initial_refcount,
                            graphs: Map::empty(),
                        },
                    ),
                    ..s
                };
                let s = s.tick(1);
                (s, Ok(id))
            },
        }
    }

    /// Effect of [`Sim::user_object_retain`].
    pub open spec fn user_object_retain(
        self,
        object: UserObjectId,
        count: u32,
    ) -> (SimState, Result<(), SimError>) {
        let s = self;
        match s.fail_if_capturing("cannot capture user object") {
            Err(e) => (s, Err(e)),
            Ok(_v) => if count == 0 {
                (s, Err(invalid("user object count")))
            } else {
                match s.user_object(object) {
                    Err(e) => (s, Err(e)),
                    Ok(was) => match was.caller.checked_add(count) {
                        Some(n) => {
                            let caller = n;
                            match s.user_object(object) {
                                Err(e) => (s, Err(e)),
                                Ok(obj) => {
                                    let obj = UserObjectView { caller: caller, ..obj };
                                    let s = SimState {
                                        user_objects: s.user_objects.insert(object, obj),
                                        ..s
                                    };
                                    let s = s.tick(1);
                                    (s, Ok(()))
                                },
                            }
                        },
                        None => (s, Err(invalid("user object refs overflow"))),
                    },
                }
            },
        }
    }

    /// Effect of [`Sim::user_object_release`].
    pub open spec fn user_object_release(
        self,
        object: UserObjectId,
        count: u32,
    ) -> (SimState, Result<(), SimError>) {
        let s = self;
        match s.fail_if_capturing("cannot capture user object") {
            Err(e) => (s, Err(e)),
            Ok(_v) => if count == 0 {
                (s, Err(invalid("user object count")))
            } else {
                match s.user_object(object) {
                    Err(e) => (s, Err(e)),
                    Ok(was) => if count > was.caller {
                        (s, Err(invalid("user object refs")))
                    } else {
                        let caller = was.caller.saturating_sub(count);
                        match s.user_object(object) {
                            Err(e) => (s, Err(e)),
                            Ok(obj) => {
                                let obj = UserObjectView { caller: caller, ..obj };
                                let s = SimState {
                                    user_objects: s.user_objects.insert(object, obj),
                                    ..s
                                };
                                let s = s.maybe_destroy_user_object(object);
                                let s = s.tick(1);
                                (s, Ok(()))
                            },
                        }
                    },
                }
            },
        }
    }

    /// Value of [`Sim::held_by`].
    pub open spec fn held_by(self, graph: GraphId, object: UserObjectId) -> u32 {
        match self.user_objects.get(object) {
            Some(u) => match u.graphs.get(graph) {
                Some(n) => n,
                None => 0,
            },
            None => 0,
        }
    }

    /// Effect of [`Sim::take_caller_ref`].
    pub open spec fn take_caller_ref(
        self,
        object: UserObjectId,
    ) -> (SimState, Result<(), SimError>) {
        let s = self;
        match s.user_object(object) {
            Err(e) => (s, Err(e)),
            Ok(obj) => if obj.caller == 0 {
                (s, Err(invalid("user object refs")))
            } else {
                let caller = obj.caller.saturating_sub(1);
                match s.user_object(object) {
                    Err(e) => (s, Err(e)),
                    Ok(o) => {
                        let o = UserObjectView { caller: caller, ..o };
                        let s = SimState { user_objects: s.user_objects.insert(object, o), ..s };
                        (s, Ok(()))
                    },
                }
            },
        }
    }

    /// Effect of [`Sim::graph_retain_user_object`].
    pub open spec fn graph_retain_user_object(
        self,
        graph: GraphId,
        object: UserObjectId,
        count: u32,
        flags: u32,
    ) -> (SimState, Result<(), SimError>) {
        let s = self;
        match s.fail_if_capturing("cannot capture user object") {
            Err(e) => (s, Err(e)),
            Ok(_v) => match s.require_user_object_graph(graph) {
                Err(e) => (s, Err(e)),
                Ok(_v) => if flags & !GraphUserObjectFlags::MOVE != 0 {
                    (s, Err(invalid("user object graph flags")))
                } else if flags & GraphUserObjectFlags::MOVE != 0 {
                    match s.take_caller_ref(object) {
                        (s, Err(e)) => (s, Err(e)),
                        (s, Ok(_v)) => s.add_graph_refs(graph, object, 1),
                    }
                } else if count == 0 {
                    (s, Err(invalid("user object count")))
                } else {
                    s.add_graph_refs(graph, object, count)
                },
            },
        }
    }

    /// Effect of [`Sim::add_graph_refs`].
    #[verifier::opaque]
    pub open spec fn add_graph_refs(
        self,
        graph: GraphId,
        object: UserObjectId,
        count: u32,
    ) -> (SimState, Result<(), SimError>) {
        let s = self;
        match s.user_object(object) {
            Err(e) => (s, Err(e)),
            Ok(_known) => match s.held_by(graph, object).checked_add(count) {
                Some(n) => {
                    let next = n;
                    match s.user_object(object) {
                        Err(e) => (s, Err(e)),
                        Ok(obj) => {
                            let obj = UserObjectView {
                                graphs: obj.graphs.insert(graph, next),
                                ..obj
                            };
                            let s = SimState {
                                user_objects: s.user_objects.insert(object, obj),
                                ..s
                            };
                            let s = s.tick(1);
                            (s, Ok(()))
                        },
                    }
                },
                None => (s, Err(invalid("user object refs overflow"))),
            },
        }
    }

    /// Effect of [`Sim::graph_release_user_object`].
    pub open spec fn graph_release_user_object(
        self,
        graph: GraphId,
        object: UserObjectId,
        count: u32,
    ) -> (SimState, Result<(), SimError>) {
        let s = self;
        match s.fail_if_capturing("cannot capture user object") {
            Err(e) => (s, Err(e)),
            Ok(_v) => match s.require_user_object_graph(graph) {
                Err(e) => (s, Err(e)),
                Ok(_v) => if count == 0 {
                    (s, Err(invalid("user object count")))
                } else {
                    match s.graph_release_user_object_inner(graph, object, count) {
                        (s, Err(e)) => (s, Err(e)),
                        (s, Ok(_v)) => {
                            let s = s.tick(1);
                            (s, Ok(()))
                        },
                    }
                },
            },
        }
    }

    /// Value of [`Sim::user_object_refs`].
    pub open spec fn user_object_refs(self, object: UserObjectId) -> Result<u32, SimError> {
        match self.user_object(object) {
            Err(e) => Err(e),
            Ok(obj) => {
                let sum = 0;
                self.user_object_refs_from(obj, sum, 0)
            },
        }
    }

    /// [`Sim::user_object_refs`] from position `i` on.
    pub open spec fn user_object_refs_from(
        self,
        obj: UserObjectView,
        sum: u32,
        i: int,
    ) -> Result<u32, SimError>
        decreases order_of(obj.graphs.dom()).len() - i,
    {
        if 0 <= i < order_of(obj.graphs.dom()).len() {
            let sum = sum.saturating_add(obj.graphs[order_of(obj.graphs.dom())[i]]);
            self.user_object_refs_from(obj, sum, i + 1)
        } else {
            Ok(obj.caller.saturating_add(sum))
        }
    }

    /// Value of [`Sim::user_object_graph_refs`].
    pub open spec fn user_object_graph_refs(
        self,
        graph: GraphId,
        object: UserObjectId,
    ) -> Result<u32, SimError> {
        match self.graph_ref(graph) {
            Err(e) => Err(e),
            Ok(_g) => match self.user_object(object) {
                Err(e) => Err(e),
                Ok(_u) => Ok(self.held_by(graph, object)),
            },
        }
    }

    /// Value of [`Sim::require_user_object_graph`].
    pub open spec fn require_user_object_graph(self, graph: GraphId) -> Result<(), SimError> {
        match self.graph_ref(graph) {
            Err(e) => Err(e),
            Ok(g) => if g.instantiated {
                Err(invalid("graph instantiated"))
            } else {
                Ok(())
            },
        }
    }

    /// Effect of [`Sim::graph_release_user_object_inner`].
    #[verifier::opaque]
    pub open spec fn graph_release_user_object_inner(
        self,
        graph: GraphId,
        object: UserObjectId,
        count: u32,
    ) -> (SimState, Result<(), SimError>) {
        let s = self;
        match s.user_object(object) {
            Err(e) => (s, Err(e)),
            Ok(_known) => {
                let held = s.held_by(graph, object);
                if count > held {
                    (s, Err(invalid("user object graph refs")))
                } else {
                    let next = held.saturating_sub(count);
                    match s.user_object(object) {
                        Err(e) => (s, Err(e)),
                        Ok(obj) => {
                            let (obj, s) = if next == 0 {
                                let obj = UserObjectView {
                                    graphs: obj.graphs.remove(graph),
                                    ..obj
                                };
                                let s = SimState {
                                    user_objects: s.user_objects.insert(object, obj),
                                    ..s
                                };
                                (obj, s)
                            } else {
                                let obj = UserObjectView {
                                    graphs: obj.graphs.insert(graph, next),
                                    ..obj
                                };
                                let s = SimState {
                                    user_objects: s.user_objects.insert(object, obj),
                                    ..s
                                };
                                (obj, s)
                            };
                            let s = s.maybe_destroy_user_object(object);
                            (s, Ok(()))
                        },
                    }
                }
            },
        }
    }

    /// What position `i` adds to [`Sim::objects_of`].
    pub open spec fn objects_of_at(self, graph: GraphId, i: int) -> Option<(UserObjectId, u32)> {
        let id = order_of(self.user_objects.dom())[i];
        let u = self.user_objects[order_of(self.user_objects.dom())[i]];
        match u.graphs.get(graph) {
            Some(n) => Some((id, n)),
            _ => None,
        }
    }

    /// Value of [`Sim::objects_of`].
    pub open spec fn objects_of(self, graph: GraphId) -> Seq<(UserObjectId, u32)> {
        picked(order_of(self.user_objects.dom()).len(), |i: int| self.objects_of_at(graph, i))
    }

    /// Effect of [`Sim::release_user_objects_for_graph`].
    pub open spec fn release_user_objects_for_graph(self, graph: GraphId) -> SimState {
        let s = self;
        let ids = s.objects_of(graph);
        s.release_user_objects_for_graph_from(graph, ids, 0)
    }

    /// [`Sim::release_user_objects_for_graph`] from position `i` on.
    pub open spec fn release_user_objects_for_graph_from(
        self,
        graph: GraphId,
        ids: Seq<(UserObjectId, u32)>,
        i: int,
    ) -> SimState
        decreases ids.len() - i,
    {
        let s = self;
        if 0 <= i < ids.len() {
            let s = s.graph_release_user_object_inner(graph, ids[i].0, ids[i].1).0;
            s.release_user_objects_for_graph_from(graph, ids, i + 1)
        } else {
            s
        }
    }

    /// Effect of [`Sim::maybe_destroy_user_object`].
    pub open spec fn maybe_destroy_user_object(self, object: UserObjectId) -> SimState {
        let s = self;
        match s.user_objects.get(object) {
            Some(obj) => if obj.caller != 0 || !vacant(obj.graphs.dom()) {
                s
            } else {
                let destroy_fn = obj.destroy_fn;
                let s = SimState { user_objects: s.user_objects.remove(object), ..s };
                let s = SimState {
                    user_object_dtors: s.user_object_dtors.push((object, destroy_fn)),
                    ..s
                };
                s
            },
            _ => s,
        }
    }
}

impl Sim {
    /// New object with `initial_refcount` references of the caller.
    pub fn user_object_create(
        &mut self,
        destroy_fn: u64,
        initial_refcount: u32,
        flags: u32,
    ) -> (r: Result<UserObjectId, SimError>)
        ensures
            final(self)@ == old(self)@.user_object_create(destroy_fn, initial_refcount, flags).0,
            r == old(self)@.user_object_create(destroy_fn, initial_refcount, flags).1,
    {
        self.fail_if_capturing("cannot capture user object")?;
        if flags != UserObjectFlags::NO_DESTRUCTOR_SYNC {
            return Err(invalid("user object flags"));
        }
        if initial_refcount == 0 {
            return Err(invalid("user object initial refs"));
        }
        let id = UserObjectId(self.next.user_object);
        self.next.user_object = self.next.user_object.saturating_add(1);
        self.user_objects.insert(
            id,
            UserObject { destroy_fn, caller: initial_refcount, graphs: Table::new() },
        );
        self.tick(1);
        Ok(id)
    }

    /// More references of the caller.
    pub fn user_object_retain(
        &mut self,
        object: UserObjectId,
        count: u32,
    ) -> (r: Result<(), SimError>)
        ensures
            final(self)@ == old(self)@.user_object_retain(object, count).0,
            r == old(self)@.user_object_retain(object, count).1,
    {
        self.fail_if_capturing("cannot capture user object")?;
        if count == 0 {
            return Err(invalid("user object count"));
        }
        let was = self.user_object(object)?;
        let caller: u32 = match was.caller.checked_add(count) {
            Some(n) => n,
            None => {
                return Err(invalid("user object refs overflow"));
            },
        };
        let obj = self.user_object_mut(object)?;
        obj.caller = caller;
        self.tick(1);
        Ok(())
    }

    /// Fewer references of the caller. The destructor of an object without references runs.
    pub fn user_object_release(
        &mut self,
        object: UserObjectId,
        count: u32,
    ) -> (r: Result<(), SimError>)
        ensures
            final(self)@ == old(self)@.user_object_release(object, count).0,
            r == old(self)@.user_object_release(object, count).1,
    {
        self.fail_if_capturing("cannot capture user object")?;
        if count == 0 {
            return Err(invalid("user object count"));
        }
        let was = self.user_object(object)?;
        if count > was.caller {
            return Err(invalid("user object refs"));
        }
        let caller: u32 = was.caller.saturating_sub(count);
        let obj = self.user_object_mut(object)?;
        obj.caller = caller;
        self.maybe_destroy_user_object(object);
        self.tick(1);
        Ok(())
    }

    /// References of a graph to an object.
    pub(crate) fn held_by(&self, graph: GraphId, object: UserObjectId) -> (r: u32)
        ensures
            r == self@.held_by(graph, object),
    {
        match self.user_objects.get(object) {
            Some(u) => match u.graphs.get(graph) {
                Some(n) => *n,
                None => 0,
            },
            None => 0,
        }
    }

    /// Hand one reference of the caller over.
    pub(crate) fn take_caller_ref(&mut self, object: UserObjectId) -> (r: Result<(), SimError>)
        ensures
            final(self)@ == old(self)@.take_caller_ref(object).0,
            r == old(self)@.take_caller_ref(object).1,
    {
        let obj = self.user_object(object)?;
        if obj.caller == 0 {
            return Err(invalid("user object refs"));
        }
        let caller: u32 = obj.caller.saturating_sub(1);
        let o = self.user_object_mut(object)?;
        o.caller = caller;
        Ok(())
    }

    /// References of a definition: `count` new ones, or one taken from the caller.
    pub fn graph_retain_user_object(
        &mut self,
        graph: GraphId,
        object: UserObjectId,
        count: u32,
        flags: u32,
    ) -> (r: Result<(), SimError>)
        ensures
            final(self)@ == old(self)@.graph_retain_user_object(graph, object, count, flags).0,
            r == old(self)@.graph_retain_user_object(graph, object, count, flags).1,
    {
        self.fail_if_capturing("cannot capture user object")?;
        self.require_user_object_graph(graph)?;
        if flags & !GraphUserObjectFlags::MOVE != 0 {
            return Err(invalid("user object graph flags"));
        }
        if flags & GraphUserObjectFlags::MOVE != 0 {
            self.take_caller_ref(object)?;
            return self.add_graph_refs(graph, object, 1);
        }
        if count == 0 {
            return Err(invalid("user object count"));
        }
        self.add_graph_refs(graph, object, count)
    }

    /// More references of a graph.
    pub(crate) fn add_graph_refs(
        &mut self,
        graph: GraphId,
        object: UserObjectId,
        count: u32,
    ) -> (r: Result<(), SimError>)
        ensures
            final(self)@ == old(self)@.add_graph_refs(graph, object, count).0,
            r == old(self)@.add_graph_refs(graph, object, count).1,
    {
        reveal(SimState::add_graph_refs);
        let _known = self.user_object(object)?;
        let next: u32 = match self.held_by(graph, object).checked_add(count) {
            Some(n) => n,
            None => {
                return Err(invalid("user object refs overflow"));
            },
        };
        let obj = self.user_object_mut(object)?;
        obj.graphs.insert(graph, next);
        self.tick(1);
        Ok(())
    }

    /// Fewer references of a definition.
    pub fn graph_release_user_object(
        &mut self,
        graph: GraphId,
        object: UserObjectId,
        count: u32,
    ) -> (r: Result<(), SimError>)
        ensures
            final(self)@ == old(self)@.graph_release_user_object(graph, object, count).0,
            r == old(self)@.graph_release_user_object(graph, object, count).1,
    {
        self.fail_if_capturing("cannot capture user object")?;
        self.require_user_object_graph(graph)?;
        if count == 0 {
            return Err(invalid("user object count"));
        }
        self.graph_release_user_object_inner(graph, object, count)?;
        self.tick(1);
        Ok(())
    }

    /// References of the caller and of all graphs.
    pub fn user_object_refs(&self, object: UserObjectId) -> (r: Result<u32, SimError>)
        ensures
            r == self@.user_object_refs(object),
    {
        let obj: &UserObject = self.user_object(object)?;
        let mut sum: u32 = 0;
        let mut i: usize = 0;
        while i < obj.graphs.len()
            invariant
                i <= order_of(obj@.graphs.dom()).len(),
                self@.user_object_refs(object) == self@.user_object_refs_from(obj@, sum, i as int),
            decreases order_of(obj@.graphs.dom()).len() - i,
        {
            sum = sum.saturating_add(*obj.graphs.val_at(i));
            i += 1;
        }
        Ok(obj.caller.saturating_add(sum))
    }

    /// References of one graph.
    pub fn user_object_graph_refs(
        &self,
        graph: GraphId,
        object: UserObjectId,
    ) -> (r: Result<u32, SimError>)
        ensures
            r == self@.user_object_graph_refs(graph, object),
    {
        let _g = self.graph_ref(graph)?;
        let _u = self.user_object(object)?;
        Ok(self.held_by(graph, object))
    }

    /// Destructors that have run, in order.
    pub fn user_object_destructors(&self) -> (r: &[(UserObjectId, u64)])
        ensures
            r@ == self@.user_object_dtors,
    {
        self.user_object_dtors.as_slice()
    }

    pub(crate) fn require_user_object_graph(&self, graph: GraphId) -> (r: Result<(), SimError>)
        ensures
            r == self@.require_user_object_graph(graph),
    {
        let g = self.graph_ref(graph)?;
        if g.instantiated {
            return Err(invalid("graph instantiated"));
        }
        Ok(())
    }

    pub(crate) fn graph_release_user_object_inner(
        &mut self,
        graph: GraphId,
        object: UserObjectId,
        count: u32,
    ) -> (r: Result<(), SimError>)
        ensures
            final(self)@ == old(self)@.graph_release_user_object_inner(graph, object, count).0,
            r == old(self)@.graph_release_user_object_inner(graph, object, count).1,
    {
        reveal(SimState::graph_release_user_object_inner);
        let _known = self.user_object(object)?;
        let held: u32 = self.held_by(graph, object);
        if count > held {
            return Err(invalid("user object graph refs"));
        }
        let next: u32 = held.saturating_sub(count);
        let obj = self.user_object_mut(object)?;
        if next == 0 {
            let _gone = obj.graphs.remove(graph);
        } else {
            obj.graphs.insert(graph, next);
        }
        self.maybe_destroy_user_object(object);
        Ok(())
    }

    /// Objects that a graph holds, with its references.
    pub(crate) fn objects_of(&self, graph: GraphId) -> (r: Vec<(UserObjectId, u32)>)
        ensures
            r@ == self@.objects_of(graph),
    {
        let mut out: Vec<(UserObjectId, u32)> = Vec::new();
        let mut i: usize = 0;
        while i < self.user_objects.len()
            invariant
                i <= order_of(self@.user_objects.dom()).len(),
                out@ == picked(i as nat, |j: int| self@.objects_of_at(graph, j)),
            decreases order_of(self@.user_objects.dom()).len() - i,
        {
            let id = self.user_objects.key_at(i);
            let u = self.user_objects.val_at(i);
            if let Some(n) = u.graphs.get(graph) {
                out.push((id, *n));
            }
            i += 1;
        }
        out
    }

    /// Drop every reference of a graph.
    pub(crate) fn release_user_objects_for_graph(&mut self, graph: GraphId)
        ensures
            final(self)@ == old(self)@.release_user_objects_for_graph(graph),
    {
        let ids: Vec<(UserObjectId, u32)> = self.objects_of(graph);
        let mut i: usize = 0;
        while i < ids.len()
            invariant
                i <= ids@.len(),
                old(self)@.release_user_objects_for_graph(graph) == self@.release_user_objects_for_graph_from(
                    graph,
                    ids@,
                    i as int,
                ),
            decreases ids@.len() - i,
        {
            let _done = self.graph_release_user_object_inner(graph, ids[i].0, ids[i].1);
            i += 1;
        }
    }

    /// An object without references goes, and its destructor runs.
    pub(crate) fn maybe_destroy_user_object(&mut self, object: UserObjectId)
        ensures
            final(self)@ == old(self)@.maybe_destroy_user_object(object),
    {
        let Some(obj) = self.user_objects.get(object) else {
            return;
        };
        if obj.caller != 0 || !obj.graphs.is_vacant() {
            return;
        }
        let destroy_fn: u64 = obj.destroy_fn;
        let _gone = self.user_objects.remove(object);
        self.user_object_dtors.push((object, destroy_fn));
    }
}

} // verus!
