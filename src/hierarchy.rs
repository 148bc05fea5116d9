//! The backend hierarchy: work hubs that branch and work solvers that compute,
//! the registry that records them, and the work generator each solver pulls from.
use vstd::prelude::*;
use crate::channel::{EnginePoll, EngineReceiver, EngineTable, ExhaustedHandler};
use crate::engine::WorkEngine;
use crate::job::NodeId;
use crate::work::{Assignment, LoopState};

verus! {

/// Kind of a hierarchy node, each carrying what is needed to build one.
pub enum WorkSolverType<H, S> {
    /// A node that branches into further hubs and solvers.
    WorkHub(H),
    /// A terminal device that computes.
    WorkSolver(S),
}

/// The root hub and every hub and solver, in registration order.
pub struct Registry {
    root_hub: Option<NodeId>,
    work_hubs: Vec<NodeId>,
    work_solvers: Vec<NodeId>,
}

impl Registry {
    pub closed spec fn root_spec(&self) -> Option<NodeId> {
        self.root_hub
    }

    pub closed spec fn hubs_spec(&self) -> Seq<NodeId> {
        self.work_hubs@
    }

    pub closed spec fn solvers_spec(&self) -> Seq<NodeId> {
        self.work_solvers@
    }

    /// `new` is `old` after registering `hub` under `parent`.
    pub open spec fn hub_registered(old: Registry, hub: NodeId, parent: Option<NodeId>, new: Registry) -> bool {
        &&& new.hubs_spec() == old.hubs_spec().push(hub)
        &&& new.solvers_spec() == old.solvers_spec()
        &&& new.root_spec() == if old.root_spec() is None && parent is None {
            Some(hub)
        } else {
            old.root_spec()
        }
    }

    /// `new` is `old` after registering `solver`.
    pub open spec fn solver_registered(old: Registry, solver: NodeId, new: Registry) -> bool {
        &&& new.solvers_spec() == old.solvers_spec().push(solver)
        &&& new.hubs_spec() == old.hubs_spec()
        &&& new.root_spec() == old.root_spec()
    }

    pub fn new() -> (r: Self)
        ensures
            r.root_spec() is None,
            r.hubs_spec() == Seq::<NodeId>::empty(),
            r.solvers_spec() == Seq::<NodeId>::empty(),
    {
        Registry { root_hub: None, work_hubs: Vec::new(), work_solvers: Vec::new() }
    }

    /// Records `hub`; the first hub without a parent becomes the root, once.
    pub fn register_work_hub(&mut self, hub: NodeId, parent: Option<NodeId>)
        ensures
            Self::hub_registered(*old(self), hub, parent, *final(self)),
    {
        if self.root_hub.is_none() && parent.is_none() {
            self.root_hub = Some(hub);
        }
        self.work_hubs.push(hub);
    }

    /// Records `solver`.
    pub fn register_work_solver(&mut self, solver: NodeId)
        ensures
            Self::solver_registered(*old(self), solver, *final(self)),
    {
        self.work_solvers.push(solver);
    }

    pub fn root_hub(&self) -> (r: Option<NodeId>)
        ensures
            r == self.root_spec(),
    {
        self.root_hub
    }

    /// A copy of the registered hubs.
    pub fn work_hubs(&self) -> (r: Vec<NodeId>)
        ensures
            r@ == self.hubs_spec(),
    {
        self.work_hubs.clone()
    }

    /// A copy of the registered solvers.
    pub fn work_solvers(&self) -> (r: Vec<NodeId>)
        ensures
            r@ == self.solvers_spec(),
    {
        self.work_solvers.clone()
    }
}

/// Registering a hub into an empty registry and then two solvers under it leaves
/// exactly that hub, as the root, and those two solvers, in registration order.
pub proof fn lemma_registration_order(
    r0: Registry,
    r1: Registry,
    r2: Registry,
    r3: Registry,
    hub: NodeId,
    s1: NodeId,
    s2: NodeId,
)
    requires
        r0.hubs_spec() == Seq::<NodeId>::empty(),
        r0.solvers_spec() == Seq::<NodeId>::empty(),
        r0.root_spec() is None,
        Registry::hub_registered(r0, hub, None, r1),
        Registry::solver_registered(r1, s1, r2),
        Registry::solver_registered(r2, s2, r3),
    ensures
        r3.hubs_spec() == seq![hub],
        r3.solvers_spec() == seq![s1, s2],
        r3.root_spec() == Some(hub),
{
    assert(r3.hubs_spec() =~= seq![hub]);
    assert(r3.solvers_spec() =~= seq![s1, s2]);
}

/// What a work generator hands a solver.
pub enum Generated {
    Work(Assignment),
    /// No engine with work on offer: wait for a broadcast.
    Pending,
    /// No engine with work, and none will come.
    Closed,
}

/// A solver's source of work: pulls from the engine on offer and stamps each
/// assignment with the solver's place in the hierarchy.
pub struct Generator<H> {
    engine_receiver: EngineReceiver<H>,
    path: Vec<NodeId>,
}

impl<H: ExhaustedHandler> Generator<H> {
    pub closed spec fn receiver_spec(&self) -> &EngineReceiver<H> {
        &self.engine_receiver
    }

    /// Nodes from the root down to the solver.
    pub closed spec fn path_spec(&self) -> Seq<NodeId> {
        self.path@
    }

    pub fn new(engine_receiver: EngineReceiver<H>, path: Vec<NodeId>) -> (r: Self)
        ensures
            *r.receiver_spec() == engine_receiver,
            r.path_spec() == path@,
    {
        Generator { engine_receiver, path }
    }

    /// Whether the generator's receiver belongs to `t`.
    pub fn is_attached(&self, t: &EngineTable) -> (r: bool)
        ensures
            r == self.receiver_spec().wf(t),
    {
        self.engine_receiver.is_attached(t)
    }

    /// The next assignment of the engine on offer, with the solver's path; the
    /// receiver's handler is told when that was the engine's last assignment.
    pub fn generate(&mut self, t: &mut EngineTable) -> (r: Generated)
        requires
            old(t).wf(),
            old(self).receiver_spec().wf(old(t)),
        ensures
            final(t).wf(),
            final(self).receiver_spec().wf(final(t)),
            final(self).path_spec() == old(self).path_spec(),
            final(t).slots_spec() == old(t).slots_spec(),
            final(t).engines_spec().len() == old(t).engines_spec().len(),
            match EngineReceiver::<H>::poll_spec(old(t), old(self).receiver_spec().slot_spec()) {
                EnginePoll::Ready(id) => {
                    &&& r matches Generated::Work(a)
                    &&& a.path@ == old(self).path_spec()
                    &&& exists|s: LoopState<Assignment>|
                        #![trigger WorkEngine::next_post(old(t).engines_spec()[id as int], s, final(t).engines_spec()[id as int])]
                        WorkEngine::next_post(old(t).engines_spec()[id as int], s, final(t).engines_spec()[id as int])
                            && match s {
                            LoopState::Break(w) => a == (Assignment { path: a.path, ..w }),
                            LoopState::Continue(w) => a == (Assignment { path: a.path, ..w }),
                            LoopState::Exhausted => false,
                        }
                    &&& final(t).engines_spec() == old(t).engines_spec().update(
                        id as int,
                        final(t).engines_spec()[id as int],
                    )
                },
                EnginePoll::Pending => r is Pending && *final(t) == *old(t),
                EnginePoll::Closed => r is Closed && *final(t) == *old(t),
            },
    {
        match self.engine_receiver.get_engine(t) {
            EnginePoll::Ready(id) => {
                let state = t.next_work(id);
                let ghost s = state;
                let mut work = match state {
                    LoopState::Break(work) => {
                        self.engine_receiver.handle_exhausted(id);
                        work
                    },
                    LoopState::Continue(work) => work,
                    LoopState::Exhausted => vstd::pervasive::unreached(),
                };
                let ghost w = work;
                work.path = self.path.clone();
                assert(WorkEngine::next_post(old(t).engines_spec()[id as int], s, t.engines_spec()[id as int]));
                Generated::Work(work)
            },
            EnginePoll::Pending => Generated::Pending,
            EnginePoll::Closed => Generated::Closed,
        }
    }
}

/// Builds the hierarchy below one hub: registers nodes and hands out generators.
pub struct SolverBuilder {
    path: Vec<NodeId>,
}

impl SolverBuilder {
    /// Nodes from the root down to the hub this builder builds under.
    pub closed spec fn path_spec(&self) -> Seq<NodeId> {
        self.path@
    }

    /// A builder for the top of the hierarchy.
    pub fn new() -> (r: Self)
        ensures
            r.path_spec() == Seq::<NodeId>::empty(),
    {
        SolverBuilder { path: Vec::new() }
    }

    /// Registers `hub` below this builder's hub and returns a builder for its children.
    pub fn create_work_hub(&self, registry: &mut Registry, hub: NodeId) -> (r: SolverBuilder)
        ensures
            r.path_spec() == self.path_spec().push(hub),
            Registry::hub_registered(
                *old(registry),
                hub,
                if self.path_spec().len() == 0 {
                    None
                } else {
                    Some(self.path_spec().last())
                },
                *final(registry),
            ),
    {
        let parent = if self.path.len() == 0 {
            None
        } else {
            Some(self.path[self.path.len() - 1])
        };
        registry.register_work_hub(hub, parent);
        let mut path = self.path.clone();
        path.push(hub);
        SolverBuilder { path }
    }

    /// Registers `solver` below this builder's hub and returns its work generator.
    pub fn create_work_solver<H: ExhaustedHandler>(
        &self,
        registry: &mut Registry,
        solver: NodeId,
        engine_receiver: EngineReceiver<H>,
    ) -> (r: Generator<H>)
        ensures
            r.path_spec() == self.path_spec().push(solver),
            *r.receiver_spec() == engine_receiver,
            Registry::solver_registered(*old(registry), solver, *final(registry)),
    {
        registry.register_work_solver(solver);
        let mut path = self.path.clone();
        path.push(solver);
        Generator::new(engine_receiver, path)
    }
}

} // verus!
