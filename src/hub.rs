//! The core that ties the engine channel, the backend hierarchy and the solution
//! router together.
use vstd::prelude::*;
use crate::channel::{
    engine_channel, EngineGenerator, EngineReceiver, EngineSender, EngineTable, IgnoreEvents,
    EXHAUSTED_ENGINE,
};
use crate::engine::WorkEngine;
use crate::engine::VERSION_ROLLING_COUNT;
use crate::hierarchy::{Generator, Registry, SolverBuilder, WorkSolverType};
use crate::job::{Job, NodeId};
use crate::router::SolutionRouter;

verus! {

/// What a backend reports about itself.
#[derive(Clone, Debug)]
pub struct BackendInfo {
    /// Operating system version of the device.
    pub os_version: String,
    /// Commercial name of the hardware model.
    pub hw_model: String,
    /// Internal identifier of the platform.
    pub platform_name: String,
    /// Unique identifier of the device.
    pub device_id: String,
    /// Software signature the backend substitutes, if any.
    pub bosminer_signature: Option<String>,
}

impl Default for BackendInfo {
    fn default() -> (r: Self)
        ensures
            r.os_version@ == Seq::<char>::empty(),
            r.hw_model@ == Seq::<char>::empty(),
            r.platform_name@ == Seq::<char>::empty(),
            r.device_id@ == Seq::<char>::empty(),
            r.bosminer_signature is None,
    {
        BackendInfo {
            os_version: String::new(),
            hw_model: String::new(),
            platform_name: String::new(),
            device_id: String::new(),
            bosminer_signature: None,
        }
    }
}

/// Configuration a backend hands to the core.
pub trait BackendConfig {
    /// Number of midstates the backend solves at once.
    fn midstate_count(&self) -> usize;

    /// What the backend reports about itself.
    fn info(&self) -> Option<BackendInfo>;
}

/// Engines, hierarchy and routing of one miner.
///
/// The registry may be torn down before the core: lookups then answer empty.
pub struct Core {
    backend_info: Option<BackendInfo>,
    backend_registry: Option<Registry>,
    engines: EngineTable,
    engine_sender: EngineSender,
    engine_receiver: EngineReceiver<IgnoreEvents>,
    router: SolutionRouter,
}

impl Core {
    pub closed spec fn info_spec(&self) -> Option<BackendInfo> {
        self.backend_info
    }

    pub closed spec fn registry_spec(&self) -> Option<Registry> {
        self.backend_registry
    }

    pub closed spec fn engines_spec(&self) -> EngineTable {
        self.engines
    }

    pub closed spec fn sender_spec(&self) -> EngineSender {
        self.engine_sender
    }

    pub closed spec fn receiver_spec(&self) -> EngineReceiver<IgnoreEvents> {
        self.engine_receiver
    }

    pub closed spec fn router_spec(&self) -> SolutionRouter {
        self.router
    }

    pub open spec fn wf(&self) -> bool {
        &&& self.engines_spec().wf()
        &&& self.sender_spec().wf(&self.engines_spec())
        &&& self.receiver_spec().wf(&self.engines_spec())
        &&& self.sender_spec().slot_spec() == Some(self.receiver_spec().slot_spec())
        &&& self.sender_spec().generator_spec() is Some
        &&& self.router_spec().wf()
    }

    /// A core whose jobs become version-rolling engines with `midstate_count`
    /// midstates per assignment.
    pub fn new(midstate_count: usize, backend_registry: Registry, backend_info: Option<BackendInfo>) -> (r: Self)
        requires
            1 <= midstate_count <= VERSION_ROLLING_COUNT,
        ensures
            r.wf(),
            r.registry_spec() == Some(backend_registry),
            r.info_spec() == backend_info,
            r.sender_spec().generator_spec() == Some(EngineGenerator::VersionRolling(midstate_count as u32)),
            r.router_spec().sinks_spec() == Seq::<crate::router::ClientSink>::empty(),
            r.sender_spec().current_spec() == EXHAUSTED_ENGINE,
            r.engines_spec().current_spec(r.receiver_spec().slot_spec()) == EXHAUSTED_ENGINE,
            r.engines_spec().engines_spec() == seq![WorkEngine::Exhausted],
    {
        let mut engines = EngineTable::new();
        let (mut engine_sender, engine_receiver) = engine_channel(&mut engines, IgnoreEvents);
        engine_sender.replace_engine_generator(EngineGenerator::VersionRolling(midstate_count as u32));
        Core {
            backend_info,
            backend_registry: Some(backend_registry),
            engines,
            engine_sender,
            engine_receiver,
            router: SolutionRouter::new(),
        }
    }

    /// Registers the root node of a backend: a hub gives a builder for the rest of
    /// the backend's hierarchy, a solver gives the solver's work generator.
    pub fn build_backend(&mut self, root: WorkSolverType<NodeId, NodeId>) -> (r: WorkSolverType<
        SolverBuilder,
        Generator<IgnoreEvents>,
    >)
        requires
            old(self).wf(),
            old(self).registry_spec() is Some,
        ensures
            final(self).wf(),
            final(self).registry_spec() is Some,
            final(self).engines_spec() == old(self).engines_spec(),
            final(self).router_spec() == old(self).router_spec(),
            match root {
                WorkSolverType::WorkHub(hub) => r matches WorkSolverType::WorkHub(b) && b.path_spec() == seq![hub]
                    && final(self).registry_spec().unwrap().hubs_spec() == old(self).registry_spec().unwrap().hubs_spec().push(hub)
                    && final(self).registry_spec().unwrap().solvers_spec() == old(self).registry_spec().unwrap().solvers_spec()
                    && final(self).registry_spec().unwrap().root_spec() == if old(self).registry_spec().unwrap().root_spec() is None {
                        Some(hub)
                    } else {
                        old(self).registry_spec().unwrap().root_spec()
                    },
                WorkSolverType::WorkSolver(solver) => r matches WorkSolverType::WorkSolver(g) && g.path_spec() == seq![solver]
                    && g.receiver_spec().slot_spec() == old(self).receiver_spec().slot_spec()
                    && final(self).registry_spec().unwrap().solvers_spec() == old(self).registry_spec().unwrap().solvers_spec().push(solver)
                    && final(self).registry_spec().unwrap().hubs_spec() == old(self).registry_spec().unwrap().hubs_spec()
                    && final(self).registry_spec().unwrap().root_spec() == old(self).registry_spec().unwrap().root_spec(),
            },
    {
        let builder = SolverBuilder::new();
        let mut registry = match self.backend_registry.take() {
            Some(r) => r,
            None => vstd::pervasive::unreached(),
        };
        let r = match root {
            WorkSolverType::WorkHub(hub) => {
                WorkSolverType::WorkHub(builder.create_work_hub(&mut registry, hub))
            },
            WorkSolverType::WorkSolver(solver) => {
                let receiver = self.engine_receiver.subscribe();
                WorkSolverType::WorkSolver(builder.create_work_solver(&mut registry, solver, receiver))
            },
        };
        self.backend_registry = Some(registry);
        r
    }

    /// Registers `hub` as a child of the hub that `parent` builds under, and returns
    /// a builder for the new hub's children.
    pub fn create_work_hub(&mut self, parent: &SolverBuilder, hub: NodeId) -> (r: SolverBuilder)
        requires
            old(self).registry_spec() is Some,
        ensures
            final(self).registry_spec() is Some,
            r.path_spec() == parent.path_spec().push(hub),
            Registry::hub_registered(
                old(self).registry_spec().unwrap(),
                hub,
                if parent.path_spec().len() == 0 {
                    None
                } else {
                    Some(parent.path_spec().last())
                },
                final(self).registry_spec().unwrap(),
            ),
            final(self).engines_spec() == old(self).engines_spec(),
            final(self).sender_spec() == old(self).sender_spec(),
            final(self).receiver_spec() == old(self).receiver_spec(),
            final(self).router_spec() == old(self).router_spec(),
    {
        let mut registry = match self.backend_registry.take() {
            Some(r) => r,
            None => vstd::pervasive::unreached(),
        };
        let r = parent.create_work_hub(&mut registry, hub);
        self.backend_registry = Some(registry);
        r
    }

    /// Registers `solver` as a child of the hub that `parent` builds under, and
    /// returns its work generator, subscribed to this core's engines.
    pub fn create_work_solver(&mut self, parent: &SolverBuilder, solver: NodeId) -> (r: Generator<IgnoreEvents>)
        requires
            old(self).registry_spec() is Some,
        ensures
            final(self).registry_spec() is Some,
            r.path_spec() == parent.path_spec().push(solver),
            r.receiver_spec().slot_spec() == old(self).receiver_spec().slot_spec(),
            Registry::solver_registered(
                old(self).registry_spec().unwrap(),
                solver,
                final(self).registry_spec().unwrap(),
            ),
            final(self).engines_spec() == old(self).engines_spec(),
            final(self).sender_spec() == old(self).sender_spec(),
            final(self).receiver_spec() == old(self).receiver_spec(),
            final(self).router_spec() == old(self).router_spec(),
    {
        let mut registry = match self.backend_registry.take() {
            Some(r) => r,
            None => vstd::pervasive::unreached(),
        };
        let receiver = self.engine_receiver.subscribe();
        let r = parent.create_work_solver(&mut registry, solver, receiver);
        self.backend_registry = Some(registry);
        r
    }

    /// Whether the registry still exists.
    pub fn has_registry(&self) -> (r: bool)
        ensures
            r == self.registry_spec() is Some,
    {
        self.backend_registry.is_some()
    }

    /// The registry is gone: the hierarchy has been torn down.
    pub fn release_registry(&mut self) -> (r: Option<Registry>)
        ensures
            r == old(self).registry_spec(),
            final(self).registry_spec() is None,
            final(self).engines_spec() == old(self).engines_spec(),
            final(self).sender_spec() == old(self).sender_spec(),
            final(self).receiver_spec() == old(self).receiver_spec(),
            final(self).router_spec() == old(self).router_spec(),
    {
        self.backend_registry.take()
    }

    pub fn backend_info(&self) -> (r: &Option<BackendInfo>)
        ensures
            *r == self.info_spec(),
    {
        &self.backend_info
    }

    pub fn get_root_hub(&self) -> (r: Option<NodeId>)
        ensures
            r == match self.registry_spec() {
                Some(reg) => reg.root_spec(),
                None => None,
            },
    {
        match &self.backend_registry {
            Some(reg) => reg.root_hub(),
            None => None,
        }
    }

    /// A copy of the registered hubs; empty once the registry is gone.
    pub fn get_work_hubs(&self) -> (r: Vec<NodeId>)
        ensures
            r@ == match self.registry_spec() {
                Some(reg) => reg.hubs_spec(),
                None => Seq::empty(),
            },
    {
        match &self.backend_registry {
            Some(reg) => reg.work_hubs(),
            None => Vec::new(),
        }
    }

    /// A copy of the registered solvers; empty once the registry is gone.
    pub fn get_work_solvers(&self) -> (r: Vec<NodeId>)
        ensures
            r@ == match self.registry_spec() {
                Some(reg) => reg.solvers_spec(),
                None => Seq::empty(),
            },
    {
        match &self.backend_registry {
            Some(reg) => reg.work_solvers(),
            None => Vec::new(),
        }
    }

    /// The engines and slots that generators pull from.
    pub fn engines(&mut self) -> (r: &mut EngineTable)
        ensures
            *r == old(self).engines_spec(),
            final(self).engines_spec() == *final(r),
            final(self).sender_spec() == old(self).sender_spec(),
            final(self).receiver_spec() == old(self).receiver_spec(),
            final(self).router_spec() == old(self).router_spec(),
            final(self).registry_spec() == old(self).registry_spec(),
    {
        &mut self.engines
    }

    /// Turns `job` into an engine and puts it on offer to every solver.
    pub fn broadcast_job(&mut self, job: Job)
        requires
            old(self).wf(),
        ensures
            final(self).wf(),
            final(self).router_spec() == old(self).router_spec(),
            final(self).registry_spec() == old(self).registry_spec(),
            exists|e: crate::engine::WorkEngine|
                old(self).sender_spec().generator_spec().unwrap().generates(job, e) && #[trigger] EngineSender::broadcast_post(
                    &old(self).sender_spec(),
                    &old(self).engines_spec(),
                    e,
                    &final(self).sender_spec(),
                    &final(self).engines_spec(),
                ),
    {
        self.engine_sender.broadcast_job(&mut self.engines, job);
    }

    /// The solution router, to add and remove clients.
    pub fn router(&mut self) -> (r: &mut SolutionRouter)
        ensures
            *r == old(self).router_spec(),
            final(self).router_spec() == *final(r),
            final(self).engines_spec() == old(self).engines_spec(),
            final(self).sender_spec() == old(self).sender_spec(),
            final(self).receiver_spec() == old(self).receiver_spec(),
            final(self).registry_spec() == old(self).registry_spec(),
    {
        &mut self.router
    }
}

} // verus!
