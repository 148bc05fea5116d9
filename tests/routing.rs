use bosminer::channel::{engine_channel, EngineGenerator, EngineTable, IgnoreEvents};
use bosminer::hierarchy::{Generated, Registry, SolverBuilder, WorkSolverType};
use bosminer::hub::{BackendInfo, Core};
use bosminer::router::SolutionRouter;
use bosminer::test_utils::{
    create_test_work_generator, create_test_work_solver, test_blocks, TestClient, TestNode,
    TestWorkSolver, TEST_CLIENT_ID,
};
use bosminer::uio::Type;
use bosminer::work::{BackendSolution, Solution};

#[test]
fn registry_keeps_registration_order() {
    let mut registry = Registry::new();
    let top = SolverBuilder::new();
    let hub = top.create_work_hub(&mut registry, 10);
    let (_sender, receiver) = engine_channel(&mut EngineTable::new(), IgnoreEvents);
    let g1 = hub.create_work_solver(&mut registry, 11, receiver.subscribe());
    let _g2 = hub.create_work_solver(&mut registry, 12, receiver);
    assert_eq!(registry.work_solvers(), vec![11, 12]);
    assert_eq!(registry.work_hubs(), vec![10]);
    assert_eq!(registry.root_hub(), Some(10));
    drop(g1);
}

#[test]
fn root_is_recorded_once() {
    let mut registry = Registry::new();
    registry.register_work_hub(1, None);
    registry.register_work_hub(2, Some(1));
    registry.register_work_hub(3, None);
    assert_eq!(registry.root_hub(), Some(1));
    assert_eq!(registry.work_hubs(), vec![1, 2, 3]);
    assert!(registry.work_solvers().is_empty());
}

#[test]
fn origin_loss_drops_solution_and_keeps_routing() {
    let blocks = test_blocks();
    let mut router = SolutionRouter::new();
    assert!(router.add_client(TEST_CLIENT_ID));
    assert!(!router.add_client(TEST_CLIENT_ID));

    let mut gone = blocks[0].assignment();
    gone.job.origin = 99;
    gone.path = vec![5, 6];
    let orphan = Solution::new(gone, blocks[0].backend_solution(), None);
    assert_eq!(orphan.path(&router), vec![5, 6]);

    let mut live = blocks[1].assignment();
    live.path = vec![5, 6];
    let delivered = Solution::new(live, blocks[1].backend_solution(), None);
    assert_eq!(delivered.path(&router), vec![TEST_CLIENT_ID, 5, 6]);

    let dropped = router.route_all(vec![orphan, delivered, blocks[0].solution()]);
    assert_eq!(dropped, 1);
    let sink = router.delivered(TEST_CLIENT_ID).unwrap();
    assert_eq!(sink.len(), 2);
    assert_eq!(sink[0].nonce(), blocks[1].nonce);
    assert_eq!(sink[1].nonce(), blocks[0].nonce);
    assert!(router.delivered(99).is_none());
}

#[test]
fn removed_client_gets_nothing() {
    let blocks = test_blocks();
    let mut router = SolutionRouter::new();
    router.add_client(TEST_CLIENT_ID);
    assert!(router.route(blocks[0].solution()));
    let sink = router.remove_client(TEST_CLIENT_ID).unwrap();
    assert_eq!(sink.solutions.len(), 1);
    assert!(!router.is_alive(TEST_CLIENT_ID));
    assert!(!router.route(blocks[1].solution()));
    assert!(router.remove_client(TEST_CLIENT_ID).is_none());
    assert_eq!(blocks[0].solution().path(&router), Vec::<u64>::new());
}

#[test]
fn test_solvers_connection() {
    let blocks = test_blocks();
    let mut core = Core::new(1, Registry::new(), None);
    let mut work_generator = match core.build_backend(WorkSolverType::WorkSolver(7)) {
        WorkSolverType::WorkSolver(g) => g,
        WorkSolverType::WorkHub(_) => panic!("expected a solver"),
    };
    assert!(core.router().add_client(TEST_CLIENT_ID));

    for block in blocks.iter() {
        core.broadcast_job(block.job());
        let work = match work_generator.generate(core.engines()) {
            Generated::Work(work) => work,
            _ => panic!("no work for the job"),
        };
        // the first rolled version is the block's own version
        assert_eq!(work.midstates.len(), 1);
        assert_eq!(block.midstate, work.midstates[0].state);
        assert_eq!(work.path, vec![7]);
        let raw = BackendSolution { nonce: block.nonce, midstate_idx: 0, solution_idx: 0, target: [0u8; 32] };
        let solution = Solution::new(work, raw, None);
        assert_eq!(solution.path(core.router()), vec![TEST_CLIENT_ID, 7]);
        assert!(core.router().route(solution));
        let sink = core.router().delivered(TEST_CLIENT_ID).unwrap();
        let mut delivered = sink[sink.len() - 1].clone();
        assert_eq!(block.nonce, delivered.nonce());
        assert_eq!(block.hash, delivered.hash());
    }

    // work generator still works even if the client is gone
    core.router().remove_client(TEST_CLIENT_ID);
    assert!(matches!(work_generator.generate(core.engines()), Generated::Work(_)));
}

#[test]
fn core_lookups_degrade_after_teardown() {
    let mut core = Core::new(2, Registry::new(), Some(BackendInfo::default()));
    assert!(core.backend_info().is_some());
    match core.build_backend(WorkSolverType::WorkHub(1)) {
        WorkSolverType::WorkHub(_) => (),
        WorkSolverType::WorkSolver(_) => panic!("expected a hub"),
    }
    match core.build_backend(WorkSolverType::WorkSolver(2)) {
        WorkSolverType::WorkSolver(_) => (),
        WorkSolverType::WorkHub(_) => panic!("expected a solver"),
    }
    assert_eq!(core.get_root_hub(), Some(1));
    assert_eq!(core.get_work_hubs(), vec![1]);
    assert_eq!(core.get_work_solvers(), vec![2]);
    assert!(core.release_registry().is_some());
    assert_eq!(core.get_root_hub(), None);
    assert!(core.get_work_hubs().is_empty());
    assert!(core.get_work_solvers().is_empty());
}

#[test]
fn core_builds_hub_children() {
    let mut core = Core::new(1, Registry::new(), None);
    let hub = match core.build_backend(WorkSolverType::WorkHub(20)) {
        WorkSolverType::WorkHub(b) => b,
        WorkSolverType::WorkSolver(_) => panic!("expected a hub"),
    };
    let mut g1 = core.create_work_solver(&hub, 21);
    let _g2 = core.create_work_solver(&hub, 22);
    let sub = core.create_work_hub(&hub, 23);
    let mut g3 = core.create_work_solver(&sub, 24);
    assert_eq!(core.get_root_hub(), Some(20));
    assert_eq!(core.get_work_hubs(), vec![20, 23]);
    assert_eq!(core.get_work_solvers(), vec![21, 22, 24]);

    // the new solvers are subscribed to the core's engines
    assert!(matches!(g1.generate(core.engines()), Generated::Pending));
    core.broadcast_job(test_blocks()[0].job());
    match g1.generate(core.engines()) {
        Generated::Work(work) => assert_eq!(work.path, vec![20, 21]),
        _ => panic!("expected work"),
    }
    match g3.generate(core.engines()) {
        Generated::Work(work) => assert_eq!(work.path, vec![20, 23, 24]),
        _ => panic!("expected work"),
    }
}

#[test]
fn core_starts_without_work() {
    let mut core = Core::new(4, Registry::new(), None);
    let mut generator = match core.build_backend(WorkSolverType::WorkSolver(1)) {
        WorkSolverType::WorkSolver(g) => g,
        WorkSolverType::WorkHub(_) => panic!("expected a solver"),
    };
    assert!(matches!(generator.generate(core.engines()), Generated::Pending));
}

#[test]
fn test_nodes_and_generator() {
    assert_eq!(TestNode::new().id, 2);
    assert_eq!(TestClient::new().id, TEST_CLIENT_ID);
    assert_eq!(TestWorkSolver::new().id, 3);
    assert_eq!(create_test_work_solver().id, 3);
    let mut table = EngineTable::new();
    let mut generator = create_test_work_generator(&mut table, 3);
    let blocks = test_blocks();
    for block in blocks.iter() {
        match generator.generate(&mut table) {
            Generated::Work(work) => {
                assert_eq!(work.path, vec![3]);
                assert_eq!(work.ntime, block.time);
            }
            _ => panic!("expected work"),
        }
    }
    assert!(matches!(generator.generate(&mut table), Generated::Pending));
}

#[test]
fn generator_waits_for_work() {
    let mut table = EngineTable::new();
    let (mut sender, receiver) = engine_channel(&mut table, IgnoreEvents);
    let mut generator = SolverBuilder::new().create_work_solver(&mut Registry::new(), 4, receiver);
    assert!(matches!(generator.generate(&mut table), Generated::Pending));
    sender.replace_engine_generator(EngineGenerator::VersionRolling(1));
    sender.broadcast_job(&mut table, test_blocks()[0].job());
    assert!(matches!(generator.generate(&mut table), Generated::Work(_)));
    sender.invalidate(&mut table);
    sender.close(&mut table);
    assert!(matches!(generator.generate(&mut table), Generated::Closed));
}

#[test]
fn uio_names() {
    assert_eq!(Type::Command(8).to_uio_name(), "chain8-cmd-rx");
    assert_eq!(Type::Common(1).to_uio_name(), "chain1-common");
    assert_eq!(Type::WorkRx(12).to_uio_name(), "chain12-work-rx");
    assert_eq!(Type::WorkTx(100).to_uio_name(), "chain100-work-tx");
    assert_eq!(Type::GlitchMonitor.to_uio_name(), "miner-glitch-monitor");
    assert_eq!(Type::GlitchMonitor.per_hashchain_instance("x", 3), "chain3-x");
    assert_eq!(Type::GlitchMonitor.shared_instance("y"), "miner-y");
}
