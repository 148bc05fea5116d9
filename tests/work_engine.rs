use bosminer::channel::{engine_channel, EngineGenerator, EnginePoll, EngineSender, EngineTable, ExhaustedLog, IgnoreEvents};
use bosminer::engine::{OneWorkEngine, VersionRolling, WorkEngine, VERSION_ROLLING_MASK};
use bosminer::test_utils::{create_test_work_receiver, test_blocks, TestBlock, TestWorkEngine};
use bosminer::work::{Assignment, LoopState};

fn cmp_block_with_work(block: &TestBlock, work: Assignment) -> Assignment {
    assert_eq!(block.midstate, work.midstates[0].state);
    assert_eq!(block.job().merkle_root_tail(), work.merkle_root_tail());
    assert_eq!(block.time, work.ntime);
    assert_eq!(block.bits, work.bits());
    work
}

fn ready(poll: EnginePoll) -> usize {
    match poll {
        EnginePoll::Ready(id) => id,
        _ => panic!("cannot get test work engine"),
    }
}

#[test]
fn test_work_receiver() {
    let mut table = EngineTable::new();
    let mut work_receiver = create_test_work_receiver(&mut table);
    let test_engine = ready(work_receiver.get_engine(&table));

    // test work engine is not exhausted so it should return the same engine
    assert_eq!(test_engine, ready(work_receiver.get_engine(&table)));

    let mut work_break = false;
    for block in test_blocks().iter() {
        match table
            .next_work(test_engine)
            .map(|work| cmp_block_with_work(block, work))
        {
            LoopState::Exhausted => {
                panic!("test work generator returned less work than expected")
            }
            LoopState::Break(_) => {
                assert!(!work_break, "test work generator returned double break");
                work_break = true;
            }
            LoopState::Continue(_) => {
                assert!(!work_break, "test work generator continues after break")
            }
        }
    }
    assert!(
        work_break,
        "test work generator returned more work than expected"
    );
    match table.next_work(test_engine) {
        LoopState::Exhausted => (),
        _ => panic!("test work generator continues after returning all work"),
    };
}

#[test]
fn one_work_engine_breaks_once_then_stays_exhausted() {
    let block = test_blocks()[0];
    let mut engine = OneWorkEngine::new(block.assignment());
    assert!(!engine.is_exhausted());
    match engine.next_work() {
        LoopState::Break(work) => assert_eq!(work.ntime, block.time),
        _ => panic!("expected the only assignment as Break"),
    }
    assert!(engine.is_exhausted());
    for _ in 0..3 {
        assert!(matches!(engine.next_work(), LoopState::Exhausted));
    }
}

#[test]
fn one_work_engine_terminate() {
    let block = test_blocks()[0];
    let mut engine = OneWorkEngine::new(block.assignment());
    engine.lock_inner().terminate();
    assert!(engine.is_exhausted());
    assert!(matches!(engine.next_work(), LoopState::Exhausted));
}

#[test]
fn version_rolling_fan_out() {
    let job = test_blocks()[0].job();
    let mut engine = VersionRolling::new(job, 4);
    let work = engine.next_work().unwrap();
    assert_eq!(work.midstates.len(), 4);
    assert_eq!(work.generated_work_amount(), 4);
    for i in 0..4 {
        for j in (i + 1)..4 {
            assert_ne!(work.midstates[i].version, work.midstates[j].version);
        }
    }
    let base = job.version & !VERSION_ROLLING_MASK;
    assert_eq!(work.midstates[0].version, base);
    assert_eq!(work.midstates[1].version, base | (1 << 13));
    assert_eq!(work.midstates[3].version, base | (3 << 13));
    assert_ne!(work.midstates[0].state, work.midstates[1].state);
    assert_eq!(work.ntime, job.time);
    assert!(work.path.is_empty());
    let next = engine.next_work().unwrap();
    assert_eq!(next.midstates[0].version, base | (4 << 13));
}

#[test]
fn version_rolling_runs_out_with_break() {
    let job = test_blocks()[1].job();
    // 65536 rolled values, 16384 per assignment: four assignments, the last a Break
    let mut engine = VersionRolling::new(job, 16384);
    assert!(matches!(engine.next_work(), LoopState::Continue(_)));
    assert!(matches!(engine.next_work(), LoopState::Continue(_)));
    assert!(matches!(engine.next_work(), LoopState::Continue(_)));
    assert!(matches!(engine.next_work(), LoopState::Break(_)));
    assert!(engine.is_exhausted());
    assert!(matches!(engine.next_work(), LoopState::Exhausted));
    assert!(matches!(engine.next_work(), LoopState::Exhausted));
}

#[test]
fn version_rolling_terminate() {
    let mut engine = WorkEngine::VersionRolling(VersionRolling::new(test_blocks()[0].job(), 1));
    assert!(!engine.is_exhausted());
    engine.terminate();
    assert!(engine.is_exhausted());
    assert!(matches!(engine.next_work(), LoopState::Exhausted));
}

#[test]
fn test_work_engine_over_blocks() {
    let mut engine = TestWorkEngine::new();
    assert!(matches!(engine.next_work(), LoopState::Continue(_)));
    assert!(matches!(engine.next_work(), LoopState::Break(_)));
    assert!(matches!(engine.next_work(), LoopState::Exhausted));
}

#[test]
fn loop_state_unwrap_and_map() {
    assert_eq!(LoopState::Break(3u32).unwrap(), 3);
    assert_eq!(LoopState::Continue(4u32).unwrap(), 4);
    assert!(matches!(LoopState::Break(3u32).map(|x| x + 1), LoopState::Break(4)));
    assert!(matches!(LoopState::Continue(3u32).map(|x| x * 2), LoopState::Continue(6)));
    assert!(matches!(LoopState::<u32>::Exhausted.map(|x| x + 1), LoopState::Exhausted));
}

#[test]
fn channel_starts_exhausted_and_waits() {
    let mut table = EngineTable::new();
    let (sender, mut receiver) = engine_channel(&mut table, IgnoreEvents);
    assert_eq!(receiver.get_engine(&table), EnginePoll::Pending);
    assert!(!receiver.has_news(&table));
    sender.close(&mut table);
    assert!(receiver.has_news(&table));
    assert_eq!(receiver.get_engine(&table), EnginePoll::Closed);
}

#[test]
fn last_value_wins() {
    let mut table = EngineTable::new();
    let (mut sender, mut receiver) = engine_channel(&mut table, IgnoreEvents);
    let blocks = test_blocks();
    sender.broadcast_engine(&mut table, WorkEngine::One(OneWorkEngine::new(blocks[0].assignment())));
    sender.broadcast_engine(&mut table, WorkEngine::One(OneWorkEngine::new(blocks[1].assignment())));
    sender.broadcast_engine(&mut table, WorkEngine::VersionRolling(VersionRolling::new(blocks[1].job(), 2)));
    assert!(receiver.has_news(&table));
    let id = ready(receiver.get_engine(&table));
    assert_eq!(id, 3);
    assert!(!receiver.has_news(&table));
    match table.next_work(id) {
        LoopState::Continue(work) => assert_eq!(work.midstates.len(), 2),
        _ => panic!("expected work from the last engine"),
    }
}

#[test]
fn single_broadcast_after_subscription_is_observed() {
    let mut table = EngineTable::new();
    let (mut sender, mut receiver) = engine_channel(&mut table, IgnoreEvents);
    let other = receiver.subscribe();
    let mut other = other;
    sender.broadcast_engine(&mut table, WorkEngine::One(OneWorkEngine::new(test_blocks()[0].assignment())));
    assert_eq!(receiver.get_engine(&table), EnginePoll::Ready(1));
    assert_eq!(other.get_engine(&table), EnginePoll::Ready(1));
}

#[test]
fn exhausted_engine_is_skipped() {
    let mut table = EngineTable::new();
    let (mut sender, mut receiver) = engine_channel(&mut table, ExhaustedLog::new());
    sender.broadcast_engine(&mut table, WorkEngine::One(OneWorkEngine::new(test_blocks()[0].assignment())));
    let id = ready(receiver.get_engine(&table));
    assert!(matches!(table.next_work(id), LoopState::Break(_)));
    receiver.handle_exhausted(id);
    assert_eq!(receiver.event_handler().engines, vec![id]);
    receiver.handle_exhausted(7);
    assert_eq!(receiver.event_handler().engines, vec![id, 7]);
    assert_eq!(receiver.get_engine(&table), EnginePoll::Pending);
}

#[test]
fn broadcast_job_uses_generator() {
    let mut table = EngineTable::new();
    let (mut sender, mut receiver) = engine_channel(&mut table, IgnoreEvents);
    // a fresh sender has no generator: broadcasting a job is not allowed yet
    assert!(!sender.has_engine_generator());
    assert!(sender.replace_engine_generator(EngineGenerator::Exhausted).is_none());
    sender.broadcast_job(&mut table, test_blocks()[0].job());
    assert_eq!(receiver.get_engine(&table), EnginePoll::Pending);
    let previous = sender.replace_engine_generator(EngineGenerator::VersionRolling(2));
    assert!(matches!(previous, Some(EngineGenerator::Exhausted)));
    assert!(sender.has_engine_generator());
    sender.broadcast_job(&mut table, test_blocks()[0].job());
    let id = ready(receiver.get_engine(&table));
    assert_eq!(table.next_work(id).unwrap().midstates.len(), 2);
    sender.invalidate(&mut table);
    assert_eq!(receiver.get_engine(&table), EnginePoll::Pending);
}

#[test]
fn swap_sender_moves_subscribers() {
    let mut table = EngineTable::new();
    let (mut a, mut rx_a) = engine_channel(&mut table, IgnoreEvents);
    let mut b = EngineSender::new(
        &mut table,
        Some(WorkEngine::One(OneWorkEngine::new(test_blocks()[1].assignment()))),
    );
    let (mut c, mut rx_c) = engine_channel(&mut table, IgnoreEvents);
    a.broadcast_engine(&mut table, WorkEngine::One(OneWorkEngine::new(test_blocks()[0].assignment())));
    let a_engine = ready(rx_a.get_engine(&table));
    // b has no subscribers: after the swap its engine reaches a's receivers
    a.swap_sender(&mut b, &mut table);
    assert_eq!(rx_a.get_engine(&table), EnginePoll::Ready(1));
    a.broadcast_engine(&mut table, WorkEngine::VersionRolling(VersionRolling::new(test_blocks()[0].job(), 1)));
    assert_eq!(rx_a.get_engine(&table), EnginePoll::Ready(1));
    b.swap_sender(&mut c, &mut table);
    assert_eq!(rx_c.get_engine(&table), EnginePoll::Ready(1));
    assert_eq!(rx_a.get_engine(&table), EnginePoll::Pending);
    assert_ne!(a_engine, 1);
}
