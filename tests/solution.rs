use bosminer::block_mining::{Problem, Registry, Solution as FoundSolution, SolutionKey};
use bosminer::job::{job_midstate, BlockHeader};
use bosminer::test_utils::{test_blocks, TestBlock};
use bosminer::work::{Assignment, BackendSolution, Midstate, Solution};

fn hex(bytes: &[u8]) -> String {
    bytes.iter().map(|b| format!("{:02x}", b)).collect()
}

#[test]
fn test_block_double_hash() {
    for block in test_blocks().iter() {
        let mut solution: Solution = block.solution();

        // test lazy evaluated hash
        let hash = solution.hash();
        assert_eq!(block.hash, hash);

        // test if hash is the same when it is called second time
        let hash = solution.hash();
        assert_eq!(block.hash, hash);
    }
}

#[test]
fn genesis_header_serialisation() {
    let block = test_blocks()[0];
    let mut solution = block.solution();
    let header = solution.get_block_header();
    assert_eq!(
        hex(&header.to_bytes()),
        "01000000\
         0000000000000000000000000000000000000000000000000000000000000000\
         3ba3edfd7a7b12b27ac72c3e67768f617fc81bc3888a51323a9fb8aa4b1e5e4a\
         29ab5f49ffff001d1dac2b7c"
    );
    // the double hash is not the header, nor its first bytes
    let hash = solution.hash();
    assert_ne!(hash[..], header.to_bytes()[..32]);
    assert_eq!(
        hex(&hash),
        "6fe28c0ab6f1b372c1a6a246ae63f74f931e8365e15a089c68d6190000000000"
    );
}

#[test]
fn memoized_values_are_stable() {
    let block = test_blocks()[1];
    let mut target = [0u8; 32];
    target[27] = 0x7f;
    let block = block.change_target(target);
    let mut solution = block.solution();
    assert_eq!(solution.job_target(), target);
    assert_eq!(solution.job_target(), target);
    assert_eq!(solution.backend_target(), [0u8; 32]);
    assert_eq!(solution.backend_target(), [0u8; 32]);
    let first = solution.hash();
    let second = solution.hash();
    assert_eq!(first, second);
    assert_eq!(first, block.hash);
}

#[test]
fn solution_accessors() {
    let block = test_blocks()[0];
    let solution = block.solution();
    assert_eq!(solution.nonce(), 2083236893);
    assert_eq!(solution.time(), 1231006505);
    assert_eq!(solution.version(), 1);
    assert_eq!(solution.midstate_idx(), 0);
    assert!(solution.has_valid_job());
    assert_eq!(solution.origin(), 1);
    assert_eq!(solution.job().bits, 0x1d00ffff);
}

#[test]
fn merkle_root_tail_reads_last_word() {
    let job = test_blocks()[0].job();
    // merkle root ends with bytes 4b 1e 5e 4a
    assert_eq!(job.merkle_root_tail(), 0x4a5e1e4b);
    let work = Assignment::new(job, vec![], job.time);
    assert_eq!(work.merkle_root_tail(), 0x4a5e1e4b);
    assert_eq!(work.bits(), 0x1d00ffff);
    assert_eq!(work.origin(), 1);
}

#[test]
fn midstate_depends_on_version() {
    let job = test_blocks()[0].job();
    let a = job_midstate(&job, 1);
    let b = job_midstate(&job, 2);
    assert_ne!(a, b);
    assert_eq!(a, test_blocks()[0].midstate);
    assert_ne!(a[..], job.previous_hash[..]);
}

#[test]
fn solution_in_other_midstate() {
    let block = test_blocks()[0];
    let job = block.job();
    let midstates = vec![
        Midstate { version: 7, state: job_midstate(&job, 7) },
        Midstate { version: block.version, state: block.midstate },
    ];
    let work = Assignment::new(job, midstates, block.time);
    let raw = BackendSolution { nonce: block.nonce, midstate_idx: 1, solution_idx: 0, target: [0u8; 32] };
    let mut solution = Solution::new(work, raw, None);
    assert_eq!(solution.version(), 1);
    assert_eq!(solution.hash(), block.hash);
    let header: BlockHeader = solution.get_block_header();
    assert_eq!(header.version, 1);
}

fn block_solution(block: &TestBlock) -> Solution {
    block.solution()
}

#[test]
fn test_registry() {
    let mut registry = Registry::new();
    let block1: Solution = block_solution(&test_blocks()[0]);
    let block2: Solution = block_solution(&test_blocks()[1]);

    // problem can be inserted only once
    assert!(registry.add_problem(Problem::new(block1.clone(), 2)));
    assert!(!registry.add_problem(Problem::new(block1.clone(), 2)));
    // nothing is solved yet
    assert!(!registry.check_everything_solved(false));
    // solve everything and check
    registry.add_solution(FoundSolution::new(block1.clone(), 2));
    assert!(registry.check_everything_solved(false));

    // re-inserting problem doesn't unsolve it
    assert!(!registry.add_problem(Problem::new(block1.clone(), 2)));
    assert!(registry.check_everything_solved(false));

    // test multiple problems
    assert!(registry.add_problem(Problem::new(block1.clone(), 1)));
    assert!(!registry.add_problem(Problem::new(block1.clone(), 1)));
    assert!(registry.add_problem(Problem::new(block2.clone(), 3)));
    assert!(!registry.check_everything_solved(false));
    registry.add_solution(FoundSolution::new(block2.clone(), 3));
    assert!(!registry.check_everything_solved(false));
    registry.add_solution(FoundSolution::new(block1.clone(), 1));
    assert!(registry.check_everything_solved(false));
}

#[test]
fn unknown_solution_changes_nothing() {
    let mut registry = Registry::new();
    let block1 = block_solution(&test_blocks()[0]);
    assert!(registry.add_problem(Problem::new(block1.clone(), 0)));
    registry.add_solution(FoundSolution::new(block1.clone(), 5));
    assert!(!registry.check_everything_solved(true));
    registry.add_solution(FoundSolution::from_solution(block1));
    assert!(registry.check_everything_solved(true));
}

#[test]
fn problem_work_midstates() {
    let block = test_blocks()[0];
    let work = Problem::new(block.solution(), 2).into_work(4);
    assert_eq!(work.midstates.len(), 4);
    assert_eq!(work.midstates[2].version, 1);
    assert_eq!(work.midstates[2].state, block.midstate);
    assert_eq!(work.midstates[0].version, 1 ^ 2);
    assert_eq!(work.midstates[3].version, 1 ^ 3 ^ 2);
    assert_eq!(work.ntime, block.time);
}

#[test]
fn solution_keys() {
    let block = test_blocks()[1];
    let from_problem = SolutionKey::from_problem(Problem::new(block.solution(), 3));
    let from_solution = SolutionKey::from_solution(FoundSolution::new(block.solution(), 3));
    assert_eq!(from_problem.hash, block.hash);
    assert_eq!(from_problem.midstate_idx, 3);
    assert_eq!(from_solution.hash, block.hash);
    assert_eq!(from_solution.midstate_idx, 3);
}

#[test]
fn compact_targets() {
    use_compact();
}

fn use_compact() {
    let t = bosminer::job::compact_target(0x1d00ffff).unwrap();
    let mut expected = [0u8; 32];
    expected[26] = 0xff;
    expected[27] = 0xff;
    assert_eq!(t, expected);

    let t = bosminer::job::compact_target(0x03123456).unwrap();
    assert_eq!(&t[..4], &[0x56, 0x34, 0x12, 0x00]);
    let t = bosminer::job::compact_target(0x02123456).unwrap();
    assert_eq!(&t[..3], &[0x34, 0x12, 0x00]);
    let t = bosminer::job::compact_target(0x22000001).unwrap();
    assert_eq!(t[31], 0x01);

    // negative
    assert!(bosminer::job::compact_target(0x01fedcba).is_none());
    assert!(bosminer::job::compact_target(0x04923456).is_none());
    // overflow
    assert!(bosminer::job::compact_target(0x23000001).is_none());
    assert!(bosminer::job::compact_target(0xff123456).is_none());
    // zero mantissa never overflows
    assert_eq!(bosminer::job::compact_target(0xff000000), Some([0u8; 32]));
}

#[test]
fn network_target_of_solution() {
    let solution = test_blocks()[0].solution();
    let mut expected = [0u8; 32];
    expected[26] = 0xff;
    expected[27] = 0xff;
    assert_eq!(solution.network_target(), expected);
}
