//! Nodes, blocks and engines for exercising the library.
use vstd::prelude::*;
use crate::channel::{engine_channel, EngineReceiver, EngineTable, IgnoreEvents};
use crate::engine::WorkEngine;
use crate::hashing::DHash;
use crate::hierarchy::Generator;
use crate::job::{Job, NodeId, Target};
use crate::work::{Assignment, BackendSolution, LoopState, Midstate, Solution};

verus! {

/// Node identity of the client that supplies the test blocks.
pub const TEST_CLIENT_ID: NodeId = 1;

/// Node identity of a test node.
pub const TEST_NODE_ID: NodeId = 2;

/// Node identity of a test work solver.
pub const TEST_WORK_SOLVER_ID: NodeId = 3;

/// A generic hierarchy node.
#[derive(Clone, Copy, Debug)]
pub struct TestNode {
    pub id: NodeId,
}

impl TestNode {
    pub fn new() -> (r: Self)
        ensures
            r.id == TEST_NODE_ID,
    {
        TestNode { id: TEST_NODE_ID }
    }
}

/// The client that supplies the test blocks.
#[derive(Clone, Copy, Debug)]
pub struct TestClient {
    pub id: NodeId,
}

impl TestClient {
    pub fn new() -> (r: Self)
        ensures
            r.id == TEST_CLIENT_ID,
    {
        TestClient { id: TEST_CLIENT_ID }
    }
}

/// A work solver that computes nothing.
#[derive(Clone, Copy, Debug)]
pub struct TestWorkSolver {
    pub id: NodeId,
}

impl TestWorkSolver {
    pub fn new() -> (r: Self)
        ensures
            r.id == TEST_WORK_SOLVER_ID,
    {
        TestWorkSolver { id: TEST_WORK_SOLVER_ID }
    }
}

pub fn create_test_work_solver() -> (r: TestWorkSolver)
    ensures
        r.id == TEST_WORK_SOLVER_ID,
{
    TestWorkSolver::new()
}

/// A mined block with its known nonce and hash.
#[derive(Clone, Copy, Debug)]
pub struct TestBlock {
    /// Double hash of the header.
    pub hash: DHash,
    pub version: u32,
    pub previous_hash: DHash,
    pub merkle_root: DHash,
    pub time: u32,
    pub bits: u32,
    /// Target of the job built from the block.
    pub target: Target,
    /// The nonce that solves the block.
    pub nonce: u32,
    /// Midstate of the header's first 64 bytes.
    pub midstate: [u8; 32],
}

/// The job a test block stands for: supplied by the test client, valid, no rolling.
pub open spec fn block_job(b: TestBlock) -> Job {
    Job {
        version: b.version,
        version_mask: 0,
        previous_hash: b.previous_hash,
        merkle_root: b.merkle_root,
        time: b.time,
        bits: b.bits,
        target: b.target,
        valid: true,
        origin: TEST_CLIENT_ID,
    }
}

impl TestBlock {
    pub fn job(&self) -> (r: Job)
        ensures
            r == block_job(*self),
    {
        Job {
            version: self.version,
            version_mask: 0,
            previous_hash: self.previous_hash,
            merkle_root: self.merkle_root,
            time: self.time,
            bits: self.bits,
            target: self.target,
            valid: true,
            origin: TEST_CLIENT_ID,
        }
    }

    /// The work for the block: one midstate, the block's own version and time.
    pub fn assignment(&self) -> (r: Assignment)
        ensures
            r.path@ == Seq::<NodeId>::empty(),
            r.job == block_job(*self),
            r.ntime == self.time,
            r.midstates@ == seq![Midstate { version: self.version, state: self.midstate }],
    {
        let mut midstates: Vec<Midstate> = Vec::new();
        midstates.push(Midstate { version: self.version, state: self.midstate });
        Assignment::new(self.job(), midstates, self.time)
    }

    /// What hardware reports for the block: its nonce, in midstate 0, zero target.
    pub fn backend_solution(&self) -> (r: BackendSolution)
        ensures
            r.nonce == self.nonce,
            r.midstate_idx == 0,
            r.solution_idx == 0,
            r.target@ == Seq::new(32, |i: int| 0u8),
    {
        let r = BackendSolution { nonce: self.nonce, midstate_idx: 0, solution_idx: 0, target: [0u8; 32] };
        assert(r.target@ =~= Seq::new(32, |i: int| 0u8));
        r
    }

    /// The block's work paired with its solution.
    pub fn solution(&self) -> (r: Solution)
        ensures
            r.wf(),
            r.midstate_in_range(),
            r.cached_hash() is None,
            r.work().job == block_job(*self),
            r.raw().nonce == self.nonce,
            r.header_spec().version == self.version,
            r.header_spec().time == self.time,
            r.header_spec().nonce == self.nonce,
    {
        Solution::new(self.assignment(), self.backend_solution(), None)
    }

    /// The same block with another job target.
    pub fn change_target(&self, target: Target) -> (r: TestBlock)
        ensures
            r == (TestBlock { target, ..*self }),
    {
        let mut b = *self;
        b.target = target;
        b
    }
}

/// The genesis block of the Bitcoin main chain.
pub open spec fn genesis_block() -> TestBlock {
    TestBlock {
        hash: [0x6f, 0xe2, 0x8c, 0x0a, 0xb6, 0xf1, 0xb3, 0x72, 0xc1, 0xa6, 0xa2, 0x46, 0xae, 0x63, 0xf7, 0x4f, 0x93, 0x1e, 0x83, 0x65, 0xe1, 0x5a, 0x08, 0x9c, 0x68, 0xd6, 0x19, 0x00, 0x00, 0x00, 0x00, 0x00],
        version: 1,
        previous_hash: [0x00, 0x00, 0x00, 0x00, 0x00, 0x00, 0x00, 0x00, 0x00, 0x00, 0x00, 0x00, 0x00, 0x00, 0x00, 0x00, 0x00, 0x00, 0x00, 0x00, 0x00, 0x00, 0x00, 0x00, 0x00, 0x00, 0x00, 0x00, 0x00, 0x00, 0x00, 0x00],
        merkle_root: [0x3b, 0xa3, 0xed, 0xfd, 0x7a, 0x7b, 0x12, 0xb2, 0x7a, 0xc7, 0x2c, 0x3e, 0x67, 0x76, 0x8f, 0x61, 0x7f, 0xc8, 0x1b, 0xc3, 0x88, 0x8a, 0x51, 0x32, 0x3a, 0x9f, 0xb8, 0xaa, 0x4b, 0x1e, 0x5e, 0x4a],
        time: 1231006505,
        bits: 0x1d00ffff,
        target: [0x00, 0x00, 0x00, 0x00, 0x00, 0x00, 0x00, 0x00, 0x00, 0x00, 0x00, 0x00, 0x00, 0x00, 0x00, 0x00, 0x00, 0x00, 0x00, 0x00, 0x00, 0x00, 0x00, 0x00, 0x00, 0x00, 0xff, 0xff, 0x00, 0x00, 0x00, 0x00],
        nonce: 2083236893,
        midstate: [0xbc, 0x90, 0x9a, 0x33, 0x63, 0x58, 0xbf, 0xf0, 0x90, 0xcc, 0xac, 0x7d, 0x1e, 0x59, 0xca, 0xa8, 0xc3, 0xc8, 0xd8, 0xe9, 0x4f, 0x01, 0x03, 0xc8, 0x96, 0xb1, 0x87, 0x36, 0x47, 0x19, 0xf9, 0x1b],
    }
}

/// The block that follows the genesis block.
pub open spec fn second_block() -> TestBlock {
    TestBlock {
        hash: [0x48, 0x60, 0xeb, 0x18, 0xbf, 0x1b, 0x16, 0x20, 0xe3, 0x7e, 0x94, 0x90, 0xfc, 0x8a, 0x42, 0x75, 0x14, 0x41, 0x6f, 0xd7, 0x51, 0x59, 0xab, 0x86, 0x68, 0x8e, 0x9a, 0x83, 0x00, 0x00, 0x00, 0x00],
        version: 1,
        previous_hash: [0x6f, 0xe2, 0x8c, 0x0a, 0xb6, 0xf1, 0xb3, 0x72, 0xc1, 0xa6, 0xa2, 0x46, 0xae, 0x63, 0xf7, 0x4f, 0x93, 0x1e, 0x83, 0x65, 0xe1, 0x5a, 0x08, 0x9c, 0x68, 0xd6, 0x19, 0x00, 0x00, 0x00, 0x00, 0x00],
        merkle_root: [0x98, 0x20, 0x51, 0xfd, 0x1e, 0x4b, 0xa7, 0x44, 0xbb, 0xbe, 0x68, 0x0e, 0x1f, 0xee, 0x14, 0x67, 0x7b, 0xa1, 0xa3, 0xc3, 0x54, 0x0b, 0xf7, 0xb1, 0xcd, 0xb6, 0x06, 0xe8, 0x57, 0x23, 0x3e, 0x0e],
        time: 1231469665,
        bits: 0x1d00ffff,
        target: [0x00, 0x00, 0x00, 0x00, 0x00, 0x00, 0x00, 0x00, 0x00, 0x00, 0x00, 0x00, 0x00, 0x00, 0x00, 0x00, 0x00, 0x00, 0x00, 0x00, 0x00, 0x00, 0x00, 0x00, 0x00, 0x00, 0xff, 0xff, 0x00, 0x00, 0x00, 0x00],
        nonce: 2573394689,
        midstate: [0xa9, 0xf6, 0x13, 0x23, 0x7f, 0xbb, 0x2a, 0x30, 0x06, 0x6c, 0xa2, 0xd4, 0x7d, 0x61, 0x78, 0x69, 0xcc, 0xbd, 0x0e, 0xe0, 0x28, 0x75, 0x7b, 0x75, 0x5f, 0xf2, 0x64, 0x6f, 0x0e, 0x75, 0x01, 0xac],
    }
}

fn make_genesis_block() -> (r: TestBlock)
    ensures
        r == genesis_block(),
{
    TestBlock {
        hash: [0x6f, 0xe2, 0x8c, 0x0a, 0xb6, 0xf1, 0xb3, 0x72, 0xc1, 0xa6, 0xa2, 0x46, 0xae, 0x63, 0xf7, 0x4f, 0x93, 0x1e, 0x83, 0x65, 0xe1, 0x5a, 0x08, 0x9c, 0x68, 0xd6, 0x19, 0x00, 0x00, 0x00, 0x00, 0x00],
        version: 1,
        previous_hash: [0x00, 0x00, 0x00, 0x00, 0x00, 0x00, 0x00, 0x00, 0x00, 0x00, 0x00, 0x00, 0x00, 0x00, 0x00, 0x00, 0x00, 0x00, 0x00, 0x00, 0x00, 0x00, 0x00, 0x00, 0x00, 0x00, 0x00, 0x00, 0x00, 0x00, 0x00, 0x00],
        merkle_root: [0x3b, 0xa3, 0xed, 0xfd, 0x7a, 0x7b, 0x12, 0xb2, 0x7a, 0xc7, 0x2c, 0x3e, 0x67, 0x76, 0x8f, 0x61, 0x7f, 0xc8, 0x1b, 0xc3, 0x88, 0x8a, 0x51, 0x32, 0x3a, 0x9f, 0xb8, 0xaa, 0x4b, 0x1e, 0x5e, 0x4a],
        time: 1231006505,
        bits: 0x1d00ffff,
        target: [0x00, 0x00, 0x00, 0x00, 0x00, 0x00, 0x00, 0x00, 0x00, 0x00, 0x00, 0x00, 0x00, 0x00, 0x00, 0x00, 0x00, 0x00, 0x00, 0x00, 0x00, 0x00, 0x00, 0x00, 0x00, 0x00, 0xff, 0xff, 0x00, 0x00, 0x00, 0x00],
        nonce: 2083236893,
        midstate: [0xbc, 0x90, 0x9a, 0x33, 0x63, 0x58, 0xbf, 0xf0, 0x90, 0xcc, 0xac, 0x7d, 0x1e, 0x59, 0xca, 0xa8, 0xc3, 0xc8, 0xd8, 0xe9, 0x4f, 0x01, 0x03, 0xc8, 0x96, 0xb1, 0x87, 0x36, 0x47, 0x19, 0xf9, 0x1b],
    }
}

fn make_second_block() -> (r: TestBlock)
    ensures
        r == second_block(),
{
    TestBlock {
        hash: [0x48, 0x60, 0xeb, 0x18, 0xbf, 0x1b, 0x16, 0x20, 0xe3, 0x7e, 0x94, 0x90, 0xfc, 0x8a, 0x42, 0x75, 0x14, 0x41, 0x6f, 0xd7, 0x51, 0x59, 0xab, 0x86, 0x68, 0x8e, 0x9a, 0x83, 0x00, 0x00, 0x00, 0x00],
        version: 1,
        previous_hash: [0x6f, 0xe2, 0x8c, 0x0a, 0xb6, 0xf1, 0xb3, 0x72, 0xc1, 0xa6, 0xa2, 0x46, 0xae, 0x63, 0xf7, 0x4f, 0x93, 0x1e, 0x83, 0x65, 0xe1, 0x5a, 0x08, 0x9c, 0x68, 0xd6, 0x19, 0x00, 0x00, 0x00, 0x00, 0x00],
        merkle_root: [0x98, 0x20, 0x51, 0xfd, 0x1e, 0x4b, 0xa7, 0x44, 0xbb, 0xbe, 0x68, 0x0e, 0x1f, 0xee, 0x14, 0x67, 0x7b, 0xa1, 0xa3, 0xc3, 0x54, 0x0b, 0xf7, 0xb1, 0xcd, 0xb6, 0x06, 0xe8, 0x57, 0x23, 0x3e, 0x0e],
        time: 1231469665,
        bits: 0x1d00ffff,
        target: [0x00, 0x00, 0x00, 0x00, 0x00, 0x00, 0x00, 0x00, 0x00, 0x00, 0x00, 0x00, 0x00, 0x00, 0x00, 0x00, 0x00, 0x00, 0x00, 0x00, 0x00, 0x00, 0x00, 0x00, 0x00, 0x00, 0xff, 0xff, 0x00, 0x00, 0x00, 0x00],
        nonce: 2573394689,
        midstate: [0xa9, 0xf6, 0x13, 0x23, 0x7f, 0xbb, 0x2a, 0x30, 0x06, 0x6c, 0xa2, 0xd4, 0x7d, 0x61, 0x78, 0x69, 0xcc, 0xbd, 0x0e, 0xe0, 0x28, 0x75, 0x7b, 0x75, 0x5f, 0xf2, 0x64, 0x6f, 0x0e, 0x75, 0x01, 0xac],
    }
}

/// The first two blocks of the Bitcoin main chain, with their known midstates.
pub fn test_blocks() -> (r: Vec<TestBlock>)
    ensures
        r@ == seq![genesis_block(), second_block()],
{
    let mut r: Vec<TestBlock> = Vec::new();
    r.push(make_genesis_block());
    r.push(make_second_block());
    r
}

/// The assignment a test block stands for.
pub open spec fn is_block_assignment(b: TestBlock, a: Assignment) -> bool {
    &&& a.path@ == Seq::<NodeId>::empty()
    &&& a.job == block_job(b)
    &&& a.ntime == b.time
    &&& a.midstates@ == seq![Midstate { version: b.version, state: b.midstate }]
}

/// Engine that hands out one assignment per test block, in order.
pub struct TestWorkEngine {
    blocks: Vec<TestBlock>,
    next: usize,
}

impl TestWorkEngine {
    pub closed spec fn blocks_spec(&self) -> Seq<TestBlock> {
        self.blocks@
    }

    /// Index of the block whose assignment comes next.
    pub closed spec fn next_spec(&self) -> usize {
        self.next
    }

    pub open spec fn is_exhausted_spec(&self) -> bool {
        self.next_spec() >= self.blocks_spec().len()
    }

    /// What one call of `next_work` does.
    pub open spec fn next_post(old: Self, r: LoopState<Assignment>, new: Self) -> bool {
        if old.is_exhausted_spec() {
            r is Exhausted && new == old
        } else {
            let b = old.blocks_spec()[old.next_spec() as int];
            &&& new.blocks_spec() == old.blocks_spec()
            &&& new.next_spec() == old.next_spec() + 1
            &&& match r {
                LoopState::Exhausted => false,
                LoopState::Break(a) => is_block_assignment(b, a) && new.is_exhausted_spec(),
                LoopState::Continue(a) => is_block_assignment(b, a) && !new.is_exhausted_spec(),
            }
        }
    }

    /// An engine over the test blocks.
    pub fn new() -> (r: Self)
        ensures
            r.blocks_spec() == seq![genesis_block(), second_block()],
            r.next_spec() == 0,
    {
        TestWorkEngine { blocks: test_blocks(), next: 0 }
    }

    /// An engine over `blocks`.
    pub fn with_blocks(blocks: Vec<TestBlock>) -> (r: Self)
        ensures
            r.blocks_spec() == blocks@,
            r.next_spec() == 0,
    {
        TestWorkEngine { blocks, next: 0 }
    }

    pub fn terminate(&mut self)
        ensures
            final(self).is_exhausted_spec(),
            final(self).blocks_spec() == old(self).blocks_spec(),
    {
        self.next = self.blocks.len();
    }

    pub fn is_exhausted(&self) -> (r: bool)
        ensures
            r == self.is_exhausted_spec(),
    {
        self.next >= self.blocks.len()
    }

    pub fn next_work(&mut self) -> (r: LoopState<Assignment>)
        ensures
            Self::next_post(*old(self), r, *final(self)),
    {
        let n = self.blocks.len();
        if self.next >= n {
            return LoopState::Exhausted;
        }
        let work = self.blocks[self.next].assignment();
        self.next = self.next + 1;
        if self.next >= n {
            LoopState::Break(work)
        } else {
            LoopState::Continue(work)
        }
    }
}

/// A receiver whose slot offers an engine over the test blocks.
pub fn create_test_work_receiver(t: &mut EngineTable) -> (r: EngineReceiver<IgnoreEvents>)
    requires
        old(t).wf(),
    ensures
        final(t).wf(),
        r.wf(final(t)),
        final(t).grows_from(old(t)),
        final(t).engines_spec().last() matches WorkEngine::Blocks(e) && e.next_spec() == 0
            && e.blocks_spec() == seq![genesis_block(), second_block()],
        final(t).current_spec(r.slot_spec()) == final(t).engines_spec().len() - 1,
{
    let (mut sender, receiver) = engine_channel(t, IgnoreEvents);
    sender.broadcast_engine(t, WorkEngine::Blocks(TestWorkEngine::new()));
    receiver
}

/// A generator for `solver` fed by [`create_test_work_receiver`].
pub fn create_test_work_generator(t: &mut EngineTable, solver: NodeId) -> (r: Generator<IgnoreEvents>)
    requires
        old(t).wf(),
    ensures
        final(t).wf(),
        r.receiver_spec().wf(final(t)),
        final(t).grows_from(old(t)),
        r.path_spec() == seq![solver],
{
    let receiver = create_test_work_receiver(t);
    let mut path: Vec<NodeId> = Vec::new();
    path.push(solver);
    Generator::new(receiver, path)
}

} // verus!
