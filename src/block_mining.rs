//! Bookkeeping for a mining run over known blocks: every problem handed to the
//! hardware must come back solved.
use vstd::prelude::*;
use crate::hashing::DHash;
use crate::job::{job_midstate, midstate_spec, NodeId};
use crate::test_utils::{block_job, TestBlock};
use crate::work::{Assignment, Midstate};

verus! {

/// Version used for midstate `index` of a problem whose solvable midstate is `target`.
pub open spec fn problem_version(correct: u32, index: usize, target: usize) -> u32 {
    correct ^ (index as u32) ^ (target as u32)
}

/// Work modelled on a known solution, solvable in one chosen midstate.
#[derive(Clone)]
pub struct Problem {
    pub model_solution: crate::work::Solution,
    pub target_midstate: usize,
}

impl Problem {
    pub fn new(model_solution: crate::work::Solution, target_midstate: usize) -> (r: Self)
        ensures
            r.model_solution == model_solution,
            r.target_midstate == target_midstate,
    {
        Problem { model_solution, target_midstate }
    }

    /// The problem's work: `midstate_count` midstates whose versions differ from the
    /// solved one by the midstate index; the target midstate carries the solved version.
    pub fn into_work(self, midstate_count: usize) -> (r: Assignment)
        ensures
            r.path@ == Seq::<NodeId>::empty(),
            r.job == self.model_solution.work().job,
            r.ntime == self.model_solution.work().job.time,
            r.midstates@.len() == midstate_count,
            forall|i: int|
                0 <= i < midstate_count ==> {
                    let v = problem_version(
                        self.model_solution.work().job.version,
                        i as usize,
                        self.target_midstate,
                    );
                    &&& (#[trigger] r.midstates@[i]).version == v
                    &&& r.midstates@[i].state@ == midstate_spec(self.model_solution.work().job, v)
                },
    {
        let job = *self.model_solution.job();
        let time = job.time;
        let correct_version = job.version;
        let mut midstates: Vec<Midstate> = Vec::new();
        let mut index: usize = 0;
        while index < midstate_count
            invariant
                index <= midstate_count,
                job == self.model_solution.work().job,
                correct_version == job.version,
                midstates@.len() == index,
                forall|i: int|
                    0 <= i < index ==> {
                        let v = problem_version(correct_version, i as usize, self.target_midstate);
                        &&& (#[trigger] midstates@[i]).version == v
                        &&& midstates@[i].state@ == midstate_spec(job, v)
                    },
            decreases midstate_count - index,
        {
            let version = correct_version ^ (index as u32) ^ (self.target_midstate as u32);
            midstates.push(Midstate { version, state: job_midstate(&job, version) });
            index += 1;
        }
        Assignment::new(job, midstates, time)
    }
}

/// A solution reported in a given midstate.
#[derive(Clone)]
pub struct Solution {
    pub solution: crate::work::Solution,
    pub midstate_idx: usize,
}

impl Solution {
    pub fn new(solution: crate::work::Solution, midstate_idx: usize) -> (r: Self)
        ensures
            r.solution == solution,
            r.midstate_idx == midstate_idx,
    {
        Solution { solution, midstate_idx }
    }

    /// Pairs a solution with the midstate it reports.
    pub fn from_solution(solution: crate::work::Solution) -> (r: Self)
        ensures
            r.midstate_idx == solution.raw().midstate_idx,
            r.solution == solution,
    {
        let midstate_idx = solution.midstate_idx();
        Solution { solution, midstate_idx }
    }
}

/// What pairs problems with solutions: the block hash and the midstate index.
#[derive(Clone, Copy, Debug)]
pub struct SolutionKey {
    pub hash: DHash,
    pub midstate_idx: usize,
}

/// Keys as values: the hash bytes and the index.
pub open spec fn key_view(k: SolutionKey) -> (Seq<u8>, usize) {
    (k.hash@, k.midstate_idx)
}

/// The key of a problem; the model solution keeps its hash.
fn key_of(p: &mut Problem) -> (r: SolutionKey)
    requires
        old(p).model_solution.wf(),
        old(p).model_solution.midstate_in_range(),
    ensures
        key_view(r) == (old(p).model_solution.hash_spec(), old(p).target_midstate),
        final(p).target_midstate == old(p).target_midstate,
        final(p).model_solution.wf(),
        final(p).model_solution.midstate_in_range(),
        final(p).model_solution.same_but_hash(&old(p).model_solution),
{
    SolutionKey { hash: p.model_solution.hash(), midstate_idx: p.target_midstate }
}

fn same_key(a: &SolutionKey, b: &SolutionKey) -> (r: bool)
    ensures
        r == (key_view(*a) == key_view(*b)),
{
    if a.midstate_idx != b.midstate_idx {
        return false;
    }
    let mut i: usize = 0;
    while i < 32
        invariant
            i <= 32,
            a.hash@.len() == 32,
            b.hash@.len() == 32,
            forall|j: int| 0 <= j < i ==> a.hash@[j] == b.hash@[j],
        decreases 32 - i,
    {
        if a.hash[i] != b.hash[i] {
            return false;
        }
        i += 1;
    }
    assert(a.hash@ =~= b.hash@);
    true
}

impl SolutionKey {
    /// The key of a problem: its model's hash and its target midstate.
    pub fn from_problem(p: Problem) -> (r: Self)
        requires
            p.model_solution.wf(),
            p.model_solution.midstate_in_range(),
        ensures
            key_view(r) == (p.model_solution.hash_spec(), p.target_midstate),
    {
        let mut p = p;
        key_of(&mut p)
    }

    /// The key of a solution: its hash and the midstate it was found in.
    pub fn from_solution(solution: Solution) -> (r: Self)
        requires
            solution.solution.wf(),
            solution.solution.midstate_in_range(),
        ensures
            key_view(r) == (solution.solution.hash_spec(), solution.midstate_idx),
    {
        let mut s = solution.solution;
        SolutionKey { hash: s.hash(), midstate_idx: solution.midstate_idx }
    }
}

/// A registered problem and whether it was solved.
#[derive(Clone)]
pub struct SolutionState {
    pub solved: bool,
    pub problem: Problem,
}

impl SolutionState {
    pub fn new(problem: Problem) -> (r: Self)
        ensures
            !r.solved,
            r.problem == problem,
    {
        SolutionState { solved: false, problem }
    }
}

/// One registry entry.
pub struct Entry {
    pub key: SolutionKey,
    pub state: SolutionState,
}

/// Problems by key, each at most once, in registration order.
pub struct Registry {
    entries: Vec<Entry>,
}

/// Key and solved flag of each entry.
pub open spec fn entries_view(e: Seq<Entry>) -> Seq<((Seq<u8>, usize), bool)> {
    e.map_values(|x: Entry| (key_view(x.key), x.state.solved))
}

impl Registry {
    pub closed spec fn view(&self) -> Seq<((Seq<u8>, usize), bool)> {
        entries_view(self.entries@)
    }

    pub open spec fn has_key(&self, k: (Seq<u8>, usize)) -> bool {
        exists|i: int| 0 <= i < self.view().len() && #[trigger] self.view()[i].0 == k
    }

    pub open spec fn wf(&self) -> bool {
        forall|i: int, j: int|
            0 <= i < j < self.view().len() ==> #[trigger] self.view()[i].0 != #[trigger] self.view()[j].0
    }

    pub fn new() -> (r: Self)
        ensures
            r.wf(),
            r.view() == Seq::<((Seq<u8>, usize), bool)>::empty(),
    {
        let r = Registry { entries: Vec::new() };
        assert(r.view() =~= Seq::<((Seq<u8>, usize), bool)>::empty());
        r
    }

    fn find(&self, key: &SolutionKey) -> (r: Option<usize>)
        ensures
            match r {
                Some(i) => i < self.view().len() && self.view()[i as int].0 == key_view(*key),
                None => !self.has_key(key_view(*key)),
            },
    {
        let mut i: usize = 0;
        while i < self.entries.len()
            invariant
                i <= self.entries@.len(),
                forall|j: int| 0 <= j < i ==> #[trigger] self.view()[j].0 != key_view(*key),
            decreases self.entries@.len() - i,
        {
            assert(self.view()[i as int].0 == key_view(self.entries@[i as int].key));
            if same_key(&self.entries[i].key, key) {
                return Some(i);
            }
            i += 1;
        }
        None
    }

    /// Registers `problem`, unsolved; false, and nothing changes, if its key is
    /// already registered.
    pub fn add_problem(&mut self, problem: Problem) -> (r: bool)
        requires
            old(self).wf(),
            problem.model_solution.wf(),
            problem.model_solution.midstate_in_range(),
        ensures
            final(self).wf(),
            r == !old(self).has_key((problem.model_solution.hash_spec(), problem.target_midstate)),
            r ==> final(self).view() == old(self).view().push(
                ((problem.model_solution.hash_spec(), problem.target_midstate), false),
            ),
            !r ==> final(self).view() == old(self).view(),
    {
        let mut problem = problem;
        let key = key_of(&mut problem);
        if self.find(&key).is_some() {
            return false;
        }
        let entry = Entry { key, state: SolutionState::new(problem) };
        self.entries.push(entry);
        assert(self.view() =~= old(self).view().push((key_view(key), false)));
        true
    }

    /// Marks the problem with the solution's key solved, if there is one.
    pub fn add_solution(&mut self, solution: Solution)
        requires
            old(self).wf(),
            solution.solution.wf(),
            solution.solution.midstate_in_range(),
        ensures
            final(self).wf(),
            final(self).view().len() == old(self).view().len(),
            forall|i: int|
                0 <= i < old(self).view().len() ==> #[trigger] final(self).view()[i] == if old(self).view()[i].0
                    == (solution.solution.hash_spec(), solution.midstate_idx) {
                    (old(self).view()[i].0, true)
                } else {
                    old(self).view()[i]
                },
    {
        let key = SolutionKey::from_solution(solution);
        match self.find(&key) {
            Some(i) => {
                self.entries[i].state.solved = true;
                proof {
                    assert forall|k: int| 0 <= k < old(self).view().len() implies #[trigger] self.view()[k]
                        == if old(self).view()[k].0 == key_view(key) {
                        (old(self).view()[k].0, true)
                    } else {
                        old(self).view()[k]
                    } by {
                        if k != i {
                            if k < i {
                                assert(old(self).view()[k].0 != old(self).view()[i as int].0);
                            } else {
                                assert(old(self).view()[i as int].0 != old(self).view()[k].0);
                            }
                        }
                    }
                }
            },
            None => {},
        }
    }

    /// Whether every registered problem has been solved. Reporting what is missing
    /// is left to the caller.
    pub fn check_everything_solved(&self, _print_missing_solutions: bool) -> (r: bool)
        ensures
            r == forall|i: int| 0 <= i < self.view().len() ==> #[trigger] self.view()[i].1,
    {
        let mut i: usize = 0;
        while i < self.entries.len()
            invariant
                i <= self.entries@.len(),
                forall|j: int| 0 <= j < i ==> #[trigger] self.view()[j].1,
            decreases self.entries@.len() - i,
        {
            if !self.entries[i].state.solved {
                assert(!self.view()[i as int].1);
                return false;
            }
            i += 1;
        }
        true
    }
}

/// Every problem of a mining run, in the order they are handed out: for each
/// target midstate, one problem per block.
pub fn problems(blocks: &Vec<TestBlock>, midstate_count: usize) -> (r: Vec<Problem>)
    requires
        blocks@.len() * midstate_count <= usize::MAX,
    ensures
        r@.len() == blocks@.len() * midstate_count,
        forall|i: int|
            0 <= i < r@.len() ==> {
                let b = blocks@[i % blocks@.len() as int];
                &&& (#[trigger] r@[i]).target_midstate == i / blocks@.len() as int
                &&& r@[i].model_solution.wf()
                &&& r@[i].model_solution.midstate_in_range()
                &&& r@[i].model_solution.work().job == block_job(b)
                &&& r@[i].model_solution.raw().nonce == b.nonce
            },
{
    let n = blocks.len();
    let mut r: Vec<Problem> = Vec::new();
    let mut target_midstate: usize = 0;
    while target_midstate < midstate_count
        invariant
            n == blocks@.len(),
            n * midstate_count <= usize::MAX,
            target_midstate <= midstate_count,
            r@.len() == n * target_midstate,
            forall|i: int|
                0 <= i < r@.len() ==> {
                    let b = blocks@[i % n as int];
                    &&& (#[trigger] r@[i]).target_midstate == i / n as int
                    &&& r@[i].model_solution.wf()
                    &&& r@[i].model_solution.midstate_in_range()
                    &&& r@[i].model_solution.work().job == block_job(b)
                    &&& r@[i].model_solution.raw().nonce == b.nonce
                },
        decreases midstate_count - target_midstate,
    {
        proof {
            vstd::arithmetic::mul::lemma_mul_is_distributive_add(n as int, target_midstate as int, 1);
            vstd::arithmetic::mul::lemma_mul_inequality(target_midstate as int + 1, midstate_count as int, n as int);
            vstd::arithmetic::mul::lemma_mul_is_commutative(n as int, target_midstate as int + 1);
            vstd::arithmetic::mul::lemma_mul_is_commutative(n as int, midstate_count as int);
        }
        let mut j: usize = 0;
        while j < n
            invariant
                n == blocks@.len(),
                target_midstate < midstate_count,
                n * (target_midstate + 1) <= usize::MAX,
                n * (target_midstate + 1) == n * target_midstate + n,
                j <= n,
                r@.len() == n * target_midstate + j,
                forall|i: int|
                    0 <= i < r@.len() ==> {
                        let b = blocks@[i % n as int];
                        &&& (#[trigger] r@[i]).target_midstate == i / n as int
                        &&& r@[i].model_solution.wf()
                        &&& r@[i].model_solution.midstate_in_range()
                        &&& r@[i].model_solution.work().job == block_job(b)
                        &&& r@[i].model_solution.raw().nonce == b.nonce
                    },
            decreases n - j,
        {
            let block = &blocks[j];
            let p = Problem { model_solution: block.solution(), target_midstate };
            let ghost at = r@.len() as int;
            proof {
                vstd::arithmetic::mul::lemma_mul_is_commutative(n as int, target_midstate as int);
                vstd::arithmetic::div_mod::lemma_fundamental_div_mod_converse(
                    at,
                    n as int,
                    target_midstate as int,
                    j as int,
                );
            }
            r.push(p);
            j += 1;
        }
        target_midstate += 1;
    }
    r
}

} // verus!
