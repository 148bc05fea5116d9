//! The work and solution value model.
use vstd::prelude::*;
use crate::hashing::{sha256d_of, DHash};
use crate::job::{header_bytes, BlockHeader, Job, NodeId, Target};

verus! {

#[verifier::external_type_specification]
#[verifier::external_body]
pub struct ExInstant(std::time::Instant);

/// Relies on `Clone` of `std::time::Instant`, a `Copy` type: the clone is the same instant.
pub assume_specification[ <std::time::Instant as Clone>::clone ](i: &std::time::Instant) -> (r: std::time::Instant)
    ensures
        r == *i,
;

/// Relies on `std::time::Instant::now`: the current monotonic time; nothing is known of it.
#[verifier::external_body]
fn instant_now() -> (r: std::time::Instant) {
    std::time::Instant::now()
}

/// What a work engine hands out on one request.
pub enum LoopState<T> {
    /// No more work, now or later.
    Exhausted,
    /// The last piece of work: the next request answers `Exhausted`.
    Break(T),
    /// A piece of work; more may follow.
    Continue(T),
}

impl<T> LoopState<T> {
    pub open spec fn is_work(&self) -> bool {
        !(self is Exhausted)
    }

    /// The carried work; `Exhausted` carries none.
    pub fn unwrap(self) -> (r: T)
        requires
            self.is_work(),
        ensures
            self matches LoopState::Break(v) ==> r == v,
            self matches LoopState::Continue(v) ==> r == v,
    {
        match self {
            LoopState::Break(val) => val,
            LoopState::Continue(val) => val,
            LoopState::Exhausted => vstd::pervasive::unreached(),
        }
    }

    /// Applies `f` to the carried work, keeping the state.
    pub fn map<U, F: FnOnce(T) -> U>(self, f: F) -> (r: LoopState<U>)
        requires
            self matches LoopState::Break(x) ==> f.requires((x,)),
            self matches LoopState::Continue(x) ==> f.requires((x,)),
        ensures
            self is Exhausted <==> r is Exhausted,
            self matches LoopState::Break(x) ==> (r matches LoopState::Break(y) && f.ensures((x,), y)),
            self matches LoopState::Continue(x) ==> (r matches LoopState::Continue(y) && f.ensures((x,), y)),
    {
        match self {
            LoopState::Exhausted => LoopState::Exhausted,
            LoopState::Break(x) => LoopState::Break(f(x)),
            LoopState::Continue(x) => LoopState::Continue(f(x)),
        }
    }
}

/// One version-rolled variant of a piece of work.
#[derive(Clone, Copy, Debug)]
pub struct Midstate {
    /// Header version the midstate was computed for.
    pub version: u32,
    /// SHA-256 state after the first 64 bytes of the header.
    pub state: [u8; 32],
}

/// Hardware-ready work derived from a job.
#[derive(Clone)]
pub struct Assignment {
    /// Hierarchy nodes the work passed on its way down, in order.
    pub path: Vec<NodeId>,
    /// The job the work was derived from.
    pub job: Job,
    /// One midstate per version-rolled variant.
    pub midstates: Vec<Midstate>,
    /// Header time of the work.
    pub ntime: u32,
}

impl Assignment {
    pub fn new(job: Job, midstates: Vec<Midstate>, ntime: u32) -> (r: Self)
        ensures
            r.path@ == Seq::<NodeId>::empty(),
            r.job == job,
            r.midstates@ == midstates@,
            r.ntime == ntime,
    {
        Assignment { path: Vec::new(), job, midstates, ntime }
    }

    /// The client that supplied the job.
    pub fn origin(&self) -> (r: NodeId)
        ensures
            r == self.job.origin,
    {
        self.job.origin
    }

    pub fn merkle_root_tail(&self) -> (r: u32)
        ensures
            r == crate::job::le_word(self.job.merkle_root@, 28),
    {
        self.job.merkle_root_tail()
    }

    /// The compact network target of the job.
    pub fn bits(&self) -> (r: u32)
        ensures
            r == self.job.bits,
    {
        self.job.bits
    }

    /// Number of midstates carried by this work.
    pub fn generated_work_amount(&self) -> (r: usize)
        ensures
            r == self.midstates@.len(),
    {
        self.midstates.len()
    }
}

/// A candidate nonce reported by hardware.
#[derive(Clone, Copy, Debug)]
pub struct BackendSolution {
    pub nonce: u32,
    /// Index of the midstate the nonce solves.
    pub midstate_idx: usize,
    /// Index of the solution when several were found.
    pub solution_idx: usize,
    /// Target the hardware searched against.
    pub target: Target,
}

/// A hardware result paired with the work it answers.
///
/// The double hash and both targets are computed on first request and kept.
#[derive(Clone)]
pub struct Solution {
    timestamp: std::time::Instant,
    work: Assignment,
    solution: BackendSolution,
    hash: Option<DHash>,
    job_target: Option<Target>,
    backend_target: Option<Target>,
}

impl Solution {
    pub closed spec fn work(&self) -> &Assignment {
        &self.work
    }

    pub closed spec fn raw(&self) -> BackendSolution {
        self.solution
    }

    pub closed spec fn cached_hash(&self) -> Option<DHash> {
        self.hash
    }

    pub closed spec fn cached_job_target(&self) -> Option<Target> {
        self.job_target
    }

    pub closed spec fn cached_backend_target(&self) -> Option<Target> {
        self.backend_target
    }

    pub closed spec fn time_stamp(&self) -> std::time::Instant {
        self.timestamp
    }

    /// The reported midstate index names a midstate of the work.
    pub open spec fn midstate_in_range(&self) -> bool {
        self.raw().midstate_idx < self.work().midstates@.len()
    }

    /// The header the solution claims to solve.
    pub open spec fn header_spec(&self) -> BlockHeader {
        BlockHeader {
            version: self.work().midstates@[self.raw().midstate_idx as int].version,
            previous_hash: self.work().job.previous_hash,
            merkle_root: self.work().job.merkle_root,
            time: self.work().ntime,
            bits: self.work().job.bits,
            nonce: self.raw().nonce,
        }
    }

    pub open spec fn hash_spec(&self) -> Seq<u8> {
        sha256d_of(header_bytes(self.header_spec()))
    }

    /// Every kept value equals what it was computed from.
    pub open spec fn wf(&self) -> bool {
        &&& (self.cached_hash() matches Some(h) ==> self.midstate_in_range() && h@ == self.hash_spec())
        &&& (self.cached_job_target() matches Some(t) ==> t == self.work().job.target)
        &&& (self.cached_backend_target() matches Some(t) ==> t == self.raw().target)
    }

    /// Same solution, same kept values but for the hash.
    pub open spec fn same_but_hash(&self, other: &Solution) -> bool {
        &&& self.work() == other.work()
        &&& self.raw() == other.raw()
        &&& self.time_stamp() == other.time_stamp()
        &&& self.cached_job_target() == other.cached_job_target()
        &&& self.cached_backend_target() == other.cached_backend_target()
    }

    /// What one call of `hash` does: the result is the double hash of the header, it is
    /// kept, and a kept hash is handed out without any change.
    pub open spec fn hash_post(old: Solution, r: DHash, new: Solution) -> bool {
        &&& r@ == old.hash_spec()
        &&& new.cached_hash() == Some(r)
        &&& new.same_but_hash(&old)
        &&& (old.cached_hash() is Some ==> new == old)
    }

    /// Pairs `solution` with `work`; `timestamp` defaults to now.
    pub fn new(work: Assignment, solution: BackendSolution, timestamp: Option<std::time::Instant>) -> (r: Self)
        ensures
            r.wf(),
            *r.work() == work,
            r.raw() == solution,
            timestamp matches Some(t) ==> r.time_stamp() == t,
            r.cached_hash() is None,
            r.cached_job_target() is None,
            r.cached_backend_target() is None,
    {
        let timestamp = match timestamp {
            Some(t) => t,
            None => instant_now(),
        };
        Solution { timestamp, work, solution, hash: None, job_target: None, backend_target: None }
    }

    /// The client that supplied the job.
    pub fn origin(&self) -> (r: NodeId)
        ensures
            r == self.work().job.origin,
    {
        self.work.job.origin
    }

    pub fn timestamp(&self) -> (r: std::time::Instant)
        ensures
            r == self.time_stamp(),
    {
        self.timestamp
    }

    pub fn work_ref(&self) -> (r: &Assignment)
        ensures
            r == self.work(),
    {
        &self.work
    }

    /// The job the work was derived from.
    pub fn job(&self) -> (r: &Job)
        ensures
            *r == self.work().job,
    {
        &self.work.job
    }

    pub fn nonce(&self) -> (r: u32)
        ensures
            r == self.raw().nonce,
    {
        self.solution.nonce
    }

    /// Header time of the work.
    pub fn time(&self) -> (r: u32)
        ensures
            r == self.work().ntime,
    {
        self.work.ntime
    }

    /// Version of the midstate the nonce solves.
    pub fn version(&self) -> (r: u32)
        requires
            self.midstate_in_range(),
        ensures
            r == self.work().midstates@[self.raw().midstate_idx as int].version,
    {
        let i = self.solution.midstate_idx;
        self.work.midstates[i].version
    }

    pub fn midstate_idx(&self) -> (r: usize)
        ensures
            r == self.raw().midstate_idx,
    {
        self.solution.midstate_idx
    }

    /// The network target the job's compact `bits` encode.
    pub fn network_target(&self) -> (r: Target)
        requires
            crate::job::compact_is_valid(self.work().job.bits),
        ensures
            r@ == Seq::new(32, |i: int| crate::job::compact_target_byte(self.work().job.bits, i)),
    {
        match crate::job::compact_target(self.work.job.bits) {
            Some(t) => t,
            None => vstd::pervasive::unreached(),
        }
    }

    /// The job's target, kept after the first request.
    pub fn job_target(&mut self) -> (r: Target)
        requires
            old(self).wf(),
        ensures
            r == old(self).work().job.target,
            final(self).wf(),
            final(self).cached_job_target() == Some(r),
            final(self).work() == old(self).work(),
            final(self).raw() == old(self).raw(),
            final(self).time_stamp() == old(self).time_stamp(),
            final(self).cached_hash() == old(self).cached_hash(),
            final(self).cached_backend_target() == old(self).cached_backend_target(),
            old(self).cached_job_target() is Some ==> *final(self) == *old(self),
    {
        match self.job_target {
            Some(t) => t,
            None => {
                let t = self.work.job.target;
                self.job_target = Some(t);
                t
            },
        }
    }

    /// The target the hardware searched against, kept after the first request.
    pub fn backend_target(&mut self) -> (r: Target)
        requires
            old(self).wf(),
        ensures
            r == old(self).raw().target,
            final(self).wf(),
            final(self).cached_backend_target() == Some(r),
            final(self).work() == old(self).work(),
            final(self).raw() == old(self).raw(),
            final(self).time_stamp() == old(self).time_stamp(),
            final(self).cached_hash() == old(self).cached_hash(),
            final(self).cached_job_target() == old(self).cached_job_target(),
            old(self).cached_backend_target() is Some ==> *final(self) == *old(self),
    {
        match self.backend_target {
            Some(t) => t,
            None => {
                let t = self.solution.target;
                self.backend_target = Some(t);
                t
            },
        }
    }

    /// The block header this solution claims to solve.
    pub fn get_block_header(&self) -> (r: BlockHeader)
        requires
            self.midstate_in_range(),
        ensures
            r == self.header_spec(),
    {
        BlockHeader {
            version: self.version(),
            previous_hash: self.work.job.previous_hash,
            merkle_root: self.work.job.merkle_root,
            time: self.work.ntime,
            bits: self.work.job.bits,
            nonce: self.solution.nonce,
        }
    }

    /// Double hash of the solved header, computed once and kept.
    pub fn hash(&mut self) -> (r: DHash)
        requires
            old(self).wf(),
            old(self).midstate_in_range(),
        ensures
            Self::hash_post(*old(self), r, *final(self)),
            final(self).wf(),
            final(self).midstate_in_range(),
    {
        match self.hash {
            Some(h) => h,
            None => {
                let h = self.get_block_header().hash();
                self.hash = Some(h);
                h
            },
        }
    }

    pub fn has_valid_job(&self) -> (r: bool)
        ensures
            r == self.work().job.valid,
    {
        self.work.job.valid
    }
}

/// Asking a solution for its hash twice gives the same bytes, and the second request
/// computes nothing: it leaves the solution exactly as the first one left it.
pub proof fn lemma_hash_memoized(s0: Solution, r1: DHash, s1: Solution, r2: DHash, s2: Solution)
    requires
        s0.wf(),
        s0.midstate_in_range(),
        Solution::hash_post(s0, r1, s1),
        Solution::hash_post(s1, r2, s2),
    ensures
        r1 == r2,
        s2 == s1,
        r1@ == s0.hash_spec(),
{
}

} // verus!
