//! Work engines: stateful sources of assignments for one job.
use vstd::prelude::*;
use crate::job::{job_midstate, midstate_spec, Job, NodeId};
use crate::test_utils::TestWorkEngine;
use crate::work::{Assignment, LoopState, Midstate};

verus! {

/// Header version bits that may be rolled (BIP 320).
pub const VERSION_ROLLING_MASK: u32 = 0x1fffe000;

/// Position of the lowest rollable version bit.
pub const VERSION_ROLLING_SHIFT: u32 = 13;

/// Number of distinct values the rollable bits can take.
pub const VERSION_ROLLING_COUNT: u32 = 0x10000;

/// The header version with rolled value `k` placed in the rollable bits.
pub open spec fn rolled_version(base: u32, k: u32) -> u32 {
    (base & !VERSION_ROLLING_MASK) | (k << VERSION_ROLLING_SHIFT)
}

/// Distinct rolled values give distinct versions.
pub proof fn lemma_rolled_versions_distinct(base: u32, k1: u32, k2: u32)
    requires
        k1 < VERSION_ROLLING_COUNT,
        k2 < VERSION_ROLLING_COUNT,
        k1 != k2,
    ensures
        rolled_version(base, k1) != rolled_version(base, k2),
{
    assert((base & !0x1fffe000u32) | (k1 << 13u32) != (base & !0x1fffe000u32) | (k2 << 13u32))
        by (bit_vector)
        requires
            k1 < 0x10000u32,
            k2 < 0x10000u32,
            k1 != k2,
    ;
}

/// Work engine that hands out exactly one assignment.
pub struct OneWorkEngineInner {
    work: Option<Assignment>,
}

impl OneWorkEngineInner {
    pub closed spec fn pending(&self) -> Option<Assignment> {
        self.work
    }

    pub open spec fn is_exhausted_spec(&self) -> bool {
        self.pending() is None
    }

    /// What one call of `next_work` does.
    pub open spec fn next_post(old: Self, r: LoopState<Assignment>, new: Self) -> bool {
        match old.pending() {
            Some(w) => r == LoopState::Break(w) && new.pending() is None,
            None => r is Exhausted && new == old,
        }
    }

    pub fn terminate(&mut self)
        ensures
            final(self).pending() is None,
    {
        match self.work {
            Some(_) => self.work = None,
            None => {},
        }
    }

    pub fn is_exhausted(&self) -> (r: bool)
        ensures
            r == self.is_exhausted_spec(),
    {
        self.work.is_none()
    }

    pub fn next_work(&mut self) -> (r: LoopState<Assignment>)
        ensures
            Self::next_post(*old(self), r, *final(self)),
    {
        match self.work.take() {
            Some(work) => LoopState::Break(work),
            None => LoopState::Exhausted,
        }
    }
}

/// Shared handle of a one-assignment engine.
pub struct OneWorkEngine {
    inner: OneWorkEngineInner,
}

impl OneWorkEngine {
    pub closed spec fn inner_spec(&self) -> OneWorkEngineInner {
        self.inner
    }

    pub fn new(work: Assignment) -> (r: Self)
        ensures
            r.inner_spec().pending() == Some(work),
    {
        OneWorkEngine { inner: OneWorkEngineInner { work: Some(work) } }
    }

    /// Exclusive access to the engine state.
    pub fn lock_inner(&mut self) -> (r: &mut OneWorkEngineInner)
        ensures
            *r == old(self).inner_spec(),
            final(self).inner_spec() == *final(r),
    {
        &mut self.inner
    }

    pub fn terminate(&mut self)
        ensures
            final(self).inner_spec().pending() is None,
    {
        self.lock_inner().terminate();
    }

    pub fn is_exhausted(&self) -> (r: bool)
        ensures
            r == self.inner_spec().is_exhausted_spec(),
    {
        self.inner.is_exhausted()
    }

    pub fn next_work(&mut self) -> (r: LoopState<Assignment>)
        ensures
            OneWorkEngineInner::next_post(old(self).inner_spec(), r, final(self).inner_spec()),
    {
        self.lock_inner().next_work()
    }
}

/// Engine that rolls the header version of one job: each assignment carries
/// `midstate_count` midstates for consecutive rolled values, until the values run out.
pub struct VersionRolling {
    job: Job,
    midstate_count: u32,
    next_index: u32,
}

impl VersionRolling {
    pub closed spec fn job_spec(&self) -> Job {
        self.job
    }

    pub closed spec fn count_spec(&self) -> u32 {
        self.midstate_count
    }

    /// First rolled value of the next assignment.
    pub closed spec fn next_spec(&self) -> u32 {
        self.next_index
    }

    pub open spec fn wf(&self) -> bool {
        &&& 1 <= self.count_spec() <= VERSION_ROLLING_COUNT
        &&& self.next_spec() <= VERSION_ROLLING_COUNT
    }

    pub open spec fn is_exhausted_spec(&self) -> bool {
        self.next_spec() + self.count_spec() > VERSION_ROLLING_COUNT
    }

    /// The assignment that starts at rolled value `start`.
    pub open spec fn assignment_at(&self, a: Assignment, start: u32) -> bool {
        &&& a.path@ == Seq::<NodeId>::empty()
        &&& a.job == self.job_spec()
        &&& a.ntime == self.job_spec().time
        &&& a.midstates@.len() == self.count_spec()
        &&& forall|i: int|
            0 <= i < self.count_spec() ==> {
                let v = rolled_version(self.job_spec().version, (start + i) as u32);
                #[trigger] a.midstates@[i].version == v && a.midstates@[i].state@ == midstate_spec(
                    self.job_spec(),
                    v,
                )
            }
    }

    /// What one call of `next_work` does.
    pub open spec fn next_post(old: Self, r: LoopState<Assignment>, new: Self) -> bool {
        if old.is_exhausted_spec() {
            r is Exhausted && new == old
        } else {
            &&& new.job_spec() == old.job_spec()
            &&& new.count_spec() == old.count_spec()
            &&& new.next_spec() == old.next_spec() + old.count_spec()
            &&& match r {
                LoopState::Exhausted => false,
                LoopState::Break(a) => old.assignment_at(a, old.next_spec()) && new.is_exhausted_spec(),
                LoopState::Continue(a) => old.assignment_at(a, old.next_spec()) && !new.is_exhausted_spec(),
            }
        }
    }

    /// An engine over `job` that puts `midstate_count` midstates into each assignment.
    pub fn new(job: Job, midstate_count: u32) -> (r: Self)
        requires
            1 <= midstate_count <= VERSION_ROLLING_COUNT,
        ensures
            r.wf(),
            r.job_spec() == job,
            r.count_spec() == midstate_count,
            r.next_spec() == 0,
    {
        VersionRolling { job, midstate_count, next_index: 0 }
    }

    pub fn terminate(&mut self)
        requires
            old(self).wf(),
        ensures
            final(self).wf(),
            final(self).is_exhausted_spec(),
            final(self).job_spec() == old(self).job_spec(),
            final(self).count_spec() == old(self).count_spec(),
    {
        self.next_index = VERSION_ROLLING_COUNT;
    }

    pub fn is_exhausted(&self) -> (r: bool)
        requires
            self.wf(),
        ensures
            r == self.is_exhausted_spec(),
    {
        self.next_index + self.midstate_count > VERSION_ROLLING_COUNT
    }

    pub fn next_work(&mut self) -> (r: LoopState<Assignment>)
        requires
            old(self).wf(),
        ensures
            final(self).wf(),
            Self::next_post(*old(self), r, *final(self)),
    {
        if self.is_exhausted() {
            return LoopState::Exhausted;
        }
        let start = self.next_index;
        let n = self.midstate_count;
        let mut midstates: Vec<Midstate> = Vec::new();
        let mut i: u32 = 0;
        while i < n
            invariant
                self.wf(),
                !self.is_exhausted_spec(),
                start == self.next_spec(),
                n == self.count_spec(),
                i <= n,
                midstates@.len() == i,
                forall|j: int|
                    0 <= j < i ==> {
                        let v = rolled_version(self.job_spec().version, (start + j) as u32);
                        #[trigger] midstates@[j].version == v && midstates@[j].state@
                            == midstate_spec(self.job_spec(), v)
                    },
            decreases n - i,
        {
            let k = start + i;
            let version = (self.job.version & !VERSION_ROLLING_MASK) | (k << VERSION_ROLLING_SHIFT);
            let state = job_midstate(&self.job, version);
            midstates.push(Midstate { version, state });
            i += 1;
        }
        self.next_index = start + n;
        let work = Assignment::new(self.job, midstates, self.job.time);
        assert(old(self).assignment_at(work, start));
        if self.is_exhausted() {
            LoopState::Break(work)
        } else {
            LoopState::Continue(work)
        }
    }
}

/// Versions within one version-rolled assignment are pairwise distinct.
pub proof fn lemma_assignment_versions_distinct(e: VersionRolling, a: Assignment, start: u32, i: int, j: int)
    requires
        e.wf(),
        start + e.count_spec() <= VERSION_ROLLING_COUNT,
        e.assignment_at(a, start),
        0 <= i < j < a.midstates@.len(),
    ensures
        a.midstates@[i].version != a.midstates@[j].version,
{
    lemma_rolled_versions_distinct(e.job_spec().version, (start + i) as u32, (start + j) as u32);
}

/// A work engine of any kind, as broadcast to hardware workers.
pub enum WorkEngine {
    /// Never has work: the value a channel starts with and returns to.
    Exhausted,
    One(OneWorkEngine),
    VersionRolling(VersionRolling),
    /// Work from a list of known blocks.
    Blocks(TestWorkEngine),
}

impl WorkEngine {
    pub open spec fn wf(&self) -> bool {
        match self {
            WorkEngine::VersionRolling(e) => e.wf(),
            _ => true,
        }
    }

    pub open spec fn is_exhausted_spec(&self) -> bool {
        match self {
            WorkEngine::Exhausted => true,
            WorkEngine::One(e) => e.inner_spec().is_exhausted_spec(),
            WorkEngine::VersionRolling(e) => e.is_exhausted_spec(),
            WorkEngine::Blocks(e) => e.is_exhausted_spec(),
        }
    }

    /// What one call of `next_work` does: the engine keeps its kind.
    pub open spec fn next_post(old: Self, r: LoopState<Assignment>, new: Self) -> bool {
        match (old, new) {
            (WorkEngine::Exhausted, WorkEngine::Exhausted) => r is Exhausted,
            (WorkEngine::One(o), WorkEngine::One(n)) => OneWorkEngineInner::next_post(
                o.inner_spec(),
                r,
                n.inner_spec(),
            ),
            (WorkEngine::VersionRolling(o), WorkEngine::VersionRolling(n)) => VersionRolling::next_post(o, r, n),
            (WorkEngine::Blocks(o), WorkEngine::Blocks(n)) => TestWorkEngine::next_post(o, r, n),
            _ => false,
        }
    }

    /// Forces the engine into the exhausted state.
    pub fn terminate(&mut self)
        requires
            old(self).wf(),
        ensures
            final(self).wf(),
            final(self).is_exhausted_spec(),
    {
        match self {
            WorkEngine::Exhausted => {},
            WorkEngine::One(e) => e.terminate(),
            WorkEngine::VersionRolling(e) => e.terminate(),
            WorkEngine::Blocks(e) => e.terminate(),
        }
    }

    /// Whether the engine will never hand out work again; changes nothing.
    pub fn is_exhausted(&self) -> (r: bool)
        requires
            self.wf(),
        ensures
            r == self.is_exhausted_spec(),
    {
        match self {
            WorkEngine::Exhausted => true,
            WorkEngine::One(e) => e.is_exhausted(),
            WorkEngine::VersionRolling(e) => e.is_exhausted(),
            WorkEngine::Blocks(e) => e.is_exhausted(),
        }
    }

    pub fn next_work(&mut self) -> (r: LoopState<Assignment>)
        requires
            old(self).wf(),
        ensures
            final(self).wf(),
            Self::next_post(*old(self), r, *final(self)),
            r is Exhausted <==> old(self).is_exhausted_spec(),
            r is Break ==> final(self).is_exhausted_spec(),
            old(self).is_exhausted_spec() ==> *final(self) == *old(self),
    {
        match self {
            WorkEngine::Exhausted => LoopState::Exhausted,
            WorkEngine::One(e) => e.next_work(),
            WorkEngine::VersionRolling(e) => e.next_work(),
            WorkEngine::Blocks(e) => e.next_work(),
        }
    }
}

/// Once an engine has handed out its last assignment (`Break`), it is exhausted, and
/// every later request answers `Exhausted` and leaves the engine unchanged.
pub proof fn lemma_break_is_final(
    e0: WorkEngine,
    r0: LoopState<Assignment>,
    e1: WorkEngine,
    r1: LoopState<Assignment>,
    e2: WorkEngine,
)
    requires
        e0.wf(),
        WorkEngine::next_post(e0, r0, e1),
        r0 is Break,
        WorkEngine::next_post(e1, r1, e2),
    ensures
        e1.is_exhausted_spec(),
        r1 is Exhausted,
        e2 == e1,
{
}

/// Every assignment a version-rolling engine hands out carries exactly the requested
/// number of midstates, with pairwise distinct versions.
pub proof fn lemma_version_rolling_fan_out(
    e0: VersionRolling,
    r: LoopState<Assignment>,
    e1: VersionRolling,
    a: Assignment,
)
    requires
        e0.wf(),
        VersionRolling::next_post(e0, r, e1),
        r == LoopState::Break(a) || r == LoopState::Continue(a),
    ensures
        a.midstates@.len() == e0.count_spec(),
        forall|i: int, j: int|
            0 <= i < j < a.midstates@.len() ==> a.midstates@[i].version != a.midstates@[j].version,
{
    assert forall|i: int, j: int|
        0 <= i < j < a.midstates@.len() implies a.midstates@[i].version != a.midstates@[j].version by {
        lemma_assignment_versions_distinct(e0, a, e0.next_spec(), i, j);
    }
}

} // verus!
