//! The engine channel: last-value-wins broadcast of the current work engine.
//!
//! Engines live in an [`EngineTable`] and are shared by their index, so that one
//! engine broadcast to many workers is drained by all of them together. A broadcast
//! slot of the table holds the engine currently on offer and a version counter that
//! changes with every broadcast; receivers read the slot, never a backlog.
use vstd::prelude::*;
use crate::engine::{VersionRolling, WorkEngine, VERSION_ROLLING_COUNT};
use crate::job::Job;
use crate::work::{Assignment, LoopState};

verus! {

/// Index of an engine in an [`EngineTable`].
pub type EngineId = usize;

/// Index of a broadcast slot in an [`EngineTable`].
pub type SlotId = usize;

/// The engine that never has work; every table holds it first.
pub const EXHAUSTED_ENGINE: EngineId = 0;

/// One broadcast endpoint: the engine on offer and how often it was replaced.
#[derive(Clone, Copy, Debug)]
pub struct Slot {
    pub current: EngineId,
    pub version: u64,
    /// No sender will broadcast into this slot again.
    pub closed: bool,
}

/// The version that follows `v`.
pub open spec fn next_version(v: u64) -> u64 {
    if v == u64::MAX {
        0
    } else {
        (v + 1) as u64
    }
}

/// Every engine that was broadcast, and the broadcast slots.
///
/// Entries are never removed, so an index handed to a worker never comes to name
/// another engine; each broadcast costs one entry for the table's lifetime.
pub struct EngineTable {
    engines: Vec<WorkEngine>,
    slots: Vec<Slot>,
}

impl EngineTable {
    pub closed spec fn engines_spec(&self) -> Seq<WorkEngine> {
        self.engines@
    }

    pub closed spec fn slots_spec(&self) -> Seq<Slot> {
        self.slots@
    }

    pub open spec fn wf(&self) -> bool {
        &&& self.engines_spec().len() >= 1
        &&& self.engines_spec()[EXHAUSTED_ENGINE as int].is_exhausted_spec()
        &&& forall|i: int| 0 <= i < self.engines_spec().len() ==> #[trigger] self.engines_spec()[i].wf()
        &&& forall|s: int|
            0 <= s < self.slots_spec().len() ==> #[trigger] self.slots_spec()[s].current
                < self.engines_spec().len()
    }

    /// Engines and slots of `old` are still there in `self` (engines may have moved on).
    pub open spec fn grows_from(&self, old: &EngineTable) -> bool {
        &&& old.engines_spec().len() <= self.engines_spec().len()
        &&& old.slots_spec().len() <= self.slots_spec().len()
    }

    /// The engine on offer in `slot`.
    pub open spec fn current_spec(&self, slot: SlotId) -> EngineId {
        self.slots_spec()[slot as int].current
    }

    pub fn new() -> (r: Self)
        ensures
            r.wf(),
            r.engines_spec() == seq![WorkEngine::Exhausted],
            r.slots_spec() == Seq::<Slot>::empty(),
    {
        let mut engines: Vec<WorkEngine> = Vec::new();
        engines.push(WorkEngine::Exhausted);
        EngineTable { engines, slots: Vec::new() }
    }

    /// Stores `engine` and returns its index.
    pub fn add_engine(&mut self, engine: WorkEngine) -> (r: EngineId)
        requires
            old(self).wf(),
            engine.wf(),
        ensures
            final(self).wf(),
            r == old(self).engines_spec().len(),
            final(self).engines_spec() == old(self).engines_spec().push(engine),
            final(self).slots_spec() == old(self).slots_spec(),
    {
        let r = self.engines.len();
        self.engines.push(engine);
        proof {
            assert(self.engines_spec()[EXHAUSTED_ENGINE as int] == old(self).engines_spec()[EXHAUSTED_ENGINE as int]);
            assert forall|s: int| 0 <= s < self.slots_spec().len() implies #[trigger] self.slots_spec()[s].current
                < self.engines_spec().len() by {
                assert(old(self).slots_spec()[s].current < old(self).engines_spec().len());
            }
        }
        r
    }

    fn open_slot(&mut self) -> (r: SlotId)
        requires
            old(self).wf(),
        ensures
            final(self).wf(),
            r == old(self).slots_spec().len(),
            final(self).engines_spec() == old(self).engines_spec(),
            final(self).slots_spec() == old(self).slots_spec().push(
                Slot { current: EXHAUSTED_ENGINE, version: 0, closed: false },
            ),
    {
        let r = self.slots.len();
        self.slots.push(Slot { current: EXHAUSTED_ENGINE, version: 0, closed: false });
        proof {
            assert forall|s: int| 0 <= s < self.slots_spec().len() implies #[trigger] self.slots_spec()[s].current
                < self.engines_spec().len() by {
                if s < old(self).slots_spec().len() {
                    assert(old(self).slots_spec()[s].current < old(self).engines_spec().len());
                }
            }
        }
        r
    }

    /// Puts `engine` on offer in `slot` and advances the slot's version.
    fn publish(&mut self, slot: SlotId, engine: EngineId)
        requires
            old(self).wf(),
            slot < old(self).slots_spec().len(),
            engine < old(self).engines_spec().len(),
        ensures
            final(self).wf(),
            final(self).engines_spec() == old(self).engines_spec(),
            final(self).slots_spec() == old(self).slots_spec().update(
                slot as int,
                Slot {
                    current: engine,
                    version: next_version(old(self).slots_spec()[slot as int].version),
                    closed: old(self).slots_spec()[slot as int].closed,
                },
            ),
    {
        let old_slot = self.slots[slot];
        let version = if old_slot.version == u64::MAX {
            0
        } else {
            old_slot.version + 1
        };
        self.slots.set(slot, Slot { current: engine, version, closed: old_slot.closed });
        proof {
            assert forall|s: int| 0 <= s < self.slots_spec().len() implies #[trigger] self.slots_spec()[s].current
                < self.engines_spec().len() by {
                if s != slot {
                    assert(old(self).slots_spec()[s].current < old(self).engines_spec().len());
                }
            }
        }
    }

    /// Marks `slot` as closed: no broadcast will reach it again.
    pub fn close_slot(&mut self, slot: SlotId)
        requires
            old(self).wf(),
            slot < old(self).slots_spec().len(),
        ensures
            final(self).wf(),
            final(self).engines_spec() == old(self).engines_spec(),
            final(self).slots_spec() == old(self).slots_spec().update(
                slot as int,
                Slot { closed: true, ..old(self).slots_spec()[slot as int] },
            ),
    {
        let old_slot = self.slots[slot];
        self.slots.set(slot, Slot { current: old_slot.current, version: old_slot.version, closed: true });
        proof {
            assert forall|s: int| 0 <= s < self.slots_spec().len() implies #[trigger] self.slots_spec()[s].current
                < self.engines_spec().len() by {
                assert(old(self).slots_spec()[s].current < old(self).engines_spec().len());
            }
        }
    }

    /// The slot's current state.
    pub fn slot(&self, slot: SlotId) -> (r: Slot)
        requires
            slot < self.slots_spec().len(),
        ensures
            r == self.slots_spec()[slot as int],
    {
        self.slots[slot]
    }

    pub fn is_exhausted(&self, engine: EngineId) -> (r: bool)
        requires
            self.wf(),
            engine < self.engines_spec().len(),
        ensures
            r == self.engines_spec()[engine as int].is_exhausted_spec(),
    {
        self.engines[engine].is_exhausted()
    }

    /// Takes the next assignment from `engine`.
    pub fn next_work(&mut self, engine: EngineId) -> (r: LoopState<Assignment>)
        requires
            old(self).wf(),
            engine < old(self).engines_spec().len(),
        ensures
            final(self).wf(),
            WorkEngine::next_post(
                old(self).engines_spec()[engine as int],
                r,
                final(self).engines_spec()[engine as int],
            ),
            r is Exhausted <==> old(self).engines_spec()[engine as int].is_exhausted_spec(),
            final(self).engines_spec() == old(self).engines_spec().update(
                engine as int,
                final(self).engines_spec()[engine as int],
            ),
            final(self).slots_spec() == old(self).slots_spec(),
    {
        assert(self.engines_spec()[engine as int].wf());
        let r = self.engines[engine].next_work();
        proof {
            assert forall|i: int| 0 <= i < self.engines_spec().len() implies #[trigger] self.engines_spec()[i].wf() by {
                if i != engine {
                    assert(old(self).engines_spec()[i].wf());
                }
            }
            assert forall|s: int| 0 <= s < self.slots_spec().len() implies #[trigger] self.slots_spec()[s].current
                < self.engines_spec().len() by {
                assert(old(self).slots_spec()[s].current < old(self).engines_spec().len());
            }
        }
        r
    }

    /// Forces `engine` into the exhausted state.
    pub fn terminate(&mut self, engine: EngineId)
        requires
            old(self).wf(),
            engine < old(self).engines_spec().len(),
        ensures
            final(self).wf(),
            final(self).engines_spec()[engine as int].is_exhausted_spec(),
            final(self).engines_spec().len() == old(self).engines_spec().len(),
            forall|i: int|
                0 <= i < old(self).engines_spec().len() && i != engine ==> final(self).engines_spec()[i]
                    == old(self).engines_spec()[i],
            final(self).slots_spec() == old(self).slots_spec(),
    {
        assert(self.engines_spec()[engine as int].wf());
        self.engines[engine].terminate();
        proof {
            assert forall|i: int| 0 <= i < self.engines_spec().len() implies #[trigger] self.engines_spec()[i].wf() by {
                if i != engine {
                    assert(old(self).engines_spec()[i].wf());
                }
            }
            assert forall|s: int| 0 <= s < self.slots_spec().len() implies #[trigger] self.slots_spec()[s].current
                < self.engines_spec().len() by {
                assert(old(self).slots_spec()[s].current < old(self).engines_spec().len());
            }
        }
    }
}

/// Turns a job into a work engine.
#[derive(Clone, Copy, Debug)]
pub enum EngineGenerator {
    /// Every job gives an engine without work.
    Exhausted,
    /// Every job gives a version-rolling engine with this many midstates per assignment.
    VersionRolling(u32),
}

impl EngineGenerator {
    pub open spec fn wf(&self) -> bool {
        match self {
            EngineGenerator::Exhausted => true,
            EngineGenerator::VersionRolling(n) => 1 <= *n <= VERSION_ROLLING_COUNT,
        }
    }

    /// `engine` is what this generator makes of `job`.
    pub open spec fn generates(&self, job: Job, engine: WorkEngine) -> bool {
        match self {
            EngineGenerator::Exhausted => engine is Exhausted,
            EngineGenerator::VersionRolling(n) => match engine {
                WorkEngine::VersionRolling(e) => e.job_spec() == job && e.count_spec() == *n
                    && e.next_spec() == 0,
                _ => false,
            },
        }
    }

    pub fn generate(&self, job: Job) -> (r: WorkEngine)
        requires
            self.wf(),
        ensures
            r.wf(),
            self.generates(job, r),
    {
        match self {
            EngineGenerator::Exhausted => WorkEngine::Exhausted,
            EngineGenerator::VersionRolling(n) => WorkEngine::VersionRolling(VersionRolling::new(job, *n)),
        }
    }
}

/// Installs engines into a broadcast slot.
pub struct EngineSender {
    engine_generator: Option<EngineGenerator>,
    current_engine: EngineId,
    sender: Option<SlotId>,
}

impl EngineSender {
    /// The configured generator; none until one is installed.
    pub closed spec fn generator_spec(&self) -> Option<EngineGenerator> {
        self.engine_generator
    }

    /// The engine this sender last installed.
    pub closed spec fn current_spec(&self) -> EngineId {
        self.current_engine
    }

    /// The slot this sender broadcasts into, if it has one.
    pub closed spec fn slot_spec(&self) -> Option<SlotId> {
        self.sender
    }

    pub open spec fn wf(&self, t: &EngineTable) -> bool {
        &&& (self.generator_spec() matches Some(g) ==> g.wf())
        &&& self.current_spec() < t.engines_spec().len()
        &&& (self.slot_spec() matches Some(s) ==> s < t.slots_spec().len())
    }

    /// `t` is `old_t` after the sender put its current engine on offer again.
    pub open spec fn rebroadcast_post(&self, old_t: &EngineTable, t: &EngineTable) -> bool {
        &&& t.engines_spec() == old_t.engines_spec()
        &&& match self.slot_spec() {
            Some(s) => t.slots_spec() == old_t.slots_spec().update(
                s as int,
                Slot {
                    current: self.current_spec(),
                    version: next_version(old_t.slots_spec()[s as int].version),
                    closed: old_t.slots_spec()[s as int].closed,
                },
            ),
            None => t.slots_spec() == old_t.slots_spec(),
        }
    }

    /// `(s, t)` is `(old_s, old_t)` after broadcasting `engine`.
    pub open spec fn broadcast_post(
        old_s: &EngineSender,
        old_t: &EngineTable,
        engine: WorkEngine,
        s: &EngineSender,
        t: &EngineTable,
    ) -> bool {
        &&& s.current_spec() == old_t.engines_spec().len()
        &&& s.generator_spec() == old_s.generator_spec()
        &&& s.slot_spec() == old_s.slot_spec()
        &&& t.engines_spec() == old_t.engines_spec().push(engine)
        &&& match s.slot_spec() {
            Some(sl) => t.slots_spec() == old_t.slots_spec().update(
                sl as int,
                Slot {
                    current: s.current_spec(),
                    version: next_version(old_t.slots_spec()[sl as int].version),
                    closed: old_t.slots_spec()[sl as int].closed,
                },
            ),
            None => t.slots_spec() == old_t.slots_spec(),
        }
    }

    /// A sender without a slot, holding `engine` (or the engine without work).
    pub fn new(t: &mut EngineTable, engine: Option<WorkEngine>) -> (r: Self)
        requires
            old(t).wf(),
            engine matches Some(e) ==> e.wf(),
        ensures
            final(t).wf(),
            r.wf(final(t)),
            final(t).grows_from(old(t)),
            r.slot_spec() is None,
            r.generator_spec() is None,
            engine is None ==> r.current_spec() == EXHAUSTED_ENGINE && *final(t) == *old(t),
            engine matches Some(e) ==> final(t).engines_spec() == old(t).engines_spec().push(e)
                && r.current_spec() == old(t).engines_spec().len(),
    {
        let current_engine = match engine {
            Some(e) => t.add_engine(e),
            None => EXHAUSTED_ENGINE,
        };
        EngineSender::create(current_engine, None)
    }

    fn create(current_engine: EngineId, sender: Option<SlotId>) -> (r: Self)
        ensures
            r.generator_spec() is None,
            r.current_spec() == current_engine,
            r.slot_spec() == sender,
    {
        EngineSender { engine_generator: None, current_engine, sender }
    }

    fn re_broadcast(&self, t: &mut EngineTable)
        requires
            old(t).wf(),
            self.wf(old(t)),
        ensures
            final(t).wf(),
            self.rebroadcast_post(old(t), final(t)),
    {
        match self.sender {
            Some(slot) => t.publish(slot, self.current_engine),
            None => {},
        }
    }

    /// Whether a generator has been installed.
    pub fn has_engine_generator(&self) -> (r: bool)
        ensures
            r == self.generator_spec() is Some,
    {
        self.engine_generator.is_some()
    }

    /// Installs a new generator and hands back the previous one, if there was one.
    pub fn replace_engine_generator(&mut self, engine_generator: EngineGenerator) -> (r: Option<EngineGenerator>)
        requires
            engine_generator.wf(),
        ensures
            r == old(self).generator_spec(),
            final(self).generator_spec() == Some(engine_generator),
            final(self).current_spec() == old(self).current_spec(),
            final(self).slot_spec() == old(self).slot_spec(),
    {
        let r = self.engine_generator;
        self.engine_generator = Some(engine_generator);
        r
    }

    /// Exchanges the slots of two senders, then each puts its own engine on offer
    /// in the slot it now holds. Receivers stay attached to their slot.
    pub fn swap_sender(&mut self, other: &mut Self, t: &mut EngineTable)
        requires
            old(t).wf(),
            old(self).wf(old(t)),
            old(other).wf(old(t)),
            old(self).slot_spec() is Some && old(other).slot_spec() is Some ==> old(self).slot_spec()
                != old(other).slot_spec(),
        ensures
            final(t).wf(),
            final(self).wf(final(t)),
            final(other).wf(final(t)),
            final(self).slot_spec() == old(other).slot_spec(),
            final(other).slot_spec() == old(self).slot_spec(),
            final(self).current_spec() == old(self).current_spec(),
            final(other).current_spec() == old(other).current_spec(),
            final(self).generator_spec() == old(self).generator_spec(),
            final(other).generator_spec() == old(other).generator_spec(),
            final(t).engines_spec() == old(t).engines_spec(),
            final(t).slots_spec().len() == old(t).slots_spec().len(),
            old(other).slot_spec() matches Some(s) ==> final(t).current_spec(s) == old(self).current_spec(),
            old(self).slot_spec() matches Some(s) ==> final(t).current_spec(s) == old(other).current_spec(),
    {
        std::mem::swap(&mut self.sender, &mut other.sender);
        self.re_broadcast(t);
        other.re_broadcast(t);
    }

    /// Stores `engine`, makes it the current engine and puts it on offer.
    pub fn broadcast_engine(&mut self, t: &mut EngineTable, engine: WorkEngine)
        requires
            old(t).wf(),
            old(self).wf(old(t)),
            engine.wf(),
        ensures
            final(t).wf(),
            final(self).wf(final(t)),
            Self::broadcast_post(old(self), old(t), engine, final(self), final(t)),
    {
        let id = t.add_engine(engine);
        self.current_engine = id;
        self.re_broadcast(t);
    }

    /// Makes an engine of `job` with the installed generator and broadcasts it.
    /// Broadcasting a job without a generator is a construction bug: it is not allowed.
    pub fn broadcast_job(&mut self, t: &mut EngineTable, job: Job)
        requires
            old(t).wf(),
            old(self).wf(old(t)),
            old(self).generator_spec() is Some,
        ensures
            final(t).wf(),
            final(self).wf(final(t)),
            exists|e: WorkEngine|
                old(self).generator_spec().unwrap().generates(job, e) && #[trigger] Self::broadcast_post(
                    old(self),
                    old(t),
                    e,
                    final(self),
                    final(t),
                ),
    {
        let engine = match &self.engine_generator {
            Some(g) => g.generate(job),
            None => vstd::pervasive::unreached(),
        };
        let ghost e = engine;
        self.broadcast_engine(t, engine);
        assert(Self::broadcast_post(old(self), old(t), e, final(self), final(t)));
    }

    /// Puts the engine without work on offer.
    pub fn invalidate(&mut self, t: &mut EngineTable)
        requires
            old(t).wf(),
            old(self).wf(old(t)),
        ensures
            final(t).wf(),
            final(self).wf(final(t)),
            final(self).current_spec() == EXHAUSTED_ENGINE,
            final(self).generator_spec() == old(self).generator_spec(),
            final(self).slot_spec() == old(self).slot_spec(),
            final(self).rebroadcast_post(old(t), final(t)),
    {
        self.current_engine = EXHAUSTED_ENGINE;
        self.re_broadcast(t);
    }

    /// Gives up the sender; its slot is closed.
    pub fn close(self, t: &mut EngineTable)
        requires
            old(t).wf(),
            self.wf(old(t)),
        ensures
            final(t).wf(),
            final(t).engines_spec() == old(t).engines_spec(),
            match self.slot_spec() {
                Some(s) => final(t).slots_spec() == old(t).slots_spec().update(
                    s as int,
                    Slot { closed: true, ..old(t).slots_spec()[s as int] },
                ),
                None => *final(t) == *old(t),
            },
    {
        match self.sender {
            Some(slot) => t.close_slot(slot),
            None => {},
        }
    }
}

/// Told when a receiver has taken the last assignment out of an engine.
pub trait ExhaustedHandler: Sized {
    /// `new` is the handler `old` after it was told of `engine`; a handler that
    /// states nothing of itself leaves this as `true`.
    open spec fn told(old: Self, engine: EngineId, new: Self) -> bool {
        true
    }

    fn handle_exhausted(&mut self, engine: EngineId)
        ensures
            Self::told(*old(self), engine, *final(self)),
    ;
}

/// Handler that ignores every event.
#[derive(Clone, Copy, Debug)]
pub struct IgnoreEvents;

impl ExhaustedHandler for IgnoreEvents {
    open spec fn told(old: Self, engine: EngineId, new: Self) -> bool {
        new == old
    }

    fn handle_exhausted(&mut self, _engine: EngineId) {
    }
}

/// Handler that records exhausted engines, oldest first, for whoever reschedules work.
#[derive(Debug)]
pub struct ExhaustedLog {
    pub engines: Vec<EngineId>,
}

impl ExhaustedLog {
    pub fn new() -> (r: Self)
        ensures
            r.engines@ == Seq::<EngineId>::empty(),
    {
        ExhaustedLog { engines: Vec::new() }
    }
}

impl ExhaustedHandler for ExhaustedLog {
    open spec fn told(old: Self, engine: EngineId, new: Self) -> bool {
        new.engines@ == old.engines@.push(engine)
    }

    fn handle_exhausted(&mut self, engine: EngineId) {
        self.engines.push(engine);
    }
}

/// What a receiver finds in its slot.
#[derive(Clone, Copy, Debug, PartialEq, Eq)]
pub enum EnginePoll {
    /// An engine with work.
    Ready(EngineId),
    /// Nothing with work yet: wait for the slot's version to change.
    Pending,
    /// Nothing with work, and no sender left.
    Closed,
}

/// Reads the engine on offer in one slot.
pub struct EngineReceiver<H> {
    slot: SlotId,
    seen_version: u64,
    event_handler: H,
}

impl<H: ExhaustedHandler> EngineReceiver<H> {
    pub closed spec fn slot_spec(&self) -> SlotId {
        self.slot
    }

    /// Slot version at this receiver's last look.
    pub closed spec fn seen_spec(&self) -> u64 {
        self.seen_version
    }

    pub closed spec fn handler_spec(&self) -> H {
        self.event_handler
    }

    pub open spec fn wf(&self, t: &EngineTable) -> bool {
        self.slot_spec() < t.slots_spec().len()
    }

    /// What `get_engine` answers on table `t` for a receiver of `slot`.
    pub open spec fn poll_spec(t: &EngineTable, slot: SlotId) -> EnginePoll {
        let cur = t.current_spec(slot);
        if !t.engines_spec()[cur as int].is_exhausted_spec() {
            EnginePoll::Ready(cur)
        } else if t.slots_spec()[slot as int].closed {
            EnginePoll::Closed
        } else {
            EnginePoll::Pending
        }
    }

    pub fn event_handler(&self) -> (r: &H)
        ensures
            *r == self.handler_spec(),
    {
        &self.event_handler
    }

    /// The engine on offer if it has work; otherwise whether to wait or give up.
    pub fn get_engine(&mut self, t: &EngineTable) -> (r: EnginePoll)
        requires
            t.wf(),
            old(self).wf(t),
        ensures
            r == Self::poll_spec(t, old(self).slot_spec()),
            final(self).slot_spec() == old(self).slot_spec(),
            final(self).seen_spec() == t.slots_spec()[old(self).slot_spec() as int].version,
            final(self).handler_spec() == old(self).handler_spec(),
    {
        let slot = t.slot(self.slot);
        self.seen_version = slot.version;
        if !t.is_exhausted(slot.current) {
            EnginePoll::Ready(slot.current)
        } else if slot.closed {
            EnginePoll::Closed
        } else {
            EnginePoll::Pending
        }
    }

    /// Whether the receiver's slot belongs to `t`.
    pub fn is_attached(&self, t: &EngineTable) -> (r: bool)
        ensures
            r == self.wf(t),
    {
        self.slot < t.slots.len()
    }

    /// Another receiver of the same slot, with a copy of the handler.
    pub fn subscribe(&self) -> (r: Self)
        where
            H: Copy,
        ensures
            r.slot_spec() == self.slot_spec(),
            r.seen_spec() == self.seen_spec(),
    {
        EngineReceiver { slot: self.slot, seen_version: self.seen_version, event_handler: self.event_handler }
    }

    /// Whether the slot changed since this receiver last looked, or was closed.
    pub fn has_news(&self, t: &EngineTable) -> (r: bool)
        requires
            self.wf(t),
        ensures
            r == (t.slots_spec()[self.slot_spec() as int].version != self.seen_spec()
                || t.slots_spec()[self.slot_spec() as int].closed),
    {
        let slot = t.slot(self.slot);
        slot.version != self.seen_version || slot.closed
    }

    /// To be called by the worker that took the last assignment out of `engine`:
    /// the handler is told of `engine`, once.
    pub fn handle_exhausted(&mut self, engine: EngineId)
        ensures
            H::told(old(self).handler_spec(), engine, final(self).handler_spec()),
            final(self).slot_spec() == old(self).slot_spec(),
            final(self).seen_spec() == old(self).seen_spec(),
    {
        self.event_handler.handle_exhausted(engine);
    }
}

/// A connected sender and receiver over a fresh slot that offers the engine without work.
pub fn engine_channel<H: ExhaustedHandler>(t: &mut EngineTable, event_handler: H) -> (r: (
    EngineSender,
    EngineReceiver<H>,
))
    requires
        old(t).wf(),
    ensures
        final(t).wf(),
        final(t).engines_spec() == old(t).engines_spec(),
        final(t).slots_spec() == old(t).slots_spec().push(
            Slot { current: EXHAUSTED_ENGINE, version: 0, closed: false },
        ),
        r.0.wf(final(t)),
        r.1.wf(final(t)),
        r.0.slot_spec() == Some(old(t).slots_spec().len() as SlotId),
        r.1.slot_spec() == old(t).slots_spec().len(),
        r.0.current_spec() == EXHAUSTED_ENGINE,
        r.0.generator_spec() is None,
        r.1.handler_spec() == event_handler,
{
    let slot = t.open_slot();
    (
        EngineSender::create(EXHAUSTED_ENGINE, Some(slot)),
        EngineReceiver { slot, seen_version: 0, event_handler },
    )
}

/// Last value wins: whatever a sender broadcast before, a receiver of its slot that
/// looks after three broadcasts is handed the engine broadcast last, if it has work;
/// the earlier two are never offered again.
pub proof fn lemma_last_value_wins(
    s0: EngineSender,
    t0: EngineTable,
    e1: WorkEngine,
    s1: EngineSender,
    t1: EngineTable,
    e2: WorkEngine,
    s2: EngineSender,
    t2: EngineTable,
    e3: WorkEngine,
    s3: EngineSender,
    t3: EngineTable,
    slot: SlotId,
)
    requires
        t0.wf(),
        s0.wf(&t0),
        s0.slot_spec() == Some(slot),
        EngineSender::broadcast_post(&s0, &t0, e1, &s1, &t1),
        EngineSender::broadcast_post(&s1, &t1, e2, &s2, &t2),
        EngineSender::broadcast_post(&s2, &t2, e3, &s3, &t3),
        !e3.is_exhausted_spec(),
    ensures
        t3.current_spec(slot) == s3.current_spec(),
        t3.engines_spec()[s3.current_spec() as int] == e3,
        EngineReceiver::<IgnoreEvents>::poll_spec(&t3, slot) == EnginePoll::Ready(s3.current_spec()),
{
}

} // verus!
