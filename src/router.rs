//! Routing of solutions back to the clients whose jobs they solve.
use vstd::prelude::*;
use crate::job::NodeId;
use crate::work::Solution;

verus! {

/// The solutions of `q` whose job came from `client`, in queue order.
pub open spec fn routed_to(q: Seq<Solution>, client: NodeId) -> Seq<Solution>
    decreases q.len(),
{
    if q.len() == 0 {
        Seq::empty()
    } else if q.last().work().job.origin == client {
        routed_to(q.drop_last(), client).push(q.last())
    } else {
        routed_to(q.drop_last(), client)
    }
}

/// How many solutions of `q` have no live client in `router`.
pub open spec fn unrouted(q: Seq<Solution>, router: SolutionRouter) -> nat
    decreases q.len(),
{
    if q.len() == 0 {
        0
    } else if router.has_client(q.last().work().job.origin) {
        unrouted(q.drop_last(), router)
    } else {
        unrouted(q.drop_last(), router) + 1
    }
}

/// A live client and the solutions delivered to it, oldest first.
pub struct ClientSink {
    pub client: NodeId,
    pub solutions: Vec<Solution>,
}

/// Delivers each solution to the sink of the client that supplied its job.
/// A client that is gone has no sink: its solutions are dropped.
pub struct SolutionRouter {
    sinks: Vec<ClientSink>,
}

impl SolutionRouter {
    pub closed spec fn sinks_spec(&self) -> Seq<ClientSink> {
        self.sinks@
    }

    /// `client` is alive.
    pub open spec fn has_client(&self, client: NodeId) -> bool {
        exists|i: int| 0 <= i < self.sinks_spec().len() && #[trigger] self.sinks_spec()[i].client == client
    }

    /// Each client has at most one sink.
    pub open spec fn wf(&self) -> bool {
        forall|i: int, j: int|
            0 <= i < j < self.sinks_spec().len() ==> #[trigger] self.sinks_spec()[i].client
                != #[trigger] self.sinks_spec()[j].client
    }

    /// What routing `s` does: it is appended to the sink of its job's client, if that
    /// client is alive; `r` says whether it was.
    pub open spec fn route_post(old: SolutionRouter, s: Solution, r: bool, new: SolutionRouter) -> bool {
        &&& r == old.has_client(s.work().job.origin)
        &&& new.sinks_spec().len() == old.sinks_spec().len()
        &&& forall|i: int|
            0 <= i < old.sinks_spec().len() ==> {
                &&& (#[trigger] new.sinks_spec()[i]).client == old.sinks_spec()[i].client
                &&& new.sinks_spec()[i].solutions@ == if old.sinks_spec()[i].client == s.work().job.origin {
                    old.sinks_spec()[i].solutions@.push(s)
                } else {
                    old.sinks_spec()[i].solutions@
                }
            }
    }

    pub fn new() -> (r: Self)
        ensures
            r.wf(),
            r.sinks_spec() == Seq::<ClientSink>::empty(),
    {
        SolutionRouter { sinks: Vec::new() }
    }

    /// Position of `client`'s sink.
    fn find(&self, client: NodeId) -> (r: Option<usize>)
        ensures
            match r {
                Some(i) => i < self.sinks_spec().len() && self.sinks_spec()[i as int].client == client,
                None => !self.has_client(client),
            },
    {
        let mut i: usize = 0;
        while i < self.sinks.len()
            invariant
                i <= self.sinks_spec().len(),
                forall|j: int| 0 <= j < i ==> #[trigger] self.sinks_spec()[j].client != client,
            decreases self.sinks_spec().len() - i,
        {
            if self.sinks[i].client == client {
                return Some(i);
            }
            i += 1;
        }
        None
    }

    /// Whether `client` is alive.
    pub fn is_alive(&self, client: NodeId) -> (r: bool)
        ensures
            r == self.has_client(client),
    {
        self.find(client).is_some()
    }

    /// Makes `client` alive with an empty sink; false if it already was.
    pub fn add_client(&mut self, client: NodeId) -> (r: bool)
        requires
            old(self).wf(),
        ensures
            final(self).wf(),
            r == !old(self).has_client(client),
            r ==> final(self).sinks_spec().len() == old(self).sinks_spec().len() + 1
                && final(self).sinks_spec().drop_last() == old(self).sinks_spec()
                && final(self).sinks_spec().last().client == client
                && final(self).sinks_spec().last().solutions@ == Seq::<Solution>::empty(),
            !r ==> final(self).sinks_spec() == old(self).sinks_spec(),
    {
        if self.find(client).is_some() {
            return false;
        }
        let sink = ClientSink { client, solutions: Vec::new() };
        let ghost g = sink;
        self.sinks.push(sink);
        assert(self.sinks_spec().drop_last() =~= old(self).sinks_spec());
        true
    }

    /// Client `client` is gone; its sink, with what was delivered, is handed back.
    pub fn remove_client(&mut self, client: NodeId) -> (r: Option<ClientSink>)
        requires
            old(self).wf(),
        ensures
            final(self).wf(),
            !final(self).has_client(client),
            r is None <==> !old(self).has_client(client),
            r is None ==> final(self).sinks_spec() == old(self).sinks_spec(),
            r matches Some(s) ==> s.client == client && exists|i: int|
                0 <= i < old(self).sinks_spec().len() && old(self).sinks_spec()[i] == s
                    && final(self).sinks_spec() == #[trigger] old(self).sinks_spec().remove(i),
    {
        match self.find(client) {
            Some(i) => {
                let s = self.sinks.remove(i);
                assert(old(self).sinks_spec()[i as int] == s);
                assert(self.sinks_spec() == old(self).sinks_spec().remove(i as int));
                proof {
                    assert forall|a: int, b: int|
                        0 <= a < b < self.sinks_spec().len() implies #[trigger] self.sinks_spec()[a].client
                        != #[trigger] self.sinks_spec()[b].client by {
                        let oa = if a < i { a } else { a + 1 };
                        let ob = if b < i { b } else { b + 1 };
                        assert(self.sinks_spec()[a] == old(self).sinks_spec()[oa]);
                        assert(self.sinks_spec()[b] == old(self).sinks_spec()[ob]);
                    }
                    if self.has_client(client) {
                        let k = choose|k: int| 0 <= k < self.sinks_spec().len() && #[trigger] self.sinks_spec()[k].client == client;
                        let ok = if k < i { k } else { k + 1 };
                        assert(self.sinks_spec()[k] == old(self).sinks_spec()[ok]);
                    }
                }
                Some(s)
            },
            None => None,
        }
    }

    /// The solutions delivered to `client` so far.
    pub fn delivered(&self, client: NodeId) -> (r: Option<&Vec<Solution>>)
        ensures
            match r {
                Some(v) => exists|i: int|
                    0 <= i < self.sinks_spec().len() && #[trigger] self.sinks_spec()[i].client == client
                        && self.sinks_spec()[i].solutions == *v,
                None => !self.has_client(client),
            },
    {
        match self.find(client) {
            Some(i) => Some(&self.sinks[i].solutions),
            None => None,
        }
    }

    /// Delivers `solution` to its client's sink; false if that client is gone and
    /// the solution was dropped.
    pub fn route(&mut self, solution: Solution) -> (r: bool)
        requires
            old(self).wf(),
        ensures
            final(self).wf(),
            Self::route_post(*old(self), solution, r, *final(self)),
    {
        let origin = solution.origin();
        match self.find(origin) {
            Some(i) => {
                self.sinks[i].solutions.push(solution);
                proof {
                    assert forall|k: int|
                        0 <= k < old(self).sinks_spec().len() && k != i implies old(self).sinks_spec()[k].client
                        != origin by {
                        if k < i {
                            assert(old(self).sinks_spec()[k].client != old(self).sinks_spec()[i as int].client);
                        } else {
                            assert(old(self).sinks_spec()[i as int].client != old(self).sinks_spec()[k].client);
                        }
                    }
                    assert forall|a: int, b: int|
                        0 <= a < b < self.sinks_spec().len() implies #[trigger] self.sinks_spec()[a].client
                        != #[trigger] self.sinks_spec()[b].client by {
                        assert(old(self).sinks_spec()[a].client != old(self).sinks_spec()[b].client);
                    }
                }
                true
            },
            None => false,
        }
    }

    /// Routes every solution of `queue` in order. Each live client's sink grows by
    /// exactly the solutions of its jobs, in queue order; the others are dropped and
    /// routing goes on. Returns how many were dropped.
    pub fn route_all(&mut self, queue: Vec<Solution>) -> (r: usize)
        requires
            old(self).wf(),
        ensures
            final(self).wf(),
            r == unrouted(queue@, *old(self)),
            final(self).sinks_spec().len() == old(self).sinks_spec().len(),
            forall|i: int|
                0 <= i < old(self).sinks_spec().len() ==> {
                    &&& (#[trigger] final(self).sinks_spec()[i]).client == old(self).sinks_spec()[i].client
                    &&& final(self).sinks_spec()[i].solutions@ == old(self).sinks_spec()[i].solutions@
                        + routed_to(queue@, old(self).sinks_spec()[i].client)
                },
    {
        let n = queue.len();
        let mut rest = queue;
        let mut k: usize = 0;
        let mut dropped: usize = 0;
        while rest.len() > 0
            invariant
                self.wf(),
                k <= queue@.len(),
                dropped <= k,
                dropped == unrouted(queue@.take(k as int), *old(self)),
                rest@ == queue@.skip(k as int),
                rest@.len() == queue@.len() - k,
                queue@.len() == n,
                self.sinks_spec().len() == old(self).sinks_spec().len(),
                forall|i: int|
                    0 <= i < old(self).sinks_spec().len() ==> {
                        &&& (#[trigger] self.sinks_spec()[i]).client == old(self).sinks_spec()[i].client
                        &&& self.sinks_spec()[i].solutions@ == old(self).sinks_spec()[i].solutions@
                            + routed_to(queue@.take(k as int), old(self).sinks_spec()[i].client)
                    },
            decreases rest@.len(),
        {
            let solution = rest.remove(0);
            assert(solution == queue@[k as int]);
            assert(queue@.take(k + 1).drop_last() =~= queue@.take(k as int));
            let ghost before = *self;
            proof {
                lemma_same_clients(before, *old(self), solution.work().job.origin);
            }
            if !self.route(solution) {
                dropped += 1;
            }
            k += 1;
            assert(rest@ =~= queue@.skip(k as int));
            assert forall|i: int| 0 <= i < old(self).sinks_spec().len() implies {
                &&& (#[trigger] self.sinks_spec()[i]).client == old(self).sinks_spec()[i].client
                &&& self.sinks_spec()[i].solutions@ == old(self).sinks_spec()[i].solutions@
                    + routed_to(queue@.take(k as int), old(self).sinks_spec()[i].client)
            } by {
                let c = old(self).sinks_spec()[i].client;
                assert(before.sinks_spec()[i].client == c);
                assert(queue@.take(k as int).last() == solution);
            }
        }
        assert(queue@.take(k as int) =~= queue@);
        dropped
    }
}

impl Solution {
    /// The client, if alive, followed by the work's path.
    pub open spec fn path_spec(&self, router: &SolutionRouter) -> Seq<NodeId> {
        if router.has_client(self.work().job.origin) {
            seq![self.work().job.origin] + self.work().path@
        } else {
            self.work().path@
        }
    }

    /// The whole path from the job's client down to the solver; without the client
    /// when it is gone.
    pub fn path(&self, router: &SolutionRouter) -> (r: Vec<crate::job::NodeId>)
        ensures
            r@ == self.path_spec(router),
    {
        let origin = self.origin();
        let work = self.work_ref();
        if router.is_alive(origin) {
            let mut r: Vec<NodeId> = Vec::new();
            r.push(origin);
            let mut i: usize = 0;
            while i < work.path.len()
                invariant
                    i <= work.path@.len(),
                    r@ == seq![origin] + work.path@.take(i as int),
                decreases work.path@.len() - i,
            {
                r.push(work.path[i]);
                i += 1;
                assert(r@ =~= seq![origin] + work.path@.take(i as int));
            }
            assert(work.path@.take(i as int) =~= work.path@);
            r
        } else {
            work.path.clone()
        }
    }
}

/// Routers with the same clients at the same positions have the same live clients.
proof fn lemma_same_clients(a: SolutionRouter, b: SolutionRouter, c: NodeId)
    requires
        a.sinks_spec().len() == b.sinks_spec().len(),
        forall|i: int| 0 <= i < a.sinks_spec().len() ==> (#[trigger] a.sinks_spec()[i]).client == b.sinks_spec()[i].client,
    ensures
        a.has_client(c) == b.has_client(c),
{
    if a.has_client(c) {
        let i = choose|i: int| 0 <= i < a.sinks_spec().len() && #[trigger] a.sinks_spec()[i].client == c;
        assert(b.sinks_spec()[i].client == c);
    }
    if b.has_client(c) {
        let i = choose|i: int| 0 <= i < b.sinks_spec().len() && #[trigger] b.sinks_spec()[i].client == c;
        assert(a.sinks_spec()[i].client == c);
    }
}

/// A solution whose client is gone: its path is the work's own path, routing drops
/// it and leaves every sink as it was.
pub proof fn lemma_origin_loss(router: SolutionRouter, s: Solution, delivered: bool, after: SolutionRouter)
    requires
        router.wf(),
        !router.has_client(s.work().job.origin),
        SolutionRouter::route_post(router, s, delivered, after),
    ensures
        s.path_spec(&router) == s.work().path@,
        !delivered,
        after.sinks_spec().len() == router.sinks_spec().len(),
        forall|i: int|
            0 <= i < router.sinks_spec().len() ==> (#[trigger] after.sinks_spec()[i]).solutions@
                == router.sinks_spec()[i].solutions@,
{
    assert forall|i: int| 0 <= i < router.sinks_spec().len() implies (#[trigger] after.sinks_spec()[i]).solutions@
        == router.sinks_spec()[i].solutions@ by {
        assert(router.sinks_spec()[i].client != s.work().job.origin);
    }
}

} // verus!
