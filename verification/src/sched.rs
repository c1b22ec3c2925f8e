use vstd::prelude::*;

use crate::rt_result::RtResult;

verus! {

/// The life of a lightweight process: enqueued and awaiting a worker,
/// executing on a worker, handed to the blocking bridge, or finished.
#[derive(Clone, Copy, PartialEq, Eq, Structural, Debug)]
pub enum ProcState {
    Ready,
    Running,
    Blocked,
    Finished,
}

/// A lightweight process as the scheduler sees it: its state, and the result
/// its last bridged native call produced, delivered when it was re-enqueued.
#[derive(Clone, Copy, Debug)]
pub struct Process {
    pub state: ProcState,
    pub result: RtResult,
}

/// One OS worker thread of the pool: the process it currently runs, if any.
#[derive(Clone, Copy, Debug)]
pub struct Worker {
    pub current: Option<usize>,
}

/// The worker pool and blocking bridge. Processes are identified by their
/// index; `ready` is the shared run queue every worker pulls from, and
/// `blocked` holds the processes whose native call is out on the bridge's
/// dedicated blocking-operations threads.
pub struct Scheduler {
    pub procs: Vec<Process>,
    pub workers: Vec<Worker>,
    pub ready: Vec<usize>,
    pub blocked: Vec<usize>,
}

impl Scheduler {
    /// The process sits somewhere in the run queue.
    pub open spec fn queued(self, p: usize) -> bool {
        exists|i: int| 0 <= i < self.ready@.len() && self.ready@[i] == p
    }

    /// The process is out on the blocking bridge.
    pub open spec fn bridged(self, p: usize) -> bool {
        exists|i: int| 0 <= i < self.blocked@.len() && self.blocked@[i] == p
    }

    /// Some worker currently runs the process.
    pub open spec fn on_worker(self, p: usize) -> bool {
        exists|w: int| 0 <= w < self.workers@.len() && self.workers@[w].current == Some(p)
    }

    /// The scheduler's invariant.
    ///
    /// - The run queue holds exactly the Ready processes, each once.
    /// - The bridge holds exactly the Blocked processes, each once; a worker
    ///   never holds a Blocked process, so the bridge costs no worker.
    /// - A worker only holds a Running process, every Running process is held
    ///   by a worker, and no two workers hold the same process.
    pub open spec fn wf(self) -> bool {
        &&& forall|i: int|
            0 <= i < self.ready@.len() ==> (#[trigger] self.ready@[i]) < self.procs@.len()
                && self.procs@[self.ready@[i] as int].state is Ready
        &&& forall|i: int, j: int|
            0 <= i < j < self.ready@.len() ==> self.ready@[i] != self.ready@[j]
        &&& forall|i: int|
            0 <= i < self.blocked@.len() ==> (#[trigger] self.blocked@[i]) < self.procs@.len()
                && self.procs@[self.blocked@[i] as int].state is Blocked
        &&& forall|i: int, j: int|
            0 <= i < j < self.blocked@.len() ==> self.blocked@[i] != self.blocked@[j]
        &&& forall|w: int|
            0 <= w < self.workers@.len() ==> ((#[trigger] self.workers@[w].current) matches Some(
                p,
            ) ==> p < self.procs@.len() && self.procs@[p as int].state is Running)
        &&& forall|w1: int, w2: int|
            0 <= w1 < w2 < self.workers@.len() ==> ((#[trigger] self.workers@[w1].current) matches
                Some(p) ==> (#[trigger] self.workers@[w2].current) != Some(p))
        &&& forall|p: usize|
            p < self.procs@.len() && (#[trigger] self.procs@[p as int].state) is Ready
                ==> self.queued(p)
        &&& forall|p: usize|
            p < self.procs@.len() && (#[trigger] self.procs@[p as int].state) is Blocked
                ==> self.bridged(p)
        &&& forall|p: usize|
            p < self.procs@.len() && (#[trigger] self.procs@[p as int].state) is Running
                ==> self.on_worker(p)
    }

    /// A pool of `worker_count` idle workers with nothing to run yet.
    pub fn new(worker_count: usize) -> (s: Scheduler)
        ensures
            s.wf(),
            s.workers@.len() == worker_count,
            s.procs@.len() == 0,
            s.ready@.len() == 0,
            s.blocked@.len() == 0,
            forall|w: int| 0 <= w < worker_count ==> (#[trigger] s.workers@[w].current) is None,
    {
        let mut workers: Vec<Worker> = Vec::new();
        let mut i: usize = 0;
        while i < worker_count
            invariant
                i <= worker_count,
                workers@.len() == i,
                forall|w: int| 0 <= w < i ==> (#[trigger] workers@[w].current) is None,
            decreases worker_count - i,
        {
            workers.push(Worker { current: None });
            i = i + 1;
        }
        Scheduler { procs: Vec::new(), workers, ready: Vec::new(), blocked: Vec::new() }
    }

    /// Creates a process and enqueues it Ready.
    pub fn spawn(&mut self) -> (p: usize)
        requires
            old(self).wf(),
            old(self).procs@.len() < usize::MAX,
        ensures
            final(self).wf(),
            p == old(self).procs@.len(),
            final(self).procs@ == old(self).procs@.push(
                Process { state: ProcState::Ready, result: RtResult::Empty },
            ),
            final(self).ready@ == old(self).ready@.push(p),
            final(self).blocked == old(self).blocked,
            final(self).workers == old(self).workers,
    {
        let p = self.procs.len();
        self.procs.push(Process { state: ProcState::Ready, result: RtResult::Empty });
        self.ready.push(p);
        proof {
            let pre = *old(self);
            let post = *self;
            assert forall|q: usize|
                q < post.procs@.len() && (#[trigger] post.procs@[q as int].state) is Ready implies post.queued(
                q,
            ) by {
                if q == p {
                    assert(post.ready@[post.ready@.len() - 1] == p);
                } else {
                    assert(pre.procs@[q as int].state is Ready);
                    let i = choose|i: int|
                        0 <= i < pre.ready@.len() && pre.ready@[i] == q;
                    assert(post.ready@[i] == q);
                }
            }
            assert forall|q: usize|
                q < post.procs@.len() && (#[trigger] post.procs@[q as int].state) is Blocked implies post.bridged(
                q,
            ) by {
                assert(pre.procs@[q as int].state is Blocked);
                assert(pre.bridged(q));
                let i = choose|i: int|
                    0 <= i < pre.blocked@.len() && pre.blocked@[i] == q;
                assert(post.blocked@[i] == q);
            }
            assert forall|q: usize|
                q < post.procs@.len() && (#[trigger] post.procs@[q as int].state) is Running implies post.on_worker(
                q,
            ) by {
                assert(pre.procs@[q as int].state is Running);
                let w = choose|w: int|
                    0 <= w < pre.workers@.len() && pre.workers@[w].current == Some(q);
                assert(post.workers@[w].current == Some(q));
            }
        }
        p
    }

    /// An idle worker pulls the front of the run queue. Whenever any process
    /// is Ready, the worker gets one: a worker never sits idle while work
    /// exists anywhere in the pool.
    pub fn schedule(&mut self, w: usize) -> (picked: Option<usize>)
        requires
            old(self).wf(),
            w < old(self).workers@.len(),
            old(self).workers@[w as int].current is None,
        ensures
            final(self).wf(),
            final(self).workers@.len() == old(self).workers@.len(),
            final(self).procs@.len() == old(self).procs@.len(),
            final(self).blocked == old(self).blocked,
            old(self).ready@.len() == 0 ==> *final(self) == *old(self) && picked is None,
            old(self).ready@.len() > 0 ==> picked == Some(old(self).ready@[0]),
            old(self).ready@.len() > 0 ==> final(self).ready@ == old(self).ready@.subrange(
                1,
                old(self).ready@.len() as int,
            ),
            old(self).ready@.len() > 0 ==> final(self).workers@[w as int].current == Some(
                old(self).ready@[0],
            ),
            old(self).ready@.len() > 0 ==> final(self).procs@[old(self).ready@[0] as int].state
                is Running,
            old(self).ready@.len() > 0 ==> final(self).procs@[old(self).ready@[0] as int].result
                == old(self).procs@[old(self).ready@[0] as int].result,
            old(self).ready@.len() > 0 ==> (forall|q: int|
                0 <= q < old(self).procs@.len() && q != old(self).ready@[0] as int
                    ==> final(self).procs@[q] == old(self).procs@[q]),
            forall|v: int|
                0 <= v < old(self).workers@.len() && v != w as int ==> final(self).workers@[v]
                    == old(self).workers@[v],
    {
        if self.ready.len() == 0 {
            return None;
        }
        let p = self.ready.remove(0);
        let prev = self.procs[p];
        self.procs[p] = Process { state: ProcState::Running, result: prev.result };
        self.workers[w] = Worker { current: Some(p) };
        proof {
            let pre = *old(self);
            let post = *self;
            let p0 = pre.ready@[0];
            assert(post.ready@ =~= pre.ready@.subrange(1, pre.ready@.len() as int));
            assert forall|i: int|
                0 <= i < post.ready@.len() implies (#[trigger] post.ready@[i]) < post.procs@.len()
                && post.procs@[post.ready@[i] as int].state is Ready by {
                assert(post.ready@[i] == pre.ready@[i + 1]);
                assert(pre.ready@[i + 1] != p0);
            }
            assert forall|q: usize|
                q < post.procs@.len() && (#[trigger] post.procs@[q as int].state) is Ready implies post.queued(
                q,
            ) by {
                assert(pre.procs@[q as int].state is Ready);
                assert(pre.queued(q));
                let i = choose|i: int| 0 <= i < pre.ready@.len() && pre.ready@[i] == q;
                assert(i != 0);
                assert(post.ready@[i - 1] == q);
            }
            assert forall|q: usize|
                q < post.procs@.len() && (#[trigger] post.procs@[q as int].state) is Blocked implies post.bridged(
                q,
            ) by {
                assert(pre.procs@[q as int].state is Blocked);
                assert(pre.bridged(q));
                let i = choose|i: int|
                    0 <= i < pre.blocked@.len() && pre.blocked@[i] == q;
                assert(post.blocked@[i] == q);
            }
            assert forall|q: usize|
                q < post.procs@.len() && (#[trigger] post.procs@[q as int].state) is Running implies post.on_worker(
                q,
            ) by {
                if q == p0 {
                    assert(post.workers@[w as int].current == Some(p0));
                } else {
                    assert(pre.procs@[q as int].state is Running);
                    assert(pre.on_worker(q));
                    let v = choose|v: int|
                        0 <= v < pre.workers@.len() && pre.workers@[v].current == Some(q);
                    assert(v != w as int);
                    assert(post.workers@[v].current == Some(q));
                }
            }
            assert forall|v1: int, v2: int|
                0 <= v1 < v2 < post.workers@.len() implies ((#[trigger] post.workers@[v1].current)
                matches Some(a) ==> (#[trigger] post.workers@[v2].current) != Some(a)) by {
                if post.workers@[v1].current is Some {
                    let a = post.workers@[v1].current->Some_0;
                    if post.workers@[v2].current == Some(a) {
                        if v1 == w as int || v2 == w as int {
                            let u = if v1 == w as int {
                                v2
                            } else {
                                v1
                            };
                            assert(pre.workers@[u].current == Some(p0));
                            assert(pre.procs@[p0 as int].state is Running);
                            assert(false);
                        } else {
                            assert(pre.workers@[v1].current == Some(a));
                            assert(pre.workers@[v2].current == Some(a));
                            assert(false);
                        }
                    }
                }
            }
        }
        Some(p)
    }

    /// Hands the process the worker currently runs over to the blocking
    /// bridge. The worker is freed at once — it does not wait for the
    /// blocking call to finish — so a blocked process never occupies a
    /// worker thread.
    pub fn block(&mut self, w: usize) -> (p: usize)
        requires
            old(self).wf(),
            w < old(self).workers@.len(),
            old(self).workers@[w as int].current is Some,
        ensures
            final(self).wf(),
            p == old(self).workers@[w as int].current->Some_0,
            final(self).workers@[w as int].current is None,
            final(self).procs@[p as int].state is Blocked,
            final(self).procs@[p as int].result == old(self).procs@[p as int].result,
            final(self).blocked@ == old(self).blocked@.push(p),
            final(self).ready == old(self).ready,
            final(self).procs@.len() == old(self).procs@.len(),
            forall|q: int|
                0 <= q < old(self).procs@.len() && q != p as int ==> final(self).procs@[q] == old(
                    self,
                ).procs@[q],
            forall|v: int|
                0 <= v < old(self).workers@.len() && v != w as int ==> final(self).workers@[v]
                    == old(self).workers@[v],
    {
        let p = match self.workers[w].current {
            Some(p) => p,
            None => unreached(),
        };
        let prev = self.procs[p];
        self.procs[p] = Process { state: ProcState::Blocked, result: prev.result };
        self.workers[w] = Worker { current: None };
        self.blocked.push(p);
        proof {
            let pre = *old(self);
            let post = *self;
            assert forall|i: int|
                0 <= i < post.blocked@.len() implies (#[trigger] post.blocked@[i])
                < post.procs@.len() && post.procs@[post.blocked@[i] as int].state is Blocked by {
                if i < pre.blocked@.len() {
                    assert(pre.blocked@[i] != p);
                }
            }
            assert forall|i: int, j: int|
                0 <= i < j < post.blocked@.len() implies post.blocked@[i] != post.blocked@[j] by {
                if j == post.blocked@.len() - 1 {
                    assert(pre.blocked@[i] != p);
                }
            }
            assert forall|q: usize|
                q < post.procs@.len() && (#[trigger] post.procs@[q as int].state) is Ready implies post.queued(
                q,
            ) by {
                assert(pre.procs@[q as int].state is Ready);
                assert(pre.queued(q));
                let i = choose|i: int| 0 <= i < pre.ready@.len() && pre.ready@[i] == q;
                assert(post.ready@[i] == q);
            }
            assert forall|q: usize|
                q < post.procs@.len() && (#[trigger] post.procs@[q as int].state) is Blocked implies post.bridged(
                q,
            ) by {
                if q == p {
                    assert(post.blocked@[post.blocked@.len() - 1] == p);
                } else {
                    assert(pre.procs@[q as int].state is Blocked);
                    let i = choose|i: int|
                        0 <= i < pre.blocked@.len() && pre.blocked@[i] == q;
                    assert(post.blocked@[i] == q);
                }
            }
            assert forall|q: usize|
                q < post.procs@.len() && (#[trigger] post.procs@[q as int].state) is Running implies post.on_worker(
                q,
            ) by {
                assert(pre.procs@[q as int].state is Running);
                assert(pre.on_worker(q));
                let v = choose|v: int|
                    0 <= v < pre.workers@.len() && pre.workers@[v].current == Some(q);
                assert(v != w as int);
                assert(post.workers@[v].current == Some(q));
            }
        }
        p
    }

    /// The bridge reports a blocked call as finished: the process leaves the
    /// bridge carrying the call's result and is re-enqueued — onto the shared
    /// queue, not necessarily back to the worker it left.
    pub fn unblock(&mut self, i: usize, outcome: RtResult) -> (p: usize)
        requires
            old(self).wf(),
            i < old(self).blocked@.len(),
        ensures
            final(self).wf(),
            p == old(self).blocked@[i as int],
            final(self).procs@[p as int].state is Ready,
            final(self).procs@[p as int].result == outcome,
            final(self).ready@ == old(self).ready@.push(p),
            final(self).blocked@ == old(self).blocked@.remove(i as int),
            final(self).workers == old(self).workers,
            final(self).procs@.len() == old(self).procs@.len(),
            forall|q: int|
                0 <= q < old(self).procs@.len() && q != p as int ==> final(self).procs@[q] == old(
                    self,
                ).procs@[q],
    {
        let p = self.blocked.remove(i);
        self.procs[p] = Process { state: ProcState::Ready, result: outcome };
        self.ready.push(p);
        proof {
            let pre = *old(self);
            let post = *self;
            assert forall|j: int|
                0 <= j < post.blocked@.len() implies (#[trigger] post.blocked@[j])
                < post.procs@.len() && post.procs@[post.blocked@[j] as int].state is Blocked by {
                if j < i {
                    assert(post.blocked@[j] == pre.blocked@[j]);
                    assert(pre.blocked@[j] != p);
                } else {
                    assert(post.blocked@[j] == pre.blocked@[j + 1]);
                    assert(pre.blocked@[j + 1] != p);
                }
            }
            assert forall|a: int, b: int|
                0 <= a < b < post.blocked@.len() implies post.blocked@[a] != post.blocked@[b] by {
                let a0 = if a < i {
                    a
                } else {
                    a + 1
                };
                let b0 = if b < i {
                    b
                } else {
                    b + 1
                };
                assert(post.blocked@[a] == pre.blocked@[a0]);
                assert(post.blocked@[b] == pre.blocked@[b0]);
            }
            assert forall|j: int|
                0 <= j < post.ready@.len() implies (#[trigger] post.ready@[j]) < post.procs@.len()
                && post.procs@[post.ready@[j] as int].state is Ready by {
                if j < pre.ready@.len() {
                    assert(pre.ready@[j] != p);
                }
            }
            assert forall|a: int, b: int|
                0 <= a < b < post.ready@.len() implies post.ready@[a] != post.ready@[b] by {
                if b == post.ready@.len() - 1 {
                    assert(pre.ready@[a] != p);
                }
            }
            assert forall|q: usize|
                q < post.procs@.len() && (#[trigger] post.procs@[q as int].state) is Ready implies post.queued(
                q,
            ) by {
                if q == p {
                    assert(post.ready@[post.ready@.len() - 1] == p);
                } else {
                    assert(pre.procs@[q as int].state is Ready);
                    assert(pre.queued(q));
                let j = choose|j: int| 0 <= j < pre.ready@.len() && pre.ready@[j] == q;
                    assert(post.ready@[j] == q);
                }
            }
            assert forall|q: usize|
                q < post.procs@.len() && (#[trigger] post.procs@[q as int].state) is Blocked implies post.bridged(
                q,
            ) by {
                assert(pre.procs@[q as int].state is Blocked);
                assert(pre.bridged(q));
                let j = choose|j: int|
                    0 <= j < pre.blocked@.len() && pre.blocked@[j] == q;
                assert(j != i);
                if j < i {
                    assert(post.blocked@[j] == q);
                } else {
                    assert(post.blocked@[j - 1] == q);
                }
            }
            assert forall|q: usize|
                q < post.procs@.len() && (#[trigger] post.procs@[q as int].state) is Running implies post.on_worker(
                q,
            ) by {
                assert(pre.procs@[q as int].state is Running);
                assert(pre.on_worker(q));
                let v = choose|v: int|
                    0 <= v < pre.workers@.len() && pre.workers@[v].current == Some(q);
                assert(post.workers@[v].current == Some(q));
            }
        }
        p
    }

    /// The process the worker runs yields voluntarily (or is preempted): it
    /// goes back to Ready at the end of the shared queue and the worker is
    /// freed.
    pub fn yield_current(&mut self, w: usize) -> (p: usize)
        requires
            old(self).wf(),
            w < old(self).workers@.len(),
            old(self).workers@[w as int].current is Some,
        ensures
            final(self).wf(),
            p == old(self).workers@[w as int].current->Some_0,
            final(self).workers@[w as int].current is None,
            final(self).procs@[p as int].state is Ready,
            final(self).procs@[p as int].result == old(self).procs@[p as int].result,
            final(self).ready@ == old(self).ready@.push(p),
            final(self).blocked == old(self).blocked,
            final(self).procs@.len() == old(self).procs@.len(),
            forall|q: int|
                0 <= q < old(self).procs@.len() && q != p as int ==> final(self).procs@[q] == old(
                    self,
                ).procs@[q],
            forall|v: int|
                0 <= v < old(self).workers@.len() && v != w as int ==> final(self).workers@[v]
                    == old(self).workers@[v],
    {
        let p = match self.workers[w].current {
            Some(p) => p,
            None => unreached(),
        };
        let prev = self.procs[p];
        self.procs[p] = Process { state: ProcState::Ready, result: prev.result };
        self.workers[w] = Worker { current: None };
        self.ready.push(p);
        proof {
            let pre = *old(self);
            let post = *self;
            assert forall|j: int|
                0 <= j < post.ready@.len() implies (#[trigger] post.ready@[j]) < post.procs@.len()
                && post.procs@[post.ready@[j] as int].state is Ready by {
                if j < pre.ready@.len() {
                    assert(pre.ready@[j] != p);
                }
            }
            assert forall|a: int, b: int|
                0 <= a < b < post.ready@.len() implies post.ready@[a] != post.ready@[b] by {
                if b == post.ready@.len() - 1 {
                    assert(pre.ready@[a] != p);
                }
            }
            assert forall|q: usize|
                q < post.procs@.len() && (#[trigger] post.procs@[q as int].state) is Ready implies post.queued(
                q,
            ) by {
                if q == p {
                    assert(post.ready@[post.ready@.len() - 1] == p);
                } else {
                    assert(pre.procs@[q as int].state is Ready);
                    assert(pre.queued(q));
                let j = choose|j: int| 0 <= j < pre.ready@.len() && pre.ready@[j] == q;
                    assert(post.ready@[j] == q);
                }
            }
            assert forall|q: usize|
                q < post.procs@.len() && (#[trigger] post.procs@[q as int].state) is Blocked implies post.bridged(
                q,
            ) by {
                assert(pre.procs@[q as int].state is Blocked);
                assert(pre.bridged(q));
                let j = choose|j: int|
                    0 <= j < pre.blocked@.len() && pre.blocked@[j] == q;
                assert(post.blocked@[j] == q);
            }
            assert forall|q: usize|
                q < post.procs@.len() && (#[trigger] post.procs@[q as int].state) is Running implies post.on_worker(
                q,
            ) by {
                assert(pre.procs@[q as int].state is Running);
                assert(pre.on_worker(q));
                let v = choose|v: int|
                    0 <= v < pre.workers@.len() && pre.workers@[v].current == Some(q);
                assert(v != w as int);
                assert(post.workers@[v].current == Some(q));
            }
        }
        p
    }

    /// The process the worker runs reaches its end: it becomes Finished, is
    /// held by no queue, and the worker is freed.
    pub fn finish(&mut self, w: usize) -> (p: usize)
        requires
            old(self).wf(),
            w < old(self).workers@.len(),
            old(self).workers@[w as int].current is Some,
        ensures
            final(self).wf(),
            p == old(self).workers@[w as int].current->Some_0,
            final(self).workers@[w as int].current is None,
            final(self).procs@[p as int].state is Finished,
            final(self).ready == old(self).ready,
            final(self).blocked == old(self).blocked,
            final(self).procs@.len() == old(self).procs@.len(),
            forall|q: int|
                0 <= q < old(self).procs@.len() && q != p as int ==> final(self).procs@[q] == old(
                    self,
                ).procs@[q],
            forall|v: int|
                0 <= v < old(self).workers@.len() && v != w as int ==> final(self).workers@[v]
                    == old(self).workers@[v],
    {
        let p = match self.workers[w].current {
            Some(p) => p,
            None => unreached(),
        };
        let prev = self.procs[p];
        self.procs[p] = Process { state: ProcState::Finished, result: prev.result };
        self.workers[w] = Worker { current: None };
        proof {
            let pre = *old(self);
            let post = *self;
            assert forall|j: int|
                0 <= j < post.ready@.len() implies (#[trigger] post.ready@[j]) < post.procs@.len()
                && post.procs@[post.ready@[j] as int].state is Ready by {
                assert(pre.ready@[j] != p);
            }
            assert forall|q: usize|
                q < post.procs@.len() && (#[trigger] post.procs@[q as int].state) is Ready implies post.queued(
                q,
            ) by {
                assert(pre.procs@[q as int].state is Ready);
                assert(pre.queued(q));
                let j = choose|j: int| 0 <= j < pre.ready@.len() && pre.ready@[j] == q;
                assert(post.ready@[j] == q);
            }
            assert forall|q: usize|
                q < post.procs@.len() && (#[trigger] post.procs@[q as int].state) is Blocked implies post.bridged(
                q,
            ) by {
                assert(pre.procs@[q as int].state is Blocked);
                assert(pre.bridged(q));
                let j = choose|j: int|
                    0 <= j < pre.blocked@.len() && pre.blocked@[j] == q;
                assert(post.blocked@[j] == q);
            }
            assert forall|q: usize|
                q < post.procs@.len() && (#[trigger] post.procs@[q as int].state) is Running implies post.on_worker(
                q,
            ) by {
                assert(pre.procs@[q as int].state is Running);
                assert(pre.on_worker(q));
                let v = choose|v: int|
                    0 <= v < pre.workers@.len() && pre.workers@[v].current == Some(q);
                assert(v != w as int);
                assert(post.workers@[v].current == Some(q));
            }
        }
        p
    }
}

/// What a worker holds is always a Running process: a process handed to the
/// blocking bridge never occupies a worker thread, so the pool's throughput
/// never degrades to the number of concurrently blocked calls.
pub proof fn lemma_blocked_never_on_worker(s: Scheduler, w: int, p: usize)
    requires
        s.wf(),
        0 <= w < s.workers@.len(),
        s.workers@[w].current == Some(p),
    ensures
        (p as int) < s.procs@.len(),
        s.procs@[p as int].state is Running,
        !(s.procs@[p as int].state is Blocked),
{
}

/// No two workers ever run the same process concurrently.
pub proof fn lemma_exclusive_occupancy(s: Scheduler, w1: int, w2: int, p: usize)
    requires
        s.wf(),
        0 <= w1 < s.workers@.len(),
        0 <= w2 < s.workers@.len(),
        w1 != w2,
        s.workers@[w1].current == Some(p),
    ensures
        s.workers@[w2].current != Some(p),
{
    if w1 < w2 {
        assert(s.workers@[w1].current matches Some(q) ==> s.workers@[w2].current != Some(q));
    } else {
        if s.workers@[w2].current == Some(p) {
            assert(s.workers@[w2].current matches Some(q) ==> s.workers@[w1].current != Some(q));
            assert(false);
        }
    }
}

/// Every Ready process sits in the shared run queue, where the next idle
/// worker will find it: as long as a process returns to Ready it is never
/// starved while workers go idle.
pub proof fn lemma_ready_is_schedulable(s: Scheduler, p: usize)
    requires
        s.wf(),
        p < s.procs@.len(),
        s.procs@[p as int].state is Ready,
    ensures
        s.queued(p),
{
}

} // verus!
