use inko_rt::pointer::Pointer;
use inko_rt::rt_result::RtResult;
use inko_rt::sched::{ProcState, Scheduler};

#[test]
fn blocked_calls_never_occupy_workers() {
    // Four processes each issue one blocking call on a pool of two workers:
    // every blocking hand-off frees the worker at once, so all four complete.
    let mut s = Scheduler::new(2);
    let p0 = s.spawn();
    let p1 = s.spawn();
    let p2 = s.spawn();
    let p3 = s.spawn();

    assert_eq!(s.schedule(0), Some(p0));
    assert_eq!(s.schedule(1), Some(p1));
    assert_eq!(s.block(0), p0);
    assert_eq!(s.block(1), p1);

    // Both workers were freed immediately and pick up the remaining work
    // while the first two calls are still out on the bridge.
    assert_eq!(s.schedule(0), Some(p2));
    assert_eq!(s.schedule(1), Some(p3));
    assert_eq!(s.block(0), p2);
    assert_eq!(s.block(1), p3);

    // All four are blocked; the count of workers held by blocked calls is 0.
    assert!(s.workers[0].current.is_none());
    assert!(s.workers[1].current.is_none());
    assert!(matches!(s.procs[p0].state, ProcState::Blocked));
    assert!(matches!(s.procs[p3].state, ProcState::Blocked));

    // The bridge completes each call; every process is re-enqueued, runs
    // again on whichever worker is free, and finishes.
    for code in [10i64, 11, 12, 13] {
        let p = s.unblock(0, RtResult::Success(Pointer::Int(code)));
        assert!(matches!(s.procs[p].state, ProcState::Ready));
        assert_eq!(s.procs[p].result, RtResult::Success(Pointer::Int(code)));
        assert_eq!(s.schedule(0), Some(p));
        assert_eq!(s.finish(0), p);
    }
    for p in [p0, p1, p2, p3] {
        assert!(matches!(s.procs[p].state, ProcState::Finished));
    }
}

#[test]
fn unblocked_process_carries_its_result() {
    let mut s = Scheduler::new(1);
    let p = s.spawn();
    assert_eq!(s.schedule(0), Some(p));
    assert_eq!(s.block(0), p);
    let got = s.unblock(0, RtResult::Failure(32));
    assert_eq!(got, p);
    assert_eq!(s.procs[p].result, RtResult::Failure(32));
    // Re-enqueued onto the shared queue, not pinned to the old worker.
    assert_eq!(s.schedule(0), Some(p));
    assert_eq!(s.finish(0), p);
}

#[test]
fn yielding_requeues_at_the_back() {
    let mut s = Scheduler::new(1);
    let p0 = s.spawn();
    let p1 = s.spawn();
    assert_eq!(s.schedule(0), Some(p0));
    assert_eq!(s.yield_current(0), p0);
    assert!(matches!(s.procs[p0].state, ProcState::Ready));
    // The yielded process went behind the other Ready process.
    assert_eq!(s.schedule(0), Some(p1));
    assert_eq!(s.finish(0), p1);
    assert_eq!(s.schedule(0), Some(p0));
    assert_eq!(s.finish(0), p0);
}

#[test]
fn idle_worker_with_empty_queue_stays_idle() {
    let mut s = Scheduler::new(2);
    assert_eq!(s.schedule(0), None);
    assert!(s.workers[0].current.is_none());
    let p = s.spawn();
    // Work exists: an idle worker always receives it.
    assert_eq!(s.schedule(1), Some(p));
    assert!(matches!(s.procs[p].state, ProcState::Running));
    assert_eq!(s.finish(1), p);
}
