//! Orchestrator behavior: pool mapping, FIFO service, worker budgets,
//! exactly-once completion, and drain/join semantics.

use lunaris_core::orchestrator::Orchestrator;
use lunaris_core::priority::pool_of;
use lunaris_core::{PoolFamily, Priority};

#[test]
fn priority_classes_map_to_their_pool_families() {
    assert_eq!(pool_of(Priority::Immediate), PoolFamily::DefaultPool);
    assert_eq!(pool_of(Priority::Normal), PoolFamily::DefaultPool);
    assert_eq!(pool_of(Priority::Deferred), PoolFamily::DefaultPool);
    assert_eq!(pool_of(Priority::Frame), PoolFamily::FramePool);
    assert_eq!(pool_of(Priority::VideoFrame), PoolFamily::FramePool);
    assert_eq!(pool_of(Priority::Background), PoolFamily::BackgroundPool);
}

#[test]
fn submitted_jobs_show_up_in_the_profile() {
    let mut orch = Orchestrator::new(2, 2, 1);
    orch.submit_job(Priority::Immediate);
    orch.submit_job(Priority::Normal);
    orch.submit_job(Priority::Normal);
    orch.submit_job(Priority::Deferred);
    orch.submit_job(Priority::Frame);
    let p = orch.profile();
    assert_eq!(p.immediate, 1);
    assert_eq!(p.normal, 2);
    assert_eq!(p.deferred, 1);
    assert_eq!(p.frame, 1);
    assert_eq!(p.running_tasks, 0);
}

#[test]
fn same_pool_jobs_are_served_fifo() {
    let mut orch = Orchestrator::new(3, 1, 1);
    let a = orch.submit_job(Priority::Normal);
    let b = orch.submit_job(Priority::Immediate);
    let c = orch.submit_job(Priority::Deferred);
    assert_eq!(orch.take_next(PoolFamily::DefaultPool), Some(a));
    assert_eq!(orch.take_next(PoolFamily::DefaultPool), Some(b));
    assert_eq!(orch.take_next(PoolFamily::DefaultPool), Some(c));
    assert_eq!(orch.take_next(PoolFamily::DefaultPool), None);
}

#[test]
fn a_full_pool_starts_nothing_new() {
    let mut orch = Orchestrator::new(1, 1, 1);
    let a = orch.submit_job(Priority::Normal);
    let _b = orch.submit_job(Priority::Normal);
    assert_eq!(orch.take_next(PoolFamily::DefaultPool), Some(a));
    // the single default worker is occupied
    assert_eq!(orch.take_next(PoolFamily::DefaultPool), None);
    orch.finish(a);
    assert!(orch.take_next(PoolFamily::DefaultPool).is_some());
}

#[test]
fn each_job_runs_exactly_once_per_priority_class() {
    // A submitted job's side effect is observable after a full drain,
    // and occurs exactly once, for every priority class, across trials.
    for _trial in 0..3 {
        let mut orch = Orchestrator::new(2, 2, 1);
        let handles = vec![
            orch.submit_job(Priority::Immediate),
            orch.submit_job(Priority::Normal),
            orch.submit_job(Priority::Deferred),
            orch.submit_job(Priority::Frame),
            orch.submit_job(Priority::VideoFrame),
            orch.submit_job(Priority::Background),
        ];
        orch.drain(PoolFamily::DefaultPool);
        orch.drain(PoolFamily::FramePool);
        orch.drain(PoolFamily::BackgroundPool);
        for h in handles {
            assert_eq!(orch.done_count(h), 1, "handle {h} must complete exactly once");
        }
    }
}

#[test]
fn draining_twice_never_runs_a_job_twice() {
    let mut orch = Orchestrator::new(1, 1, 1);
    let h = orch.submit_job(Priority::Normal);
    orch.drain(PoolFamily::DefaultPool);
    orch.drain(PoolFamily::DefaultPool);
    assert_eq!(orch.done_count(h), 1);
}

#[test]
fn join_foreground_leaves_no_default_pool_work_running() {
    // After join_foreground() returns, profile().running_tasks
    // attributable to the default pool is 0.
    let mut orch = Orchestrator::new(2, 1, 1);
    let a = orch.submit_job(Priority::Immediate);
    orch.submit_job(Priority::Normal);
    orch.submit_job(Priority::Deferred);
    assert_eq!(orch.take_next(PoolFamily::DefaultPool), Some(a));
    orch.join_foreground();
    let p = orch.profile();
    assert_eq!(p.immediate, 0);
    assert_eq!(p.normal, 0);
    assert_eq!(p.deferred, 0);
    assert_eq!(p.running_tasks, 0);
    assert_eq!(orch.running_count(PoolFamily::DefaultPool), 0);
}

#[test]
fn join_foreground_leaves_other_pools_untouched() {
    let mut orch = Orchestrator::new(1, 1, 1);
    let f = orch.submit_job(Priority::Frame);
    let b = orch.submit_job(Priority::Background);
    orch.submit_job(Priority::Normal);
    orch.join_foreground();
    assert_eq!(orch.done_count(f), 0);
    assert_eq!(orch.done_count(b), 0);
    assert_eq!(orch.take_next(PoolFamily::FramePool), Some(f));
}

#[test]
fn pools_make_independent_progress() {
    // Configure pools via set_threads(1,1,1); a long background job and
    // a fast normal job proceed in independent pools: the normal job can
    // start and finish while the background job still occupies its worker.
    let mut orch = Orchestrator::new(4, 4, 4);
    orch.set_threads(1, 1, 1);
    let slow = orch.submit_job(Priority::Background);
    let fast = orch.submit_job(Priority::Normal);
    let started_slow = orch.take_next(PoolFamily::BackgroundPool);
    assert_eq!(started_slow, Some(slow));
    // the background worker is busy; the default pool still serves its job
    let started_fast = orch.take_next(PoolFamily::DefaultPool);
    assert_eq!(started_fast, Some(fast));
    orch.finish(fast);
    assert_eq!(orch.done_count(fast), 1);
    // the background job is still running: it never blocked the fast one
    assert_eq!(orch.done_count(slow), 0);
    assert_eq!(orch.running_count(PoolFamily::BackgroundPool), 1);
    orch.finish(slow);
    assert_eq!(orch.done_count(slow), 1);
}

#[test]
fn set_threads_drops_no_queued_work() {
    let mut orch = Orchestrator::new(4, 4, 4);
    let a = orch.submit_job(Priority::Normal);
    let b = orch.submit_job(Priority::Frame);
    orch.set_threads(1, 1, 1);
    let p = orch.profile();
    assert_eq!(p.normal, 1);
    assert_eq!(p.frame, 1);
    assert_eq!(orch.take_next(PoolFamily::DefaultPool), Some(a));
    assert_eq!(orch.take_next(PoolFamily::FramePool), Some(b));
}

#[test]
fn resizing_down_waits_for_running_work() {
    let mut orch = Orchestrator::new(2, 1, 1);
    let a = orch.submit_job(Priority::Normal);
    let b = orch.submit_job(Priority::Normal);
    assert_eq!(orch.take_next(PoolFamily::DefaultPool), Some(a));
    assert_eq!(orch.take_next(PoolFamily::DefaultPool), Some(b));
    orch.set_threads(1, 1, 1);
    // both keep running; nothing new starts until the excess unit retires
    assert_eq!(orch.running_count(PoolFamily::DefaultPool), 2);
    let c = orch.submit_job(Priority::Normal);
    assert_eq!(orch.take_next(PoolFamily::DefaultPool), None);
    orch.finish(a);
    assert_eq!(orch.take_next(PoolFamily::DefaultPool), None);
    orch.finish(b);
    assert_eq!(orch.take_next(PoolFamily::DefaultPool), Some(c));
}

#[test]
fn suspended_units_occupy_no_worker() {
    let mut orch = Orchestrator::new(1, 1, 1);
    let a = orch.submit_async(Priority::Background);
    let b = orch.submit_job(Priority::Background);
    assert_eq!(orch.take_next(PoolFamily::BackgroundPool), Some(a));
    // while `a` runs, the single background worker is taken
    assert_eq!(orch.take_next(PoolFamily::BackgroundPool), None);
    orch.suspend(a);
    // suspended: the worker is free again and serves the next unit
    assert_eq!(orch.take_next(PoolFamily::BackgroundPool), Some(b));
    orch.finish(b);
    orch.resume(a);
    orch.finish(a);
    assert_eq!(orch.done_count(a), 1);
    assert_eq!(orch.done_count(b), 1);
}

#[test]
fn handles_are_never_reused() {
    let mut orch = Orchestrator::new(1, 1, 1);
    let a = orch.submit_job(Priority::Normal);
    orch.drain(PoolFamily::DefaultPool);
    let b = orch.submit_job(Priority::Normal);
    assert_ne!(a, b);
}

#[test]
fn starting_a_job_moves_it_from_queue_to_running() {
    let mut orch = Orchestrator::new(1, 1, 1);
    let h = orch.submit_job(Priority::Normal);
    assert_eq!(orch.profile().normal, 1);
    assert_eq!(orch.profile().running_tasks, 0);
    assert_eq!(orch.take_next(PoolFamily::DefaultPool), Some(h));
    assert_eq!(orch.profile().normal, 0);
    assert_eq!(orch.profile().running_tasks, 1);
    orch.finish(h);
    assert_eq!(orch.profile().running_tasks, 0);
}
