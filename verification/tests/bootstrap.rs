//! Tests for the executor bootstrap: kind dispatch, pool sizing and
//! lifecycle accounting, and the stop-signal protocol.

use std::rc::Rc;
use std::sync::atomic::{AtomicUsize, Ordering};
use std::sync::Arc;

use executor_bootstrap::kind::{uses_thread_pool, worker_count, ExecutorKind};
use executor_bootstrap::main_executor::MainExecutor;
use executor_bootstrap::{Executor, LocalExecutor};
use executor_bootstrap::pool::{PoolPhase, PoolRun};
use executor_bootstrap::signal::{WaitForStop, WaitStep};

#[test]
fn dispatch_sends_only_multi_thread_kinds_through_the_pool() {
    assert!(uses_thread_pool(ExecutorKind::OwnedMultiThread));
    assert!(uses_thread_pool(ExecutorKind::SharedMultiThread));
    assert!(!uses_thread_pool(ExecutorKind::OwnedSingleThread));
    assert!(!uses_thread_pool(ExecutorKind::SharedSingleThread));
}

#[test]
fn worker_count_matches_detected_parallelism() {
    assert_eq!(worker_count(ExecutorKind::OwnedMultiThread, Some(4)), 4);
    assert_eq!(worker_count(ExecutorKind::SharedMultiThread, Some(4)), 4);
    assert_eq!(worker_count(ExecutorKind::OwnedMultiThread, Some(1)), 1);
    assert_eq!(worker_count(ExecutorKind::OwnedMultiThread, Some(128)), 128);
}

#[test]
fn worker_count_falls_back_to_one() {
    assert_eq!(worker_count(ExecutorKind::OwnedMultiThread, None), 1);
    assert_eq!(worker_count(ExecutorKind::SharedMultiThread, None), 1);
    assert_eq!(worker_count(ExecutorKind::OwnedMultiThread, Some(0)), 1);
}

#[test]
fn single_thread_kind_provisions_zero_workers() {
    assert_eq!(worker_count(ExecutorKind::OwnedSingleThread, Some(8)), 0);
    assert_eq!(worker_count(ExecutorKind::SharedSingleThread, Some(8)), 0);
    assert_eq!(worker_count(ExecutorKind::OwnedSingleThread, None), 0);
    assert_eq!(worker_count(ExecutorKind::SharedSingleThread, Some(0)), 0);
}

#[test]
fn with_main_local_executor_returns_value() {
    let r = <LocalExecutor as MainExecutor>::with_main(|_ex| 42);
    assert_eq!(r, 42);
}

#[test]
fn with_main_local_executor_runs_tasks() {
    let r = <LocalExecutor as MainExecutor>::with_main(|ex| {
        async_io::block_on(ex.run(async { ex.spawn(async { 1 + 1 }).await }))
    });
    assert_eq!(r, 2);
}

#[test]
fn with_main_rc_local_executor_shares_handle() {
    let r = <Rc<LocalExecutor> as MainExecutor>::with_main(|ex| {
        let shared = ex.clone();
        async_io::block_on(ex.run(async move { shared.spawn(async { 21 * 2 }).await }))
    });
    assert_eq!(r, 42);
}

#[test]
fn sixteen_tasks_complete_on_simulated_four_core() {
    // A simulated 4-core host plans exactly 4 workers...
    let planned = worker_count(ExecutorKind::OwnedMultiThread, Some(4));
    assert_eq!(planned, 4);

    // ...whose run spawns 4 and joins 4 before finishing.
    let mut run = PoolRun::begin(planned);
    for _ in 0..planned {
        run.worker_spawned();
    }
    run.all_spawned();
    run.driver_done(false);
    run.stop_broadcast();
    for _ in 0..planned {
        run.worker_joined();
    }
    let panicked = run.finish();
    assert!(!panicked);
    assert_eq!(run.spawned, 4);
    assert_eq!(run.joined, 4);
    assert!(matches!(run.phase, PoolPhase::Finished));

    // The driving function submits 16 no-op tasks and awaits them all.
    let ex = Executor::new();
    let completed = Arc::new(AtomicUsize::new(0));
    let tasks: Vec<_> = (0..16)
        .map(|_| {
            let completed = completed.clone();
            ex.spawn(async move {
                completed.fetch_add(1, Ordering::SeqCst);
            })
        })
        .collect();
    async_io::block_on(ex.run(async move {
        for task in tasks {
            task.await;
        }
    }));
    assert_eq!(completed.load(Ordering::SeqCst), 16);
}

#[test]
fn pool_run_joins_all_workers_before_panic_is_delivered() {
    // The driving function panicked; the run still stops and joins every
    // worker before `finish` hands the captured panic back for re-raising.
    let mut run = PoolRun::begin(3);
    run.worker_spawned();
    run.worker_spawned();
    run.worker_spawned();
    run.all_spawned();
    run.driver_done(true);
    run.stop_broadcast();
    assert!(run.stop_sent);
    run.worker_joined();
    run.worker_joined();
    run.worker_joined();
    let panicked = run.finish();
    assert!(panicked);
    assert_eq!(run.joined, run.spawned);
    assert_eq!(run.joined, 3);
    assert!(matches!(run.phase, PoolPhase::Finished));
}

#[test]
fn pool_run_single_worker() {
    let mut run = PoolRun::begin(1);
    run.worker_spawned();
    run.all_spawned();
    run.driver_done(false);
    run.stop_broadcast();
    run.worker_joined();
    assert!(!run.finish());
    assert_eq!(run.target, 1);
    assert_eq!(run.joined, 1);
}

#[test]
fn wait_step_parks_while_running() {
    let stopper = WaitForStop::new();
    let (step, _) = stopper.wait_step();
    assert!(matches!(step, WaitStep::Park(_)));
}

#[test]
fn wait_step_finishes_once_stopped() {
    let stopper = WaitForStop::new();
    stopper.stop();
    let (step, _) = stopper.wait_step();
    assert!(matches!(step, WaitStep::Stopped));
}

#[test]
fn stop_is_idempotent() {
    let stopper = WaitForStop::new();
    stopper.stop();
    stopper.stop();
    let (step, _) = stopper.wait_step();
    assert!(matches!(step, WaitStep::Stopped));
    // And stopping again after a wait is still harmless.
    stopper.stop();
    let (step, _) = stopper.wait_step();
    assert!(matches!(step, WaitStep::Stopped));
}

#[test]
fn stop_wakes_a_registered_listener() {
    // A waiter registers (its pass parks), then the stop arrives: the
    // broadcast must reach the already-registered listener, and the waiter's
    // next pass must observe the stop. A lost wakeup would hang here.
    let stopper = WaitForStop::new();
    let (step, _) = stopper.wait_step();
    match step {
        WaitStep::Park(listener) => {
            stopper.stop();
            async_io::block_on(listener);
        }
        WaitStep::Stopped => panic!("a fresh signal must not read as stopped"),
    }
    let (step, _) = stopper.wait_step();
    assert!(matches!(step, WaitStep::Stopped));
}

#[test]
fn executor_runs_spawned_work() {
    let ex: Executor = Executor::new();
    let r = async_io::block_on(ex.run(async { ex.spawn(async { 40 + 2 }).await }));
    assert_eq!(r, 42);
}
