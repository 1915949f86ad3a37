//! Lifecycle accounting for one pooled run: spawn a full pool, drive, stop,
//! join everything, and only then deliver the outcome.
//!
//! The runner that owns the OS threads walks a `PoolRun` through its phases;
//! the contracts here pin the order of the teardown -- the stop signal is
//! broadcast after the driving function's outcome (value or panic) is
//! captured, every worker is joined after the broadcast, and the outcome is
//! delivered only once the join count has reached the pool size. A pool that
//! cannot be filled has no way forward from `Spawning`: spawn failure is
//! fatal, never a degraded, smaller pool.

use vstd::prelude::*;

verus! {

/// Phase of one pooled run.
#[derive(Clone, Copy, PartialEq, Eq, Structural, Debug)]
pub enum PoolPhase {
    /// Spawning workers, one at a time, until the pool is full.
    Spawning,
    /// All workers up; the driving function runs on the calling thread.
    Driving,
    /// The driving function's outcome is captured; the stop signal is due.
    Stopping,
    /// Stop broadcast; workers are being joined, one at a time.
    Joining,
    /// Every worker joined; the captured outcome may be delivered.
    Finished,
}

/// Bookkeeping for one pooled run.
pub struct PoolRun {
    /// Workers the run must provision: the detected parallelism.
    pub target: usize,
    /// Workers spawned so far.
    pub spawned: usize,
    /// Workers joined so far.
    pub joined: usize,
    /// Whether the stop signal has been broadcast.
    pub stop_sent: bool,
    /// Whether the driving function panicked; meaningful once the phase has
    /// passed `Driving`. A captured panic is re-raised only after the join.
    pub driver_panicked: bool,
    /// Current phase.
    pub phase: PoolPhase,
}

impl PoolRun {
    /// The invariant every transition preserves.
    pub open spec fn wf(self) -> bool {
        &&& self.target >= 1
        &&& self.spawned <= self.target
        &&& self.joined <= self.spawned
        &&& match self.phase {
            PoolPhase::Spawning => self.joined == 0 && !self.stop_sent,
            PoolPhase::Driving => self.spawned == self.target && self.joined == 0
                && !self.stop_sent,
            PoolPhase::Stopping => self.spawned == self.target && self.joined == 0
                && !self.stop_sent,
            PoolPhase::Joining => self.spawned == self.target && self.stop_sent,
            PoolPhase::Finished => self.spawned == self.target && self.joined == self.target
                && self.stop_sent,
        }
    }

    /// Start a run that must provision `target` workers. A pool is never
    /// empty: a multi-thread run has at least one worker.
    pub fn begin(target: usize) -> (r: PoolRun)
        requires
            target >= 1,
        ensures
            r.wf(),
            r.phase == PoolPhase::Spawning,
            r.target == target,
            r.spawned == 0,
            r.joined == 0,
            !r.stop_sent,
    {
        PoolRun {
            target,
            spawned: 0,
            joined: 0,
            stop_sent: false,
            driver_panicked: false,
            phase: PoolPhase::Spawning,
        }
    }

    /// Record one successfully spawned worker.
    pub fn worker_spawned(&mut self)
        requires
            old(self).wf(),
            old(self).phase == PoolPhase::Spawning,
            old(self).spawned < old(self).target,
        ensures
            final(self).wf(),
            final(self).phase == PoolPhase::Spawning,
            final(self).spawned == old(self).spawned + 1,
            final(self).target == old(self).target,
            final(self).joined == old(self).joined,
            final(self).stop_sent == old(self).stop_sent,
            final(self).driver_panicked == old(self).driver_panicked,
    {
        self.spawned = self.spawned + 1;
    }

    /// The pool is full: hand the calling thread to the driving function.
    /// There is no way here with a partial pool -- a run either fills its
    /// pool or aborts while spawning.
    pub fn all_spawned(&mut self)
        requires
            old(self).wf(),
            old(self).phase == PoolPhase::Spawning,
            old(self).spawned == old(self).target,
        ensures
            final(self).wf(),
            final(self).phase == PoolPhase::Driving,
            final(self).target == old(self).target,
            final(self).spawned == old(self).spawned,
            final(self).joined == old(self).joined,
            final(self).stop_sent == old(self).stop_sent,
            final(self).driver_panicked == old(self).driver_panicked,
    {
        self.phase = PoolPhase::Driving;
    }

    /// The driving function returned or panicked; its outcome is captured,
    /// not yet delivered. Teardown is the same either way.
    pub fn driver_done(&mut self, panicked: bool)
        requires
            old(self).wf(),
            old(self).phase == PoolPhase::Driving,
        ensures
            final(self).wf(),
            final(self).phase == PoolPhase::Stopping,
            final(self).driver_panicked == panicked,
            final(self).target == old(self).target,
            final(self).spawned == old(self).spawned,
            final(self).joined == old(self).joined,
            final(self).stop_sent == old(self).stop_sent,
    {
        self.driver_panicked = panicked;
        self.phase = PoolPhase::Stopping;
    }

    /// The stop signal went out to the pool. Only now may joining begin: a
    /// join before the broadcast could block forever on a worker still
    /// waiting for the signal.
    pub fn stop_broadcast(&mut self)
        requires
            old(self).wf(),
            old(self).phase == PoolPhase::Stopping,
        ensures
            final(self).wf(),
            final(self).phase == PoolPhase::Joining,
            final(self).stop_sent,
            final(self).target == old(self).target,
            final(self).spawned == old(self).spawned,
            final(self).joined == old(self).joined,
            final(self).driver_panicked == old(self).driver_panicked,
    {
        self.stop_sent = true;
        self.phase = PoolPhase::Joining;
    }

    /// Record one joined worker.
    pub fn worker_joined(&mut self)
        requires
            old(self).wf(),
            old(self).phase == PoolPhase::Joining,
            old(self).joined < old(self).spawned,
        ensures
            final(self).wf(),
            final(self).phase == PoolPhase::Joining,
            final(self).joined == old(self).joined + 1,
            final(self).target == old(self).target,
            final(self).spawned == old(self).spawned,
            final(self).stop_sent == old(self).stop_sent,
            final(self).driver_panicked == old(self).driver_panicked,
    {
        self.joined = self.joined + 1;
    }

    /// Every worker is joined: the captured outcome may now be delivered.
    /// Returns whether the driving function panicked, so the caller re-raises
    /// the panic only after this point -- with no worker left running.
    pub fn finish(&mut self) -> (panicked: bool)
        requires
            old(self).wf(),
            old(self).phase == PoolPhase::Joining,
            old(self).joined == old(self).target,
        ensures
            final(self).wf(),
            final(self).phase == PoolPhase::Finished,
            panicked == old(self).driver_panicked,
            final(self).target == old(self).target,
            final(self).spawned == old(self).spawned,
            final(self).joined == old(self).joined,
            final(self).stop_sent == old(self).stop_sent,
            final(self).driver_panicked == old(self).driver_panicked,
    {
        self.phase = PoolPhase::Finished;
        self.driver_panicked
    }

    /// A finished run spawned exactly its target and joined every worker it
    /// spawned: no worker outlives the run, and none was skipped.
    pub proof fn lemma_finished_run_fully_joined(self)
        requires
            self.wf(),
            self.phase == PoolPhase::Finished,
        ensures
            self.spawned == self.target,
            self.joined == self.spawned,
    {
    }

    /// The outcome -- a value or a captured panic -- is delivered only from
    /// `Finished`, so a panic in the driving function is observed by the
    /// caller only after the stop was broadcast and all workers were joined.
    pub proof fn lemma_outcome_after_full_teardown(self)
        requires
            self.wf(),
            self.phase == PoolPhase::Finished,
        ensures
            self.joined == self.target,
            self.stop_sent,
    {
    }
}

} // verus!
