//! The one-shot, broadcast, race-free stop signal shared by a pool of workers.
//!
//! The signal is a monotonic flag (`Running -> Stopped`, one transition, no
//! reverse edge) paired with a broadcast-notify primitive. A waiter runs a
//! double-check protocol: check the flag, register a listener, check the flag
//! again, and only then suspend. Registering *before* the second check closes
//! the race where `stop` runs between the first check and registration; a
//! waiter that skipped the registration step could miss the broadcast and
//! block forever.

use vstd::prelude::*;
use core::sync::atomic::AtomicBool;
use core::sync::atomic::Ordering;
use event_listener::Event;
use event_listener::EventListener;

verus! {

#[verifier::external_type_specification]
#[verifier::external_body]
#[verifier::reject_recursive_types(T)]
pub struct ExEvent<T>(Event<T>);

#[verifier::external_type_specification]
#[verifier::external_body]
#[verifier::reject_recursive_types(T)]
pub struct ExEventListener<T>(EventListener<T>);

/// Relies on `event_listener::Event::new`: creates a fresh event with no
/// registered listeners.
#[verifier::external_body]
fn new_event() -> Event {
    Event::new()
}

/// Relies on `event_listener::Event::listen`: registers a new listener with
/// the event before returning it, so a notification broadcast after this call
/// returns will reach the listener.
#[verifier::external_body]
fn listen(ev: &Event) -> EventListener {
    ev.listen()
}

/// Relies on `event_listener::Event::notify_additional`: wakes up to `n`
/// previously unnotified listeners that were registered when the call was
/// made, and returns how many it notified.
#[verifier::external_body]
fn notify_additional(ev: &Event, n: usize) -> usize {
    ev.notify_additional(n)
}

/// Protocol position of one waiter working through `wait`.
#[derive(Clone, Copy, PartialEq, Eq, Structural, Debug)]
pub enum WaiterPhase {
    /// About to make the quick first check of the flag.
    Checking,
    /// Registered with the broadcast primitive; about to re-check the flag.
    Registered,
    /// Suspended on its listener until notified (or spuriously woken).
    Parked,
    /// Observed the flag set; the wait is over.
    Done,
}

/// One step of the waiter protocol: `observed_stopped` is what the flag read
/// at this position (irrelevant while parked; a wakeup, spurious or not, just
/// restarts the loop).
pub open spec fn waiter_next(p: WaiterPhase, observed_stopped: bool) -> WaiterPhase {
    match p {
        WaiterPhase::Checking => if observed_stopped {
            WaiterPhase::Done
        } else {
            WaiterPhase::Registered
        },
        WaiterPhase::Registered => if observed_stopped {
            WaiterPhase::Done
        } else {
            WaiterPhase::Parked
        },
        WaiterPhase::Parked => WaiterPhase::Checking,
        WaiterPhase::Done => WaiterPhase::Done,
    }
}

/// Safety: a wait never completes on a flag that still reads false. The only
/// edges into `Done` carry an observation of `true`.
pub proof fn lemma_wait_returns_only_if_stopped(p: WaiterPhase, observed_stopped: bool)
    requires
        p != WaiterPhase::Done,
        waiter_next(p, observed_stopped) == WaiterPhase::Done,
    ensures
        observed_stopped,
{
}

/// Liveness: once the flag reads true at every check, a waiter is done within
/// two protocol steps from any position, and in one step from either check --
/// including the adversarial case where the stop landed between the first
/// check and registration, which the re-check after registration catches.
pub proof fn lemma_wait_finishes_once_stopped(p: WaiterPhase)
    ensures
        waiter_next(WaiterPhase::Checking, true) == WaiterPhase::Done,
        waiter_next(WaiterPhase::Registered, true) == WaiterPhase::Done,
        waiter_next(waiter_next(p, true), true) == WaiterPhase::Done,
{
}

/// No lost wakeup: a waiter parks only from the re-check made after its
/// listener was registered, and only on an observation of false. A stop that
/// became visible before that re-check can therefore never strand a parked
/// waiter, and one that became visible after it finds the listener already
/// registered for the broadcast.
pub proof fn lemma_park_only_after_registration(p: WaiterPhase, observed_stopped: bool)
    requires
        waiter_next(p, observed_stopped) == WaiterPhase::Parked,
    ensures
        p == WaiterPhase::Registered,
        !observed_stopped,
{
}

/// The flag after a `stop` call, as a function of the flag before it.
pub open spec fn flag_after_stop(stopped: bool) -> bool {
    true
}

/// `stop` is idempotent and monotonic: a second call (from this or any other
/// caller) leaves the same final state, and a flag once set is never cleared.
pub proof fn lemma_stop_idempotent(stopped: bool)
    ensures
        flag_after_stop(stopped),
        flag_after_stop(flag_after_stop(stopped)) == flag_after_stop(stopped),
        stopped ==> flag_after_stop(stopped),
{
}

/// What one pass of the wait protocol asks of its caller.
pub enum WaitStep {
    /// A check observed the flag set: the wait is over.
    Stopped,
    /// Both checks observed the flag clear. Suspend on this listener -- it was
    /// registered before the second check -- then run another pass.
    Park(EventListener),
}

/// Wait for the executor to stop: the one-shot broadcast stop signal.
pub struct WaitForStop {
    /// Whether or not we need to stop. Set once, never cleared.
    stopped: AtomicBool,
    /// Wakes the registered waiters when the signal stops.
    events: Event,
}

impl WaitForStop {
    /// Create a new signal in the running (not yet stopped) state.
    pub fn new() -> WaitForStop {
        WaitForStop { stopped: AtomicBool::new(false), events: new_event() }
    }

    /// One pass of the race-free wait protocol: check, register, re-check.
    ///
    /// The flag is shared with other threads, so nothing can be promised of
    /// what a single load returns; the contract instead fixes the decision
    /// taken on the two observations: the pass completes exactly when a check
    /// observed the flag set, and otherwise parks, having walked the waiter
    /// protocol `Checking -> Registered -> Parked`. A caller inside a
    /// cooperative task loop suspends on the returned listener and runs
    /// another pass when woken; it must not treat a wakeup alone as the stop.
    pub fn wait_step(&self) -> (r: (WaitStep, Ghost<(bool, bool)>))
        ensures
            ({
                let obs = r.1@;
                &&& (r.0 is Stopped) == (obs.0 || obs.1)
                &&& waiter_next(waiter_next(WaiterPhase::Checking, obs.0), obs.1) == (
                if r.0 is Stopped {
                    WaiterPhase::Done
                } else {
                    WaiterPhase::Parked
                })
            }),
    {
        if self.stopped.load(Ordering::Relaxed) {
            return (WaitStep::Stopped, Ghost((true, false)));
        }
        let listener = listen(&self.events);
        if self.stopped.load(Ordering::Acquire) {
            return (WaitStep::Stopped, Ghost((false, true)));
        }
        (WaitStep::Park(listener), Ghost((false, false)))
    }

    /// Stop the waiters: set the flag, then broadcast to every listener
    /// registered at this instant. The store comes first, so a waiter that the
    /// broadcast misses -- one not yet registered -- is caught by the re-check
    /// its protocol makes after registering. Idempotent: the flag only ever
    /// moves to true, and a second broadcast is harmless.
    pub fn stop(&self) {
        self.stopped.store(true, Ordering::SeqCst);
        let _notified: usize = notify_additional(&self.events, usize::MAX);
    }
}

} // verus!
