//! The closed set of executor kinds and the sizing rule for the worker pool.

use vstd::prelude::*;

verus! {

/// One of the closed set of executor kinds the bootstrap can provision.
///
/// Multi-thread kinds are driven by a pool of worker threads; single-thread
/// kinds run the driving function inline on the calling thread. Shared kinds
/// hand the driving function a reference-counted handle; owned kinds bind the
/// executor's lifetime to the bootstrap call itself.
#[derive(Clone, Copy, PartialEq, Eq, Structural, Debug)]
pub enum ExecutorKind {
    OwnedMultiThread,
    SharedMultiThread,
    OwnedSingleThread,
    SharedSingleThread,
}

/// Whether this kind is driven by a pool of worker threads.
pub open spec fn is_multi_thread(k: ExecutorKind) -> bool {
    k == ExecutorKind::OwnedMultiThread || k == ExecutorKind::SharedMultiThread
}

/// Whether this kind hands out a reference-counted (shared) handle.
pub open spec fn is_shared(k: ExecutorKind) -> bool {
    k == ExecutorKind::SharedMultiThread || k == ExecutorKind::SharedSingleThread
}

/// Pool size for a multi-thread kind: the detected hardware parallelism,
/// falling back to a single worker when detection fails or reports zero.
pub open spec fn planned_workers(detected: Option<usize>) -> int {
    match detected {
        Some(d) => if d >= 1 { d as int } else { 1 },
        None => 1,
    }
}

/// Number of worker threads the bootstrap provisions for `k` when the
/// detected parallelism is `detected`: the planned pool size for a
/// multi-thread kind, and zero for a single-thread kind.
pub open spec fn provisioned_workers(k: ExecutorKind, detected: Option<usize>) -> int {
    if is_multi_thread(k) {
        planned_workers(detected)
    } else {
        0
    }
}

/// Dispatch test: multi-thread kinds go through the thread pool, single-thread
/// kinds do not.
pub fn uses_thread_pool(k: ExecutorKind) -> (b: bool)
    ensures
        b == is_multi_thread(k),
{
    match k {
        ExecutorKind::OwnedMultiThread => true,
        ExecutorKind::SharedMultiThread => true,
        ExecutorKind::OwnedSingleThread => false,
        ExecutorKind::SharedSingleThread => false,
    }
}

/// How many worker threads to spawn for kind `k` given the detected hardware
/// parallelism (`None` when detection failed).
pub fn worker_count(k: ExecutorKind, detected: Option<usize>) -> (n: usize)
    ensures
        n == provisioned_workers(k, detected),
{
    if uses_thread_pool(k) {
        match detected {
            Some(d) => if d >= 1 { d } else { 1 },
            None => 1,
        }
    } else {
        0
    }
}

/// A multi-thread kind always gets a full pool: at least one worker, and
/// exactly the detected parallelism when detection succeeds.
pub proof fn lemma_multi_thread_full_pool(k: ExecutorKind, detected: Option<usize>)
    requires
        is_multi_thread(k),
    ensures
        provisioned_workers(k, detected) >= 1,
        forall|d: usize| detected == Some(d) && d >= 1 ==> provisioned_workers(k, detected) == d,
{
}

/// A single-thread kind provisions no worker threads at all.
pub proof fn lemma_single_thread_no_workers(k: ExecutorKind, detected: Option<usize>)
    requires
        !is_multi_thread(k),
    ensures
        provisioned_workers(k, detected) == 0,
{
}

/// The kind set is closed and exactly the four combinations of threading and
/// sharing: a kind is determined by whether it is pooled and whether its
/// handle is shared.
pub proof fn lemma_kind_determined_by_modes(k1: ExecutorKind, k2: ExecutorKind)
    requires
        is_multi_thread(k1) == is_multi_thread(k2),
        is_shared(k1) == is_shared(k2),
    ensures
        k1 == k2,
{
}

} // verus!
