//! Executor-kind dispatch: set up an executor of the requested kind and run
//! the driving function against it.
//!
//! The single-thread kinds construct their executor and invoke the driving
//! function inline on the calling thread, with no additional threads -- those
//! two bootstraps live here, fully verified. The multi-thread kinds go
//! through the worker pool, whose OS-thread shell stands outside the library
//! and walks a `PoolRun` through the lifecycle contracts of `crate::pool`.

use vstd::prelude::*;
use std::rc::Rc;
use async_executor::Executor;
use async_executor::LocalExecutor;
use crate::kind::ExecutorKind;
use crate::kind::provisioned_workers;

verus! {

#[verifier::external_type_specification]
#[verifier::external_body]
pub struct ExExecutor<'a>(Executor<'a>);

#[verifier::external_type_specification]
#[verifier::external_body]
pub struct ExLocalExecutor<'a>(LocalExecutor<'a>);

/// Relies on `async_executor::LocalExecutor::new`: creates a fresh
/// single-threaded executor, confined to the thread that uses it.
#[verifier::external_body]
fn new_local_executor<'a>() -> LocalExecutor<'a> {
    LocalExecutor::new()
}

/// Something that can be set up as an executor.
pub trait MainExecutor: Sized {
    /// The executor kind this bootstrap provisions.
    spec fn kind() -> ExecutorKind;

    /// Create this type and pass it into `main`: the driving function `f`
    /// receives a fresh executor of this kind and its result is handed back
    /// unchanged.
    fn with_main<T, F: FnOnce(&Self) -> T>(f: F) -> (r: T)
        requires
            forall|ex: &Self| #[trigger] call_requires(f, (ex,)),
        ensures
            exists|ex: &Self| #[trigger] call_ensures(f, (ex,), r),
    ;
}

impl<'a> MainExecutor for LocalExecutor<'a> {
    open spec fn kind() -> ExecutorKind {
        ExecutorKind::OwnedSingleThread
    }

    /// Single-thread kind, owned handle: build the executor and run `f`
    /// inline -- no worker thread, no stop signal.
    fn with_main<T, F: FnOnce(&Self) -> T>(f: F) -> (r: T) {
        let ex = new_local_executor();
        f(&ex)
    }
}

impl<'a> MainExecutor for Rc<LocalExecutor<'a>> {
    open spec fn kind() -> ExecutorKind {
        ExecutorKind::SharedSingleThread
    }

    /// Single-thread kind, shared handle: same inline run, but the driving
    /// function gets a reference-counted handle it may clone and keep.
    fn with_main<T, F: FnOnce(&Self) -> T>(f: F) -> (r: T) {
        let ex = Rc::new(new_local_executor());
        f(&ex)
    }
}

/// The two bootstraps above are the single-thread kinds: whatever
/// parallelism the host detects, they provision zero worker threads.
pub proof fn lemma_inline_bootstraps_spawn_no_workers(detected: Option<usize>)
    ensures
        provisioned_workers(<LocalExecutor as MainExecutor>::kind(), detected) == 0,
        provisioned_workers(<Rc<LocalExecutor> as MainExecutor>::kind(), detected) == 0,
{
}

} // verus!
