//! Bootstrap for a task-execution engine: pick an executor kind, provision the
//! right number of worker threads (or none for the single-thread kinds), and
//! coordinate a race-free, panic-safe shutdown through a one-shot broadcast
//! stop signal.

pub mod kind;
pub mod main_executor;
pub mod pool;
pub mod signal;

pub use async_executor::Executor;
pub use async_executor::LocalExecutor;
