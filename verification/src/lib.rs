//! A thread pool whose submissions hand back joinable handles.
//!
//! [`ThreadPool::spawn`] enqueues a unit of work on a fixed set of background
//! worker threads and immediately returns a [`JoinHandle`]. The handle owns
//! the receiving half of a one-shot channel private to that submission, and
//! [`JoinHandle::join`] blocks until the worker has run the work and sent its
//! result — the same ergonomics as joining a freshly spawned thread, without
//! creating a new operating-system thread per task.

mod handle;
mod pool;

pub use handle::DisconnectedError;
pub use handle::JoinHandle;
pub use handle::lemma_join_delivers_work_result;
pub use handle::lemma_results_pair_with_own_submission;
pub use pool::ThreadPool;
