use vstd::prelude::*;

use crate::handle::JoinHandle;
use crate::handle::oneshot_with;
use crate::handle::run_and_send;

verus! {

/// The execution engine: a fixed set of worker threads consuming a shared
/// task queue. The `threadpool::ThreadPool` inside is held opaquely — no
/// verified code looks into it, and every use goes through the trusted
/// methods below.
#[verifier::external_body]
struct Engine {
    inner: threadpool::ThreadPool,
}

impl Engine {
    /// Relies on `threadpool::ThreadPool::new`: builds an engine with exactly
    /// `num_threads` worker threads consuming a shared task queue. It panics
    /// when `num_threads` is zero, so that input is excluded here.
    #[verifier::external_body]
    fn new(num_threads: usize) -> (engine: Engine)
        requires
            num_threads >= 1,
    {
        Engine { inner: threadpool::ThreadPool::new(num_threads) }
    }

    /// Relies on `threadpool::ThreadPool::execute`: enqueues `job` for
    /// asynchronous execution by whichever worker becomes free, in
    /// submission order relative to other jobs of the same engine, and
    /// returns without blocking on the job.
    #[verifier::external_body]
    fn execute<F>(&self, job: F) where
        F: FnOnce(),
        F: Send + 'static,
        requires
            call_requires(job, ()),
    {
        self.inner.execute(job);
    }
}

/// A fixed-size worker pool that runs submitted units of work on a bounded
/// set of background threads. [`ThreadPool::spawn`] hands each unit of work
/// to whichever worker becomes free and returns a [`JoinHandle`] that can be
/// joined later, like a thread spawned on its own.
pub struct ThreadPool {
    engine: Engine,
    workers: Ghost<nat>,
}

impl ThreadPool {
    /// Number of worker threads, fixed at construction for the pool's
    /// lifetime.
    pub closed spec fn worker_count(&self) -> nat {
        self.workers@
    }

    /// Creates a pool with exactly `num_threads` worker threads. A pool with
    /// no workers could never satisfy any submitted task, so a zero count is
    /// rejected at construction rather than surfacing as a silent deadlock
    /// later.
    pub fn new(num_threads: usize) -> (pool: ThreadPool)
        requires
            num_threads >= 1,
        ensures
            pool.worker_count() == num_threads,
    {
        ThreadPool { engine: Engine::new(num_threads), workers: Ghost(num_threads as nat) }
    }

    /// Enqueues `f` for asynchronous execution by whichever worker becomes
    /// free and immediately returns a handle that can later be joined for
    /// `f`'s result; never blocks on task execution. Tasks are handed to the
    /// workers in submission order, but completion order across tasks is
    /// unordered. The values the handle can deliver are exactly those
    /// satisfying `f`'s postcondition: joining hands back what running the
    /// work once would produce.
    pub fn spawn<F, T>(&self, f: F) -> (handle: JoinHandle<T>) where
        F: FnOnce() -> T,
        F: Send + 'static,
        T: Send + 'static,
        requires
            call_requires(f, ()),
        ensures
            forall|t: T| #[trigger] handle.predicate(t) <==> call_ensures(f, (), t),
    {
        let pred: Ghost<spec_fn(T) -> bool> = Ghost(|t: T| call_ensures(f, (), t));
        let (sender, handle) = oneshot_with(pred);
        self.engine.execute(move || run_and_send(f, sender));
        handle
    }
}

} // verus!
