use vstd::prelude::*;

verus! {

/// Error returned by [`JoinHandle::join`] when no result will ever arrive:
/// the sending half of the handle's one-shot channel was dropped without a
/// value, which happens only when the worker thread executing the task
/// terminated abnormally before completing its send.
#[derive(Clone, Copy, Debug, PartialEq, Eq, Structural)]
pub struct DisconnectedError;

#[verifier::external_type_specification]
#[verifier::external_body]
#[verifier::reject_recursive_types(T)]
pub struct ExSender<T>(std::sync::mpsc::Sender<T>);

#[verifier::external_type_specification]
#[verifier::external_body]
#[verifier::reject_recursive_types(T)]
pub struct ExReceiver<T>(std::sync::mpsc::Receiver<T>);

/// Relies on `std::sync::mpsc::channel`: returns the sending and the
/// receiving half of a freshly created channel, linked to each other and to
/// nothing else. The halves are wrapped by [`oneshot_with`], which is the
/// only way this crate uses them, and each half is consumed by its one send
/// or receive, so the channel carries at most one value.
#[verifier::external_body]
fn oneshot_channel<T>() -> (pair: (std::sync::mpsc::Sender<T>, std::sync::mpsc::Receiver<T>))
{
    std::sync::mpsc::channel()
}

/// Owns the sending half of the one-shot channel paired with exactly one
/// [`JoinHandle`]. Sending is restricted to values the paired handle's
/// predicate allows, so the handle can rely on what it receives.
#[verifier::reject_recursive_types(T)]
pub(crate) struct ResultSender<T> where T: Send + 'static {
    tx: std::sync::mpsc::Sender<T>,
    pred: Ghost<spec_fn(T) -> bool>,
}

impl<T> ResultSender<T> where T: Send + 'static {
    /// Restricts the values that may be sent through this sender: exactly
    /// those the paired handle's predicate accepts.
    pub(crate) closed spec fn allows(&self, t: T) -> bool {
        (self.pred@)(t)
    }

    /// Relies on `std::sync::mpsc::Sender::send`: delivers `t` to the paired
    /// receiving half, consuming the sender, so at most one value is ever
    /// sent. A failed send would mean the receiving half was already gone;
    /// the task's result can then never be delivered, and the worker aborts
    /// on the spot, as an internal-consistency violation should, rather
    /// than discarding the failure silently.
    #[verifier::external_body]
    pub(crate) fn send(self, t: T)
        requires
            self.allows(t),
    {
        self.tx.send(t).unwrap();
    }
}

/// Owns the receiving half of the one-shot channel paired with exactly one
/// submitted task. Joining consumes the handle, so the task's result can be
/// taken at most once; a handle dropped without joining silently discards
/// the result, if one is ever produced.
#[verifier::reject_recursive_types(T)]
pub struct JoinHandle<T> where T: Send + 'static {
    rx: std::sync::mpsc::Receiver<T>,
    pred: Ghost<spec_fn(T) -> bool>,
}

/// Creates a linked [`ResultSender`] / [`JoinHandle`] pair over a fresh
/// one-shot channel, both carrying the given predicate: the sender may only
/// send values satisfying it, and the handle only delivers such values.
pub(crate) fn oneshot_with<T>(pred: Ghost<spec_fn(T) -> bool>) -> (pair: (
    ResultSender<T>,
    JoinHandle<T>,
)) where T: Send + 'static
    ensures
        forall|t: T| #[trigger] pair.0.allows(t) <==> (pred@)(t),
        forall|t: T| #[trigger] pair.1.predicate(t) <==> (pred@)(t),
{
    let (tx, rx) = oneshot_channel();
    (ResultSender { tx, pred }, JoinHandle { rx, pred })
}

impl<T> JoinHandle<T> where T: Send + 'static {
    /// Restricts the values this handle can deliver: every result that
    /// arrives over the channel satisfies it. [`crate::ThreadPool::spawn`]
    /// ties it to the postcondition of the submitted work closure.
    pub closed spec fn predicate(&self, t: T) -> bool {
        (self.pred@)(t)
    }

    /// Relies on `std::sync::mpsc::Receiver::recv`: blocks until the paired
    /// sender sends a value and returns that value, or returns an error once
    /// the sender has been dropped without sending, rather than blocking
    /// forever. The paired sender is the [`ResultSender`] created beside
    /// this handle by [`oneshot_with`] with the same predicate, and sending
    /// through it requires the predicate to hold — so whatever `recv` yields
    /// satisfies this handle's predicate.
    #[verifier::external_body]
    fn receive(self) -> (r: Result<T, DisconnectedError>)
        ensures
            r matches Ok(t) ==> self.predicate(t),
    {
        match self.rx.recv() {
            Ok(t) => Ok(t),
            Err(_) => Err(DisconnectedError),
        }
    }

    /// Blocks until the associated task's result arrives and returns it, or
    /// reports disconnection once it is determined that no result will ever
    /// arrive. Consumes the handle: a joined handle cannot be joined again.
    pub fn join(self) -> (r: Result<T, DisconnectedError>)
        ensures
            r matches Ok(t) ==> self.predicate(t),
    {
        self.receive()
    }
}

/// Runs the submitted work once and sends its result to the paired handle:
/// the body of every task handed to the execution engine.
pub(crate) fn run_and_send<T, F>(f: F, sender: ResultSender<T>) where
    F: FnOnce() -> T,
    T: Send + 'static,
    requires
        call_requires(f, ()),
        forall|t: T| call_ensures(f, (), t) ==> #[trigger] sender.allows(t),
{
    let t = f();
    sender.send(t);
}

/// A delivered value is one the submitted work produced: when spawning work
/// `f` returned the handle `h` and joining `h` returned `Ok(t)`, the value
/// `t` satisfies the postcondition of `f` — value equality with what running
/// the work once would yield, whenever that postcondition pins the result.
pub proof fn lemma_join_delivers_work_result<T, F>(
    f: F,
    h: JoinHandle<T>,
    r: Result<T, DisconnectedError>,
) where F: FnOnce() -> T + Send + 'static, T: Send + 'static
    requires
        forall|t: T| #[trigger] h.predicate(t) ==> call_ensures(f, (), t),
        r matches Ok(t) ==> h.predicate(t),
    ensures
        r matches Ok(t) ==> call_ensures(f, (), t),
{
}

/// Each result is paired with its own submission, in whatever order the
/// handles are joined: when spawning `f` returned `hf` and spawning `g`
/// returned `hg`, a value delivered by `hf` satisfies `f`'s postcondition
/// and a value delivered by `hg` satisfies `g`'s — no value is delivered to
/// the wrong handle.
pub proof fn lemma_results_pair_with_own_submission<T, F, G>(
    f: F,
    g: G,
    hf: JoinHandle<T>,
    hg: JoinHandle<T>,
    rf: Result<T, DisconnectedError>,
    rg: Result<T, DisconnectedError>,
) where
    F: FnOnce() -> T + Send + 'static,
    G: FnOnce() -> T + Send + 'static,
    T: Send + 'static,
    requires
        forall|t: T| #[trigger] hf.predicate(t) ==> call_ensures(f, (), t),
        forall|t: T| #[trigger] hg.predicate(t) ==> call_ensures(g, (), t),
        rf matches Ok(t) ==> hf.predicate(t),
        rg matches Ok(t) ==> hg.predicate(t),
    ensures
        rf matches Ok(t) ==> call_ensures(f, (), t),
        rg matches Ok(t) ==> call_ensures(g, (), t),
{
}

} // verus!
