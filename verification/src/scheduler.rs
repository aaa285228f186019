//! The work scheduler: a multi-producer/single-consumer channel of
//! state-mutation messages, drained on the owning thread.

use vstd::prelude::*;

verus! {

/// A state-mutation message: the owned, per-call-site value that carries one
/// completed piece of background work back to the owning thread. Consumers
/// implement this for their own message type (typically an enum with one
/// variant per slot of their state).
pub trait ApplyMessage<S>: Sized {
    /// How this message is allowed to change the shared state.
    spec fn merges_to(self, pre: S, post: S) -> bool;

    /// Merge this message into the shared state. This is the only way a
    /// completed piece of background work reaches the state.
    fn apply(self, state: &mut S)
        ensures
            self.merges_to(*old(state), *final(state)),
    ;
}

/// `post` is a state reachable from `pre` by applying every message of `msgs`,
/// in order, front first.
pub open spec fn merges_all_to<S, M: ApplyMessage<S>>(pre: S, msgs: Seq<M>, post: S) -> bool
    decreases msgs.len(),
{
    if msgs.len() == 0 {
        post == pre
    } else {
        exists|mid: S| #[trigger] msgs[0].merges_to(pre, mid) && merges_all_to(mid, msgs.drop_first(), post)
    }
}

/// Draining an empty channel is a no-op: the only state reachable by
/// applying no messages at all is the old state itself.
pub proof fn lemma_empty_drain_is_noop<S, M: ApplyMessage<S>>(pre: S, post: S)
    requires
        merges_all_to::<S, M>(pre, Seq::<M>::empty(), post),
    ensures
        post == pre,
{
}

/// Apply a batch of drained messages to the shared state, in arrival order.
/// An empty batch leaves the state untouched.
pub fn apply_all<S, M: ApplyMessage<S>>(state: &mut S, msgs: Vec<M>)
    ensures
        merges_all_to(*old(state), msgs@, *final(state)),
        msgs@.len() == 0 ==> *final(state) == *old(state),
    decreases msgs@.len(),
{
    let ghost orig = msgs@;
    let mut msgs = msgs;
    if msgs.len() == 0 {
        return;
    }
    let m = msgs.remove(0);
    let ghost pre = *state;
    m.apply(state);
    let ghost mid = *state;
    apply_all(state, msgs);
    proof {
        assert(orig.remove(0) =~= orig.drop_first());
        assert(m.merges_to(pre, mid));
        assert(merges_all_to(mid, orig.drop_first(), *state));
    }
}

#[verifier::external_type_specification]
#[verifier::external_body]
#[verifier::reject_recursive_types(T)]
pub struct ExUnboundedSender<T>(tokio::sync::mpsc::UnboundedSender<T>);

#[verifier::external_type_specification]
#[verifier::external_body]
#[verifier::reject_recursive_types(T)]
pub struct ExUnboundedReceiver<T>(tokio::sync::mpsc::UnboundedReceiver<T>);

/// Relies on tokio::sync::mpsc::unbounded_channel: returns the two ends of a
/// fresh unbounded multi-producer/single-consumer queue.
#[verifier::external_body]
fn new_channel<M>() -> (
    tokio::sync::mpsc::UnboundedSender<M>,
    tokio::sync::mpsc::UnboundedReceiver<M>,
) {
    tokio::sync::mpsc::unbounded_channel()
}

/// Relies on tokio::sync::mpsc::UnboundedSender::clone: another handle sending
/// into the same queue.
#[verifier::external_body]
fn clone_sender<M>(tx: &tokio::sync::mpsc::UnboundedSender<M>) -> (r: tokio::sync::mpsc::UnboundedSender<M>) {
    tx.clone()
}

/// Relies on tokio::sync::mpsc::UnboundedSender::send: queues the message for
/// the receiving end; fails exactly when the receiver has been dropped, in
/// which case the message is discarded.
#[verifier::external_body]
fn send_message<M>(tx: &tokio::sync::mpsc::UnboundedSender<M>, m: M) -> (delivered: bool) {
    tx.send(m).is_ok()
}

/// Relies on tokio::sync::mpsc::UnboundedReceiver::len: the number of
/// messages queued at this moment.
#[verifier::external_body]
fn queued_len<M>(rx: &tokio::sync::mpsc::UnboundedReceiver<M>) -> (n: usize) {
    rx.len()
}

/// Relies on tokio::sync::mpsc::UnboundedReceiver::try_recv: takes the oldest
/// queued message without blocking, or returns nothing if the queue is empty
/// at that moment.
#[verifier::external_body]
fn try_recv_message<M>(rx: &mut tokio::sync::mpsc::UnboundedReceiver<M>) -> (m: Option<M>) {
    rx.try_recv().ok()
}

/// A handle held by a pending background task, used once to report its
/// completion message to the owning thread.
#[verifier::reject_recursive_types(M)]
pub struct WorkSender<M> {
    pub(crate) tx: tokio::sync::mpsc::UnboundedSender<M>,
}

impl<M> WorkSender<M> {
    /// Queue one message for the owning thread. Returns false if the
    /// scheduler (and so the receiving end) is gone; the message is then
    /// silently discarded, as completions of abandoned work are.
    pub fn send(self, m: M) -> (delivered: bool) {
        send_message(&self.tx, m)
    }
}

/// The scheduler's state: the owning thread's end of the completion channel,
/// together with a sender that enqueued tasks get clones of. Created once per
/// application run and dropped when the loop exits.
#[verifier::reject_recursive_types(M)]
pub struct AppWorkState<M> {
    pub(crate) tx: tokio::sync::mpsc::UnboundedSender<M>,
    pub(crate) rx: tokio::sync::mpsc::UnboundedReceiver<M>,
}

impl<M> AppWorkState<M> {
    pub fn new() -> Self {
        let (tx, rx) = new_channel();
        AppWorkState { tx, rx }
    }

    /// A fresh handle for one background task to report its completion on.
    pub fn completion_sender(&self) -> WorkSender<M> {
        WorkSender { tx: clone_sender(&self.tx) }
    }

    /// Drain every currently queued message without blocking and merge each
    /// into the shared state, in arrival order, returning how many were
    /// drained. This is the only place the shared state changes as a result
    /// of background work: the final state is always one reachable from the
    /// old state by merging that many messages — in particular, when nothing
    /// was queued the state is left exactly as it was.
    pub fn handle_messages<S>(&mut self, state: &mut S) -> (n: usize) where M: ApplyMessage<S>
        ensures
            exists|ms: Seq<M>| ms.len() == n && merges_all_to(*old(state), ms, *final(state)),
            n == 0 ==> *final(state) == *old(state),
    {
        let mut msgs: Vec<M> = Vec::new();
        let pending = queued_len(&self.rx);
        let mut i: usize = 0;
        while i < pending
            invariant
                *state == *old(state),
                i <= pending,
            decreases pending - i,
        {
            match try_recv_message(&mut self.rx) {
                Some(m) => msgs.push(m),
                None => break,
            }
            i += 1;
        }
        let n = msgs.len();
        let ghost drained = msgs@;
        apply_all(state, msgs);
        proof {
            assert(drained.len() == n && merges_all_to(*old(state), drained, *state));
        }
        n
    }
}

} // verus!
