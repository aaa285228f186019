//! Work descriptors: pairing one asynchronous operation with the function
//! that merges its eventual outcome into the shared application state.

use vstd::prelude::*;
use crate::loadable::Loadable;
use crate::scheduler::AppWorkState;
use crate::scheduler::ApplyMessage;
use crate::scheduler::WorkSender;

verus! {

/// The per-call-site half of a merge function: it knows which slot of the
/// shared state a work item targets, and wraps each lifecycle value of that
/// slot into the consumer's message type.
pub trait Setter<T, M>: Sized {
    /// The message that carries `outcome` to this setter's slot.
    spec fn message_of(self, outcome: Loadable<T>) -> M;

    /// Wrap a slot value into the consumer's message type.
    fn message(&self, outcome: Loadable<T>) -> (m: M)
        ensures
            m == self.message_of(outcome),
    ;
}

/// The builder field that was still unset when `build` was called.
#[derive(Clone, Copy, Debug, PartialEq, Eq, Structural)]
pub enum MissingField {
    Description,
    Setter,
    Work,
}

/// An immutable work descriptor: a diagnostic description, the operation to
/// run, and the setter that routes its outcome into the shared state.
/// Building one has no side effect; nothing runs until it is enqueued.
pub struct LoadableWork<Se, W> {
    pub description: String,
    pub setter: Se,
    pub work: W,
}

/// Builds a [`LoadableWork`] field by field; `build` fails with the first
/// missing field.
pub struct LoadableWorkBuilder<Se, W> {
    pub description: Option<String>,
    pub setter: Option<Se>,
    pub work: Option<W>,
}

impl<Se, W> LoadableWorkBuilder<Se, W> {
    /// An empty builder: every field still missing.
    pub fn new() -> (r: Self)
        ensures
            r.description is None,
            r.setter is None,
            r.work is None,
    {
        LoadableWorkBuilder { description: None, setter: None, work: None }
    }

    /// A human-readable description of the work, for diagnostics only.
    pub fn description(self, description: String) -> (r: Self)
        ensures
            r.description == Some(description),
            r.setter == self.setter,
            r.work == self.work,
    {
        LoadableWorkBuilder { description: Some(description), ..self }
    }

    /// The setter that routes the outcome into its slot of the shared state.
    pub fn setter(self, setter: Se) -> (r: Self)
        ensures
            r.setter == Some(setter),
            r.description == self.description,
            r.work == self.work,
    {
        LoadableWorkBuilder { setter: Some(setter), ..self }
    }

    /// The operation itself. The library never runs it: the runner drives it
    /// after the descriptor is enqueued.
    pub fn work(self, work: W) -> (r: Self)
        ensures
            r.work == Some(work),
            r.description == self.description,
            r.setter == self.setter,
    {
        LoadableWorkBuilder { work: Some(work), ..self }
    }

    /// An immutable descriptor, or the first missing required field:
    /// `description`, then `setter`, then `work`.
    pub fn build(self) -> (r: Result<LoadableWork<Se, W>, MissingField>)
        ensures
            r is Ok <==> (self.description is Some && self.setter is Some && self.work is Some),
            r == Err::<LoadableWork<Se, W>, MissingField>(MissingField::Description)
                <==> self.description is None,
            r == Err::<LoadableWork<Se, W>, MissingField>(MissingField::Setter)
                <==> (self.description is Some && self.setter is None),
            r == Err::<LoadableWork<Se, W>, MissingField>(MissingField::Work)
                <==> (self.description is Some && self.setter is Some && self.work is None),
            r is Ok ==> (r->Ok_0.description == self.description->0
                && r->Ok_0.setter == self.setter->0
                && r->Ok_0.work == self.work->0),
    {
        let LoadableWorkBuilder { description, setter, work } = self;
        let description = match description {
            Some(d) => d,
            None => {
                return Err(MissingField::Description);
            },
        };
        let setter = match setter {
            Some(s) => s,
            None => {
                return Err(MissingField::Setter);
            },
        };
        let work = match work {
            Some(w) => w,
            None => {
                return Err(MissingField::Work);
            },
        };
        Ok(LoadableWork { description, setter, work })
    }
}

/// A work item that has been enqueued: its slot is already marked `Loading`,
/// and the runner holds everything needed to report the outcome back through
/// the scheduler's channel once the operation resolves.
#[verifier::reject_recursive_types(M)]
pub struct PendingWork<Se, M> {
    pub description: String,
    pub setter: Se,
    pub reply: WorkSender<M>,
}

impl<Se, W> LoadableWork<Se, W> {
    /// Enqueue this descriptor: immediately merge a `Loading` mark for its
    /// slot into the shared state — so the very next redraw can show a
    /// loading indicator — and hand the operation back for the runner to
    /// spawn, together with the completion route into `works`' channel.
    pub fn enqueue<S, T, M>(self, works: &AppWorkState<M>, state: &mut S, now: u64) -> (r: (
        W,
        PendingWork<Se, M>,
    )) where Se: Setter<T, M>, M: ApplyMessage<S>
        ensures
            self.setter.message_of(Loadable::Loading { started_at: now }).merges_to(
                *old(state),
                *final(state),
            ),
            r.0 == self.work,
            r.1.setter == self.setter,
            r.1.description == self.description,
    {
        let LoadableWork { description, setter, work } = self;
        let m = setter.message(Loadable::Loading { started_at: now });
        m.apply(state);
        (work, PendingWork { description, setter, reply: works.completion_sender() })
    }
}

impl<Se, M> PendingWork<Se, M> {
    /// The message that reports `outcome`, resolved at `now`, for this work
    /// item's slot.
    pub fn completion_message<T>(&self, now: u64, outcome: Result<T, String>) -> (m: M)
        where Se: Setter<T, M>
        ensures
            m == self.setter.message_of(Loadable::<T>::completed(outcome, now)),
    {
        self.setter.message(Loadable::from_outcome(outcome, now))
    }

    /// Report the outcome of the finished operation: wrap it in the
    /// consumer's message and queue it for the owning thread. Returns false
    /// if the scheduler is gone (the loop has exited); the outcome is then
    /// discarded, as results of abandoned work are.
    pub fn complete<T>(self, now: u64, outcome: Result<T, String>) -> (delivered: bool)
        where Se: Setter<T, M>
    {
        let m = self.completion_message(now, outcome);
        self.reply.send(m)
    }

    /// Give up on this work item before its operation ran — for example
    /// because spawning it failed — by merging a `Failed` outcome into the
    /// shared state at once, so the slot is not left stuck in `Loading`.
    pub fn fail_now<S, T>(self, state: &mut S, now: u64, error: String)
        where Se: Setter<T, M>, M: ApplyMessage<S>
        ensures
            self.setter.message_of(Loadable::<T>::completed(Err(error), now)).merges_to(
                *old(state),
                *final(state),
            ),
    {
        let m = self.setter.message(Loadable::from_outcome(Err(error), now));
        m.apply(state);
    }
}

} // verus!
