//! The lifecycle of one asynchronously produced piece of data.

use vstd::prelude::*;

verus! {

/// The state of one slot of asynchronously produced data.
///
/// A slot starts out `NotLoaded`, is marked `Loading` when an operation is
/// enqueued for it, and ends up `Loaded` or `Failed` when that operation
/// resolves. Timestamps are plain milliseconds supplied by the caller.
#[derive(Debug, PartialEq)]
pub enum Loadable<T> {
    NotLoaded,
    Loading { started_at: u64 },
    Loaded { value: T, loaded_at: u64 },
    Failed { error: String, failed_at: u64 },
}

impl<T> Loadable<T> {
    /// The terminal state an operation outcome settles into at time `now`.
    pub open spec fn completed(outcome: Result<T, String>, now: u64) -> Loadable<T> {
        match outcome {
            Ok(value) => Loadable::Loaded { value, loaded_at: now },
            Err(error) => Loadable::Failed { error, failed_at: now },
        }
    }

    /// A slot is terminal once its operation has resolved, one way or the other.
    pub open spec fn is_terminal(&self) -> bool {
        self is Loaded || self is Failed
    }

    /// The payload visible through [`Self::loaded_value`]: present exactly in
    /// the `Loaded` state.
    pub open spec fn spec_loaded_value(&self) -> Option<T> {
        match *self {
            Loadable::Loaded { value, .. } => Some(value),
            _ => None,
        }
    }

    /// The error visible through [`Self::error_message`]: present exactly in
    /// the `Failed` state.
    pub open spec fn spec_error_message(&self) -> Option<String> {
        match *self {
            Loadable::Failed { error, .. } => Some(error),
            _ => None,
        }
    }

    /// A fresh slot: nothing has been requested yet.
    pub fn new() -> (r: Self)
        ensures
            r is NotLoaded,
    {
        Loadable::NotLoaded
    }

    /// Record that an operation for this slot is now in flight. Allowed from
    /// any prior state: re-issuing an operation is the caller's decision.
    pub fn mark_loading(&mut self, now: u64)
        ensures
            *final(self) == (Loadable::Loading::<T> { started_at: now }),
    {
        *self = Loadable::Loading { started_at: now };
    }

    /// The terminal slot value for an operation outcome: `Ok` becomes
    /// `Loaded`, `Err` becomes `Failed`.
    pub fn from_outcome(outcome: Result<T, String>, now: u64) -> (r: Self)
        ensures
            r == Self::completed(outcome, now),
    {
        match outcome {
            Ok(value) => Loadable::Loaded { value, loaded_at: now },
            Err(error) => Loadable::Failed { error, failed_at: now },
        }
    }

    /// Record the outcome of the operation: `Ok` becomes `Loaded`, `Err`
    /// becomes `Failed`.
    pub fn complete(&mut self, now: u64, outcome: Result<T, String>)
        ensures
            *final(self) == Self::completed(outcome, now),
    {
        match outcome {
            Ok(value) => {
                *self = Loadable::Loaded { value, loaded_at: now };
            },
            Err(error) => {
                *self = Loadable::Failed { error, failed_at: now };
            },
        }
    }

    pub fn is_not_loaded(&self) -> (r: bool)
        ensures
            r <==> *self is NotLoaded,
    {
        match self {
            Loadable::NotLoaded => true,
            _ => false,
        }
    }

    pub fn is_loading(&self) -> (r: bool)
        ensures
            r <==> *self is Loading,
    {
        match self {
            Loadable::Loading { .. } => true,
            _ => false,
        }
    }

    pub fn is_loaded(&self) -> (r: bool)
        ensures
            r <==> *self is Loaded,
    {
        match self {
            Loadable::Loaded { .. } => true,
            _ => false,
        }
    }

    pub fn is_failed(&self) -> (r: bool)
        ensures
            r <==> *self is Failed,
    {
        match self {
            Loadable::Failed { .. } => true,
            _ => false,
        }
    }

    /// The payload, visible only while the slot is `Loaded`.
    pub fn loaded_value(&self) -> (r: Option<&T>)
        ensures
            match r {
                Some(v) => *self is Loaded && Some(*v) == self.spec_loaded_value(),
                None => !(*self is Loaded) && self.spec_loaded_value() is None,
            },
    {
        match self {
            Loadable::Loaded { value, .. } => Some(value),
            _ => None,
        }
    }

    /// The error message, visible only while the slot is `Failed`.
    pub fn error_message(&self) -> (r: Option<&String>)
        ensures
            match r {
                Some(e) => *self is Failed && Some(*e) == self.spec_error_message(),
                None => !(*self is Failed) && self.spec_error_message() is None,
            },
    {
        match self {
            Loadable::Failed { error, .. } => Some(error),
            _ => None,
        }
    }
}

impl<T> Default for Loadable<T> {
    /// A slot defaults to `NotLoaded`.
    fn default() -> (r: Self)
        ensures
            r is NotLoaded,
    {
        Loadable::NotLoaded
    }
}

/// A single step of the slot lifecycle, as performed by [`Loadable::mark_loading`]
/// and [`Loadable::complete`].
pub enum Transition<T> {
    MarkLoading { now: u64 },
    Complete { now: u64, outcome: Result<T, String> },
}

/// The slot value after one lifecycle step.
pub open spec fn step<T>(l: Loadable<T>, t: Transition<T>) -> Loadable<T> {
    match t {
        Transition::MarkLoading { now } => Loadable::Loading { started_at: now },
        Transition::Complete { now, outcome } => Loadable::completed(outcome, now),
    }
}

/// The slot value after a whole sequence of lifecycle steps, applied in order.
pub open spec fn step_all<T>(l: Loadable<T>, ts: Seq<Transition<T>>) -> Loadable<T>
    decreases ts.len(),
{
    if ts.len() == 0 {
        l
    } else {
        step_all(step(l, ts[0]), ts.drop_first())
    }
}

/// However a slot was reached — any sequence of transitions from any starting
/// value — the payload it exposes always agrees with its current variant: a
/// loaded value is visible exactly in the `Loaded` state and an error exactly
/// in the `Failed` state, so no stale payload survives a later transition.
pub proof fn lemma_payload_matches_variant<T>(start: Loadable<T>, ts: Seq<Transition<T>>)
    ensures
        (step_all(start, ts).spec_loaded_value() is Some) <==> (step_all(start, ts) is Loaded),
        (step_all(start, ts).spec_error_message() is Some) <==> (step_all(start, ts) is Failed),
{
}

/// Re-enqueuing is always a reset: a `MarkLoading` step lands in `Loading`
/// whatever the slot held before, including a previously `Loaded` value.
pub proof fn lemma_mark_loading_resets<T>(l: Loadable<T>, now: u64)
    ensures
        step(l, Transition::MarkLoading { now }) == (Loadable::Loading::<T> { started_at: now }),
{
}

/// Completion is always terminal: a `Complete` step lands in `Loaded` or
/// `Failed`, never back in `Loading` or `NotLoaded`.
pub proof fn lemma_complete_terminal<T>(l: Loadable<T>, now: u64, outcome: Result<T, String>)
    ensures
        step(l, Transition::Complete { now, outcome }).is_terminal(),
{
}

} // verus!
