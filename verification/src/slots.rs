//! A ready-made shared-state shape: a vector of slots, one `Loadable` per
//! logical data source, with the message and setter types that target it.

use vstd::prelude::*;
use crate::loadable::Loadable;
use crate::scheduler::ApplyMessage;
use crate::scheduler::merges_all_to;
use crate::work::Setter;

verus! {

/// A message targeting one slot of a `Vec<Loadable<T>>` state: when applied,
/// it overwrites that slot with `outcome`. A message for a slot that does not
/// exist changes nothing.
#[derive(Debug, PartialEq)]
pub struct SlotMessage<T> {
    pub slot: usize,
    pub outcome: Loadable<T>,
}

impl<T> ApplyMessage<Vec<Loadable<T>>> for SlotMessage<T> {
    open spec fn merges_to(self, pre: Vec<Loadable<T>>, post: Vec<Loadable<T>>) -> bool {
        if (self.slot as int) < pre@.len() {
            post@ == pre@.update(self.slot as int, self.outcome)
        } else {
            post@ == pre@
        }
    }

    fn apply(self, state: &mut Vec<Loadable<T>>) {
        let ghost m = self;
        let SlotMessage { slot, outcome } = self;
        if slot < state.len() {
            state.remove(slot);
            state.insert(slot, outcome);
            proof {
                assert(state@ =~= old(state)@.update(m.slot as int, m.outcome));
            }
        }
    }
}

/// The setter for one slot of a `Vec<Loadable<T>>` state.
#[derive(Clone, Copy, Debug, PartialEq, Eq, Structural)]
pub struct SlotSetter {
    pub slot: usize,
}

impl<T> Setter<T, SlotMessage<T>> for SlotSetter {
    open spec fn message_of(self, outcome: Loadable<T>) -> SlotMessage<T> {
        SlotMessage { slot: self.slot, outcome }
    }

    fn message(&self, outcome: Loadable<T>) -> (m: SlotMessage<T>) {
        SlotMessage { slot: self.slot, outcome }
    }
}

/// Slot messages never change the number of slots.
pub proof fn lemma_merges_preserve_slot_count<T>(
    pre: Vec<Loadable<T>>,
    msgs: Seq<SlotMessage<T>>,
    post: Vec<Loadable<T>>,
)
    requires
        merges_all_to(pre, msgs, post),
    ensures
        post@.len() == pre@.len(),
    decreases msgs.len(),
{
    if msgs.len() != 0 {
        let mid = choose|mid: Vec<Loadable<T>>|
            #[trigger] msgs[0].merges_to(pre, mid) && merges_all_to(mid, msgs.drop_first(), post);
        lemma_merges_preserve_slot_count(mid, msgs.drop_first(), post);
    }
}

/// Draining completions leaves no slot loading: if every drained message
/// carries a terminal outcome — as every completion message does — then every
/// slot that either already was terminal or is targeted by at least one of
/// the messages ends up `Loaded` or `Failed`, never `Loading`.
pub proof fn lemma_completions_leave_no_loading<T>(
    pre: Vec<Loadable<T>>,
    msgs: Seq<SlotMessage<T>>,
    post: Vec<Loadable<T>>,
    i: int,
)
    requires
        merges_all_to(pre, msgs, post),
        forall|j: int| 0 <= j < msgs.len() ==> (#[trigger] msgs[j]).outcome.is_terminal(),
        0 <= i < pre@.len(),
        pre@[i].is_terminal() || exists|j: int|
            0 <= j < msgs.len() && (#[trigger] msgs[j]).slot == i,
    ensures
        post@.len() == pre@.len(),
        post@[i].is_terminal(),
    decreases msgs.len(),
{
    if msgs.len() == 0 {
        assert(pre@[i].is_terminal());
    } else {
        let mid = choose|mid: Vec<Loadable<T>>|
            #[trigger] msgs[0].merges_to(pre, mid) && merges_all_to(mid, msgs.drop_first(), post);
        let rest = msgs.drop_first();
        if msgs[0].slot == i {
            assert(mid@[i] == msgs[0].outcome);
            assert(mid@[i].is_terminal());
        } else {
            assert(mid@[i] == pre@[i]);
            if !pre@[i].is_terminal() {
                let j = choose|j: int| 0 <= j < msgs.len() && (#[trigger] msgs[j]).slot == i;
                assert(rest[j - 1] == msgs[j]);
                assert(0 <= j - 1 < rest.len() && rest[j - 1].slot == i);
            }
        }
        lemma_completions_leave_no_loading(mid, rest, post, i);
    }
}

/// Re-enqueuing is a reset: merging a `Loading` mark for a slot overwrites
/// whatever the slot held — a previously `Loaded` value included — before any
/// new completion arrives.
pub proof fn lemma_reenqueue_resets_slot<T>(
    pre: Vec<Loadable<T>>,
    post: Vec<Loadable<T>>,
    m: SlotMessage<T>,
    now: u64,
)
    requires
        m.outcome == (Loadable::Loading::<T> { started_at: now }),
        m.merges_to(pre, post),
        (m.slot as int) < pre@.len(),
    ensures
        post@[m.slot as int] == (Loadable::Loading::<T> { started_at: now }),
{
}

} // verus!
