//! What holds of every slot, every value and every nesting of scopes.

use vstd::prelude::*;
use crate::slot::{is_snapshot, Holding, Slot};
use crate::with_context::entered;

verus! {

/// The slot after each holding of `attached` was attached to `slot` in turn,
/// the last one last.
pub open spec fn after_attaches<'a, T>(slot: Slot<'a, T>, attached: Seq<Holding<'a, T>>) -> Slot<
    'a,
    T,
>
    decreases attached.len(),
{
    if attached.len() == 0 {
        slot
    } else {
        after_attaches(slot, attached.drop_last()).swapped(Some(attached.last()))
    }
}

/// What the guard of attach number `i` (from 0) captured, when the holdings
/// of `attached` were attached to `slot` in turn.
pub open spec fn captured_at<'a, T>(slot: Slot<'a, T>, attached: Seq<Holding<'a, T>>, i: int) -> Option<
    Option<Holding<'a, T>>,
> {
    after_attaches(slot, attached.take(i)).displaced()
}

/// The slot after the holdings of `attached` were attached to `slot` in turn
/// and the guards of the last `dropped` attaches were then dropped, the
/// newest first.
pub open spec fn after_drops<'a, T>(slot: Slot<'a, T>, attached: Seq<Holding<'a, T>>, dropped: nat) -> Slot<
    'a,
    T,
>
    decreases dropped,
{
    if dropped == 0 {
        after_attaches(slot, attached)
    } else {
        after_drops(slot, attached, (dropped - 1) as nat).restored(
            captured_at(slot, attached, attached.len() - dropped),
        )
    }
}

/// Read after attach: on a live slot, the value that was attached is the
/// current one, however it is held.
pub proof fn lemma_attached_is_current<'a, T>(slot: Slot<'a, T>, holding: Holding<'a, T>)
    requires
        slot.is_live(),
    ensures
        slot.swapped(Some(holding)).current_value() == Some(holding.value()),
{
}

/// Restore on drop: a guard brings back exactly what the slot held when its
/// attach began, whatever was put into the slot in between.
pub proof fn lemma_drop_restores<'a, T>(before: Slot<'a, T>, during: Slot<'a, T>)
    requires
        before.is_live() == during.is_live(),
    ensures
        during.restored(before.displaced()) == before,
{
}

/// Nested scopes unwind in reverse: after `attached.len()` nested attaches,
/// dropping the newest `dropped` guards leaves the slot as it was when only
/// the first `attached.len() - dropped` values had been attached. So the
/// last of those is current again, and once every guard is dropped the slot
/// is back at its start.
pub proof fn lemma_guards_unwind_in_reverse<'a, T>(
    slot: Slot<'a, T>,
    attached: Seq<Holding<'a, T>>,
    dropped: nat,
)
    requires
        dropped <= attached.len(),
    ensures
        after_drops(slot, attached, dropped) == after_attaches(
            slot,
            attached.take(attached.len() - dropped),
        ),
        slot.is_live() && dropped < attached.len() ==> after_drops(
            slot,
            attached,
            dropped,
        ).current_value() == Some(attached[attached.len() - dropped - 1].value()),
        dropped == attached.len() ==> after_drops(slot, attached, dropped) == slot,
    decreases dropped,
{
    let n = attached.len() as int;
    let kept = attached.take(n - dropped);
    lemma_attaches_keep_liveness(slot, kept);
    if dropped == 0 {
        assert(attached.take(n) =~= attached);
    } else {
        lemma_guards_unwind_in_reverse(slot, attached, (dropped - 1) as nat);
        let longer = attached.take(n - dropped + 1);
        assert(longer.drop_last() =~= kept);
        lemma_attaches_keep_liveness(slot, longer);
        lemma_drop_restores(after_attaches(slot, kept), after_attaches(slot, longer));
    }
    if dropped < n {
        assert(kept.last() == attached[n - dropped - 1]);
    }
}

/// Attaching never changes whether the slot is live.
pub proof fn lemma_attaches_keep_liveness<'a, T>(slot: Slot<'a, T>, attached: Seq<Holding<'a, T>>)
    ensures
        after_attaches(slot, attached).is_live() == slot.is_live(),
    decreases attached.len(),
{
    if attached.len() > 0 {
        lemma_attaches_keep_liveness(slot, attached.drop_last());
    }
}

/// Type isolation: each context type has a slot of its own, and an attach
/// reaches no slot but the one of its own type. So with the slots of two
/// types side by side, attaching for the first leaves the second exactly as
/// it was, and a read of it gives what it gave before.
pub proof fn lemma_attach_leaves_other_type<'a, A, B>(
    slots: (Slot<'a, A>, Slot<'a, B>),
    holding: Holding<'a, A>,
)
    ensures
        ({
            let after = (slots.0.swapped(Some(holding)), slots.1);
            &&& after.1 == slots.1
            &&& after.1.current_value() == slots.1.current_value()
        }),
{
}

/// Per-step scoping: during a step the computation finds the carried value
/// as the current one, and after the step the slot holds what it held before
/// the step, whatever the computation left in it. So the value is seen
/// neither before the step nor after it. Where nothing is carried, the slot
/// is handed on untouched.
pub proof fn lemma_value_is_scoped_to_step<'a, T>(
    carried: Option<T>,
    before: Slot<'a, T>,
    during: Slot<'a, T>,
)
    requires
        before.is_live(),
        during.is_live(),
    ensures
        carried is Some ==> entered(carried, before).current_value() == carried,
        carried is Some ==> during.restored(before.displaced()) == before,
        carried is None ==> entered(carried, before) == before,
{
}

/// Snapshot propagation: a snapshot taken from the slot of one thread and
/// carried along is the current value during a step on the slot of any other
/// live thread, and it is a clone of what was current where it was taken.
pub proof fn lemma_snapshot_reaches_step<'a, T: Clone>(
    origin: Slot<'a, T>,
    snapshot: Option<T>,
    target: Slot<'a, T>,
)
    requires
        origin.current_value() is Some,
        is_snapshot(origin.current_value(), snapshot),
        target.is_live(),
    ensures
        entered(snapshot, target).current_value() == snapshot,
        is_snapshot(origin.current_value(), entered(snapshot, target).current_value()),
{
}

} // verus!
