//! The capability of a context type: read, attach, attach by reference.

use vstd::prelude::*;
use crate::guard::{ContextGuard, ContextRefGuard};
use crate::slot::{is_snapshot, Holding, Slot};

verus! {

/// Trait for interaction with typed contexts.
///
/// Every operation works on the slot of the context type, which the caller
/// keeps: one slot per type and thread. Every type that can be cloned is a
/// context type.
pub trait TypedContext: Clone + Sized {
    /// Get a clone of the current value of the context.
    ///
    /// `None` is returned if no value is set.
    fn current<'a>(slot: &Slot<'a, Self>) -> (value: Option<Self>)
        ensures
            is_snapshot(slot.current_value(), value),
    {
        slot.read()
    }

    /// Set the value as the current context.
    ///
    /// It stays current until the returned guard is dropped into the slot.
    /// The previous contents are kept in the guard and come back then.
    fn attach<'a>(self, slot: &mut Slot<'a, Self>) -> (guard: ContextGuard<'a, Self>)
        ensures
            *final(slot) == old(slot).swapped(Some(Holding::Owned(self))),
            guard.captured() == old(slot).displaced(),
    {
        let previous_value = slot.swap(Some(Holding::Owned(self)));
        ContextGuard::capture(previous_value)
    }

    /// Set a reference to the value as the current context.
    ///
    /// The value stays where it is; the slot only borrows it, and the borrow
    /// lasts for as long as the slot is in use. The borrow checker therefore
    /// sees to it that the value outlives every read of the slot.
    fn attach_ref<'a>(&'a self, slot: &mut Slot<'a, Self>) -> (guard: ContextRefGuard<'a, Self>)
        ensures
            *final(slot) == old(slot).swapped(Some(Holding::Borrowed(self))),
            guard.captured() == old(slot).displaced(),
    {
        let previous_value = slot.swap(Some(Holding::Borrowed(self)));
        ContextRefGuard::capture(previous_value)
    }
}

impl<T: Clone> TypedContext for T {

}

} // verus!
