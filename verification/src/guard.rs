//! Scope guards: what an attach hands out, and what puts the slot back.

use vstd::prelude::*;
use crate::slot::{Holding, Slot};

verus! {

/// The guard of an attach by value. It keeps what the slot held before the
/// attach, and gives it back to the slot when it is dropped into it.
///
/// A guard that merely goes out of scope restores nothing: the slot is a
/// value of the caller's, so the caller hands it to [`ContextGuard::drop`].
#[must_use]
#[derive(Debug)]
pub struct ContextGuard<'a, T> {
    previous_value: Option<Option<Holding<'a, T>>>,
}

impl<'a, T> ContextGuard<'a, T> {
    /// What the guard captured: the slot's contents before the attach, or
    /// nothing where the slot took nothing.
    pub closed spec fn captured(self) -> Option<Option<Holding<'a, T>>> {
        self.previous_value
    }

    /// A guard around what a swap handed back.
    pub(crate) fn capture(previous_value: Option<Option<Holding<'a, T>>>) -> (guard: Self)
        ensures
            guard.captured() == previous_value,
    {
        ContextGuard { previous_value }
    }

    /// Ends the scope: swaps the captured contents back into `slot` and
    /// discards what the slot held. A guard that captured nothing leaves the
    /// slot alone.
    pub fn drop(self, slot: &mut Slot<'a, T>)
        ensures
            *final(slot) == old(slot).restored(self.captured()),
    {
        if let Some(previous_value) = self.previous_value {
            let _ = slot.swap(previous_value);
        }
    }
}

/// The guard of an attach by reference. It behaves as [`ContextGuard`] does;
/// its lifetime is that of the borrowed value, so it cannot outlive it.
#[must_use]
#[derive(Debug)]
pub struct ContextRefGuard<'a, T> {
    previous_value: Option<Option<Holding<'a, T>>>,
}

impl<'a, T> ContextRefGuard<'a, T> {
    /// What the guard captured: the slot's contents before the attach, or
    /// nothing where the slot took nothing.
    pub closed spec fn captured(self) -> Option<Option<Holding<'a, T>>> {
        self.previous_value
    }

    /// A guard around what a swap handed back.
    pub(crate) fn capture(previous_value: Option<Option<Holding<'a, T>>>) -> (guard: Self)
        ensures
            guard.captured() == previous_value,
    {
        ContextRefGuard { previous_value }
    }

    /// Ends the scope: swaps the captured contents back into `slot` and
    /// discards what the slot held. A guard that captured nothing leaves the
    /// slot alone.
    pub fn drop(self, slot: &mut Slot<'a, T>)
        ensures
            *final(slot) == old(slot).restored(self.captured()),
    {
        if let Some(previous_value) = self.previous_value {
            let _ = slot.swap(previous_value);
        }
    }
}

} // verus!
