//! The storage slot: one cell per context type, holding at most one value.

use vstd::prelude::*;

verus! {

/// What a slot holds: the value itself, or a reference to a value that is
/// owned elsewhere and outlives the slot's use of it.
#[derive(Debug)]
pub enum Holding<'a, T> {
    Owned(T),
    Borrowed(&'a T),
}

impl<'a, T> Holding<'a, T> {
    /// The value a reader of the slot sees, whichever way it is held.
    pub open spec fn value(self) -> T {
        match self {
            Holding::Owned(v) => v,
            Holding::Borrowed(r) => *r,
        }
    }

    /// A reference to the held value.
    pub fn get(&self) -> (r: &T)
        ensures
            *r == self.value(),
    {
        match self {
            Holding::Owned(v) => v,
            Holding::Borrowed(r) => r,
        }
    }
}

/// `snapshot` is what reading `current` may give: nothing where nothing is
/// current, and otherwise a clone of the current value.
pub open spec fn is_snapshot<T: Clone>(current: Option<T>, snapshot: Option<T>) -> bool {
    match current {
        Some(v) => snapshot matches Some(c) && cloned(v, c),
        None => snapshot is None,
    }
}

/// The cell of one context type on one thread.
#[derive(Debug)]
pub enum Slot<'a, T> {
    /// The thread's storage is in place; the cell holds at most one value.
    Live(Option<Holding<'a, T>>),
    /// The thread's storage is being taken down: the cell holds nothing and
    /// takes nothing.
    TornDown,
}

impl<'a, T> Slot<'a, T> {
    /// Whether the cell can still be written.
    pub open spec fn is_live(self) -> bool {
        self is Live
    }

    /// What the cell holds.
    pub open spec fn holding(self) -> Option<Holding<'a, T>> {
        match self {
            Slot::Live(h) => h,
            Slot::TornDown => None,
        }
    }

    /// The value a reader sees.
    pub open spec fn current_value(self) -> Option<T> {
        match self.holding() {
            Some(h) => Some(h.value()),
            None => None,
        }
    }

    /// The cell after `new` was swapped in.
    pub open spec fn swapped(self, new: Option<Holding<'a, T>>) -> Self {
        match self {
            Slot::Live(_) => Slot::Live(new),
            Slot::TornDown => Slot::TornDown,
        }
    }

    /// What a swap hands back: the contents it displaced, or nothing at all
    /// where the cell took nothing.
    pub open spec fn displaced(self) -> Option<Option<Holding<'a, T>>> {
        match self {
            Slot::Live(h) => Some(h),
            Slot::TornDown => None,
        }
    }

    /// The cell after a guard that captured `captured` gave it back.
    pub open spec fn restored(self, captured: Option<Option<Holding<'a, T>>>) -> Self {
        match captured {
            Some(previous) => self.swapped(previous),
            None => self,
        }
    }

    /// An empty cell on a live thread.
    pub fn new() -> (slot: Self)
        ensures
            slot == Slot::<'a, T>::Live(None),
            slot.current_value() is None,
    {
        Slot::Live(None)
    }

    /// Replaces the contents with `new` and returns what was there. A cell
    /// that is torn down stays as it is, `new` is discarded, and nothing is
    /// returned.
    pub fn swap(&mut self, new: Option<Holding<'a, T>>) -> (old_contents: Option<Option<Holding<'a, T>>>)
        ensures
            *final(self) == old(self).swapped(new),
            old_contents == old(self).displaced(),
    {
        match self {
            Slot::Live(contents) => {
                let mut previous = new;
                core::mem::swap(contents, &mut previous);
                Some(previous)
            },
            Slot::TornDown => None,
        }
    }
}

impl<'a, T: Clone> Slot<'a, T> {
    /// A clone of the current value, if there is one. The cell is left as it
    /// is.
    pub fn read(&self) -> (value: Option<T>)
        ensures
            is_snapshot(self.current_value(), value),
    {
        match self {
            Slot::Live(Some(h)) => Some(h.get().clone()),
            _ => None,
        }
    }
}

} // verus!
