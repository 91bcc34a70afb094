//! Carrying a context value along with a computation that is resumed in
//! steps.

use core::future::Future;
use vstd::prelude::*;
use crate::context::TypedContext;
use crate::guard::ContextRefGuard;
use crate::slot::{is_snapshot, Holding, Slot};

verus! {

/// Wrapper for a future, responsible for managing its context.
///
/// It owns the value it carries for as long as it lives. The host that
/// drives the future brackets every single step with [`begin_poll`] and
/// [`end_poll`], so that the value is current while the future runs and at
/// no other time.
#[derive(Clone, Debug)]
pub struct WithContext<F, T> {
    inner: F,
    value: Option<T>,
}

impl<F, T> WithContext<F, T> {
    /// The wrapped computation.
    pub closed spec fn inner(self) -> F {
        self.inner
    }

    /// The value that is attached around each step, if any.
    pub closed spec fn value(self) -> Option<T> {
        self.value
    }

    /// Takes the wrapper apart, for the host that drives the computation:
    /// the computation to resume, and the value to attach around each step.
    pub fn into_parts(self) -> (parts: (F, Option<T>))
        ensures
            parts.0 == self.inner(),
            parts.1 == self.value(),
    {
        (self.inner, self.value)
    }
}

/// The slot as a computation finds it during a step that began on `slot`
/// with `value` carried along.
pub open spec fn entered<'a, T>(value: Option<T>, slot: Slot<'a, T>) -> Slot<'a, T> {
    match value {
        Some(v) => slot.swapped(Some(Holding::Borrowed(&v))),
        None => slot,
    }
}

/// Begins one step of a wrapped computation. Where a value is carried, a
/// reference to it is attached and the guard of that attach is returned.
/// Without a value the slot is not touched and there is no guard.
pub fn begin_poll<'a, T: TypedContext>(value: &'a Option<T>, slot: &mut Slot<'a, T>) -> (guard:
    Option<ContextRefGuard<'a, T>>)
    ensures
        *final(slot) == entered(*value, *old(slot)),
        match *value {
            Some(_) => guard matches Some(g) && g.captured() == old(slot).displaced(),
            None => guard is None,
        },
{
    match value {
        Some(x) => Some(x.attach_ref(slot)),
        None => None,
    }
}

/// Ends the step that `guard` came from: puts back what the slot held before
/// the step began, whatever the computation left in it. Without a guard the
/// slot stays as the computation left it.
pub fn end_poll<'a, T>(guard: Option<ContextRefGuard<'a, T>>, slot: &mut Slot<'a, T>)
    ensures
        *final(slot) == match guard {
            Some(g) => old(slot).restored(g.captured()),
            None => *old(slot),
        },
{
    if let Some(g) = guard {
        g.drop(slot);
    }
}

/// Extension trait allowing to attach context to futures.
///
/// Every future has it, and so has every wrapper around one, so that a
/// future can carry a value of more than one context type.
pub trait FutureExt: Sized {
    /// Set value as context for future.
    fn with<T>(self, value: T) -> (wrapped: WithContext<Self, T>)
        ensures
            wrapped.inner() == self,
            wrapped.value() == Some(value),
    {
        WithContext { inner: self, value: Some(value) }
    }

    /// Set optional value as context for future.
    ///
    /// Primarily used with the return value of [`TypedContext::current`].
    fn with_opt<T>(self, value: Option<T>) -> (wrapped: WithContext<Self, T>)
        ensures
            wrapped.inner() == self,
            wrapped.value() == value,
    {
        WithContext { inner: self, value }
    }

    /// Take the current context out of `slot` and set it as context for a
    /// future.
    ///
    /// Basically it is `self.with_opt(T::current(slot))`.
    fn with_current<'a, T: TypedContext>(self, slot: &Slot<'a, T>) -> (wrapped: WithContext<Self, T>)
        ensures
            wrapped.inner() == self,
            is_snapshot(slot.current_value(), wrapped.value()),
    {
        self.with_opt(T::current(slot))
    }
}

impl<F: Sized + Future<Output = O>, O> FutureExt for F {

}

impl<F: FutureExt, T> FutureExt for WithContext<F, T> {

}

} // verus!
