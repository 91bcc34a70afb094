//! Scoped, typed contexts.
//!
//! A value of a context type is attached to a [`Slot`] for the length of a
//! scope; code further down the call chain reads it back from the slot
//! without having it passed as an argument. Each attach hands out a guard
//! that puts the slot's earlier contents back, so nested scopes unwind in
//! reverse order.

pub mod context;
pub mod guard;
pub mod laws;
pub mod slot;
pub mod with_context;

pub use context::TypedContext;
pub use guard::{ContextGuard, ContextRefGuard};
pub use slot::{Holding, Slot};
pub use with_context::{begin_poll, end_poll, FutureExt, WithContext};
