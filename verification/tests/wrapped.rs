use std::cell::RefCell;
use std::future::{ready, Future};
use std::pin::Pin;
use std::task::{Context, Poll, Waker};
use std::time::{Duration, Instant};

use tyco::{begin_poll, end_poll, FutureExt, Holding, Slot, TypedContext};

#[derive(Clone, Debug, PartialEq)]
struct Deadline(Instant);

impl Deadline {
    pub fn after(after: Duration) -> Self {
        Self(Instant::now() + after)
    }

    pub fn after_secs(after_secs: u64) -> Self {
        Self::after(Duration::from_secs(after_secs))
    }
}

#[derive(Clone, Debug, PartialEq)]
struct TraceId(String);

impl TraceId {
    pub fn new(v: impl ToString) -> Self {
        Self(v.to_string())
    }
}

/// A computation that suspends `pauses` times and reports, at every step,
/// what it finds in the slot it shares with its host.
struct Observer<'s, 'a, T> {
    slot: &'s RefCell<Slot<'a, T>>,
    pauses: usize,
    seen: Vec<Option<T>>,
}

impl<'s, 'a, T: Clone + Unpin> Future for Observer<'s, 'a, T> {
    type Output = Vec<Option<T>>;

    fn poll(self: Pin<&mut Self>, _cx: &mut Context<'_>) -> Poll<Self::Output> {
        let this = self.get_mut();
        this.seen.push(T::current(&this.slot.borrow()));
        if this.pauses == 0 {
            Poll::Ready(std::mem::take(&mut this.seen))
        } else {
            this.pauses -= 1;
            Poll::Pending
        }
    }
}

/// One step of a wrapped computation, as a host takes it.
fn step<'a, F: Future + Unpin, T: Clone>(
    inner: &mut F,
    value: &'a Option<T>,
    slot: &RefCell<Slot<'a, T>>,
) -> Poll<F::Output> {
    let mut cx = Context::from_waker(Waker::noop());
    let guard = begin_poll(value, &mut slot.borrow_mut());
    let out = Pin::new(inner).poll(&mut cx);
    end_poll(guard, &mut slot.borrow_mut());
    out
}

#[test]
fn get_across_spawn() {
    let x = Deadline::after_secs(1);

    let slot = RefCell::new(Slot::new());
    let spawned = Observer { slot: &slot, pauses: 0, seen: Vec::new() }.with(x.clone());

    let (mut inner, value) = spawned.into_parts();
    let out = step(&mut inner, &value, &slot);

    assert_eq!(out, Poll::Ready(vec![Some(x)]));
}

#[test]
fn snapshot_outlives_the_guard_it_was_taken_under() {
    let mut origin = Slot::new();
    let guard = TraceId::new("1234").attach(&mut origin);

    let target = RefCell::new(Slot::new());
    let spawned = Observer { slot: &target, pauses: 0, seen: Vec::new() }
        .with_current::<TraceId>(&origin);

    guard.drop(&mut origin);
    assert_eq!(TraceId::current(&origin), None);

    let (mut inner, value) = spawned.into_parts();
    let out = step(&mut inner, &value, &target);

    assert_eq!(out, Poll::Ready(vec![Some(TraceId::new("1234"))]));
}

#[test]
fn absent_value_changes_nothing() {
    let target = RefCell::new(Slot::new());

    let mut unwrapped = Observer { slot: &target, pauses: 1, seen: Vec::new() };
    let wrapped = Observer { slot: &target, pauses: 1, seen: Vec::new() }.with_opt(None);
    let (mut inner, value) = wrapped.into_parts();
    assert_eq!(value, None);

    let around = 5u32.attach(&mut target.borrow_mut());

    let mut cx = Context::from_waker(Waker::noop());
    assert_eq!(Pin::new(&mut unwrapped).poll(&mut cx), Poll::Pending);
    assert_eq!(step(&mut inner, &value, &target), Poll::Pending);
    assert!(matches!(&*target.borrow(), Slot::Live(Some(Holding::Owned(5)))));

    around.drop(&mut target.borrow_mut());

    let direct = Pin::new(&mut unwrapped).poll(&mut cx);
    let through = step(&mut inner, &value, &target);
    assert_eq!(direct, Poll::Ready(vec![Some(5), None]));
    assert_eq!(through, direct);
}

#[test]
fn absent_value_gives_no_guard() {
    let value: Option<u8> = None;
    let mut slot = Slot::new();
    let _around = 9u8.attach(&mut slot);

    let guard = begin_poll(&value, &mut slot);
    assert!(guard.is_none());
    assert_eq!(u8::current(&slot), Some(9));

    let _inside = 10u8.attach(&mut slot);
    end_poll(guard, &mut slot);
    assert_eq!(u8::current(&slot), Some(10));
}

#[test]
fn value_is_current_only_during_a_step() {
    let slot = RefCell::new(Slot::new());
    let wrapped = Observer { slot: &slot, pauses: 2, seen: Vec::new() }.with(TraceId::new("w"));
    let (mut inner, value) = wrapped.into_parts();

    assert_eq!(TraceId::current(&slot.borrow()), None);
    assert_eq!(step(&mut inner, &value, &slot), Poll::Pending);
    assert_eq!(TraceId::current(&slot.borrow()), None);

    // Between two steps the host runs something else under a context of its own.
    let other = TraceId::new("other").attach(&mut slot.borrow_mut());
    assert_eq!(step(&mut inner, &value, &slot), Poll::Pending);
    assert_eq!(TraceId::current(&slot.borrow()), Some(TraceId::new("other")));
    other.drop(&mut slot.borrow_mut());

    let out = step(&mut inner, &value, &slot);
    assert_eq!(
        out,
        Poll::Ready(vec![
            Some(TraceId::new("w")),
            Some(TraceId::new("w")),
            Some(TraceId::new("w")),
        ])
    );
    assert_eq!(TraceId::current(&slot.borrow()), None);
}

#[test]
fn step_restores_whatever_the_computation_left() {
    let value = Some(1u32);
    let mut slot = Slot::new();
    let _around = 7u32.attach(&mut slot);

    let guard = begin_poll(&value, &mut slot);
    assert!(matches!(slot, Slot::Live(Some(Holding::Borrowed(&1)))));

    // The computation opens a scope of its own and suspends inside it.
    let inside = 2u32.attach(&mut slot);
    std::mem::forget(inside);
    assert_eq!(u32::current(&slot), Some(2));

    end_poll(guard, &mut slot);
    assert_eq!(u32::current(&slot), Some(7));
}

#[test]
fn snapshot_reaches_the_slot_of_another_worker() {
    let v = TraceId::new("spawned-from-here");
    let mut origin = Slot::new();
    let _guard = v.clone().attach(&mut origin);

    let wrapped = ready(41u32).with_current::<TraceId>(&origin);

    // The worker that runs the computation has a slot of its own.
    let (mut inner, value) = wrapped.into_parts();
    let mut worker = Slot::new();
    let before = TraceId::current(&worker);

    let guard = begin_poll(&value, &mut worker);
    let during = TraceId::current(&worker);
    let mut cx = Context::from_waker(Waker::noop());
    let out = Pin::new(&mut inner).poll(&mut cx);
    end_poll(guard, &mut worker);

    let after = TraceId::current(&worker);

    assert_eq!(before, None);
    assert_eq!(during, Some(v.clone()));
    assert_eq!(out, Poll::Ready(41));
    assert_eq!(after, None);
    assert_eq!(TraceId::current(&origin), Some(v));
}

#[test]
fn two_contexts_on_one_computation() {
    let d = Deadline::after_secs(1);
    let t = TraceId::new("1234");

    let mut deadlines = Slot::new();
    let _d_guard = d.clone().attach(&mut deadlines);

    let wrapped = ready(()).with_current::<Deadline>(&deadlines).with(t.clone());

    let (inner_wrapper, trace) = wrapped.into_parts();
    let (_inner, deadline) = inner_wrapper.into_parts();

    let mut task_traces = Slot::new();
    let mut task_deadlines = Slot::new();
    let trace_guard = begin_poll(&trace, &mut task_traces);
    let deadline_guard = begin_poll(&deadline, &mut task_deadlines);

    let res = (Deadline::current(&task_deadlines), TraceId::current(&task_traces));
    assert_eq!(res, (Some(d), Some(t)));

    end_poll(deadline_guard, &mut task_deadlines);
    end_poll(trace_guard, &mut task_traces);
    assert_eq!(Deadline::current(&task_deadlines), None);
    assert_eq!(TraceId::current(&task_traces), None);
}

#[test]
fn step_on_torn_down_slot_does_nothing() {
    let value = Some(3u8);
    let mut slot = Slot::TornDown;

    let guard = begin_poll(&value, &mut slot);
    assert!(guard.is_some());
    assert_eq!(u8::current(&slot), None);

    end_poll(guard, &mut slot);
    assert!(matches!(slot, Slot::TornDown));
}

#[test]
fn wrapper_keeps_what_it_was_given() {
    let (inner, value) = ready(5u8).with(TraceId::new("kept")).into_parts();
    assert_eq!(value, Some(TraceId::new("kept")));
    let mut inner = inner;
    let mut cx = Context::from_waker(Waker::noop());
    assert_eq!(Pin::new(&mut inner).poll(&mut cx), Poll::Ready(5));

    let (_, value) = ready(5u8).with_opt(Some(2i32)).into_parts();
    assert_eq!(value, Some(2));

    let empty: Slot<TraceId> = Slot::new();
    let (_, value) = ready(()).with_current::<TraceId>(&empty).into_parts();
    assert_eq!(value, None);
}

#[test]
fn wrapper_can_be_cloned() {
    let wrapped = ready(1u8).with(7u64);
    let copy = wrapped.clone();
    assert_eq!(wrapped.into_parts().1, Some(7));
    assert_eq!(copy.into_parts().1, Some(7));
}
