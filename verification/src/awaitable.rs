//! The generic awaitable capability: values that an external cooperative
//! scheduler polls once per step until they yield a final value.

use vstd::prelude::*;

verus! {

/// What one poll step reports back to the scheduler.
///
/// `Fault` models an abrupt internal failure escaping the poll (in a host
/// binding this would be a panic unwinding out of the poll call). Awaitables
/// verified by this library never produce it on their own; it exists so that
/// combinators state how such a failure propagates, and so that
/// `catch_fault` can isolate it.
#[derive(Debug, PartialEq, Eq)]
pub enum Step<T> {
    Pending,
    Ready(T),
    Fault,
}

/// The abstract state of an awaitable, as the contracts see it.
///
/// `Done(v)` means the awaitable has settled on the value `v`; `Failed`
/// means an abrupt fault was raised while it was being polled.
pub enum AwaitState<T> {
    Pending,
    Done(T),
    Failed,
}

/// The generic awaitable capability: poll once per step, idempotent when
/// done.
///
/// A pending awaitable may stay pending, settle on a value, or raise an
/// abrupt fault; once settled, every further poll returns the same cached
/// value, and once faulted, every further poll faults again.
pub trait Awaitable<T>: Sized {
    spec fn state(&self) -> AwaitState<T>;

    fn poll(&mut self) -> (r: Step<T>)
        ensures
            (match old(self).state() {
                AwaitState::Pending => match r {
                    Step::Pending => final(self).state() is Pending,
                    Step::Ready(v) => final(self).state() == AwaitState::Done(v),
                    Step::Fault => final(self).state() is Failed,
                },
                AwaitState::Done(v) => r == Step::Ready(v) && final(self).state()
                    == AwaitState::Done(v),
                AwaitState::Failed => r == Step::<T>::Fault && final(self).state() is Failed,
            }),
    ;
}

/// An awaitable that is already settled on a value.
pub struct Ready<T> {
    value: T,
}

/// Creates an awaitable already settled on `value`.
pub fn ready<T: Copy>(value: T) -> (r: Ready<T>)
    ensures
        r.state() == AwaitState::Done(value),
{
    Ready { value }
}

impl<T> Ready<T> {
    /// The value this awaitable is settled on.
    pub closed spec fn settled_value(&self) -> T {
        self.value
    }
}

impl<T: Copy> Awaitable<T> for Ready<T> {
    open spec fn state(&self) -> AwaitState<T> {
        AwaitState::Done(self.settled_value())
    }

    fn poll(&mut self) -> (r: Step<T>) {
        Step::Ready(self.value)
    }
}

/// An awaitable that never settles.
pub struct Pending<T> {
    _marker: core::marker::PhantomData<T>,
}

/// Creates an awaitable that never settles.
pub fn pending<T>() -> (r: Pending<T>)
    ensures
        r.state() is Pending,
{
    Pending { _marker: core::marker::PhantomData }
}

impl<T> Awaitable<T> for Pending<T> {
    open spec fn state(&self) -> AwaitState<T> {
        AwaitState::Pending
    }

    fn poll(&mut self) -> (r: Step<T>)
        ensures
            r is Pending,
    {
        Step::Pending
    }
}

/// An awaitable that raises an abrupt fault at every poll, standing in for
/// one whose poll panics inside the host binding.
pub struct Faulting<T> {
    _marker: core::marker::PhantomData<T>,
}

/// Creates an awaitable that raises an abrupt fault at every poll.
pub fn faulting<T>() -> (r: Faulting<T>)
    ensures
        r.state() is Failed,
{
    Faulting { _marker: core::marker::PhantomData }
}

impl<T> Awaitable<T> for Faulting<T> {
    open spec fn state(&self) -> AwaitState<T> {
        AwaitState::Failed
    }

    fn poll(&mut self) -> (r: Step<T>)
        ensures
            r is Fault,
    {
        Step::Fault
    }
}

/// An awaitable that settles on `value` at the `steps`-th poll.
pub struct ReadyAfter<T> {
    remaining: u64,
    value: T,
}

/// Creates an awaitable that stays pending through `steps - 1` polls and
/// settles on `value` at poll number `steps` (immediately, for `steps == 0`).
pub fn ready_after<T: Copy>(steps: u64, value: T) -> (r: ReadyAfter<T>)
    ensures
        r.remaining_steps() == steps,
        steps > 0 ==> r.state() is Pending,
        steps == 0 ==> r.state() == AwaitState::Done(value),
{
    ReadyAfter { remaining: steps, value }
}

impl<T> ReadyAfter<T> {
    /// How many polls are left until this awaitable settles.
    pub closed spec fn remaining_steps(&self) -> u64 {
        self.remaining
    }

    /// The value this awaitable settles on.
    pub closed spec fn settled_value(&self) -> T {
        self.value
    }
}

impl<T: Copy> Awaitable<T> for ReadyAfter<T> {
    open spec fn state(&self) -> AwaitState<T> {
        if self.remaining_steps() == 0 {
            AwaitState::Done(self.settled_value())
        } else {
            AwaitState::Pending
        }
    }

    fn poll(&mut self) -> (r: Step<T>)
        ensures
            final(self).remaining_steps() == (if old(self).remaining_steps() > 0 {
                (old(self).remaining_steps() - 1) as u64
            } else {
                0u64
            }),
            r == (if old(self).remaining_steps() <= 1 {
                Step::Ready(old(self).settled_value())
            } else {
                Step::<T>::Pending
            }),
    {
        if self.remaining == 0 {
            Step::Ready(self.value)
        } else if self.remaining == 1 {
            self.remaining = 0;
            Step::Ready(self.value)
        } else {
            self.remaining = self.remaining - 1;
            Step::Pending
        }
    }
}

} // verus!
