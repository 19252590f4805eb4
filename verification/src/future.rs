//! The combinator algebra over awaitables: join two (`zip`), join two
//! fallible ones with short-circuit on the first error (`try_zip`), first of
//! two with left preference (`or`), and isolation of abrupt poll failures
//! (`catch_fault`).

use vstd::prelude::*;

use crate::awaitable::{AwaitState, Awaitable, Step};

verus! {

/// Joins two awaitables, waiting for both to settle.
///
/// Each branch's output is cached the moment it arrives and that branch is
/// dropped and never polled again; the pair `(a, b)` is yielded once both
/// caches are filled, always in declaration order, whatever the arrival
/// order was.
pub fn zip<T1, T2, F1, F2>(future1: F1, future2: F2) -> (z: Zip<F1, T1, F2, T2>)
    where F1: Awaitable<T1>, F2: Awaitable<T2>,
    ensures
        z.branch1() == Some(future1),
        z.branch2() == Some(future2),
        z.cached1() is None,
        z.cached2() is None,
{
    Zip { future1: Some(future1), output1: None, future2: Some(future2), output2: None }
}

/// Awaitable for the [`zip()`] function.
pub struct Zip<F1, T1, F2, T2> {
    future1: Option<F1>,
    output1: Option<T1>,
    future2: Option<F2>,
    output2: Option<T2>,
}

impl<F1, T1, F2, T2> Zip<F1, T1, F2, T2> {
    /// The first branch, while it has not settled.
    pub closed spec fn branch1(&self) -> Option<F1> {
        self.future1
    }

    /// The second branch, while it has not settled.
    pub closed spec fn branch2(&self) -> Option<F2> {
        self.future2
    }

    /// The first branch's cached output.
    pub closed spec fn cached1(&self) -> Option<T1> {
        self.output1
    }

    /// The second branch's cached output.
    pub closed spec fn cached2(&self) -> Option<T2> {
        self.output2
    }
}

impl<F1, T1, F2, T2> Zip<F1, T1, F2, T2> where F1: Awaitable<T1>, F2: Awaitable<T2> {
    /// The first branch raised an abrupt fault while being polled.
    pub open spec fn slot1_failed(&self) -> bool {
        self.cached1() is None && (self.branch1() matches Some(f) && f.state() is Failed)
    }

    /// The second branch raised an abrupt fault while being polled.
    pub open spec fn slot2_failed(&self) -> bool {
        self.cached2() is None && (self.branch2() matches Some(f) && f.state() is Failed)
    }
}

/// Yields the zipped contents of the two caches once both are filled.
fn take_zip_from_parts<T1: Copy, T2: Copy>(o1: &Option<T1>, o2: &Option<T2>) -> (r: Step<
    (T1, T2),
>)
    ensures
        (match (*o1, *o2) {
            (Some(a), Some(b)) => r == Step::Ready((a, b)),
            _ => r is Pending,
        }),
{
    match (o1, o2) {
        (Some(a), Some(b)) => Step::Ready((*a, *b)),
        _ => Step::Pending,
    }
}

impl<F1, T1, F2, T2> Awaitable<(T1, T2)> for Zip<F1, T1, F2, T2> where
    F1: Awaitable<T1>,
    F2: Awaitable<T2>,
    T1: Copy,
    T2: Copy,
 {
    open spec fn state(&self) -> AwaitState<(T1, T2)> {
        match (self.cached1(), self.cached2()) {
            (Some(a), Some(b)) => AwaitState::Done((a, b)),
            _ => if self.slot1_failed() || self.slot2_failed() {
                AwaitState::Failed
            } else {
                AwaitState::Pending
            },
        }
    }

    fn poll(&mut self) -> (r: Step<(T1, T2)>)
        ensures
            old(self).cached1() is Some ==> final(self).cached1() == old(self).cached1()
                && final(self).branch1() == old(self).branch1(),
            old(self).cached2() is Some ==> final(self).cached2() == old(self).cached2()
                && final(self).branch2() == old(self).branch2(),
            !(r is Fault) && old(self).cached1() is None ==> (match old(self).branch1() {
                Some(f) => (match f.state() {
                    AwaitState::Done(x) => final(self).cached1() == Some(x),
                    _ => true,
                }),
                None => true,
            }),
            !(r is Fault) && old(self).cached2() is None ==> (match old(self).branch2() {
                Some(f) => (match f.state() {
                    AwaitState::Done(y) => final(self).cached2() == Some(y),
                    _ => true,
                }),
                None => true,
            }),
            (match r {
                Step::Ready(v) => final(self).cached1() == Some(v.0) && final(self).cached2()
                    == Some(v.1),
                Step::Pending => !(final(self).cached1() is Some && final(self).cached2()
                    is Some),
                Step::Fault => final(self).state() is Failed,
            }),
    {
        if self.output1.is_none() {
            let polled = match &mut self.future1 {
                Some(f) => Some(f.poll()),
                None => None,
            };
            match polled {
                Some(Step::Ready(v)) => {
                    self.output1 = Some(v);
                    self.future1 = None;
                },
                Some(Step::Fault) => {
                    return Step::Fault;
                },
                _ => {},
            }
        }
        if self.output2.is_none() {
            let polled = match &mut self.future2 {
                Some(f) => Some(f.poll()),
                None => None,
            };
            match polled {
                Some(Step::Ready(v)) => {
                    self.output2 = Some(v);
                    self.future2 = None;
                },
                Some(Step::Fault) => {
                    return Step::Fault;
                },
                _ => {},
            }
        }
        take_zip_from_parts(&self.output1, &self.output2)
    }
}

/// A `zip` combinator settles only once both branches have settled, and the
/// pair it settles on is `(first branch's value, second branch's value)`,
/// whatever the order in which the branches arrived.
pub proof fn lemma_zip_pairs_in_declaration_order<F1, T1, F2, T2>(z: &Zip<F1, T1, F2, T2>)
    where F1: Awaitable<T1>, F2: Awaitable<T2>, T1: Copy, T2: Copy,
    ensures
        (match z.state() {
            AwaitState::Done(v) => z.cached1() == Some(v.0) && z.cached2() == Some(v.1),
            _ => !(z.cached1() is Some && z.cached2() is Some),
        }),
{
}

/// Joins two fallible awaitables, waiting for both to settle or for one of
/// them to yield an error.
///
/// The instant either branch yields `Err(e)`, the combinator settles on
/// `Err(e)` and abandons the other branch's in-flight state.
pub fn try_zip<T1, T2, E, F1, F2>(future1: F1, future2: F2) -> (z: TryZip<F1, T1, F2, T2, E>)
    where F1: Awaitable<Result<T1, E>>, F2: Awaitable<Result<T2, E>>,
    ensures
        z.branch1() == Some(future1),
        z.branch2() == Some(future2),
        z.cached1() is None,
        z.cached2() is None,
        z.error_slot() is None,
        !z.faulted(),
{
    TryZip {
        future1: Some(future1),
        output1: None,
        future2: Some(future2),
        output2: None,
        error: None,
        faulted: false,
    }
}

/// Awaitable for the [`try_zip()`] function.
pub struct TryZip<F1, T1, F2, T2, E> {
    future1: Option<F1>,
    output1: Option<T1>,
    future2: Option<F2>,
    output2: Option<T2>,
    error: Option<E>,
    faulted: bool,
}

impl<F1, T1, F2, T2, E> TryZip<F1, T1, F2, T2, E> {
    /// The first branch, while it has not settled.
    pub closed spec fn branch1(&self) -> Option<F1> {
        self.future1
    }

    /// The second branch, while it has not settled.
    pub closed spec fn branch2(&self) -> Option<F2> {
        self.future2
    }

    /// The first branch's cached successful output.
    pub closed spec fn cached1(&self) -> Option<T1> {
        self.output1
    }

    /// The second branch's cached successful output.
    pub closed spec fn cached2(&self) -> Option<T2> {
        self.output2
    }

    /// The error the combinator short-circuited on, if any.
    pub closed spec fn error_slot(&self) -> Option<E> {
        self.error
    }

    /// A branch raised an abrupt fault while being polled by this combinator.
    pub closed spec fn faulted(&self) -> bool {
        self.faulted
    }
}

impl<F1, T1, F2, T2, E> TryZip<F1, T1, F2, T2, E> where
    F1: Awaitable<Result<T1, E>>,
    F2: Awaitable<Result<T2, E>>,
 {
    /// The first branch raised an abrupt fault while being polled.
    pub open spec fn slot1_failed(&self) -> bool {
        self.cached1() is None && (self.branch1() matches Some(f) && f.state() is Failed)
    }

    /// The second branch raised an abrupt fault while being polled.
    pub open spec fn slot2_failed(&self) -> bool {
        self.cached2() is None && (self.branch2() matches Some(f) && f.state() is Failed)
    }
}

impl<F1, T1, F2, T2, E> Awaitable<Result<(T1, T2), E>> for TryZip<F1, T1, F2, T2, E> where
    F1: Awaitable<Result<T1, E>>,
    F2: Awaitable<Result<T2, E>>,
    T1: Copy,
    T2: Copy,
    E: Copy,
 {
    open spec fn state(&self) -> AwaitState<Result<(T1, T2), E>> {
        if self.faulted() {
            AwaitState::Failed
        } else {
            match self.error_slot() {
                Some(e) => AwaitState::Done(Err(e)),
                None => match (self.cached1(), self.cached2()) {
                    (Some(a), Some(b)) => AwaitState::Done(Ok((a, b))),
                    _ => if self.slot1_failed() || (self.cached1() is Some
                        && self.slot2_failed()) {
                        AwaitState::Failed
                    } else {
                        AwaitState::Pending
                    },
                },
            }
        }
    }

    fn poll(&mut self) -> (r: Step<Result<(T1, T2), E>>)
        ensures
            old(self).cached1() is Some ==> final(self).cached1() == old(self).cached1()
                && final(self).branch1() == old(self).branch1(),
            old(self).cached2() is Some ==> final(self).cached2() == old(self).cached2()
                && final(self).branch2() == old(self).branch2(),
            !old(self).faulted() && old(self).error_slot() is None && old(self).cached1()
                is None ==> (match old(self).branch1() {
                Some(f) => (match f.state() {
                    AwaitState::Done(Err(e)) => r == Step::Ready(Err::<(T1, T2), E>(e))
                        && final(self).branch2() == old(self).branch2()
                        && final(self).cached2() == old(self).cached2(),
                    _ => true,
                }),
                None => true,
            }),
            (match r {
                Step::Ready(Ok(v)) => final(self).cached1() == Some(v.0) && final(self).cached2()
                    == Some(v.1),
                Step::Ready(Err(e)) => final(self).error_slot() == Some(e),
                Step::Pending => final(self).state() is Pending,
                Step::Fault => final(self).state() is Failed,
            }),
    {
        if self.faulted {
            return Step::Fault;
        }
        if let Some(e) = &self.error {
            return Step::Ready(Err(*e));
        }
        if self.output1.is_none() {
            let polled = match &mut self.future1 {
                Some(f) => Some(f.poll()),
                None => None,
            };
            match polled {
                Some(Step::Ready(Ok(t))) => {
                    self.output1 = Some(t);
                    self.future1 = None;
                },
                Some(Step::Ready(Err(e))) => {
                    self.error = Some(e);
                    return Step::Ready(Err(e));
                },
                Some(Step::Fault) => {
                    self.faulted = true;
                    return Step::Fault;
                },
                _ => {},
            }
        }
        if self.output2.is_none() {
            let polled = match &mut self.future2 {
                Some(f) => Some(f.poll()),
                None => None,
            };
            match polled {
                Some(Step::Ready(Ok(t))) => {
                    self.output2 = Some(t);
                    self.future2 = None;
                },
                Some(Step::Ready(Err(e))) => {
                    self.error = Some(e);
                    return Step::Ready(Err(e));
                },
                Some(Step::Fault) => {
                    self.faulted = true;
                    return Step::Fault;
                },
                _ => {},
            }
        }
        match take_zip_from_parts(&self.output1, &self.output2) {
            Step::Ready(v) => Step::Ready(Ok(v)),
            _ => Step::Pending,
        }
    }
}

/// Settles on the result of whichever awaitable settles first, preferring
/// `future1` when both are ready in the same step.
///
/// Each step polls `future1` first; if it is ready, its value is taken
/// without polling `future2` that step. The first value observed is cached
/// and yielded by every further poll.
pub fn or<T, F1, F2>(future1: F1, future2: F2) -> (o: Or<F1, F2, T>)
    where F1: Awaitable<T>, F2: Awaitable<T>,
    ensures
        o.branch1() == future1,
        o.branch2() == future2,
        o.settled() is None,
        !o.faulted(),
{
    Or { future1, future2, done: None, faulted: false }
}

/// Awaitable for the [`or()`] function and the [`FutureExt::or()`] method.
pub struct Or<F1, F2, T> {
    future1: F1,
    future2: F2,
    done: Option<T>,
    faulted: bool,
}

impl<F1, F2, T> Or<F1, F2, T> {
    /// The first, preferred branch.
    pub closed spec fn branch1(&self) -> F1 {
        self.future1
    }

    /// The second branch.
    pub closed spec fn branch2(&self) -> F2 {
        self.future2
    }

    /// The value the combinator settled on, if any.
    pub closed spec fn settled(&self) -> Option<T> {
        self.done
    }

    /// A branch raised an abrupt fault while being polled.
    pub closed spec fn faulted(&self) -> bool {
        self.faulted
    }
}

impl<F1, F2, T> Awaitable<T> for Or<F1, F2, T> where
    F1: Awaitable<T>,
    F2: Awaitable<T>,
    T: Copy,
 {
    open spec fn state(&self) -> AwaitState<T> {
        match self.settled() {
            Some(v) => AwaitState::Done(v),
            None => if self.faulted() {
                AwaitState::Failed
            } else {
                match self.branch1().state() {
                    AwaitState::Done(v) => AwaitState::Done(v),
                    AwaitState::Failed => AwaitState::Failed,
                    AwaitState::Pending => AwaitState::Pending,
                }
            },
        }
    }

    fn poll(&mut self) -> (r: Step<T>)
        ensures
            old(self).settled() is None && !old(self).faulted() ==> (match old(self).branch1().state() {
                AwaitState::Done(x) => r == Step::Ready(x)
                    && final(self).branch2() == old(self).branch2(),
                _ => true,
            }),
            old(self).settled() is None && !old(self).faulted() && final(self).branch1().state()
                is Pending ==> (match old(self).branch2().state() {
                AwaitState::Done(y) => r == Step::Ready(y),
                _ => true,
            }),
            (match r {
                Step::Ready(v) => final(self).settled() == Some(v),
                Step::Pending => final(self).settled() is None && !final(self).faulted()
                    && final(self).branch1().state() is Pending
                    && final(self).branch2().state() is Pending,
                Step::Fault => final(self).state() is Failed,
            }),
    {
        if let Some(v) = &self.done {
            return Step::Ready(*v);
        }
        if self.faulted {
            return Step::Fault;
        }
        match self.future1.poll() {
            Step::Ready(v) => {
                self.done = Some(v);
                return Step::Ready(v);
            },
            Step::Fault => {
                self.faulted = true;
                return Step::Fault;
            },
            Step::Pending => {},
        }
        match self.future2.poll() {
            Step::Ready(v) => {
                self.done = Some(v);
                Step::Ready(v)
            },
            Step::Fault => {
                self.faulted = true;
                Step::Fault
            },
            Step::Pending => Step::Pending,
        }
    }
}

/// An `or` combinator that has not settled yet, with its preferred first
/// branch already settled, is determined to settle on the first branch's
/// value, whatever the second branch holds: the left bias of `or`.
pub proof fn lemma_or_left_bias<F1, F2, T>(o: &Or<F1, F2, T>)
    where F1: Awaitable<T>, F2: Awaitable<T>, T: Copy,
    ensures
        o.settled() is None && !o.faulted() ==> (match o.branch1().state() {
            AwaitState::Done(x) => o.state() == AwaitState::Done(x),
            _ => true,
        }),
{
}

/// The recoverable value an abrupt poll failure is isolated into by
/// [`catch_fault()`].
#[derive(Clone, Copy, Debug, PartialEq, Eq)]
pub struct AbruptFailure;

/// Isolates an abrupt internal failure of `inner` into a value.
///
/// A poll step on which `inner` raises an abrupt fault yields
/// `Err(AbruptFailure)` instead of propagating the fault; a clean resolution
/// is wrapped as `Ok(value)`. Only the poll itself is guarded.
pub fn catch_fault<T, F>(inner: F) -> (c: CatchUnwind<F>)
    where F: Awaitable<T>,
    ensures
        c.inner_branch() == inner,
{
    CatchUnwind { inner }
}

/// Awaitable for the [`catch_fault()`] function and the
/// [`FutureExt::catch_fault()`] method.
pub struct CatchUnwind<F> {
    inner: F,
}

impl<F> CatchUnwind<F> {
    /// The wrapped awaitable.
    pub closed spec fn inner_branch(&self) -> F {
        self.inner
    }
}

impl<T, F> Awaitable<Result<T, AbruptFailure>> for CatchUnwind<F> where
    F: Awaitable<T>,
    T: Copy,
 {
    open spec fn state(&self) -> AwaitState<Result<T, AbruptFailure>> {
        match self.inner_branch().state() {
            AwaitState::Pending => AwaitState::Pending,
            AwaitState::Done(v) => AwaitState::Done(Ok(v)),
            AwaitState::Failed => AwaitState::Done(Err(AbruptFailure)),
        }
    }

    fn poll(&mut self) -> (r: Step<Result<T, AbruptFailure>>)
        ensures
            !(r is Fault),
            !(final(self).state() is Failed),
            old(self).inner_branch().state() is Failed ==> r == Step::Ready(
                Err::<T, AbruptFailure>(AbruptFailure),
            ),
            (match old(self).inner_branch().state() {
                AwaitState::Done(v) => r == Step::Ready(Ok::<T, AbruptFailure>(v)),
                _ => true,
            }),
    {
        match self.inner.poll() {
            Step::Ready(v) => Step::Ready(Ok(v)),
            Step::Pending => Step::Pending,
            Step::Fault => Step::Ready(Err(AbruptFailure)),
        }
    }
}

/// A `catch_fault` combinator never lets an abrupt fault escape: its own
/// state is never the failed one, whatever its wrapped awaitable does.
pub proof fn lemma_catch_fault_isolates<T, F>(c: &CatchUnwind<F>)
    where F: Awaitable<T>, T: Copy,
    ensures
        !(c.state() is Failed),
{
}

/// Method-style sugar over the combinators.
pub trait FutureExt<T>: Awaitable<T> {
    /// Settles on the result of `self` or `other`, preferring `self` when
    /// both are ready in the same step.
    fn or<F: Awaitable<T>>(self, other: F) -> (o: Or<Self, F, T>)
        ensures
            o.branch1() == self,
            o.branch2() == other,
            o.settled() is None,
            !o.faulted(),
    ;

    /// Isolates abrupt faults raised while `self` is polled.
    fn catch_fault(self) -> (c: CatchUnwind<Self>)
        ensures
            c.inner_branch() == self,
    ;
}

impl<T, F: Awaitable<T>> FutureExt<T> for F {
    fn or<F2: Awaitable<T>>(self, other: F2) -> (o: Or<Self, F2, T>) {
        or(self, other)
    }

    fn catch_fault(self) -> (c: CatchUnwind<Self>) {
        catch_fault(self)
    }
}

} // verus!
