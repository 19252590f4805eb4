//! The signal-to-awaitable bridge: an event handle naming one event on one
//! engine object, and the one-shot awaitables that settle when the host
//! delivers that event (or, for the fallible variant, when the host reports
//! the source object destroyed first).

use vstd::prelude::*;

use crate::awaitable::{AwaitState, Awaitable, Step};
use crate::object::{exposes, ObjectRef};

verus! {

/// The awaited source object was destroyed before its event fired.
#[derive(Clone, Copy, Debug, PartialEq, Eq)]
pub struct LivenessError;

/// An event handle: one named event on one engine object.
///
/// The handle does not keep the object alive and does not itself check that
/// the class of the object exposes the named event; the per-class surface
/// establishes that by capability typing.
pub struct Signal {
    source: ObjectRef,
    name: String,
}

impl Signal {
    /// The object the named event is awaited on.
    pub closed spec fn source(&self) -> ObjectRef {
        self.source
    }

    /// The name of the awaited event.
    pub closed spec fn name(&self) -> Seq<char> {
        self.name@
    }

    /// The named event is one the source's class actually exposes.
    pub open spec fn wf(&self) -> bool {
        exposes(self.source().class, self.name())
    }

    /// Creates the handle for the event `signal_name` on `object`.
    pub fn from_object_signal(object: &ObjectRef, signal_name: &str) -> (s: Signal)
        ensures
            s.source() == *object,
            s.name() == signal_name@,
    {
        Signal { source: *object, name: signal_name.to_owned() }
    }

    /// Subscribes to the named event and returns the one-shot awaitable over
    /// its payload.
    ///
    /// The subscription is registered now, not at the first poll, so an
    /// event firing in between is not missed. If the source object is
    /// destroyed before the event fires, the returned awaitable never
    /// settles and its subscription is leaked; use
    /// [`Signal::to_fallible_future`] on sources whose lifetime is not under
    /// the caller's control.
    pub fn to_future<T>(self) -> (f: SignalFuture<T>)
        requires
            self.source().alive,
        ensures
            f.handle() == self,
            f.source() == self.source(),
            f.event_name() == self.name(),
            f.resolution() is Pending,
            f.subscribed(),
    {
        SignalFuture { signal: self, subscription: true, slot: Resolution::Waiting }
    }

    /// Subscribes to the named event and additionally observes the source's
    /// destruction; the returned awaitable settles on the payload, or on a
    /// [`LivenessError`] if the source is destroyed before the event fires.
    pub fn to_fallible_future<T>(self) -> (f: FallibleSignalFuture<T>)
        requires
            self.source().alive,
        ensures
            f.handle() == self,
            f.source() == self.source(),
            f.event_name() == self.name(),
            f.resolution() is Pending,
            f.subscribed(),
            f.observing(),
    {
        FallibleSignalFuture {
            signal: self,
            subscription: true,
            observer: true,
            slot: FallibleResolution::Waiting,
        }
    }
}

/// What a one-shot awaitable has settled on so far.
enum Resolution<T> {
    Waiting,
    Settled(T),
}

/// A one-shot awaitable over one named event of one engine object.
///
/// Created pending, with a live subscription; the first delivery of the
/// event settles it on the payload and tears the subscription down, and
/// every further poll returns the cached payload. If the source object is
/// destroyed before the event fires, the awaitable stays pending forever (a
/// known hazard of the non-fallible adapter; see
/// [`FallibleSignalFuture`]).
pub struct SignalFuture<T> {
    signal: Signal,
    subscription: bool,
    slot: Resolution<T>,
}

/// How delivering an event payload moves a one-shot awaitable's state: it
/// settles a pending awaitable and leaves a settled one exactly as it was.
pub open spec fn one_shot_fire<T>(s: AwaitState<T>, payload: T) -> AwaitState<T> {
    match s {
        AwaitState::Pending => AwaitState::Done(payload),
        _ => s,
    }
}

impl<T> SignalFuture<T> {
    /// The event handle this awaitable was subscribed through.
    pub closed spec fn handle(&self) -> Signal {
        self.signal
    }

    /// The object whose event is awaited.
    pub open spec fn source(&self) -> ObjectRef {
        self.handle().source()
    }

    /// The name of the awaited event.
    pub open spec fn event_name(&self) -> Seq<char> {
        self.handle().name()
    }

    /// Whether the subscription against the host's event registry is still
    /// registered.
    pub closed spec fn subscribed(&self) -> bool {
        self.subscription
    }

    /// The awaitable's abstract state, named so that non-trait code can
    /// speak of it uniformly.
    pub closed spec fn resolution(&self) -> AwaitState<T> {
        match self.slot {
            Resolution::Waiting => AwaitState::Pending,
            Resolution::Settled(v) => AwaitState::Done(v),
        }
    }

    /// Whether the subscription is still registered, for callers outside
    /// any proof.
    pub fn is_subscribed(&self) -> (r: bool)
        ensures
            r == self.subscribed(),
    {
        self.subscription
    }

    /// The host delivers one firing of the awaited event with `payload`.
    ///
    /// The first delivery settles the awaitable on exactly that payload and
    /// removes the subscription; a settled awaitable ignores further
    /// deliveries, so the event firing again never changes the cached value.
    pub fn fire(&mut self, payload: T)
        ensures
            final(self).resolution() == one_shot_fire(old(self).resolution(), payload),
            final(self).source() == old(self).source(),
            final(self).event_name() == old(self).event_name(),
            old(self).resolution() is Pending ==> !final(self).subscribed(),
            !(old(self).resolution() is Pending) ==> final(self).subscribed() == old(self).subscribed() && final(self).resolution() == old(self).resolution(),
    {
        match self.slot {
            Resolution::Waiting => {
                self.slot = Resolution::Settled(payload);
                self.subscription = false;
            },
            _ => {},
        }
    }
}

impl<T: Copy> Awaitable<T> for SignalFuture<T> {
    open spec fn state(&self) -> AwaitState<T> {
        self.resolution()
    }

    fn poll(&mut self) -> (r: Step<T>)
        ensures
            *final(self) == *old(self),
            r == (match old(self).resolution() {
                AwaitState::Pending => Step::<T>::Pending,
                AwaitState::Done(v) => Step::<T>::Ready(v),
                AwaitState::Failed => Step::<T>::Fault,
            }),
    {
        match &self.slot {
            Resolution::Waiting => Step::Pending,
            Resolution::Settled(v) => Step::Ready(*v),
        }
    }
}

/// What a fallible one-shot awaitable has settled on so far.
enum FallibleResolution<T> {
    Waiting,
    Settled(T),
    SourceLost,
}

/// The fallible variant of [`SignalFuture`]: besides the event
/// subscription it registers an observer on the source object's
/// destruction, and settles on a [`LivenessError`] if destruction is
/// observed before the event fires.
pub struct FallibleSignalFuture<T> {
    signal: Signal,
    subscription: bool,
    observer: bool,
    slot: FallibleResolution<T>,
}

/// How delivering an event payload moves a fallible one-shot awaitable's
/// state: it settles a pending awaitable on `Ok(payload)` and leaves a
/// settled one exactly as it was.
pub open spec fn fallible_fire<T>(
    s: AwaitState<Result<T, LivenessError>>,
    payload: T,
) -> AwaitState<Result<T, LivenessError>> {
    match s {
        AwaitState::Pending => AwaitState::Done(Ok(payload)),
        _ => s,
    }
}

/// How observing the source's destruction moves a fallible one-shot
/// awaitable's state: it settles a pending awaitable on the liveness error
/// and leaves a settled one exactly as it was.
pub open spec fn fallible_source_lost<T>(s: AwaitState<Result<T, LivenessError>>) -> AwaitState<
    Result<T, LivenessError>,
> {
    match s {
        AwaitState::Pending => AwaitState::Done(Err(LivenessError)),
        _ => s,
    }
}

impl<T> FallibleSignalFuture<T> {
    /// The event handle this awaitable was subscribed through.
    pub closed spec fn handle(&self) -> Signal {
        self.signal
    }

    /// The object whose event is awaited.
    pub open spec fn source(&self) -> ObjectRef {
        self.handle().source()
    }

    /// The name of the awaited event.
    pub open spec fn event_name(&self) -> Seq<char> {
        self.handle().name()
    }

    /// Whether the subscription against the host's event registry is still
    /// registered.
    pub closed spec fn subscribed(&self) -> bool {
        self.subscription
    }

    /// Whether the destruction observer on the source is still registered.
    pub closed spec fn observing(&self) -> bool {
        self.observer
    }

    /// The awaitable's abstract state, named so that non-trait code can
    /// speak of it uniformly.
    pub closed spec fn resolution(&self) -> AwaitState<Result<T, LivenessError>> {
        match self.slot {
            FallibleResolution::Waiting => AwaitState::Pending,
            FallibleResolution::Settled(v) => AwaitState::Done(Ok(v)),
            FallibleResolution::SourceLost => AwaitState::Done(Err(LivenessError)),
        }
    }

    /// Whether the subscription is still registered, for callers outside
    /// any proof.
    pub fn is_subscribed(&self) -> (r: bool)
        ensures
            r == self.subscribed(),
    {
        self.subscription
    }

    /// Whether the destruction observer is still registered, for callers
    /// outside any proof.
    pub fn is_observing(&self) -> (r: bool)
        ensures
            r == self.observing(),
    {
        self.observer
    }

    /// The host delivers one firing of the awaited event with `payload`.
    ///
    /// The first delivery settles the awaitable on `Ok(payload)` and removes
    /// both the subscription and the destruction observer; a settled
    /// awaitable ignores further deliveries.
    pub fn fire(&mut self, payload: T)
        ensures
            final(self).resolution() == fallible_fire(old(self).resolution(), payload),
            final(self).source() == old(self).source(),
            final(self).event_name() == old(self).event_name(),
            old(self).resolution() is Pending ==> !final(self).subscribed() && !final(self).observing(),
            !(old(self).resolution() is Pending) ==> final(self).subscribed() == old(self).subscribed() && final(self).observing() == old(self).observing() && final(self).resolution() == old(self).resolution(),
    {
        match self.slot {
            FallibleResolution::Waiting => {
                self.slot = FallibleResolution::Settled(payload);
                self.subscription = false;
                self.observer = false;
            },
            _ => {},
        }
    }

    /// The host reports that the source object was destroyed.
    ///
    /// If the event has not fired yet, the awaitable settles on the
    /// liveness error, and both the subscription and the destruction
    /// observer are removed; it can never settle on a payload afterwards.
    pub fn source_destroyed(&mut self)
        ensures
            final(self).resolution() == fallible_source_lost(old(self).resolution()),
            final(self).source() == old(self).source(),
            final(self).event_name() == old(self).event_name(),
            old(self).resolution() is Pending ==> !final(self).subscribed() && !final(self).observing(),
            !(old(self).resolution() is Pending) ==> final(self).subscribed() == old(self).subscribed() && final(self).observing() == old(self).observing() && final(self).resolution() == old(self).resolution(),
    {
        match self.slot {
            FallibleResolution::Waiting => {
                self.slot = FallibleResolution::SourceLost;
                self.subscription = false;
                self.observer = false;
            },
            _ => {},
        }
    }
}

impl<T: Copy> Awaitable<Result<T, LivenessError>> for FallibleSignalFuture<T> {
    open spec fn state(&self) -> AwaitState<Result<T, LivenessError>> {
        self.resolution()
    }

    fn poll(&mut self) -> (r: Step<Result<T, LivenessError>>)
        ensures
            *final(self) == *old(self),
            r == (match old(self).resolution() {
                AwaitState::Pending => Step::<Result<T, LivenessError>>::Pending,
                AwaitState::Done(v) => Step::<Result<T, LivenessError>>::Ready(v),
                AwaitState::Failed => Step::<Result<T, LivenessError>>::Fault,
            }),
    {
        match &self.slot {
            FallibleResolution::Waiting => Step::Pending,
            FallibleResolution::Settled(v) => Step::Ready(Ok(*v)),
            FallibleResolution::SourceLost => Step::Ready(Err(LivenessError)),
        }
    }
}

/// What the per-class surface guarantees of a one-shot awaitable it hands
/// out: freshly pending, subscribed to the named event on the given source,
/// and the source's class actually exposes that event.
pub open spec fn fresh_signal_future<T>(
    f: &SignalFuture<T>,
    source: ObjectRef,
    name: Seq<char>,
) -> bool {
    &&& f.resolution() is Pending
    &&& f.subscribed()
    &&& f.source() == source
    &&& f.event_name() == name
    &&& f.handle().wf()
}

/// What the per-class surface guarantees of a fallible one-shot awaitable
/// it hands out: as [`fresh_signal_future`], and the destruction observer
/// on the source is registered.
pub open spec fn fresh_fallible_future<T>(
    f: &FallibleSignalFuture<T>,
    source: ObjectRef,
    name: Seq<char>,
) -> bool {
    &&& f.resolution() is Pending
    &&& f.subscribed()
    &&& f.observing()
    &&& f.source() == source
    &&& f.event_name() == name
    &&& f.handle().wf()
}

/// The state a one-shot awaitable reaches when, starting from `s`, the host
/// delivers the event once per element of `fires`, in order.
pub open spec fn one_shot_run<T>(s: AwaitState<T>, fires: Seq<T>) -> AwaitState<T>
    decreases fires.len(),
{
    if fires.len() == 0 {
        s
    } else {
        one_shot_run(one_shot_fire(s, fires[0]), fires.subrange(1, fires.len() as int))
    }
}

/// A settled one-shot awaitable is terminal: however often the event fires
/// afterwards, the cached value never changes.
pub proof fn lemma_resolved_state_is_terminal<T>(v: T, fires: Seq<T>)
    ensures
        one_shot_run(AwaitState::Done(v), fires) == AwaitState::Done(v),
    decreases fires.len(),
{
    if fires.len() > 0 {
        lemma_resolved_state_is_terminal(v, fires.subrange(1, fires.len() as int));
    }
}

/// A pending one-shot awaitable settles on exactly the payload of the
/// first firing of its event; however often the event fires afterwards, the
/// value never changes.
pub proof fn lemma_first_fire_wins<T>(fires: Seq<T>)
    requires
        fires.len() > 0,
    ensures
        one_shot_run(AwaitState::<T>::Pending, fires) == AwaitState::Done(fires[0]),
{
    lemma_resolved_state_is_terminal(fires[0], fires.subrange(1, fires.len() as int));
}

/// An event the host can deliver to a fallible one-shot awaitable.
pub enum FallibleEvent<T> {
    Fire(T),
    SourceDestroyed,
}

/// How one host event moves a fallible one-shot awaitable's state.
pub open spec fn fallible_step<T>(
    s: AwaitState<Result<T, LivenessError>>,
    e: FallibleEvent<T>,
) -> AwaitState<Result<T, LivenessError>> {
    match e {
        FallibleEvent::Fire(p) => fallible_fire(s, p),
        FallibleEvent::SourceDestroyed => fallible_source_lost(s),
    }
}

/// The state a fallible one-shot awaitable reaches when, starting from `s`,
/// the host delivers `events` in order.
pub open spec fn fallible_run<T>(
    s: AwaitState<Result<T, LivenessError>>,
    events: Seq<FallibleEvent<T>>,
) -> AwaitState<Result<T, LivenessError>>
    decreases events.len(),
{
    if events.len() == 0 {
        s
    } else {
        fallible_run(fallible_step(s, events[0]), events.subrange(1, events.len() as int))
    }
}

/// If the source is destroyed while the awaitable is still pending, the
/// awaitable settles on the liveness error and never yields a payload,
/// whatever the host delivers afterwards.
pub proof fn lemma_destroyed_source_never_yields_payload<T>(events: Seq<FallibleEvent<T>>)
    ensures
        fallible_run(fallible_source_lost(AwaitState::<Result<T, LivenessError>>::Pending), events)
            == AwaitState::<Result<T, LivenessError>>::Done(Err(LivenessError)),
    decreases events.len(),
{
    if events.len() > 0 {
        assert(fallible_step(
            AwaitState::<Result<T, LivenessError>>::Done(Err(LivenessError)),
            events[0],
        ) == AwaitState::<Result<T, LivenessError>>::Done(Err(LivenessError)));
        lemma_destroyed_source_never_yields_payload::<T>(
            events.subrange(1, events.len() as int),
        );
    }
}

} // verus!
