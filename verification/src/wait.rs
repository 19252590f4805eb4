//! The waiting primitive: a builder over the host scheduler's one-shot
//! timer, whose expiry event is wrapped through the one-shot awaitable
//! adapter. Time is counted in microseconds of scheduler time, scaled or
//! real depending on the configured options.

use vstd::prelude::*;

use crate::awaitable::{AwaitState, Awaitable, Step};
use crate::object::{ClassTag, ObjectRef};
use crate::signal::{Signal, SignalFuture};

verus! {

/// The per-tick phase of the host scheduler a timer advances in.
#[derive(Clone, Copy, Debug, PartialEq, Eq, Structural)]
pub enum TickPhase {
    Process,
    Physics,
}

/// Builder for creating configurable wait timers.
///
/// Every option setter returns a new builder value; setting an option twice
/// keeps the last value written. `done()` consumes the builder.
pub struct ExWaitBuilder {
    /// The configured duration, in microseconds of scheduler time.
    pub time_usec: u64,
    /// Count real elapsed time rather than engine-scaled time.
    pub ignore_time_scale: bool,
    /// Keep counting while the host is paused.
    pub process_always: bool,
    /// Advance at the physics phase of each tick, instead of the process
    /// phase.
    pub process_in_physics: bool,
}

impl ExWaitBuilder {
    /// Set whether the timer should ignore the host's time scale and count
    /// real elapsed time.
    pub fn ignore_time_scale(self, ignore_time_scale: bool) -> (b: Self)
        ensures
            b == (ExWaitBuilder { ignore_time_scale, ..self }),
    {
        ExWaitBuilder { ignore_time_scale, ..self }
    }

    /// Set whether the timer keeps counting while the host is paused.
    pub fn process_always(self, process_always: bool) -> (b: Self)
        ensures
            b == (ExWaitBuilder { process_always, ..self }),
    {
        ExWaitBuilder { process_always, ..self }
    }

    /// Set whether the timer advances at the physics phase of each tick,
    /// instead of the process phase.
    pub fn process_in_physics(self, process_in_physics: bool) -> (b: Self)
        ensures
            b == (ExWaitBuilder { process_in_physics, ..self }),
    {
        ExWaitBuilder { process_in_physics, ..self }
    }

    /// Finalize the timer: creates one host timer configured with the
    /// current option set and wraps its expiry event through the one-shot
    /// awaitable adapter.
    pub fn done(self) -> (w: WaitFuture)
        ensures
            w.wf(),
            w.duration() == self.time_usec,
            w.remaining() == self.time_usec,
            w.elapsed() == 0,
            w.ignores_time_scale() == self.ignore_time_scale,
            w.processes_always() == self.process_always,
            w.in_physics() == self.process_in_physics,
            w.state() is Pending,
    {
        let timer = ObjectRef::new(0, ClassTag::SceneTreeTimer);
        let inner = Signal::from_object_signal(&timer, "timeout").to_future::<()>();
        proof {
            reveal_strlit("timeout");
        }
        WaitFuture {
            time_left_usec: self.time_usec,
            ignore_time_scale: self.ignore_time_scale,
            process_always: self.process_always,
            process_in_physics: self.process_in_physics,
            inner,
            duration_usec: Ghost(self.time_usec),
            elapsed_usec: Ghost(0nat),
        }
    }
}

/// An awaitable over a host timer's expiry event.
///
/// The host scheduler advances the timer once per tick through
/// [`WaitFuture::advance`]; when the configured duration of applicable
/// scheduler time has elapsed, the expiry event fires and the inner one-shot
/// awaitable settles.
pub struct WaitFuture {
    time_left_usec: u64,
    ignore_time_scale: bool,
    process_always: bool,
    process_in_physics: bool,
    inner: SignalFuture<()>,
    duration_usec: Ghost<u64>,
    elapsed_usec: Ghost<nat>,
}

impl WaitFuture {
    /// The one-shot awaitable over the timer's expiry event.
    pub closed spec fn inner_future(&self) -> SignalFuture<()> {
        self.inner
    }

    /// The configured duration, in microseconds of scheduler time.
    pub closed spec fn duration(&self) -> u64 {
        self.duration_usec@
    }

    /// How much applicable scheduler time has elapsed so far, in
    /// microseconds.
    pub closed spec fn elapsed(&self) -> nat {
        self.elapsed_usec@
    }

    /// How much applicable scheduler time is left until expiry, in
    /// microseconds.
    pub closed spec fn remaining(&self) -> u64 {
        self.time_left_usec
    }

    /// Whether the timer counts real elapsed time rather than engine-scaled
    /// time.
    pub closed spec fn ignores_time_scale(&self) -> bool {
        self.ignore_time_scale
    }

    /// Whether the timer keeps counting while the host is paused.
    pub closed spec fn processes_always(&self) -> bool {
        self.process_always
    }

    /// Whether the timer advances at the physics phase of each tick.
    pub closed spec fn in_physics(&self) -> bool {
        self.process_in_physics
    }

    /// The timer counts a tick taken in this host state.
    pub open spec fn counts_in(&self, paused: bool, phase: TickPhase) -> bool {
        &&& (phase == TickPhase::Physics) == self.in_physics()
        &&& (paused ==> self.processes_always())
    }

    /// The portion of a tick this timer counts: the real elapsed time where
    /// it ignores the time scale, the engine-scaled time otherwise.
    pub open spec fn effective_delta(&self, scaled_delta_usec: u64, real_delta_usec: u64) -> u64 {
        if self.ignores_time_scale() {
            real_delta_usec
        } else {
            scaled_delta_usec
        }
    }

    /// The timer's accounting is consistent: while the expiry event has not
    /// fired, the elapsed and remaining time add up to the configured
    /// duration; once it has fired, at least the configured duration has
    /// elapsed. The expiry event is the `timeout` event of a host timer
    /// object, held by a live subscription until it fires.
    pub open spec fn wf(&self) -> bool {
        &&& (self.inner_future().resolution() is Pending ==> self.elapsed() + self.remaining()
            == self.duration())
        &&& (!(self.inner_future().resolution() is Pending) ==> self.elapsed() >= self.duration()
            && self.remaining() == 0)
        &&& (self.inner_future().resolution() is Pending <==> self.inner_future().subscribed())
        &&& self.inner_future().event_name() == "timeout"@
        &&& self.inner_future().source().class == ClassTag::SceneTreeTimer
        &&& !(self.inner_future().resolution() is Failed)
        &&& (self.inner_future().resolution() matches AwaitState::Done(v) ==> v == ())
    }

    /// How much applicable scheduler time is left until expiry, for callers
    /// outside any proof.
    pub fn remaining_usec(&self) -> (r: u64)
        ensures
            r == self.remaining(),
    {
        self.time_left_usec
    }

    /// The host scheduler advances the timer by one tick.
    ///
    /// `scaled_delta_usec` and `real_delta_usec` are the tick's duration in
    /// engine-scaled and in real time; `paused` and `phase` describe the
    /// host's state for this tick. The timer counts the tick only in its
    /// configured phase and, unless configured to process always, only while
    /// the host is not paused. It expires — firing the expiry event exactly
    /// once — the moment the counted time reaches the configured duration,
    /// and never earlier.
    pub fn advance(&mut self, scaled_delta_usec: u64, real_delta_usec: u64, paused: bool, phase: TickPhase)
        requires
            old(self).wf(),
        ensures
            final(self).wf(),
            final(self).duration() == old(self).duration(),
            final(self).ignores_time_scale() == old(self).ignores_time_scale(),
            final(self).processes_always() == old(self).processes_always(),
            final(self).in_physics() == old(self).in_physics(),
            !old(self).counts_in(paused, phase) ==> *final(self) == *old(self),
            old(self).counts_in(paused, phase) ==> ({
                let d = old(self).effective_delta(scaled_delta_usec, real_delta_usec);
                &&& final(self).elapsed() == old(self).elapsed() + d
                &&& (final(self).state() is Done <==> (old(self).state() is Done || d >= old(
                    self,
                ).remaining()))
            }),
            final(self).state() is Done ==> final(self).elapsed() >= final(self).duration(),
            old(self).state() is Done ==> final(self).state() == old(self).state(),
    {
        let in_configured_phase = if self.process_in_physics {
            phase == TickPhase::Physics
        } else {
            phase == TickPhase::Process
        };
        let applicable = in_configured_phase && (self.process_always || !paused);
        if applicable {
            let d = if self.ignore_time_scale {
                real_delta_usec
            } else {
                scaled_delta_usec
            };
            self.elapsed_usec = Ghost(self.elapsed_usec@ + d as nat);
            if d >= self.time_left_usec {
                self.time_left_usec = 0;
                self.inner.fire(());
            } else {
                self.time_left_usec = self.time_left_usec - d;
            }
        }
    }
}

impl Awaitable<()> for WaitFuture {
    open spec fn state(&self) -> AwaitState<()> {
        self.inner_future().resolution()
    }

    fn poll(&mut self) -> (r: Step<()>)
        ensures
            *final(self) == *old(self),
    {
        self.inner.poll()
    }
}

/// A wait awaitable never settles before at least its configured duration
/// of applicable scheduler time has elapsed.
pub proof fn lemma_wait_never_resolves_early(w: &WaitFuture)
    requires
        w.wf(),
    ensures
        w.state() is Done ==> w.elapsed() >= w.duration(),
{
}

/// Create a configurable wait timer: a builder for a timer of `time_usec`
/// microseconds with the default options (engine-scaled time, counting
/// while paused, advancing at the process phase).
pub fn wait_ex(time_usec: u64) -> (b: ExWaitBuilder)
    ensures
        b == (ExWaitBuilder {
            time_usec,
            ignore_time_scale: false,
            process_always: true,
            process_in_physics: false,
        }),
{
    ExWaitBuilder {
        time_usec,
        ignore_time_scale: false,
        process_always: true,
        process_in_physics: false,
    }
}

/// Wait for `time_usec` microseconds of engine-scaled scheduler time: an
/// awaitable that settles once a host timer with the default options has
/// expired.
pub fn wait(time_usec: u64) -> (w: WaitFuture)
    ensures
        w.wf(),
        w.duration() == time_usec,
        w.remaining() == time_usec,
        w.elapsed() == 0,
        !w.ignores_time_scale(),
        w.processes_always(),
        !w.in_physics(),
        w.state() is Pending,
{
    wait_ex(time_usec).done()
}

} // verus!
