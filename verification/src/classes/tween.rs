//! Events of the `Tween` class.

use vstd::prelude::*;

use crate::object::{inherits, lemma_exposes_from_inherits, ClassTag, EventSource, ObjectRef};
use crate::signal::{fresh_fallible_future, fresh_signal_future, FallibleSignalFuture, Signal,
    SignalFuture};

verus! {

/// Awaiting the events a `Tween` emits.
pub trait TweenExt: EventSource {
    /// Emitted when the tween has finished all tweening; never emitted when
    /// the tween is set to infinite looping.
    fn finished(&self) -> (f: SignalFuture<()>)
        requires
            self.source_ref().alive,
            inherits(self.source_ref().class, ClassTag::Tween),
        ensures
            fresh_signal_future(&f, self.source_ref(), "finished"@),
    ;

    /// `finished`, fallible.
    fn finished_fallible(&self) -> (f: FallibleSignalFuture<()>)
        requires
            self.source_ref().alive,
            inherits(self.source_ref().class, ClassTag::Tween),
        ensures
            fresh_fallible_future(&f, self.source_ref(), "finished"@),
    ;

    /// Emitted when one step of the tween is complete, with the step's
    /// index as payload.
    fn step_finished(&self) -> (f: SignalFuture<(i64,)>)
        requires
            self.source_ref().alive,
            inherits(self.source_ref().class, ClassTag::Tween),
        ensures
            fresh_signal_future(&f, self.source_ref(), "step_finished"@),
    ;

    /// `step_finished`, fallible.
    fn step_finished_fallible(&self) -> (f: FallibleSignalFuture<(i64,)>)
        requires
            self.source_ref().alive,
            inherits(self.source_ref().class, ClassTag::Tween),
        ensures
            fresh_fallible_future(&f, self.source_ref(), "step_finished"@),
    ;

    /// Emitted when a full loop is complete, with the loop's count as
    /// payload; not emitted after the final loop.
    fn loop_finished(&self) -> (f: SignalFuture<(i64,)>)
        requires
            self.source_ref().alive,
            inherits(self.source_ref().class, ClassTag::Tween),
        ensures
            fresh_signal_future(&f, self.source_ref(), "loop_finished"@),
    ;

    /// `loop_finished`, fallible.
    fn loop_finished_fallible(&self) -> (f: FallibleSignalFuture<(i64,)>)
        requires
            self.source_ref().alive,
            inherits(self.source_ref().class, ClassTag::Tween),
        ensures
            fresh_fallible_future(&f, self.source_ref(), "loop_finished"@),
    ;
}

impl TweenExt for ObjectRef {
    fn finished(&self) -> (f: SignalFuture<()>) {
        proof {
            lemma_exposes_from_inherits(self.class, ClassTag::Tween, "finished"@);
        }
        Signal::from_object_signal(self, "finished").to_future()
    }

    fn finished_fallible(&self) -> (f: FallibleSignalFuture<()>) {
        proof {
            lemma_exposes_from_inherits(self.class, ClassTag::Tween, "finished"@);
        }
        Signal::from_object_signal(self, "finished").to_fallible_future()
    }

    fn step_finished(&self) -> (f: SignalFuture<(i64,)>) {
        proof {
            lemma_exposes_from_inherits(self.class, ClassTag::Tween, "step_finished"@);
        }
        Signal::from_object_signal(self, "step_finished").to_future()
    }

    fn step_finished_fallible(&self) -> (f: FallibleSignalFuture<(i64,)>) {
        proof {
            lemma_exposes_from_inherits(self.class, ClassTag::Tween, "step_finished"@);
        }
        Signal::from_object_signal(self, "step_finished").to_fallible_future()
    }

    fn loop_finished(&self) -> (f: SignalFuture<(i64,)>) {
        proof {
            lemma_exposes_from_inherits(self.class, ClassTag::Tween, "loop_finished"@);
        }
        Signal::from_object_signal(self, "loop_finished").to_future()
    }

    fn loop_finished_fallible(&self) -> (f: FallibleSignalFuture<(i64,)>) {
        proof {
            lemma_exposes_from_inherits(self.class, ClassTag::Tween, "loop_finished"@);
        }
        Signal::from_object_signal(self, "loop_finished").to_fallible_future()
    }
}

} // verus!
