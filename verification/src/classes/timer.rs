//! Events of the `Timer` class.

use vstd::prelude::*;

use crate::object::{inherits, lemma_exposes_from_inherits, ClassTag, EventSource, ObjectRef};
use crate::signal::{fresh_fallible_future, fresh_signal_future, FallibleSignalFuture, Signal,
    SignalFuture};

verus! {

/// Awaiting the events a `Timer` emits.
pub trait TimerExt: EventSource {
    /// Emitted when the timer reaches the end of its wait time.
    fn timeout(&self) -> (f: SignalFuture<()>)
        requires
            self.source_ref().alive,
            inherits(self.source_ref().class, ClassTag::Timer),
        ensures
            fresh_signal_future(&f, self.source_ref(), "timeout"@),
    ;

    /// `timeout`, fallible.
    fn timeout_fallible(&self) -> (f: FallibleSignalFuture<()>)
        requires
            self.source_ref().alive,
            inherits(self.source_ref().class, ClassTag::Timer),
        ensures
            fresh_fallible_future(&f, self.source_ref(), "timeout"@),
    ;
}

impl TimerExt for ObjectRef {
    fn timeout(&self) -> (f: SignalFuture<()>) {
        proof {
            lemma_exposes_from_inherits(self.class, ClassTag::Timer, "timeout"@);
        }
        Signal::from_object_signal(self, "timeout").to_future()
    }

    fn timeout_fallible(&self) -> (f: FallibleSignalFuture<()>) {
        proof {
            lemma_exposes_from_inherits(self.class, ClassTag::Timer, "timeout"@);
        }
        Signal::from_object_signal(self, "timeout").to_fallible_future()
    }
}

} // verus!
