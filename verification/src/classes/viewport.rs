//! Events of the `Viewport` class.

use vstd::prelude::*;

use crate::object::{inherits, lemma_exposes_from_inherits, ClassTag, EventSource, ObjectRef};
use crate::signal::{fresh_fallible_future, fresh_signal_future, FallibleSignalFuture, Signal,
    SignalFuture};

verus! {

/// Awaiting the events a `Viewport` emits.
pub trait ViewportExt: EventSource {
    /// Emitted when the size of the viewport is changed.
    fn size_changed(&self) -> (f: SignalFuture<()>)
        requires
            self.source_ref().alive,
            inherits(self.source_ref().class, ClassTag::Viewport),
        ensures
            fresh_signal_future(&f, self.source_ref(), "size_changed"@),
    ;

    /// `size_changed`, fallible.
    fn size_changed_fallible(&self) -> (f: FallibleSignalFuture<()>)
        requires
            self.source_ref().alive,
            inherits(self.source_ref().class, ClassTag::Viewport),
        ensures
            fresh_fallible_future(&f, self.source_ref(), "size_changed"@),
    ;
}

impl ViewportExt for ObjectRef {
    fn size_changed(&self) -> (f: SignalFuture<()>) {
        proof {
            lemma_exposes_from_inherits(self.class, ClassTag::Viewport, "size_changed"@);
        }
        Signal::from_object_signal(self, "size_changed").to_future()
    }

    fn size_changed_fallible(&self) -> (f: FallibleSignalFuture<()>) {
        proof {
            lemma_exposes_from_inherits(self.class, ClassTag::Viewport, "size_changed"@);
        }
        Signal::from_object_signal(self, "size_changed").to_fallible_future()
    }
}

/// Awaits the next change of the viewport's size.
pub fn viewport_size_changed(viewport: &ObjectRef) -> (f: SignalFuture<()>)
    requires
        viewport.alive,
        inherits(viewport.class, ClassTag::Viewport),
    ensures
        fresh_signal_future(&f, *viewport, "size_changed"@),
{
    proof {
        lemma_exposes_from_inherits(viewport.class, ClassTag::Viewport, "size_changed"@);
    }
    Signal::from_object_signal(viewport, "size_changed").to_future()
}

} // verus!
