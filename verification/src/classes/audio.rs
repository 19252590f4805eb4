//! Events of the `AudioStreamPlayer` classes, in all three spatial variants.

use vstd::prelude::*;

use crate::object::{inherits, lemma_exposes_from_inherits, ClassTag, EventSource, ObjectRef};
use crate::signal::{fresh_fallible_future, fresh_signal_future, FallibleSignalFuture, Signal,
    SignalFuture};

verus! {

/// Awaiting the events an audio stream player emits.
pub trait AudioStreamPlayerExt: EventSource {
    /// Emitted when the audio stops playing.
    fn finished(&self) -> (f: SignalFuture<()>)
        requires
            self.source_ref().alive,
            inherits(self.source_ref().class, ClassTag::AudioStreamPlayer) || inherits(self.source_ref().class, ClassTag::AudioStreamPlayer2D) || inherits(self.source_ref().class, ClassTag::AudioStreamPlayer3D),
        ensures
            fresh_signal_future(&f, self.source_ref(), "finished"@),
    ;
}

impl AudioStreamPlayerExt for ObjectRef {
    fn finished(&self) -> (f: SignalFuture<()>) {
        proof {
            if inherits(self.class, ClassTag::AudioStreamPlayer) {
                lemma_exposes_from_inherits(self.class, ClassTag::AudioStreamPlayer, "finished"@);
            } else if inherits(self.class, ClassTag::AudioStreamPlayer2D) {
                lemma_exposes_from_inherits(self.class, ClassTag::AudioStreamPlayer2D, "finished"@);
            } else {
                lemma_exposes_from_inherits(self.class, ClassTag::AudioStreamPlayer3D, "finished"@);
            }
        }
        Signal::from_object_signal(self, "finished").to_future()
    }
}

} // verus!
