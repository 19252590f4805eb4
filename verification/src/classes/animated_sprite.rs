//! Events of the `AnimatedSprite2D` and `AnimatedSprite3D` classes.

use vstd::prelude::*;

use crate::object::{inherits, lemma_exposes_from_inherits, ClassTag, EventSource, ObjectRef};
use crate::signal::{fresh_fallible_future, fresh_signal_future, FallibleSignalFuture, Signal,
    SignalFuture};

verus! {

/// Awaiting the events an animated sprite emits.
pub trait AnimatedSpriteExt: EventSource {
    /// Emitted when the current animation changes.
    fn animation_changed(&self) -> (f: SignalFuture<()>)
        requires
            self.source_ref().alive,
            inherits(self.source_ref().class, ClassTag::AnimatedSprite2D) || inherits(self.source_ref().class, ClassTag::AnimatedSprite3D),
        ensures
            fresh_signal_future(&f, self.source_ref(), "animation_changed"@),
    ;

    /// Emitted when the animation reaches the end, or the start if played
    /// in reverse; not emitted for a looping animation.
    fn animation_finished(&self) -> (f: SignalFuture<()>)
        requires
            self.source_ref().alive,
            inherits(self.source_ref().class, ClassTag::AnimatedSprite2D) || inherits(self.source_ref().class, ClassTag::AnimatedSprite3D),
        ensures
            fresh_signal_future(&f, self.source_ref(), "animation_finished"@),
    ;

    /// Emitted when the animation loops.
    fn animation_looped(&self) -> (f: SignalFuture<()>)
        requires
            self.source_ref().alive,
            inherits(self.source_ref().class, ClassTag::AnimatedSprite2D) || inherits(self.source_ref().class, ClassTag::AnimatedSprite3D),
        ensures
            fresh_signal_future(&f, self.source_ref(), "animation_looped"@),
    ;

    /// Emitted when the displayed frame changes.
    fn frame_changed(&self) -> (f: SignalFuture<()>)
        requires
            self.source_ref().alive,
            inherits(self.source_ref().class, ClassTag::AnimatedSprite2D) || inherits(self.source_ref().class, ClassTag::AnimatedSprite3D),
        ensures
            fresh_signal_future(&f, self.source_ref(), "frame_changed"@),
    ;

    /// Emitted when the sprite frames resource changes.
    fn sprite_frames_changed(&self) -> (f: SignalFuture<()>)
        requires
            self.source_ref().alive,
            inherits(self.source_ref().class, ClassTag::AnimatedSprite2D) || inherits(self.source_ref().class, ClassTag::AnimatedSprite3D),
        ensures
            fresh_signal_future(&f, self.source_ref(), "sprite_frames_changed"@),
    ;

    /// `animation_changed`, fallible.
    fn animation_changed_fallible(&self) -> (f: FallibleSignalFuture<()>)
        requires
            self.source_ref().alive,
            inherits(self.source_ref().class, ClassTag::AnimatedSprite2D) || inherits(self.source_ref().class, ClassTag::AnimatedSprite3D),
        ensures
            fresh_fallible_future(&f, self.source_ref(), "animation_changed"@),
    ;

    /// `animation_finished`, fallible.
    fn animation_finished_fallible(&self) -> (f: FallibleSignalFuture<()>)
        requires
            self.source_ref().alive,
            inherits(self.source_ref().class, ClassTag::AnimatedSprite2D) || inherits(self.source_ref().class, ClassTag::AnimatedSprite3D),
        ensures
            fresh_fallible_future(&f, self.source_ref(), "animation_finished"@),
    ;

    /// `animation_looped`, fallible.
    fn animation_looped_fallible(&self) -> (f: FallibleSignalFuture<()>)
        requires
            self.source_ref().alive,
            inherits(self.source_ref().class, ClassTag::AnimatedSprite2D) || inherits(self.source_ref().class, ClassTag::AnimatedSprite3D),
        ensures
            fresh_fallible_future(&f, self.source_ref(), "animation_looped"@),
    ;

    /// `frame_changed`, fallible.
    fn frame_changed_fallible(&self) -> (f: FallibleSignalFuture<()>)
        requires
            self.source_ref().alive,
            inherits(self.source_ref().class, ClassTag::AnimatedSprite2D) || inherits(self.source_ref().class, ClassTag::AnimatedSprite3D),
        ensures
            fresh_fallible_future(&f, self.source_ref(), "frame_changed"@),
    ;

    /// `sprite_frames_changed`, fallible.
    fn sprite_frames_changed_fallible(&self) -> (f: FallibleSignalFuture<()>)
        requires
            self.source_ref().alive,
            inherits(self.source_ref().class, ClassTag::AnimatedSprite2D) || inherits(self.source_ref().class, ClassTag::AnimatedSprite3D),
        ensures
            fresh_fallible_future(&f, self.source_ref(), "sprite_frames_changed"@),
    ;
}

impl AnimatedSpriteExt for ObjectRef {
    fn animation_changed(&self) -> (f: SignalFuture<()>) {
        proof {
            if inherits(self.class, ClassTag::AnimatedSprite2D) {
                lemma_exposes_from_inherits(self.class, ClassTag::AnimatedSprite2D, "animation_changed"@);
            } else {
                lemma_exposes_from_inherits(self.class, ClassTag::AnimatedSprite3D, "animation_changed"@);
            }
        }
        Signal::from_object_signal(self, "animation_changed").to_future()
    }

    fn animation_finished(&self) -> (f: SignalFuture<()>) {
        proof {
            if inherits(self.class, ClassTag::AnimatedSprite2D) {
                lemma_exposes_from_inherits(self.class, ClassTag::AnimatedSprite2D, "animation_finished"@);
            } else {
                lemma_exposes_from_inherits(self.class, ClassTag::AnimatedSprite3D, "animation_finished"@);
            }
        }
        Signal::from_object_signal(self, "animation_finished").to_future()
    }

    fn animation_looped(&self) -> (f: SignalFuture<()>) {
        proof {
            if inherits(self.class, ClassTag::AnimatedSprite2D) {
                lemma_exposes_from_inherits(self.class, ClassTag::AnimatedSprite2D, "animation_looped"@);
            } else {
                lemma_exposes_from_inherits(self.class, ClassTag::AnimatedSprite3D, "animation_looped"@);
            }
        }
        Signal::from_object_signal(self, "animation_looped").to_future()
    }

    fn frame_changed(&self) -> (f: SignalFuture<()>) {
        proof {
            if inherits(self.class, ClassTag::AnimatedSprite2D) {
                lemma_exposes_from_inherits(self.class, ClassTag::AnimatedSprite2D, "frame_changed"@);
            } else {
                lemma_exposes_from_inherits(self.class, ClassTag::AnimatedSprite3D, "frame_changed"@);
            }
        }
        Signal::from_object_signal(self, "frame_changed").to_future()
    }

    fn sprite_frames_changed(&self) -> (f: SignalFuture<()>) {
        proof {
            if inherits(self.class, ClassTag::AnimatedSprite2D) {
                lemma_exposes_from_inherits(self.class, ClassTag::AnimatedSprite2D, "sprite_frames_changed"@);
            } else {
                lemma_exposes_from_inherits(self.class, ClassTag::AnimatedSprite3D, "sprite_frames_changed"@);
            }
        }
        Signal::from_object_signal(self, "sprite_frames_changed").to_future()
    }

    fn animation_changed_fallible(&self) -> (f: FallibleSignalFuture<()>) {
        proof {
            if inherits(self.class, ClassTag::AnimatedSprite2D) {
                lemma_exposes_from_inherits(self.class, ClassTag::AnimatedSprite2D, "animation_changed"@);
            } else {
                lemma_exposes_from_inherits(self.class, ClassTag::AnimatedSprite3D, "animation_changed"@);
            }
        }
        Signal::from_object_signal(self, "animation_changed").to_fallible_future()
    }

    fn animation_finished_fallible(&self) -> (f: FallibleSignalFuture<()>) {
        proof {
            if inherits(self.class, ClassTag::AnimatedSprite2D) {
                lemma_exposes_from_inherits(self.class, ClassTag::AnimatedSprite2D, "animation_finished"@);
            } else {
                lemma_exposes_from_inherits(self.class, ClassTag::AnimatedSprite3D, "animation_finished"@);
            }
        }
        Signal::from_object_signal(self, "animation_finished").to_fallible_future()
    }

    fn animation_looped_fallible(&self) -> (f: FallibleSignalFuture<()>) {
        proof {
            if inherits(self.class, ClassTag::AnimatedSprite2D) {
                lemma_exposes_from_inherits(self.class, ClassTag::AnimatedSprite2D, "animation_looped"@);
            } else {
                lemma_exposes_from_inherits(self.class, ClassTag::AnimatedSprite3D, "animation_looped"@);
            }
        }
        Signal::from_object_signal(self, "animation_looped").to_fallible_future()
    }

    fn frame_changed_fallible(&self) -> (f: FallibleSignalFuture<()>) {
        proof {
            if inherits(self.class, ClassTag::AnimatedSprite2D) {
                lemma_exposes_from_inherits(self.class, ClassTag::AnimatedSprite2D, "frame_changed"@);
            } else {
                lemma_exposes_from_inherits(self.class, ClassTag::AnimatedSprite3D, "frame_changed"@);
            }
        }
        Signal::from_object_signal(self, "frame_changed").to_fallible_future()
    }

    fn sprite_frames_changed_fallible(&self) -> (f: FallibleSignalFuture<()>) {
        proof {
            if inherits(self.class, ClassTag::AnimatedSprite2D) {
                lemma_exposes_from_inherits(self.class, ClassTag::AnimatedSprite2D, "sprite_frames_changed"@);
            } else {
                lemma_exposes_from_inherits(self.class, ClassTag::AnimatedSprite3D, "sprite_frames_changed"@);
            }
        }
        Signal::from_object_signal(self, "sprite_frames_changed").to_fallible_future()
    }
}

} // verus!
