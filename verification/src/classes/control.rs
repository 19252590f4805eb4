//! Events of the `Control` class.

use vstd::prelude::*;

use crate::object::{inherits, lemma_exposes_from_inherits, ClassTag, EventSource, ObjectRef};
use crate::signal::{fresh_fallible_future, fresh_signal_future, FallibleSignalFuture, Signal,
    SignalFuture};

verus! {

/// Awaiting the events a `Control` emits.
pub trait ControlExt: EventSource {
    /// Emitted when the control gains keyboard focus.
    fn focus_entered(&self) -> (f: SignalFuture<()>)
        requires
            self.source_ref().alive,
            inherits(self.source_ref().class, ClassTag::Control),
        ensures
            fresh_signal_future(&f, self.source_ref(), "focus_entered"@),
    ;

    /// Emitted when the control loses keyboard focus.
    fn focus_exited(&self) -> (f: SignalFuture<()>)
        requires
            self.source_ref().alive,
            inherits(self.source_ref().class, ClassTag::Control),
        ensures
            fresh_signal_future(&f, self.source_ref(), "focus_exited"@),
    ;

    /// Emitted when the control receives an input event.
    fn gui_input(&self) -> (f: SignalFuture<(ObjectRef,)>)
        requires
            self.source_ref().alive,
            inherits(self.source_ref().class, ClassTag::Control),
        ensures
            fresh_signal_future(&f, self.source_ref(), "gui_input"@),
    ;

    /// Emitted when the control's minimum size changes.
    fn minimum_size_changed(&self) -> (f: SignalFuture<()>)
        requires
            self.source_ref().alive,
            inherits(self.source_ref().class, ClassTag::Control),
        ensures
            fresh_signal_future(&f, self.source_ref(), "minimum_size_changed"@),
    ;

    /// Emitted when the mouse pointer enters the control's area.
    fn mouse_entered(&self) -> (f: SignalFuture<()>)
        requires
            self.source_ref().alive,
            inherits(self.source_ref().class, ClassTag::Control),
        ensures
            fresh_signal_future(&f, self.source_ref(), "mouse_entered"@),
    ;

    /// Emitted when the mouse pointer leaves the control's area.
    fn mouse_exited(&self) -> (f: SignalFuture<()>)
        requires
            self.source_ref().alive,
            inherits(self.source_ref().class, ClassTag::Control),
        ensures
            fresh_signal_future(&f, self.source_ref(), "mouse_exited"@),
    ;

    /// Emitted when the control changes size.
    fn resized(&self) -> (f: SignalFuture<()>)
        requires
            self.source_ref().alive,
            inherits(self.source_ref().class, ClassTag::Control),
        ensures
            fresh_signal_future(&f, self.source_ref(), "resized"@),
    ;

    /// Emitted when the control's size flags change.
    fn size_flags_changed(&self) -> (f: SignalFuture<()>)
        requires
            self.source_ref().alive,
            inherits(self.source_ref().class, ClassTag::Control),
        ensures
            fresh_signal_future(&f, self.source_ref(), "size_flags_changed"@),
    ;

    /// Emitted when the control's theme changes.
    fn theme_changed(&self) -> (f: SignalFuture<()>)
        requires
            self.source_ref().alive,
            inherits(self.source_ref().class, ClassTag::Control),
        ensures
            fresh_signal_future(&f, self.source_ref(), "theme_changed"@),
    ;

    /// `focus_entered`, fallible.
    fn focus_entered_fallible(&self) -> (f: FallibleSignalFuture<()>)
        requires
            self.source_ref().alive,
            inherits(self.source_ref().class, ClassTag::Control),
        ensures
            fresh_fallible_future(&f, self.source_ref(), "focus_entered"@),
    ;

    /// `focus_exited`, fallible.
    fn focus_exited_fallible(&self) -> (f: FallibleSignalFuture<()>)
        requires
            self.source_ref().alive,
            inherits(self.source_ref().class, ClassTag::Control),
        ensures
            fresh_fallible_future(&f, self.source_ref(), "focus_exited"@),
    ;

    /// `gui_input`, fallible.
    fn gui_input_fallible(&self) -> (f: FallibleSignalFuture<(ObjectRef,)>)
        requires
            self.source_ref().alive,
            inherits(self.source_ref().class, ClassTag::Control),
        ensures
            fresh_fallible_future(&f, self.source_ref(), "gui_input"@),
    ;

    /// `minimum_size_changed`, fallible.
    fn minimum_size_changed_fallible(&self) -> (f: FallibleSignalFuture<()>)
        requires
            self.source_ref().alive,
            inherits(self.source_ref().class, ClassTag::Control),
        ensures
            fresh_fallible_future(&f, self.source_ref(), "minimum_size_changed"@),
    ;

    /// `mouse_entered`, fallible.
    fn mouse_entered_fallible(&self) -> (f: FallibleSignalFuture<()>)
        requires
            self.source_ref().alive,
            inherits(self.source_ref().class, ClassTag::Control),
        ensures
            fresh_fallible_future(&f, self.source_ref(), "mouse_entered"@),
    ;

    /// `mouse_exited`, fallible.
    fn mouse_exited_fallible(&self) -> (f: FallibleSignalFuture<()>)
        requires
            self.source_ref().alive,
            inherits(self.source_ref().class, ClassTag::Control),
        ensures
            fresh_fallible_future(&f, self.source_ref(), "mouse_exited"@),
    ;

    /// `resized`, fallible.
    fn resized_fallible(&self) -> (f: FallibleSignalFuture<()>)
        requires
            self.source_ref().alive,
            inherits(self.source_ref().class, ClassTag::Control),
        ensures
            fresh_fallible_future(&f, self.source_ref(), "resized"@),
    ;

    /// `size_flags_changed`, fallible.
    fn size_flags_changed_fallible(&self) -> (f: FallibleSignalFuture<()>)
        requires
            self.source_ref().alive,
            inherits(self.source_ref().class, ClassTag::Control),
        ensures
            fresh_fallible_future(&f, self.source_ref(), "size_flags_changed"@),
    ;

    /// `theme_changed`, fallible.
    fn theme_changed_fallible(&self) -> (f: FallibleSignalFuture<()>)
        requires
            self.source_ref().alive,
            inherits(self.source_ref().class, ClassTag::Control),
        ensures
            fresh_fallible_future(&f, self.source_ref(), "theme_changed"@),
    ;
}

impl ControlExt for ObjectRef {
    fn focus_entered(&self) -> (f: SignalFuture<()>) {
        proof {
            lemma_exposes_from_inherits(self.class, ClassTag::Control, "focus_entered"@);
        }
        Signal::from_object_signal(self, "focus_entered").to_future()
    }

    fn focus_exited(&self) -> (f: SignalFuture<()>) {
        proof {
            lemma_exposes_from_inherits(self.class, ClassTag::Control, "focus_exited"@);
        }
        Signal::from_object_signal(self, "focus_exited").to_future()
    }

    fn gui_input(&self) -> (f: SignalFuture<(ObjectRef,)>) {
        proof {
            lemma_exposes_from_inherits(self.class, ClassTag::Control, "gui_input"@);
        }
        Signal::from_object_signal(self, "gui_input").to_future()
    }

    fn minimum_size_changed(&self) -> (f: SignalFuture<()>) {
        proof {
            lemma_exposes_from_inherits(self.class, ClassTag::Control, "minimum_size_changed"@);
        }
        Signal::from_object_signal(self, "minimum_size_changed").to_future()
    }

    fn mouse_entered(&self) -> (f: SignalFuture<()>) {
        proof {
            lemma_exposes_from_inherits(self.class, ClassTag::Control, "mouse_entered"@);
        }
        Signal::from_object_signal(self, "mouse_entered").to_future()
    }

    fn mouse_exited(&self) -> (f: SignalFuture<()>) {
        proof {
            lemma_exposes_from_inherits(self.class, ClassTag::Control, "mouse_exited"@);
        }
        Signal::from_object_signal(self, "mouse_exited").to_future()
    }

    fn resized(&self) -> (f: SignalFuture<()>) {
        proof {
            lemma_exposes_from_inherits(self.class, ClassTag::Control, "resized"@);
        }
        Signal::from_object_signal(self, "resized").to_future()
    }

    fn size_flags_changed(&self) -> (f: SignalFuture<()>) {
        proof {
            lemma_exposes_from_inherits(self.class, ClassTag::Control, "size_flags_changed"@);
        }
        Signal::from_object_signal(self, "size_flags_changed").to_future()
    }

    fn theme_changed(&self) -> (f: SignalFuture<()>) {
        proof {
            lemma_exposes_from_inherits(self.class, ClassTag::Control, "theme_changed"@);
        }
        Signal::from_object_signal(self, "theme_changed").to_future()
    }

    fn focus_entered_fallible(&self) -> (f: FallibleSignalFuture<()>) {
        proof {
            lemma_exposes_from_inherits(self.class, ClassTag::Control, "focus_entered"@);
        }
        Signal::from_object_signal(self, "focus_entered").to_fallible_future()
    }

    fn focus_exited_fallible(&self) -> (f: FallibleSignalFuture<()>) {
        proof {
            lemma_exposes_from_inherits(self.class, ClassTag::Control, "focus_exited"@);
        }
        Signal::from_object_signal(self, "focus_exited").to_fallible_future()
    }

    fn gui_input_fallible(&self) -> (f: FallibleSignalFuture<(ObjectRef,)>) {
        proof {
            lemma_exposes_from_inherits(self.class, ClassTag::Control, "gui_input"@);
        }
        Signal::from_object_signal(self, "gui_input").to_fallible_future()
    }

    fn minimum_size_changed_fallible(&self) -> (f: FallibleSignalFuture<()>) {
        proof {
            lemma_exposes_from_inherits(self.class, ClassTag::Control, "minimum_size_changed"@);
        }
        Signal::from_object_signal(self, "minimum_size_changed").to_fallible_future()
    }

    fn mouse_entered_fallible(&self) -> (f: FallibleSignalFuture<()>) {
        proof {
            lemma_exposes_from_inherits(self.class, ClassTag::Control, "mouse_entered"@);
        }
        Signal::from_object_signal(self, "mouse_entered").to_fallible_future()
    }

    fn mouse_exited_fallible(&self) -> (f: FallibleSignalFuture<()>) {
        proof {
            lemma_exposes_from_inherits(self.class, ClassTag::Control, "mouse_exited"@);
        }
        Signal::from_object_signal(self, "mouse_exited").to_fallible_future()
    }

    fn resized_fallible(&self) -> (f: FallibleSignalFuture<()>) {
        proof {
            lemma_exposes_from_inherits(self.class, ClassTag::Control, "resized"@);
        }
        Signal::from_object_signal(self, "resized").to_fallible_future()
    }

    fn size_flags_changed_fallible(&self) -> (f: FallibleSignalFuture<()>) {
        proof {
            lemma_exposes_from_inherits(self.class, ClassTag::Control, "size_flags_changed"@);
        }
        Signal::from_object_signal(self, "size_flags_changed").to_fallible_future()
    }

    fn theme_changed_fallible(&self) -> (f: FallibleSignalFuture<()>) {
        proof {
            lemma_exposes_from_inherits(self.class, ClassTag::Control, "theme_changed"@);
        }
        Signal::from_object_signal(self, "theme_changed").to_fallible_future()
    }
}

} // verus!
