//! Events of the `BaseButton` class.

use vstd::prelude::*;

use crate::object::{inherits, lemma_exposes_from_inherits, ClassTag, EventSource};
use crate::signal::{fresh_fallible_future, fresh_signal_future, FallibleSignalFuture, Signal,
    SignalFuture};

verus! {

/// Awaiting the events a `BaseButton` emits.
pub trait BaseButtonExt: EventSource {
    /// Emitted when the button stops being held down.
    fn button_up(&self) -> (f: SignalFuture<()>)
        requires
            self.source_ref().alive,
            inherits(self.source_ref().class, ClassTag::BaseButton),
        ensures
            fresh_signal_future(&f, self.source_ref(), "button_up"@),
    ;

    /// Emitted when the button starts being held down.
    fn button_down(&self) -> (f: SignalFuture<()>)
        requires
            self.source_ref().alive,
            inherits(self.source_ref().class, ClassTag::BaseButton),
        ensures
            fresh_signal_future(&f, self.source_ref(), "button_down"@),
    ;

    /// Emitted when the button was just toggled between pressed and normal
    /// states (only if `toggle_mode` is active). The new state is the
    /// `toggled_on` payload.
    fn toggled(&self) -> (f: SignalFuture<(bool,)>)
        requires
            self.source_ref().alive,
            inherits(self.source_ref().class, ClassTag::BaseButton),
        ensures
            fresh_signal_future(&f, self.source_ref(), "toggled"@),
    ;

    /// Emitted when the button is toggled or pressed.
    fn pressed(&self) -> (f: SignalFuture<()>)
        requires
            self.source_ref().alive,
            inherits(self.source_ref().class, ClassTag::BaseButton),
        ensures
            fresh_signal_future(&f, self.source_ref(), "pressed"@),
    ;

    /// `button_up`, fallible.
    fn button_up_fallible(&self) -> (f: FallibleSignalFuture<()>)
        requires
            self.source_ref().alive,
            inherits(self.source_ref().class, ClassTag::BaseButton),
        ensures
            fresh_fallible_future(&f, self.source_ref(), "button_up"@),
    ;

    /// `button_down`, fallible.
    fn button_down_fallible(&self) -> (f: FallibleSignalFuture<()>)
        requires
            self.source_ref().alive,
            inherits(self.source_ref().class, ClassTag::BaseButton),
        ensures
            fresh_fallible_future(&f, self.source_ref(), "button_down"@),
    ;

    /// `toggled`, fallible.
    fn toggled_fallible(&self) -> (f: FallibleSignalFuture<(bool,)>)
        requires
            self.source_ref().alive,
            inherits(self.source_ref().class, ClassTag::BaseButton),
        ensures
            fresh_fallible_future(&f, self.source_ref(), "toggled"@),
    ;

    /// `pressed`, fallible.
    fn pressed_fallible(&self) -> (f: FallibleSignalFuture<()>)
        requires
            self.source_ref().alive,
            inherits(self.source_ref().class, ClassTag::BaseButton),
        ensures
            fresh_fallible_future(&f, self.source_ref(), "pressed"@),
    ;
}

impl BaseButtonExt for crate::object::ObjectRef {
    fn button_down(&self) -> (f: SignalFuture<()>) {
        proof {
            lemma_exposes_from_inherits(self.class, ClassTag::BaseButton, "button_down"@);
        }
        Signal::from_object_signal(self, "button_down").to_future()
    }

    fn button_up(&self) -> (f: SignalFuture<()>) {
        proof {
            lemma_exposes_from_inherits(self.class, ClassTag::BaseButton, "button_up"@);
        }
        Signal::from_object_signal(self, "button_up").to_future()
    }

    fn pressed(&self) -> (f: SignalFuture<()>) {
        proof {
            lemma_exposes_from_inherits(self.class, ClassTag::BaseButton, "pressed"@);
        }
        Signal::from_object_signal(self, "pressed").to_future()
    }

    fn toggled(&self) -> (f: SignalFuture<(bool,)>) {
        proof {
            lemma_exposes_from_inherits(self.class, ClassTag::BaseButton, "toggled"@);
        }
        Signal::from_object_signal(self, "toggled").to_future()
    }

    fn button_down_fallible(&self) -> (f: FallibleSignalFuture<()>) {
        proof {
            lemma_exposes_from_inherits(self.class, ClassTag::BaseButton, "button_down"@);
        }
        Signal::from_object_signal(self, "button_down").to_fallible_future()
    }

    fn button_up_fallible(&self) -> (f: FallibleSignalFuture<()>) {
        proof {
            lemma_exposes_from_inherits(self.class, ClassTag::BaseButton, "button_up"@);
        }
        Signal::from_object_signal(self, "button_up").to_fallible_future()
    }

    fn pressed_fallible(&self) -> (f: FallibleSignalFuture<()>) {
        proof {
            lemma_exposes_from_inherits(self.class, ClassTag::BaseButton, "pressed"@);
        }
        Signal::from_object_signal(self, "pressed").to_fallible_future()
    }

    fn toggled_fallible(&self) -> (f: FallibleSignalFuture<(bool,)>) {
        proof {
            lemma_exposes_from_inherits(self.class, ClassTag::BaseButton, "toggled"@);
        }
        Signal::from_object_signal(self, "toggled").to_fallible_future()
    }
}

} // verus!
