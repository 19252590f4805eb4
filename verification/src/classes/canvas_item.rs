//! Events of the `CanvasItem` class.

use vstd::prelude::*;

use crate::object::{inherits, lemma_exposes_from_inherits, ClassTag, EventSource, ObjectRef};
use crate::signal::{fresh_fallible_future, fresh_signal_future, FallibleSignalFuture, Signal,
    SignalFuture};

verus! {

/// Awaiting the events a `CanvasItem` emits.
pub trait CanvasItemExt: EventSource {
    /// Emitted when the item must redraw, before its draw callback runs.
    fn draw(&self) -> (f: SignalFuture<()>)
        requires
            self.source_ref().alive,
            inherits(self.source_ref().class, ClassTag::CanvasItem),
        ensures
            fresh_signal_future(&f, self.source_ref(), "draw"@),
    ;

    /// Emitted when the item is no longer visible in the tree.
    fn hidden(&self) -> (f: SignalFuture<()>)
        requires
            self.source_ref().alive,
            inherits(self.source_ref().class, ClassTag::CanvasItem),
        ensures
            fresh_signal_future(&f, self.source_ref(), "hidden"@),
    ;

    /// Emitted when the item's boundaries (position or size) change.
    fn item_rect_changed(&self) -> (f: SignalFuture<()>)
        requires
            self.source_ref().alive,
            inherits(self.source_ref().class, ClassTag::CanvasItem),
        ensures
            fresh_signal_future(&f, self.source_ref(), "item_rect_changed"@),
    ;

    /// Emitted when the item's visibility changes.
    fn visibility_changed(&self) -> (f: SignalFuture<()>)
        requires
            self.source_ref().alive,
            inherits(self.source_ref().class, ClassTag::CanvasItem),
        ensures
            fresh_signal_future(&f, self.source_ref(), "visibility_changed"@),
    ;

    /// `draw`, fallible.
    fn draw_fallible(&self) -> (f: FallibleSignalFuture<()>)
        requires
            self.source_ref().alive,
            inherits(self.source_ref().class, ClassTag::CanvasItem),
        ensures
            fresh_fallible_future(&f, self.source_ref(), "draw"@),
    ;

    /// `hidden`, fallible.
    fn hidden_fallible(&self) -> (f: FallibleSignalFuture<()>)
        requires
            self.source_ref().alive,
            inherits(self.source_ref().class, ClassTag::CanvasItem),
        ensures
            fresh_fallible_future(&f, self.source_ref(), "hidden"@),
    ;

    /// `item_rect_changed`, fallible.
    fn item_rect_changed_fallible(&self) -> (f: FallibleSignalFuture<()>)
        requires
            self.source_ref().alive,
            inherits(self.source_ref().class, ClassTag::CanvasItem),
        ensures
            fresh_fallible_future(&f, self.source_ref(), "item_rect_changed"@),
    ;

    /// `visibility_changed`, fallible.
    fn visibility_changed_fallible(&self) -> (f: FallibleSignalFuture<()>)
        requires
            self.source_ref().alive,
            inherits(self.source_ref().class, ClassTag::CanvasItem),
        ensures
            fresh_fallible_future(&f, self.source_ref(), "visibility_changed"@),
    ;
}

impl CanvasItemExt for ObjectRef {
    fn draw(&self) -> (f: SignalFuture<()>) {
        proof {
            lemma_exposes_from_inherits(self.class, ClassTag::CanvasItem, "draw"@);
        }
        Signal::from_object_signal(self, "draw").to_future()
    }

    fn hidden(&self) -> (f: SignalFuture<()>) {
        proof {
            lemma_exposes_from_inherits(self.class, ClassTag::CanvasItem, "hidden"@);
        }
        Signal::from_object_signal(self, "hidden").to_future()
    }

    fn item_rect_changed(&self) -> (f: SignalFuture<()>) {
        proof {
            lemma_exposes_from_inherits(self.class, ClassTag::CanvasItem, "item_rect_changed"@);
        }
        Signal::from_object_signal(self, "item_rect_changed").to_future()
    }

    fn visibility_changed(&self) -> (f: SignalFuture<()>) {
        proof {
            lemma_exposes_from_inherits(self.class, ClassTag::CanvasItem, "visibility_changed"@);
        }
        Signal::from_object_signal(self, "visibility_changed").to_future()
    }

    fn draw_fallible(&self) -> (f: FallibleSignalFuture<()>) {
        proof {
            lemma_exposes_from_inherits(self.class, ClassTag::CanvasItem, "draw"@);
        }
        Signal::from_object_signal(self, "draw").to_fallible_future()
    }

    fn hidden_fallible(&self) -> (f: FallibleSignalFuture<()>) {
        proof {
            lemma_exposes_from_inherits(self.class, ClassTag::CanvasItem, "hidden"@);
        }
        Signal::from_object_signal(self, "hidden").to_fallible_future()
    }

    fn item_rect_changed_fallible(&self) -> (f: FallibleSignalFuture<()>) {
        proof {
            lemma_exposes_from_inherits(self.class, ClassTag::CanvasItem, "item_rect_changed"@);
        }
        Signal::from_object_signal(self, "item_rect_changed").to_fallible_future()
    }

    fn visibility_changed_fallible(&self) -> (f: FallibleSignalFuture<()>) {
        proof {
            lemma_exposes_from_inherits(self.class, ClassTag::CanvasItem, "visibility_changed"@);
        }
        Signal::from_object_signal(self, "visibility_changed").to_fallible_future()
    }
}

} // verus!
