//! Events of the `SceneTree` class.

use vstd::prelude::*;

use crate::object::{inherits, lemma_exposes_from_inherits, ClassTag, EventSource, ObjectRef};
use crate::signal::{fresh_fallible_future, fresh_signal_future, FallibleSignalFuture, Signal,
    SignalFuture};

verus! {

/// Awaiting the events a `SceneTree` emits.
pub trait SceneTreeExt: EventSource {
    /// Emitted when a node enters this tree.
    fn node_added(&self) -> (f: SignalFuture<(ObjectRef,)>)
        requires
            self.source_ref().alive,
            inherits(self.source_ref().class, ClassTag::SceneTree),
        ensures
            fresh_signal_future(&f, self.source_ref(), "node_added"@),
    ;

    /// Emitted when a node's configuration warnings are updated; only
    /// emitted in the editor.
    fn node_configuration_warning_changed(&self) -> (f: SignalFuture<(ObjectRef,)>)
        requires
            self.source_ref().alive,
            inherits(self.source_ref().class, ClassTag::SceneTree),
        ensures
            fresh_signal_future(&f, self.source_ref(), "node_configuration_warning_changed"@),
    ;

    /// Emitted when a node exits this tree.
    fn node_removed(&self) -> (f: SignalFuture<(ObjectRef,)>)
        requires
            self.source_ref().alive,
            inherits(self.source_ref().class, ClassTag::SceneTree),
        ensures
            fresh_signal_future(&f, self.source_ref(), "node_removed"@),
    ;

    /// Emitted when a node's name is changed.
    fn node_renamed(&self) -> (f: SignalFuture<(ObjectRef,)>)
        requires
            self.source_ref().alive,
            inherits(self.source_ref().class, ClassTag::SceneTree),
        ensures
            fresh_signal_future(&f, self.source_ref(), "node_renamed"@),
    ;

    /// Emitted immediately before the physics phase of every node in this
    /// tree runs.
    fn physics_frame(&self) -> (f: SignalFuture<()>)
        requires
            self.source_ref().alive,
            inherits(self.source_ref().class, ClassTag::SceneTree),
        ensures
            fresh_signal_future(&f, self.source_ref(), "physics_frame"@),
    ;

    /// Emitted immediately before the process phase of every node in this
    /// tree runs.
    fn process_frame(&self) -> (f: SignalFuture<()>)
        requires
            self.source_ref().alive,
            inherits(self.source_ref().class, ClassTag::SceneTree),
        ensures
            fresh_signal_future(&f, self.source_ref(), "process_frame"@),
    ;

    /// Emitted any time the tree's hierarchy changes.
    fn tree_changed(&self) -> (f: SignalFuture<()>)
        requires
            self.source_ref().alive,
            inherits(self.source_ref().class, ClassTag::SceneTree),
        ensures
            fresh_signal_future(&f, self.source_ref(), "tree_changed"@),
    ;

    /// Emitted when the process mode of any node inside the tree changes;
    /// only emitted in the editor.
    fn tree_process_mode_changed(&self) -> (f: SignalFuture<()>)
        requires
            self.source_ref().alive,
            inherits(self.source_ref().class, ClassTag::SceneTree),
        ensures
            fresh_signal_future(&f, self.source_ref(), "tree_process_mode_changed"@),
    ;

    /// `node_added`, fallible.
    fn node_added_fallible(&self) -> (f: FallibleSignalFuture<(ObjectRef,)>)
        requires
            self.source_ref().alive,
            inherits(self.source_ref().class, ClassTag::SceneTree),
        ensures
            fresh_fallible_future(&f, self.source_ref(), "node_added"@),
    ;

    /// `node_configuration_warning_changed`, fallible.
    fn node_configuration_warning_changed_fallible(&self) -> (f: FallibleSignalFuture<(ObjectRef,)>)
        requires
            self.source_ref().alive,
            inherits(self.source_ref().class, ClassTag::SceneTree),
        ensures
            fresh_fallible_future(&f, self.source_ref(), "node_configuration_warning_changed"@),
    ;

    /// `node_removed`, fallible.
    fn node_removed_fallible(&self) -> (f: FallibleSignalFuture<(ObjectRef,)>)
        requires
            self.source_ref().alive,
            inherits(self.source_ref().class, ClassTag::SceneTree),
        ensures
            fresh_fallible_future(&f, self.source_ref(), "node_removed"@),
    ;

    /// `node_renamed`, fallible.
    fn node_renamed_fallible(&self) -> (f: FallibleSignalFuture<(ObjectRef,)>)
        requires
            self.source_ref().alive,
            inherits(self.source_ref().class, ClassTag::SceneTree),
        ensures
            fresh_fallible_future(&f, self.source_ref(), "node_renamed"@),
    ;

    /// `physics_frame`, fallible.
    fn physics_frame_fallible(&self) -> (f: FallibleSignalFuture<()>)
        requires
            self.source_ref().alive,
            inherits(self.source_ref().class, ClassTag::SceneTree),
        ensures
            fresh_fallible_future(&f, self.source_ref(), "physics_frame"@),
    ;

    /// `process_frame`, fallible.
    fn process_frame_fallible(&self) -> (f: FallibleSignalFuture<()>)
        requires
            self.source_ref().alive,
            inherits(self.source_ref().class, ClassTag::SceneTree),
        ensures
            fresh_fallible_future(&f, self.source_ref(), "process_frame"@),
    ;

    /// `tree_changed`, fallible.
    fn tree_changed_fallible(&self) -> (f: FallibleSignalFuture<()>)
        requires
            self.source_ref().alive,
            inherits(self.source_ref().class, ClassTag::SceneTree),
        ensures
            fresh_fallible_future(&f, self.source_ref(), "tree_changed"@),
    ;

    /// `tree_process_mode_changed`, fallible.
    fn tree_process_mode_changed_fallible(&self) -> (f: FallibleSignalFuture<()>)
        requires
            self.source_ref().alive,
            inherits(self.source_ref().class, ClassTag::SceneTree),
        ensures
            fresh_fallible_future(&f, self.source_ref(), "tree_process_mode_changed"@),
    ;
}

impl SceneTreeExt for ObjectRef {
    fn node_added(&self) -> (f: SignalFuture<(ObjectRef,)>) {
        proof {
            lemma_exposes_from_inherits(self.class, ClassTag::SceneTree, "node_added"@);
        }
        Signal::from_object_signal(self, "node_added").to_future()
    }

    fn node_configuration_warning_changed(&self) -> (f: SignalFuture<(ObjectRef,)>) {
        proof {
            lemma_exposes_from_inherits(self.class, ClassTag::SceneTree, "node_configuration_warning_changed"@);
        }
        Signal::from_object_signal(self, "node_configuration_warning_changed").to_future()
    }

    fn node_removed(&self) -> (f: SignalFuture<(ObjectRef,)>) {
        proof {
            lemma_exposes_from_inherits(self.class, ClassTag::SceneTree, "node_removed"@);
        }
        Signal::from_object_signal(self, "node_removed").to_future()
    }

    fn node_renamed(&self) -> (f: SignalFuture<(ObjectRef,)>) {
        proof {
            lemma_exposes_from_inherits(self.class, ClassTag::SceneTree, "node_renamed"@);
        }
        Signal::from_object_signal(self, "node_renamed").to_future()
    }

    fn physics_frame(&self) -> (f: SignalFuture<()>) {
        proof {
            lemma_exposes_from_inherits(self.class, ClassTag::SceneTree, "physics_frame"@);
        }
        Signal::from_object_signal(self, "physics_frame").to_future()
    }

    fn process_frame(&self) -> (f: SignalFuture<()>) {
        proof {
            lemma_exposes_from_inherits(self.class, ClassTag::SceneTree, "process_frame"@);
        }
        Signal::from_object_signal(self, "process_frame").to_future()
    }

    fn tree_changed(&self) -> (f: SignalFuture<()>) {
        proof {
            lemma_exposes_from_inherits(self.class, ClassTag::SceneTree, "tree_changed"@);
        }
        Signal::from_object_signal(self, "tree_changed").to_future()
    }

    fn tree_process_mode_changed(&self) -> (f: SignalFuture<()>) {
        proof {
            lemma_exposes_from_inherits(self.class, ClassTag::SceneTree, "tree_process_mode_changed"@);
        }
        Signal::from_object_signal(self, "tree_process_mode_changed").to_future()
    }

    fn node_added_fallible(&self) -> (f: FallibleSignalFuture<(ObjectRef,)>) {
        proof {
            lemma_exposes_from_inherits(self.class, ClassTag::SceneTree, "node_added"@);
        }
        Signal::from_object_signal(self, "node_added").to_fallible_future()
    }

    fn node_configuration_warning_changed_fallible(&self) -> (f: FallibleSignalFuture<(ObjectRef,)>) {
        proof {
            lemma_exposes_from_inherits(self.class, ClassTag::SceneTree, "node_configuration_warning_changed"@);
        }
        Signal::from_object_signal(self, "node_configuration_warning_changed").to_fallible_future()
    }

    fn node_removed_fallible(&self) -> (f: FallibleSignalFuture<(ObjectRef,)>) {
        proof {
            lemma_exposes_from_inherits(self.class, ClassTag::SceneTree, "node_removed"@);
        }
        Signal::from_object_signal(self, "node_removed").to_fallible_future()
    }

    fn node_renamed_fallible(&self) -> (f: FallibleSignalFuture<(ObjectRef,)>) {
        proof {
            lemma_exposes_from_inherits(self.class, ClassTag::SceneTree, "node_renamed"@);
        }
        Signal::from_object_signal(self, "node_renamed").to_fallible_future()
    }

    fn physics_frame_fallible(&self) -> (f: FallibleSignalFuture<()>) {
        proof {
            lemma_exposes_from_inherits(self.class, ClassTag::SceneTree, "physics_frame"@);
        }
        Signal::from_object_signal(self, "physics_frame").to_fallible_future()
    }

    fn process_frame_fallible(&self) -> (f: FallibleSignalFuture<()>) {
        proof {
            lemma_exposes_from_inherits(self.class, ClassTag::SceneTree, "process_frame"@);
        }
        Signal::from_object_signal(self, "process_frame").to_fallible_future()
    }

    fn tree_changed_fallible(&self) -> (f: FallibleSignalFuture<()>) {
        proof {
            lemma_exposes_from_inherits(self.class, ClassTag::SceneTree, "tree_changed"@);
        }
        Signal::from_object_signal(self, "tree_changed").to_fallible_future()
    }

    fn tree_process_mode_changed_fallible(&self) -> (f: FallibleSignalFuture<()>) {
        proof {
            lemma_exposes_from_inherits(self.class, ClassTag::SceneTree, "tree_process_mode_changed"@);
        }
        Signal::from_object_signal(self, "tree_process_mode_changed").to_fallible_future()
    }
}

} // verus!
