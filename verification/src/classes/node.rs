//! Events of the `Node` class and of `Node3D`.

use vstd::prelude::*;

use crate::object::{inherits, lemma_exposes_from_inherits, ClassTag, EventSource, ObjectRef};
use crate::signal::{fresh_fallible_future, fresh_signal_future, FallibleSignalFuture, Signal,
    SignalFuture};

verus! {

/// Awaiting the events a `Node` emits.
pub trait NodeExt: EventSource {
    /// Emitted when a child node enters the tree.
    fn child_entered_tree(&self) -> (f: SignalFuture<(ObjectRef,)>)
        requires
            self.source_ref().alive,
            inherits(self.source_ref().class, ClassTag::Node),
        ensures
            fresh_signal_future(&f, self.source_ref(), "child_entered_tree"@),
    ;

    /// Emitted when a child node is about to exit the tree.
    fn child_exiting_tree(&self) -> (f: SignalFuture<(ObjectRef,)>)
        requires
            self.source_ref().alive,
            inherits(self.source_ref().class, ClassTag::Node),
        ensures
            fresh_signal_future(&f, self.source_ref(), "child_exiting_tree"@),
    ;

    /// Emitted when the order of the node's children changes.
    fn child_order_changed(&self) -> (f: SignalFuture<()>)
        requires
            self.source_ref().alive,
            inherits(self.source_ref().class, ClassTag::Node),
        ensures
            fresh_signal_future(&f, self.source_ref(), "child_order_changed"@),
    ;

    /// Emitted when the node's editor description changes.
    fn editor_description_changed(&self) -> (f: SignalFuture<(ObjectRef,)>)
        requires
            self.source_ref().alive,
            inherits(self.source_ref().class, ClassTag::Node),
        ensures
            fresh_signal_future(&f, self.source_ref(), "editor_description_changed"@),
    ;

    /// Emitted when the node's editor state changes.
    fn editor_state_changed(&self) -> (f: SignalFuture<()>)
        requires
            self.source_ref().alive,
            inherits(self.source_ref().class, ClassTag::Node),
        ensures
            fresh_signal_future(&f, self.source_ref(), "editor_state_changed"@),
    ;

    /// Emitted when the node is ready.
    fn ready(&self) -> (f: SignalFuture<()>)
        requires
            self.source_ref().alive,
            inherits(self.source_ref().class, ClassTag::Node),
        ensures
            fresh_signal_future(&f, self.source_ref(), "ready"@),
    ;

    /// Emitted when the node's name is changed.
    fn renamed(&self) -> (f: SignalFuture<(ObjectRef,)>)
        requires
            self.source_ref().alive,
            inherits(self.source_ref().class, ClassTag::Node),
        ensures
            fresh_signal_future(&f, self.source_ref(), "renamed"@),
    ;

    /// Emitted when the node is replaced by another node.
    fn replacing_by(&self) -> (f: SignalFuture<()>)
        requires
            self.source_ref().alive,
            inherits(self.source_ref().class, ClassTag::Node),
        ensures
            fresh_signal_future(&f, self.source_ref(), "replacing_by"@),
    ;

    /// Emitted when the node enters the tree.
    fn tree_entered(&self) -> (f: SignalFuture<()>)
        requires
            self.source_ref().alive,
            inherits(self.source_ref().class, ClassTag::Node),
        ensures
            fresh_signal_future(&f, self.source_ref(), "tree_entered"@),
    ;

    /// Emitted after the node exits the tree and is no longer active.
    fn tree_exited(&self) -> (f: SignalFuture<()>)
        requires
            self.source_ref().alive,
            inherits(self.source_ref().class, ClassTag::Node),
        ensures
            fresh_signal_future(&f, self.source_ref(), "tree_exited"@),
    ;

    /// Emitted when the node is just about to exit the tree; the node is
    /// still valid, so this is the right place for de-initialization.
    fn tree_exiting(&self) -> (f: SignalFuture<()>)
        requires
            self.source_ref().alive,
            inherits(self.source_ref().class, ClassTag::Node),
        ensures
            fresh_signal_future(&f, self.source_ref(), "tree_exiting"@),
    ;

    /// `child_entered_tree`, fallible.
    fn child_entered_tree_fallible(&self) -> (f: FallibleSignalFuture<(ObjectRef,)>)
        requires
            self.source_ref().alive,
            inherits(self.source_ref().class, ClassTag::Node),
        ensures
            fresh_fallible_future(&f, self.source_ref(), "child_entered_tree"@),
    ;

    /// `child_exiting_tree`, fallible.
    fn child_exiting_tree_fallible(&self) -> (f: FallibleSignalFuture<(ObjectRef,)>)
        requires
            self.source_ref().alive,
            inherits(self.source_ref().class, ClassTag::Node),
        ensures
            fresh_fallible_future(&f, self.source_ref(), "child_exiting_tree"@),
    ;

    /// `child_order_changed`, fallible.
    fn child_order_changed_fallible(&self) -> (f: FallibleSignalFuture<()>)
        requires
            self.source_ref().alive,
            inherits(self.source_ref().class, ClassTag::Node),
        ensures
            fresh_fallible_future(&f, self.source_ref(), "child_order_changed"@),
    ;

    /// `editor_description_changed`, fallible.
    fn editor_description_changed_fallible(&self) -> (f: FallibleSignalFuture<(ObjectRef,)>)
        requires
            self.source_ref().alive,
            inherits(self.source_ref().class, ClassTag::Node),
        ensures
            fresh_fallible_future(&f, self.source_ref(), "editor_description_changed"@),
    ;

    /// `editor_state_changed`, fallible.
    fn editor_state_changed_fallible(&self) -> (f: FallibleSignalFuture<()>)
        requires
            self.source_ref().alive,
            inherits(self.source_ref().class, ClassTag::Node),
        ensures
            fresh_fallible_future(&f, self.source_ref(), "editor_state_changed"@),
    ;

    /// `ready`, fallible.
    fn ready_fallible(&self) -> (f: FallibleSignalFuture<()>)
        requires
            self.source_ref().alive,
            inherits(self.source_ref().class, ClassTag::Node),
        ensures
            fresh_fallible_future(&f, self.source_ref(), "ready"@),
    ;

    /// `renamed`, fallible.
    fn renamed_fallible(&self) -> (f: FallibleSignalFuture<(ObjectRef,)>)
        requires
            self.source_ref().alive,
            inherits(self.source_ref().class, ClassTag::Node),
        ensures
            fresh_fallible_future(&f, self.source_ref(), "renamed"@),
    ;

    /// `replacing_by`, fallible.
    fn replacing_by_fallible(&self) -> (f: FallibleSignalFuture<()>)
        requires
            self.source_ref().alive,
            inherits(self.source_ref().class, ClassTag::Node),
        ensures
            fresh_fallible_future(&f, self.source_ref(), "replacing_by"@),
    ;

    /// `tree_entered`, fallible.
    fn tree_entered_fallible(&self) -> (f: FallibleSignalFuture<()>)
        requires
            self.source_ref().alive,
            inherits(self.source_ref().class, ClassTag::Node),
        ensures
            fresh_fallible_future(&f, self.source_ref(), "tree_entered"@),
    ;

    /// `tree_exited`, fallible.
    fn tree_exited_fallible(&self) -> (f: FallibleSignalFuture<()>)
        requires
            self.source_ref().alive,
            inherits(self.source_ref().class, ClassTag::Node),
        ensures
            fresh_fallible_future(&f, self.source_ref(), "tree_exited"@),
    ;

    /// Emitted when the node enters the tree.
    fn node_tree_entered(&self) -> (f: SignalFuture<()>)
        requires
            self.source_ref().alive,
            inherits(self.source_ref().class, ClassTag::Node),
        ensures
            fresh_signal_future(&f, self.source_ref(), "tree_entered"@),
    ;

    /// Emitted after the node exits the tree and is no longer active.
    fn node_tree_exited(&self) -> (f: SignalFuture<()>)
        requires
            self.source_ref().alive,
            inherits(self.source_ref().class, ClassTag::Node),
        ensures
            fresh_signal_future(&f, self.source_ref(), "tree_exited"@),
    ;

    /// Emitted when the node is just about to exit the tree.
    fn node_tree_exiting(&self) -> (f: SignalFuture<()>)
        requires
            self.source_ref().alive,
            inherits(self.source_ref().class, ClassTag::Node),
        ensures
            fresh_signal_future(&f, self.source_ref(), "tree_exiting"@),
    ;
}

impl NodeExt for ObjectRef {
    fn child_entered_tree(&self) -> (f: SignalFuture<(ObjectRef,)>) {
        proof {
            lemma_exposes_from_inherits(self.class, ClassTag::Node, "child_entered_tree"@);
        }
        Signal::from_object_signal(self, "child_entered_tree").to_future()
    }

    fn child_exiting_tree(&self) -> (f: SignalFuture<(ObjectRef,)>) {
        proof {
            lemma_exposes_from_inherits(self.class, ClassTag::Node, "child_exiting_tree"@);
        }
        Signal::from_object_signal(self, "child_exiting_tree").to_future()
    }

    fn child_order_changed(&self) -> (f: SignalFuture<()>) {
        proof {
            lemma_exposes_from_inherits(self.class, ClassTag::Node, "child_order_changed"@);
        }
        Signal::from_object_signal(self, "child_order_changed").to_future()
    }

    fn editor_description_changed(&self) -> (f: SignalFuture<(ObjectRef,)>) {
        proof {
            lemma_exposes_from_inherits(self.class, ClassTag::Node, "editor_description_changed"@);
        }
        Signal::from_object_signal(self, "editor_description_changed").to_future()
    }

    fn editor_state_changed(&self) -> (f: SignalFuture<()>) {
        proof {
            lemma_exposes_from_inherits(self.class, ClassTag::Node, "editor_state_changed"@);
        }
        Signal::from_object_signal(self, "editor_state_changed").to_future()
    }

    fn ready(&self) -> (f: SignalFuture<()>) {
        proof {
            lemma_exposes_from_inherits(self.class, ClassTag::Node, "ready"@);
        }
        Signal::from_object_signal(self, "ready").to_future()
    }

    fn renamed(&self) -> (f: SignalFuture<(ObjectRef,)>) {
        proof {
            lemma_exposes_from_inherits(self.class, ClassTag::Node, "renamed"@);
        }
        Signal::from_object_signal(self, "renamed").to_future()
    }

    fn replacing_by(&self) -> (f: SignalFuture<()>) {
        proof {
            lemma_exposes_from_inherits(self.class, ClassTag::Node, "replacing_by"@);
        }
        Signal::from_object_signal(self, "replacing_by").to_future()
    }

    fn tree_entered(&self) -> (f: SignalFuture<()>) {
        proof {
            lemma_exposes_from_inherits(self.class, ClassTag::Node, "tree_entered"@);
        }
        Signal::from_object_signal(self, "tree_entered").to_future()
    }

    fn tree_exited(&self) -> (f: SignalFuture<()>) {
        proof {
            lemma_exposes_from_inherits(self.class, ClassTag::Node, "tree_exited"@);
        }
        Signal::from_object_signal(self, "tree_exited").to_future()
    }

    fn tree_exiting(&self) -> (f: SignalFuture<()>) {
        proof {
            lemma_exposes_from_inherits(self.class, ClassTag::Node, "tree_exiting"@);
        }
        Signal::from_object_signal(self, "tree_exiting").to_future()
    }

    fn child_entered_tree_fallible(&self) -> (f: FallibleSignalFuture<(ObjectRef,)>) {
        proof {
            lemma_exposes_from_inherits(self.class, ClassTag::Node, "child_entered_tree"@);
        }
        Signal::from_object_signal(self, "child_entered_tree").to_fallible_future()
    }

    fn child_exiting_tree_fallible(&self) -> (f: FallibleSignalFuture<(ObjectRef,)>) {
        proof {
            lemma_exposes_from_inherits(self.class, ClassTag::Node, "child_exiting_tree"@);
        }
        Signal::from_object_signal(self, "child_exiting_tree").to_fallible_future()
    }

    fn child_order_changed_fallible(&self) -> (f: FallibleSignalFuture<()>) {
        proof {
            lemma_exposes_from_inherits(self.class, ClassTag::Node, "child_order_changed"@);
        }
        Signal::from_object_signal(self, "child_order_changed").to_fallible_future()
    }

    fn editor_description_changed_fallible(&self) -> (f: FallibleSignalFuture<(ObjectRef,)>) {
        proof {
            lemma_exposes_from_inherits(self.class, ClassTag::Node, "editor_description_changed"@);
        }
        Signal::from_object_signal(self, "editor_description_changed").to_fallible_future()
    }

    fn editor_state_changed_fallible(&self) -> (f: FallibleSignalFuture<()>) {
        proof {
            lemma_exposes_from_inherits(self.class, ClassTag::Node, "editor_state_changed"@);
        }
        Signal::from_object_signal(self, "editor_state_changed").to_fallible_future()
    }

    fn ready_fallible(&self) -> (f: FallibleSignalFuture<()>) {
        proof {
            lemma_exposes_from_inherits(self.class, ClassTag::Node, "ready"@);
        }
        Signal::from_object_signal(self, "ready").to_fallible_future()
    }

    fn renamed_fallible(&self) -> (f: FallibleSignalFuture<(ObjectRef,)>) {
        proof {
            lemma_exposes_from_inherits(self.class, ClassTag::Node, "renamed"@);
        }
        Signal::from_object_signal(self, "renamed").to_fallible_future()
    }

    fn replacing_by_fallible(&self) -> (f: FallibleSignalFuture<()>) {
        proof {
            lemma_exposes_from_inherits(self.class, ClassTag::Node, "replacing_by"@);
        }
        Signal::from_object_signal(self, "replacing_by").to_fallible_future()
    }

    fn tree_entered_fallible(&self) -> (f: FallibleSignalFuture<()>) {
        proof {
            lemma_exposes_from_inherits(self.class, ClassTag::Node, "tree_entered"@);
        }
        Signal::from_object_signal(self, "tree_entered").to_fallible_future()
    }

    fn tree_exited_fallible(&self) -> (f: FallibleSignalFuture<()>) {
        proof {
            lemma_exposes_from_inherits(self.class, ClassTag::Node, "tree_exited"@);
        }
        Signal::from_object_signal(self, "tree_exited").to_fallible_future()
    }

    fn node_tree_entered(&self) -> (f: SignalFuture<()>) {
        proof {
            lemma_exposes_from_inherits(self.class, ClassTag::Node, "tree_entered"@);
        }
        Signal::from_object_signal(self, "tree_entered").to_future()
    }

    fn node_tree_exited(&self) -> (f: SignalFuture<()>) {
        proof {
            lemma_exposes_from_inherits(self.class, ClassTag::Node, "tree_exited"@);
        }
        Signal::from_object_signal(self, "tree_exited").to_future()
    }

    fn node_tree_exiting(&self) -> (f: SignalFuture<()>) {
        proof {
            lemma_exposes_from_inherits(self.class, ClassTag::Node, "tree_exiting"@);
        }
        Signal::from_object_signal(self, "tree_exiting").to_future()
    }
}

/// Awaiting the events a `Node3D` emits.
pub trait Node3DExt: EventSource {
    /// Emitted when the node's visibility changes.
    fn visibility_changed(&self) -> (f: SignalFuture<()>)
        requires
            self.source_ref().alive,
            inherits(self.source_ref().class, ClassTag::Node3D),
        ensures
            fresh_signal_future(&f, self.source_ref(), "visibility_changed"@),
    ;

    /// `visibility_changed`, fallible.
    fn visibility_changed_fallible(&self) -> (f: FallibleSignalFuture<()>)
        requires
            self.source_ref().alive,
            inherits(self.source_ref().class, ClassTag::Node3D),
        ensures
            fresh_fallible_future(&f, self.source_ref(), "visibility_changed"@),
    ;
}

impl Node3DExt for ObjectRef {
    fn visibility_changed(&self) -> (f: SignalFuture<()>) {
        proof {
            lemma_exposes_from_inherits(self.class, ClassTag::Node3D, "visibility_changed"@);
        }
        Signal::from_object_signal(self, "visibility_changed").to_future()
    }

    fn visibility_changed_fallible(&self) -> (f: FallibleSignalFuture<()>) {
        proof {
            lemma_exposes_from_inherits(self.class, ClassTag::Node3D, "visibility_changed"@);
        }
        Signal::from_object_signal(self, "visibility_changed").to_fallible_future()
    }
}

} // verus!
