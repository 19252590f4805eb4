//! The host engine's object model, as far as the event bridge needs it: a
//! class-capability tag per object, the inheritance relation between the
//! event-bearing classes, which class declares which named event, and a
//! non-owning, liveness-checked reference to an engine object.

use vstd::prelude::*;

verus! {

/// Capability tag of an engine class whose events the bridge can await.
#[derive(Clone, Copy, Debug, PartialEq, Eq, Structural)]
pub enum ClassTag {
    Node,
    Node2D,
    Node3D,
    CanvasItem,
    Control,
    BaseButton,
    Button,
    AnimatedSprite2D,
    AnimatedSprite3D,
    SceneTree,
    Timer,
    SceneTreeTimer,
    Tween,
    Viewport,
    AudioStreamPlayer,
    AudioStreamPlayer2D,
    AudioStreamPlayer3D,
    InputEvent,
}

/// The direct superclass of a class, where the bridge cares about one.
pub open spec fn parent_of(c: ClassTag) -> Option<ClassTag> {
    match c {
        ClassTag::Node => None,
        ClassTag::Node2D => Some(ClassTag::CanvasItem),
        ClassTag::Node3D => Some(ClassTag::Node),
        ClassTag::CanvasItem => Some(ClassTag::Node),
        ClassTag::Control => Some(ClassTag::CanvasItem),
        ClassTag::BaseButton => Some(ClassTag::Control),
        ClassTag::Button => Some(ClassTag::BaseButton),
        ClassTag::AnimatedSprite2D => Some(ClassTag::Node2D),
        ClassTag::AnimatedSprite3D => Some(ClassTag::Node3D),
        ClassTag::SceneTree => None,
        ClassTag::Timer => Some(ClassTag::Node),
        ClassTag::SceneTreeTimer => None,
        ClassTag::Tween => None,
        ClassTag::Viewport => Some(ClassTag::Node),
        ClassTag::AudioStreamPlayer => Some(ClassTag::Node),
        ClassTag::AudioStreamPlayer2D => Some(ClassTag::Node2D),
        ClassTag::AudioStreamPlayer3D => Some(ClassTag::Node3D),
        ClassTag::InputEvent => None,
    }
}

/// Length of the superclass chain above a class; the measure for recursion
/// along `parent_of`.
pub open spec fn class_depth(c: ClassTag) -> nat {
    match c {
        ClassTag::Node => 0,
        ClassTag::Node2D => 2,
        ClassTag::Node3D => 1,
        ClassTag::CanvasItem => 1,
        ClassTag::Control => 2,
        ClassTag::BaseButton => 3,
        ClassTag::Button => 4,
        ClassTag::AnimatedSprite2D => 3,
        ClassTag::AnimatedSprite3D => 2,
        ClassTag::SceneTree => 0,
        ClassTag::Timer => 1,
        ClassTag::SceneTreeTimer => 0,
        ClassTag::Tween => 0,
        ClassTag::Viewport => 1,
        ClassTag::AudioStreamPlayer => 1,
        ClassTag::AudioStreamPlayer2D => 3,
        ClassTag::AudioStreamPlayer3D => 2,
        ClassTag::InputEvent => 0,
    }
}

/// Whether class `c` is `ancestor` or inherits from it: the
/// reflexive-transitive closure of `parent_of`, written out so that callers
/// can discharge a capability requirement by evaluation.
pub open spec fn inherits(c: ClassTag, ancestor: ClassTag) -> bool {
    c == ancestor || (match c {
        ClassTag::Node => false,
        ClassTag::Node2D => ancestor == ClassTag::CanvasItem || ancestor == ClassTag::Node,
        ClassTag::Node3D => ancestor == ClassTag::Node,
        ClassTag::CanvasItem => ancestor == ClassTag::Node,
        ClassTag::Control => ancestor == ClassTag::CanvasItem || ancestor == ClassTag::Node,
        ClassTag::BaseButton => ancestor == ClassTag::Control || ancestor == ClassTag::CanvasItem
            || ancestor == ClassTag::Node,
        ClassTag::Button => ancestor == ClassTag::BaseButton || ancestor == ClassTag::Control
            || ancestor == ClassTag::CanvasItem || ancestor == ClassTag::Node,
        ClassTag::AnimatedSprite2D => ancestor == ClassTag::Node2D || ancestor
            == ClassTag::CanvasItem || ancestor == ClassTag::Node,
        ClassTag::AnimatedSprite3D => ancestor == ClassTag::Node3D || ancestor == ClassTag::Node,
        ClassTag::SceneTree => false,
        ClassTag::Timer => ancestor == ClassTag::Node,
        ClassTag::SceneTreeTimer => false,
        ClassTag::Tween => false,
        ClassTag::Viewport => ancestor == ClassTag::Node,
        ClassTag::AudioStreamPlayer => ancestor == ClassTag::Node,
        ClassTag::AudioStreamPlayer2D => ancestor == ClassTag::Node2D || ancestor
            == ClassTag::CanvasItem || ancestor == ClassTag::Node,
        ClassTag::AudioStreamPlayer3D => ancestor == ClassTag::Node3D || ancestor
            == ClassTag::Node,
        ClassTag::InputEvent => false,
    })
}

/// `inherits` is exactly one step of `parent_of` at a time: a class
/// inherits an ancestor other than itself through its direct superclass.
pub proof fn lemma_inherits_via_parent(c: ClassTag, ancestor: ClassTag)
    requires
        inherits(c, ancestor),
        c != ancestor,
    ensures
        (match parent_of(c) {
            Some(p) => inherits(p, ancestor),
            None => false,
        }),
{
}

/// The named events each class itself declares (those this bridge exposes).
pub open spec fn declares(c: ClassTag, name: Seq<char>) -> bool {
    match c {
        ClassTag::Node => name == "child_entered_tree"@ || name == "child_exiting_tree"@ || name
            == "child_order_changed"@ || name == "editor_description_changed"@ || name
            == "editor_state_changed"@ || name == "ready"@ || name == "renamed"@ || name
            == "replacing_by"@ || name == "tree_entered"@ || name == "tree_exited"@ || name
            == "tree_exiting"@,
        ClassTag::CanvasItem => name == "draw"@ || name == "hidden"@ || name
            == "item_rect_changed"@ || name == "visibility_changed"@,
        ClassTag::Node3D => name == "visibility_changed"@,
        ClassTag::Control => name == "focus_entered"@ || name == "focus_exited"@ || name
            == "gui_input"@ || name == "minimum_size_changed"@ || name == "mouse_entered"@ || name
            == "mouse_exited"@ || name == "resized"@ || name == "size_flags_changed"@ || name
            == "theme_changed"@,
        ClassTag::BaseButton => name == "button_down"@ || name == "button_up"@ || name
            == "pressed"@ || name == "toggled"@,
        ClassTag::AnimatedSprite2D => name == "animation_changed"@ || name
            == "animation_finished"@ || name == "animation_looped"@ || name == "frame_changed"@
            || name == "sprite_frames_changed"@,
        ClassTag::AnimatedSprite3D => name == "animation_changed"@ || name
            == "animation_finished"@ || name == "animation_looped"@ || name == "frame_changed"@
            || name == "sprite_frames_changed"@,
        ClassTag::SceneTree => name == "node_added"@ || name
            == "node_configuration_warning_changed"@ || name == "node_removed"@ || name
            == "node_renamed"@ || name == "physics_frame"@ || name == "process_frame"@ || name
            == "tree_changed"@ || name == "tree_process_mode_changed"@,
        ClassTag::Timer => name == "timeout"@,
        ClassTag::SceneTreeTimer => name == "timeout"@,
        ClassTag::Tween => name == "finished"@ || name == "loop_finished"@ || name
            == "step_finished"@,
        ClassTag::Viewport => name == "size_changed"@,
        ClassTag::AudioStreamPlayer => name == "finished"@,
        ClassTag::AudioStreamPlayer2D => name == "finished"@,
        ClassTag::AudioStreamPlayer3D => name == "finished"@,
        _ => false,
    }
}

/// Whether an object of class `c` exposes the named event, by declaring it
/// itself or inheriting a class that does.
pub open spec fn exposes(c: ClassTag, name: Seq<char>) -> bool
    decreases class_depth(c),
{
    declares(c, name) || (match parent_of(c) {
        Some(p) => exposes(p, name),
        None => false,
    })
}

/// A class exposes every event a class it inherits declares.
pub proof fn lemma_exposes_from_inherits(c: ClassTag, ancestor: ClassTag, name: Seq<char>)
    requires
        inherits(c, ancestor),
        declares(ancestor, name),
    ensures
        exposes(c, name),
    decreases class_depth(c),
{
    if c != ancestor {
        lemma_inherits_via_parent(c, ancestor);
        match parent_of(c) {
            Some(p) => lemma_exposes_from_inherits(p, ancestor, name),
            None => {},
        }
    }
}

/// A non-owning reference to an engine object: never keeps the object
/// alive, and records whether the object was live when the reference was
/// last checked against the host's object registry.
#[derive(Clone, Copy, Debug, PartialEq, Eq, Structural)]
pub struct ObjectRef {
    /// The host's instance identity of the object.
    pub id: u64,
    /// The capability tag of the object's class.
    pub class: ClassTag,
    /// Whether the object was live when this reference was checked.
    pub alive: bool,
}

impl ObjectRef {
    /// A checked reference to a live object of class `class`.
    pub fn new(id: u64, class: ClassTag) -> (r: ObjectRef)
        ensures
            r == (ObjectRef { id, class, alive: true }),
    {
        ObjectRef { id, class, alive: true }
    }
}

/// Something that stands for one engine object as a source of events.
pub trait EventSource {
    spec fn source_ref(&self) -> ObjectRef;
}

impl EventSource for ObjectRef {
    open spec fn source_ref(&self) -> ObjectRef {
        *self
    }
}

} // verus!
