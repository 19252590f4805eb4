//! Scenarios for the per-class event surfaces.

use godot_await::classes::animated_sprite::AnimatedSpriteExt;
use godot_await::classes::base_button::BaseButtonExt;
use godot_await::classes::control::ControlExt;
use godot_await::classes::node::NodeExt;
use godot_await::classes::scene_tree::SceneTreeExt;
use godot_await::classes::timer::TimerExt;
use godot_await::classes::viewport::ViewportExt;
use godot_await::classes::audio::AudioStreamPlayerExt;
use godot_await::classes::canvas_item::CanvasItemExt;
use godot_await::classes::node::Node3DExt;
use godot_await::classes::tween::TweenExt;
use godot_await::classes::viewport::viewport_size_changed;
use godot_await::{Awaitable, ClassTag, ObjectRef, Step};

#[test]
fn button_test() {
    let button = ObjectRef::new(1, ClassTag::Button);
    let mut down = button.button_down();
    let mut up = button.button_up();
    let mut pressed = button.pressed();
    let mut toggled = button.toggled();
    down.fire(());
    up.fire(());
    pressed.fire(());
    toggled.fire((true,));
    assert_eq!(down.poll(), Step::Ready(()));
    assert_eq!(up.poll(), Step::Ready(()));
    assert_eq!(pressed.poll(), Step::Ready(()));
    assert_eq!(toggled.poll(), Step::Ready((true,)));
}

#[test]
fn button_fallible_test() {
    let button = ObjectRef::new(1, ClassTag::Button);
    let mut pressed = button.pressed_fallible();
    pressed.source_destroyed();
    match pressed.poll() {
        Step::Ready(result) => assert!(result.is_err()),
        _ => panic!("expected the liveness error"),
    }
}

#[test]
fn node_test() {
    let node = ObjectRef::new(2, ClassTag::Node);
    let mut entered = node.tree_entered();
    entered.fire(());
    assert_eq!(entered.poll(), Step::Ready(()));

    let mut exited = node.tree_exited();
    exited.fire(());
    assert_eq!(exited.poll(), Step::Ready(()));

    let mut exiting = node.node_tree_exiting();
    assert_eq!(exiting.poll(), Step::Pending);
}

#[test]
fn node_child_events_carry_the_child() {
    let node = ObjectRef::new(2, ClassTag::Node);
    let child = ObjectRef::new(9, ClassTag::Node);
    let mut f = node.child_entered_tree();
    f.fire((child,));
    assert_eq!(f.poll(), Step::Ready((child,)));
}

#[test]
fn node3d_visibility() {
    let node = ObjectRef::new(4, ClassTag::Node3D);
    let mut f = Node3DExt::visibility_changed(&node);
    f.fire(());
    assert_eq!(f.poll(), Step::Ready(()));
}

#[test]
fn canvas_item_events_work_on_subclasses() {
    // A button is a canvas item by inheritance.
    let button = ObjectRef::new(1, ClassTag::Button);
    let mut f = CanvasItemExt::draw(&button);
    f.fire(());
    assert_eq!(f.poll(), Step::Ready(()));
}

#[test]
fn control_events() {
    let control = ObjectRef::new(5, ClassTag::Control);
    let mut resized = control.resized();
    resized.fire(());
    assert_eq!(resized.poll(), Step::Ready(()));

    let event = ObjectRef::new(11, ClassTag::InputEvent);
    let mut input = control.gui_input();
    input.fire((event,));
    assert_eq!(input.poll(), Step::Ready((event,)));
}

#[test]
fn scene_tree_events() {
    let tree = ObjectRef::new(6, ClassTag::SceneTree);
    let added_node = ObjectRef::new(12, ClassTag::Node);
    let mut added = tree.node_added();
    added.fire((added_node,));
    assert_eq!(added.poll(), Step::Ready((added_node,)));

    let mut frame = tree.process_frame();
    frame.fire(());
    assert_eq!(frame.poll(), Step::Ready(()));
}

#[test]
fn timer_timeout() {
    let timer = ObjectRef::new(8, ClassTag::Timer);
    let mut f = timer.timeout();
    f.fire(());
    assert_eq!(f.poll(), Step::Ready(()));

    let mut g = timer.timeout_fallible();
    g.fire(());
    assert_eq!(g.poll(), Step::Ready(Ok(())));
}

#[test]
fn tween_events_carry_indices() {
    let tween = ObjectRef::new(10, ClassTag::Tween);
    let mut step = tween.step_finished();
    step.fire((3,));
    assert_eq!(step.poll(), Step::Ready((3,)));

    let mut looped = tween.loop_finished();
    looped.fire((2,));
    assert_eq!(looped.poll(), Step::Ready((2,)));

    let mut finished = TweenExt::finished(&tween);
    finished.fire(());
    assert_eq!(finished.poll(), Step::Ready(()));
}

#[test]
fn viewport_events() {
    let viewport = ObjectRef::new(13, ClassTag::Viewport);
    let mut f = viewport.size_changed();
    f.fire(());
    assert_eq!(f.poll(), Step::Ready(()));

    let mut g = viewport_size_changed(&viewport);
    g.fire(());
    assert_eq!(g.poll(), Step::Ready(()));
}

#[test]
fn audio_stream_players_finish() {
    let player = ObjectRef::new(14, ClassTag::AudioStreamPlayer);
    let mut f = AudioStreamPlayerExt::finished(&player);
    f.fire(());
    assert_eq!(f.poll(), Step::Ready(()));

    let spatial = ObjectRef::new(15, ClassTag::AudioStreamPlayer3D);
    let mut g = AudioStreamPlayerExt::finished(&spatial);
    g.fire(());
    assert_eq!(g.poll(), Step::Ready(()));
}

#[test]
fn animated_sprite_events() {
    let sprite = ObjectRef::new(16, ClassTag::AnimatedSprite2D);
    let mut f = sprite.animation_finished();
    f.fire(());
    assert_eq!(f.poll(), Step::Ready(()));

    let sprite3d = ObjectRef::new(17, ClassTag::AnimatedSprite3D);
    let mut g = sprite3d.frame_changed_fallible();
    g.fire(());
    assert_eq!(g.poll(), Step::Ready(Ok(())));
}
