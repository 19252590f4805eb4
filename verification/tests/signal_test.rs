//! Scenarios for the one-shot awaitable adapter.

use godot_await::classes::base_button::BaseButtonExt;
use godot_await::{Awaitable, ClassTag, LivenessError, ObjectRef, Signal, Step};

#[test]
fn one_shot_is_pending_until_the_event_fires() {
    let button = ObjectRef::new(7, ClassTag::Button);
    let mut f = button.button_down();
    assert!(f.is_subscribed());
    assert_eq!(f.poll(), Step::Pending);
    assert_eq!(f.poll(), Step::Pending);
    f.fire(());
    assert_eq!(f.poll(), Step::Ready(()));
}

#[test]
fn one_shot_resolves_with_the_exact_payload_and_unsubscribes() {
    let button = ObjectRef::new(7, ClassTag::Button);
    let mut f = button.toggled();
    assert!(f.is_subscribed());
    f.fire((true,));
    assert!(!f.is_subscribed());
    assert_eq!(f.poll(), Step::Ready((true,)));
}

#[test]
fn one_shot_ignores_a_second_firing() {
    let button = ObjectRef::new(7, ClassTag::Button);
    let mut f = button.toggled();
    f.fire((true,));
    f.fire((false,));
    assert_eq!(f.poll(), Step::Ready((true,)));
    assert!(!f.is_subscribed());
}

#[test]
fn one_shot_polling_after_resolution_returns_the_cached_value() {
    let button = ObjectRef::new(7, ClassTag::Button);
    let mut f = button.button_up();
    f.fire(());
    assert_eq!(f.poll(), Step::Ready(()));
    assert_eq!(f.poll(), Step::Ready(()));
    assert_eq!(f.poll(), Step::Ready(()));
}

#[test]
fn event_firing_between_subscription_and_first_poll_is_not_missed() {
    let button = ObjectRef::new(7, ClassTag::Button);
    let mut f = button.pressed();
    // The event fires before the awaitable was ever polled.
    f.fire(());
    assert_eq!(f.poll(), Step::Ready(()));
}

#[test]
fn fallible_resolves_to_payload_when_the_event_fires_first() {
    let button = ObjectRef::new(7, ClassTag::Button);
    let mut f = button.toggled_fallible();
    assert!(f.is_subscribed());
    assert!(f.is_observing());
    f.fire((true,));
    assert!(!f.is_subscribed());
    assert!(!f.is_observing());
    assert_eq!(f.poll(), Step::Ready(Ok((true,))));
}

#[test]
fn fallible_resolves_to_liveness_error_when_the_source_dies_first() {
    let button = ObjectRef::new(7, ClassTag::Button);
    let mut f = button.pressed_fallible();
    f.source_destroyed();
    assert!(!f.is_subscribed());
    assert!(!f.is_observing());
    assert_eq!(f.poll(), Step::Ready(Err(LivenessError)));
}

#[test]
fn fallible_never_yields_a_payload_after_the_source_died() {
    let button = ObjectRef::new(7, ClassTag::Button);
    let mut f = button.pressed_fallible();
    f.source_destroyed();
    // Even if the event were delivered afterwards, the error is terminal.
    f.fire(());
    assert_eq!(f.poll(), Step::Ready(Err(LivenessError)));
    assert_eq!(f.poll(), Step::Ready(Err(LivenessError)));
}

#[test]
fn fallible_keeps_payload_when_the_source_dies_after_firing() {
    let button = ObjectRef::new(7, ClassTag::Button);
    let mut f = button.toggled_fallible();
    f.fire((false,));
    f.source_destroyed();
    assert_eq!(f.poll(), Step::Ready(Ok((false,))));
}

#[test]
fn handle_records_source_and_event_name() {
    let node = ObjectRef::new(3, ClassTag::Node);
    let mut f = Signal::from_object_signal(&node, "renamed").to_future::<()>();
    assert_eq!(f.poll(), Step::Pending);
    f.fire(());
    assert_eq!(f.poll(), Step::Ready(()));
}
