//! Scenarios for the wait builder and the timer-backed wait awaitable.

use godot_await::classes::base_button::BaseButtonExt;
use godot_await::{wait, wait_ex};
use godot_await::{Awaitable, ClassTag, ObjectRef, Step, TickPhase};

#[test]
fn wait_test() {
    // Waiting 0.01 seconds (10_000 microseconds): the awaitable settles
    // only once at least that much scheduler time has elapsed, never
    // before.
    let mut w = wait(10_000);
    assert_eq!(w.poll(), Step::Pending);
    w.advance(4_000, 4_000, false, TickPhase::Process);
    assert_eq!(w.poll(), Step::Pending);
    w.advance(5_999, 5_999, false, TickPhase::Process);
    assert_eq!(w.poll(), Step::Pending);
    assert_eq!(w.remaining_usec(), 1);
    w.advance(1, 1, false, TickPhase::Process);
    assert_eq!(w.poll(), Step::Ready(()));
}

#[test]
fn wait_of_zero_resolves_on_the_next_tick() {
    let mut w = wait(0);
    assert_eq!(w.poll(), Step::Pending);
    w.advance(0, 0, false, TickPhase::Process);
    assert_eq!(w.poll(), Step::Ready(()));
}

#[test]
fn wait_counts_scaled_time_by_default() {
    // Engine-scaled time runs at half speed: only the scaled delta counts.
    let mut w = wait(1_000);
    w.advance(500, 1_000, false, TickPhase::Process);
    assert_eq!(w.poll(), Step::Pending);
    w.advance(500, 1_000, false, TickPhase::Process);
    assert_eq!(w.poll(), Step::Ready(()));
}

#[test]
fn wait_ex_ignore_time_scale_counts_real_time() {
    let mut w = wait_ex(1_000).ignore_time_scale(true).done();
    w.advance(5_000, 200, false, TickPhase::Process);
    assert_eq!(w.poll(), Step::Pending);
    for _ in 0..3 {
        w.advance(5_000, 200, false, TickPhase::Process);
    }
    assert_eq!(w.poll(), Step::Pending);
    w.advance(5_000, 200, false, TickPhase::Process);
    assert_eq!(w.poll(), Step::Ready(()));
}

#[test]
fn wait_ex_suspends_while_paused_unless_processing_always() {
    let mut suspended = wait_ex(100).process_always(false).done();
    suspended.advance(100, 100, true, TickPhase::Process);
    assert_eq!(suspended.poll(), Step::Pending);
    suspended.advance(100, 100, false, TickPhase::Process);
    assert_eq!(suspended.poll(), Step::Ready(()));

    // The default keeps counting while the host is paused.
    let mut counting = wait(100);
    counting.advance(100, 100, true, TickPhase::Process);
    assert_eq!(counting.poll(), Step::Ready(()));
}

#[test]
fn wait_ex_process_in_physics_counts_only_physics_ticks() {
    let mut w = wait_ex(100).process_in_physics(true).done();
    w.advance(100, 100, false, TickPhase::Process);
    assert_eq!(w.poll(), Step::Pending);
    w.advance(100, 100, false, TickPhase::Physics);
    assert_eq!(w.poll(), Step::Ready(()));

    // And the default counts only process ticks.
    let mut p = wait(100);
    p.advance(100, 100, false, TickPhase::Physics);
    assert_eq!(p.poll(), Step::Pending);
    p.advance(100, 100, false, TickPhase::Process);
    assert_eq!(p.poll(), Step::Ready(()));
}

#[test]
fn wait_ex_last_option_write_wins() {
    let mut w = wait_ex(100).ignore_time_scale(true).ignore_time_scale(false).done();
    // Scaled time counts, so the timer expires on scaled deltas alone.
    w.advance(100, 0, false, TickPhase::Process);
    assert_eq!(w.poll(), Step::Ready(()));
}

#[test]
fn wait_is_idempotent_when_done() {
    let mut w = wait(10);
    w.advance(10, 10, false, TickPhase::Process);
    assert_eq!(w.poll(), Step::Ready(()));
    assert_eq!(w.poll(), Step::Ready(()));
    // Further ticks change nothing either.
    w.advance(10, 10, false, TickPhase::Process);
    assert_eq!(w.poll(), Step::Ready(()));
}

#[test]
fn or_with_expired_wait_acts_as_a_timeout() {
    // Composing a timeout externally: the never-firing button loses to the
    // expired timer.
    let button = ObjectRef::new(1, ClassTag::Button);
    let mut w = wait(50);
    w.advance(50, 50, false, TickPhase::Process);
    let mut o = godot_await::or(button.button_down(), w);
    assert_eq!(o.poll(), Step::Ready(()));
}

#[test]
fn or_with_pending_wait_prefers_the_fired_event() {
    let button = ObjectRef::new(1, ClassTag::Button);
    let mut down = button.button_down();
    down.fire(());
    let mut o = godot_await::or(down, wait(1_000_000));
    assert_eq!(o.poll(), Step::Ready(()));
}
