//! Scenarios for the combinator algebra.

use godot_await::classes::base_button::BaseButtonExt;
use godot_await::{
    catch_fault, faulting, or, pending, ready, ready_after, try_zip, zip, AbruptFailure,
    Awaitable, ClassTag, FutureExt, ObjectRef, Step,
};

#[test]
fn zip_basic() {
    let mut z = zip(ready(1), ready(2));
    assert_eq!(z.poll(), Step::Ready((1, 2)));
}

#[test]
fn zip_test() {
    let button = ObjectRef::new(1, ClassTag::Button);
    let mut down = button.button_down();
    let mut toggled = button.toggled();
    down.fire(());
    toggled.fire((true,));
    let mut z = zip(down, toggled);
    assert_eq!(z.poll(), Step::Ready(((), (true,))));
}

#[test]
fn zip_resolves_only_once_both_are_done() {
    // The first branch settles on the third poll, the second on the fifth:
    // the pair arrives exactly at step five.
    let mut z = zip(ready_after(3, 10), ready_after(5, 20));
    for _ in 0..4 {
        assert_eq!(z.poll(), Step::Pending);
    }
    assert_eq!(z.poll(), Step::Ready((10, 20)));
}

#[test]
fn zip_pairs_in_declaration_order_whatever_the_arrival_order() {
    // The second branch settles first; the pair still reads
    // (first branch's value, second branch's value).
    let mut z = zip(ready_after(5, 10), ready_after(3, 20));
    for _ in 0..4 {
        assert_eq!(z.poll(), Step::Pending);
    }
    assert_eq!(z.poll(), Step::Ready((10, 20)));
}

#[test]
fn zip_is_idempotent_when_done() {
    let mut z = zip(ready(1), ready(2));
    assert_eq!(z.poll(), Step::Ready((1, 2)));
    assert_eq!(z.poll(), Step::Ready((1, 2)));
    assert_eq!(z.poll(), Step::Ready((1, 2)));
}

#[test]
fn zip_propagates_fault() {
    let mut z = zip(faulting::<i32>(), ready(1));
    assert_eq!(z.poll(), Step::Fault);
}

#[test]
fn try_zip_both_ok() {
    let mut t = try_zip(ready(Ok::<i32, i32>(1)), ready(Ok::<i32, i32>(2)));
    assert_eq!(t.poll(), Step::Ready(Ok((1, 2))));
}

#[test]
fn try_zip_yields_error_of_erring_branch() {
    let mut t = try_zip(ready(Ok::<i32, i32>(1)), ready(Err::<i32, i32>(2)));
    assert_eq!(t.poll(), Step::Ready(Err(2)));
}

#[test]
fn try_zip_short_circuits_before_other_branch_resolves() {
    // The first branch errs at step two while the second never settles: the
    // combinator resolves immediately to that error.
    let mut t = try_zip(ready_after(2, Err::<i32, i32>(7)), pending::<Result<i32, i32>>());
    assert_eq!(t.poll(), Step::Pending);
    assert_eq!(t.poll(), Step::Ready(Err(7)));
    // The error is cached like any settled value.
    assert_eq!(t.poll(), Step::Ready(Err(7)));
}

#[test]
fn or_prefers_ready_left_branch() {
    let mut o = or(ready(1), pending::<i32>());
    assert_eq!(o.poll(), Step::Ready(1));
}

#[test]
fn or_takes_right_branch_when_left_is_pending() {
    let mut o = or(pending::<i32>(), ready(2));
    assert_eq!(o.poll(), Step::Ready(2));
}

#[test]
fn or_is_left_biased_when_both_are_ready() {
    let mut o = or(ready(1), ready(2));
    assert_eq!(o.poll(), Step::Ready(1));
}

#[test]
fn or_is_idempotent_when_done() {
    let mut o = or(pending::<i32>(), ready(2));
    assert_eq!(o.poll(), Step::Ready(2));
    assert_eq!(o.poll(), Step::Ready(2));
}

#[test]
fn or_stays_pending_while_both_branches_are() {
    let mut o = or(pending::<i32>(), ready_after(2, 9));
    assert_eq!(o.poll(), Step::Pending);
    assert_eq!(o.poll(), Step::Ready(9));
}

#[test]
fn or_propagates_fault() {
    let mut o = or(faulting::<i32>(), ready(1));
    assert_eq!(o.poll(), Step::Fault);
}

#[test]
fn or_method_sugar_matches_function_form() {
    let mut o = ready(1).or(pending::<i32>());
    assert_eq!(o.poll(), Step::Ready(1));
    let mut o2 = pending::<i32>().or(ready(2));
    assert_eq!(o2.poll(), Step::Ready(2));
}

#[test]
fn catch_fault_isolates_abrupt_failure() {
    let mut c = catch_fault(faulting::<i32>());
    assert_eq!(c.poll(), Step::Ready(Err(AbruptFailure)));
}

#[test]
fn catch_fault_wraps_clean_resolution() {
    let mut c = catch_fault(ready(5));
    assert_eq!(c.poll(), Step::Ready(Ok(5)));
}

#[test]
fn catch_fault_passes_pending_through() {
    let mut c = catch_fault(ready_after(2, 5));
    assert_eq!(c.poll(), Step::Pending);
    assert_eq!(c.poll(), Step::Ready(Ok(5)));
}

#[test]
fn catch_fault_method_sugar() {
    let mut c = faulting::<i32>().catch_fault();
    assert_eq!(c.poll(), Step::Ready(Err(AbruptFailure)));
}

#[test]
fn or_test_catch_fault() {
    // A poll that would die abruptly inside the host binding surfaces as a
    // recoverable error instead of destroying the awaiting task.
    let mut guarded = faulting::<()>().catch_fault();
    match guarded.poll() {
        Step::Ready(result) => assert!(result.is_err()),
        _ => panic!("expected the fault to surface as a value"),
    }
}

#[test]
fn combinators_compose() {
    let mut z = zip(or(pending::<i32>(), ready(1)), catch_fault(ready(2)));
    assert_eq!(z.poll(), Step::Ready((1, Ok(2))));
}
