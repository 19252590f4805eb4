//! Awaiting host-engine event notifications (signals) without callbacks.
//!
//! The library adapts named engine events into one-shot awaitable values,
//! offers a timer-backed wait primitive, and composes awaitables with a
//! small combinator algebra (`zip`, `try_zip`, `or`, `catch_fault`).
//! All awaitables are driven by an external cooperative scheduler that
//! polls them once per tick; the library itself never blocks.

mod awaitable;
pub mod classes;
mod future;
mod object;
pub mod prelude;
mod signal;
mod wait;

pub use awaitable::{ready, ready_after, AwaitState, Awaitable, Pending, Ready, Step};
pub use awaitable::{faulting, pending, Faulting, ReadyAfter};
pub use future::{catch_fault, lemma_catch_fault_isolates, lemma_or_left_bias,
    lemma_zip_pairs_in_declaration_order, or, try_zip, zip, AbruptFailure, CatchUnwind, FutureExt,
    Or, TryZip, Zip};
pub use object::{class_depth, declares, exposes, inherits, lemma_exposes_from_inherits,
    lemma_inherits_via_parent, parent_of, ClassTag, EventSource, ObjectRef};
pub use signal::{fallible_fire, fallible_run, fallible_source_lost, fallible_step,
    fresh_fallible_future, fresh_signal_future, lemma_destroyed_source_never_yields_payload,
    lemma_first_fire_wins, lemma_resolved_state_is_terminal, one_shot_fire, one_shot_run,
    FallibleEvent, FallibleSignalFuture, LivenessError, Signal, SignalFuture};
pub use wait::{lemma_wait_never_resolves_early, wait, wait_ex, ExWaitBuilder, TickPhase,
    WaitFuture};
