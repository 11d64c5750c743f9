//! The read of the compio runtime that the event-loop logic makes. Polling
//! the driver and running tasks is left to the program: compio panics there
//! on driver errors and on a re-entered run, which no precondition here can
//! rule out.

use vstd::prelude::*;
use compio::runtime::Runtime;

verus! {

/// compio's thread-local async runtime, carried through opaquely.
#[verifier::external_type_specification]
#[verifier::external_body]
pub struct ExRuntime(Runtime);

/// Calls `compio::runtime::Runtime::current_timeout`, the time until the
/// runtime's nearest timer, and hands it back in nanoseconds. Nothing is
/// stated of the result: it depends on the timers registered and the clock.
#[verifier::external_body]
pub(crate) fn current_timeout_nanos(runtime: &Runtime) -> (timeout: Option<u128>) {
    match runtime.current_timeout() {
        Some(duration) => Some(duration.as_nanos()),
        None => None,
    }
}

} // verus!
