//! A glib event source that drives a compio runtime: what its `prepare`,
//! `check` and `dispatch` callbacks answer glib.

use vstd::prelude::*;
use compio::runtime::Runtime;
use crate::runtime::current_timeout_nanos;
use crate::timing::{millis_u32, spec_millis_u32};

verus! {

/// What a source's `dispatch` tells glib: keep the source, or remove it.
#[derive(Clone, Copy, Debug, PartialEq, Eq, Structural)]
pub enum ControlFlow {
    Continue,
    Break,
}

/// The condition bits that glib defines (`G_IO_IN` up to `G_IO_NVAL`);
/// others are dropped when glib's bits are read as an `IOCondition`.
pub const IO_CONDITION_BITS: u32 = 0x3f;

/// `G_IO_IN`: there is data to read.
pub const IO_IN: u32 = 1;

/// The queried condition of the runtime's descriptor is exactly "readable".
pub open spec fn spec_condition_is_readable(bits: u32) -> bool {
    bits & IO_CONDITION_BITS == IO_IN
}

pub fn condition_is_readable(bits: u32) -> (r: bool)
    ensures
        r == spec_condition_is_readable(bits),
{
    bits & IO_CONDITION_BITS == IO_IN
}

/// The answer of `prepare` once the runtime has been ticked: `busy` says that
/// tasks remain, `timeout` is the runtime's nearest timer in nanoseconds.
/// With tasks left the source is ready at once; otherwise glib may sleep
/// until the nearest timer, or without limit when there is none.
pub open spec fn spec_prepare_reply(busy: bool, timeout: Option<u128>) -> (bool, Option<u32>) {
    if busy {
        (true, None)
    } else {
        match timeout {
            Some(nanos) => (false, Some(spec_millis_u32(nanos))),
            None => (false, None),
        }
    }
}

pub fn prepare_reply(busy: bool, timeout: Option<u128>) -> (r: (bool, Option<u32>))
    ensures
        r == spec_prepare_reply(busy, timeout),
{
    if busy {
        return (true, None);
    }
    match timeout {
        Some(nanos) => {
            if nanos == 0 {
                // an expired timer still has to go through `check`, which polls
                (false, Some(0))
            } else {
                (false, Some(millis_u32(nanos)))
            }
        },
        None => (false, None),
    }
}

/// The answer of `check` once the driver has been polled: dispatch when the
/// descriptor is readable or a timer has expired.
pub open spec fn spec_check_reply(bits: u32, timeout: Option<u128>) -> bool {
    spec_condition_is_readable(bits) || timeout == Some(0u128)
}

pub fn check_reply(bits: u32, timeout: Option<u128>) -> (r: bool)
    ensures
        r == spec_check_reply(bits, timeout),
{
    if condition_is_readable(bits) {
        return true;
    }
    match timeout {
        Some(nanos) => nanos == 0,
        None => false,
    }
}

/// A C boolean.
pub open spec fn spec_bool_to_int(boolean: bool) -> i32 {
    if boolean { 1 } else { 0 }
}

pub fn bool_to_int(boolean: bool) -> (r: i32)
    ensures
        r == spec_bool_to_int(boolean),
{
    if boolean { 1 } else { 0 }
}

/// The `gboolean` that stands for a `ControlFlow`: `TRUE` keeps the source.
pub open spec fn spec_control_flow_to_int(flow: ControlFlow) -> i32 {
    match flow {
        ControlFlow::Continue => 1,
        ControlFlow::Break => 0,
    }
}

pub fn control_flow_to_int(flow: ControlFlow) -> (r: i32)
    ensures
        r == spec_control_flow_to_int(flow),
{
    match flow {
        ControlFlow::Continue => 1,
        ControlFlow::Break => 0,
    }
}

/// How a `prepare` answer reaches glib: the readiness as the return value,
/// and the timeout, when there is one, written into glib's timeout slot as
/// a C `int` (a value above `i32::MAX` wraps, as `as i32` does).
pub fn prepare_to_glib(reply: (bool, Option<u32>), timeout_slot: &mut i32) -> (r: i32)
    ensures
        r == spec_bool_to_int(reply.0),
        *final(timeout_slot) == match reply.1 {
            Some(t) => t as i32,
            None => *old(timeout_slot),
        },
{
    if let Some(t) = reply.1 {
        *timeout_slot = t as i32;
    }
    bool_to_int(reply.0)
}

/// The callbacks of a glib source, with what they are handed given as plain
/// values: `prepare` receives what running the source's work answered (are
/// tasks left), `check` the condition bits of the source's descriptor. The
/// program drives the work itself (for a `DriverSource`: runs the runtime
/// before `prepare` and `dispatch`, polls its driver before `check`).
pub trait SourceFuncs {
    /// By default a source is never dispatched from `check`.
    fn check(&self, condition: u32) -> (r: bool)
        default_ensures
            r == false,
    {
        false
    }

    fn dispatch(&self) -> ControlFlow;

    fn prepare(&self, tasks_remain: bool) -> (bool, Option<u32>);
}

/// A glib source whose callbacks drive a compio runtime.
pub struct DriverSource {
    pub runtime: Runtime,
}

impl DriverSource {
    pub fn new(runtime: Runtime) -> (source: DriverSource)
        ensures
            source.runtime == runtime,
    {
        DriverSource { runtime }
    }
}

impl SourceFuncs for DriverSource {
    /// Answers from what the run of the runtime reported and, when no task
    /// is left, from the runtime's nearest timer.
    fn prepare(&self, tasks_remain: bool) -> (r: (bool, Option<u32>))
        ensures
            tasks_remain ==> r == spec_prepare_reply(true, None),
            !tasks_remain ==> exists|timeout: Option<u128>|
                r == spec_prepare_reply(false, timeout),
    {
        let timeout = if tasks_remain {
            None
        } else {
            current_timeout_nanos(&self.runtime)
        };
        prepare_reply(tasks_remain, timeout)
    }

    /// Once the driver has been polled, answers from the condition and the
    /// runtime's timers: a readable descriptor is always dispatched.
    fn check(&self, condition: u32) -> (r: bool)
        ensures
            spec_condition_is_readable(condition) ==> r,
            exists|timeout: Option<u128>| r == spec_check_reply(condition, timeout),
    {
        if condition_is_readable(condition) {
            assert(spec_check_reply(condition, None));
            return true;
        }
        let timeout = current_timeout_nanos(&self.runtime);
        check_reply(condition, timeout)
    }

    /// Once the ready tasks have run, keeps the source.
    fn dispatch(&self) -> (r: ControlFlow)
        ensures
            r == ControlFlow::Continue,
    {
        ControlFlow::Continue
    }
}

/// While tasks remain the source is ready at once, whatever the runtime's
/// timers: glib does not sleep.
pub proof fn lemma_busy_runtime_is_ready(timeout: Option<u128>)
    ensures
        spec_prepare_reply(true, timeout) == (true, Option::<u32>::None),
{
}

/// A runtime timer that has already expired makes glib wake at once
/// (`prepare` answers a zero timeout) and gets the source dispatched
/// (`check` answers yes), whatever the descriptor's condition.
pub proof fn lemma_expired_timer_is_dispatched(bits: u32)
    ensures
        spec_prepare_reply(false, Some(0u128)) == (false, Some(0u32)),
        spec_check_reply(bits, Some(0u128)),
{
    assert(spec_millis_u32(0u128) == 0u32);
}

/// `check` dispatches a descriptor whose condition is exactly readable
/// whatever the runtime's timers; any other condition is dispatched exactly
/// when a runtime timer has expired.
pub proof fn lemma_check_dispatches_readable_or_expired(bits: u32, timeout: Option<u128>)
    ensures
        bits & IO_CONDITION_BITS == IO_IN ==> spec_check_reply(bits, timeout),
        bits & IO_CONDITION_BITS != IO_IN ==> (spec_check_reply(bits, timeout) <==> timeout
            == Some(0u128)),
{
}

/// Without tasks left, `prepare` lets glib sleep without limit exactly when
/// the runtime has no timer, and otherwise for the whole milliseconds of the
/// runtime's timeout (when they fit in 32 bits): never longer than the
/// timeout, and less than a millisecond shorter.
pub proof fn lemma_prepare_sleeps_until_the_timer(timeout: Option<u128>)
    ensures
        !spec_prepare_reply(false, timeout).0,
        spec_prepare_reply(false, timeout).1 is None <==> timeout is None,
        timeout is Some && timeout->0 < 0x1_0000_0000 * 1_000_000 ==> ({
            let ms = spec_prepare_reply(false, timeout).1->0;
            ms * 1_000_000 <= timeout->0 < (ms + 1) * 1_000_000
        }),
{
    if timeout is Some && timeout->0 < 0x1_0000_0000 * 1_000_000 {
        crate::timing::lemma_millis_bracket(timeout->0);
    }
}

} // verus!
