use std::time::Duration;

use compio::runtime::Runtime;
use rusteventloop::glib_source::{
    bool_to_int, check_reply, condition_is_readable, control_flow_to_int, prepare_reply,
    prepare_to_glib, ControlFlow, DriverSource, SourceFuncs, IO_IN,
};
use rusteventloop::timing::millis_u32;

#[test]
fn millis_truncate_to_whole_milliseconds() {
    assert_eq!(millis_u32(0), 0);
    assert_eq!(millis_u32(999_999), 0);
    assert_eq!(millis_u32(5_000_000), 5);
    assert_eq!(millis_u32(1_999_999), 1);
}

#[test]
fn millis_wrap_at_32_bits() {
    let four_g_millis: u128 = (u32::MAX as u128 + 1) * 1_000_000;
    assert_eq!(millis_u32(four_g_millis), 0);
    assert_eq!(millis_u32(four_g_millis + 7_000_000), 7);
    assert_eq!(millis_u32(four_g_millis - 1_000_000), u32::MAX);
}

#[test]
fn prepare_with_tasks_left_is_ready() {
    assert_eq!(prepare_reply(true, None), (true, None));
    assert_eq!(prepare_reply(true, Some(5_000_000)), (true, None));
}

#[test]
fn prepare_without_tasks_follows_the_timer() {
    assert_eq!(prepare_reply(false, None), (false, None));
    assert_eq!(prepare_reply(false, Some(0)), (false, Some(0)));
    assert_eq!(prepare_reply(false, Some(500)), (false, Some(0)));
    assert_eq!(prepare_reply(false, Some(1_500_000)), (false, Some(1)));
    assert_eq!(prepare_reply(false, Some(3_000_000_000)), (false, Some(3000)));
}

#[test]
fn readable_condition_is_exactly_in() {
    assert!(condition_is_readable(IO_IN));
    assert!(condition_is_readable(1 | 64));
    assert!(!condition_is_readable(0));
    assert!(!condition_is_readable(1 | 2));
    assert!(!condition_is_readable(4));
}

#[test]
fn check_dispatches_on_input_or_expired_timer() {
    assert!(check_reply(1, None));
    assert!(check_reply(0, Some(0)));
    assert!(!check_reply(0, Some(1)));
    assert!(!check_reply(0, None));
    assert!(!check_reply(1 | 16, None));
    assert!(check_reply(1 | 16, Some(0)));
}

#[test]
fn booleans_and_control_flow_as_c_ints() {
    assert_eq!(bool_to_int(true), 1);
    assert_eq!(bool_to_int(false), 0);
    assert_eq!(control_flow_to_int(ControlFlow::Continue), 1);
    assert_eq!(control_flow_to_int(ControlFlow::Break), 0);
}

#[test]
fn prepare_answer_reaches_glib() {
    let mut slot: i32 = -1;
    assert_eq!(prepare_to_glib((true, None), &mut slot), 1);
    assert_eq!(slot, -1);
    assert_eq!(prepare_to_glib((false, Some(250)), &mut slot), 0);
    assert_eq!(slot, 250);
    assert_eq!(prepare_to_glib((false, Some(0x8000_0000)), &mut slot), 0);
    assert_eq!(slot, i32::MIN);
}

#[test]
fn idle_driver_source_sleeps_without_limit() {
    let source = DriverSource::new(Runtime::new().unwrap());
    let tasks_remain = source.runtime.run();
    assert!(!tasks_remain);
    assert_eq!(source.prepare(tasks_remain), (false, None));
    assert_eq!(source.prepare(true), (true, None));
    source.runtime.poll_with(Some(Duration::ZERO));
    assert!(!source.check(0));
    assert!(source.check(IO_IN));
    assert_eq!(source.dispatch(), ControlFlow::Continue);
}

#[test]
fn driver_source_sleeps_until_the_runtime_timer() {
    let source = DriverSource::new(Runtime::new().unwrap());
    source
        .runtime
        .spawn(async {
            compio::runtime::time::sleep(Duration::from_secs(10)).await;
        })
        .detach();
    let runtime = source.runtime.clone();
    runtime.enter(|| while runtime.run() {});
    let (ready, timeout) = source.prepare(false);
    assert!(!ready);
    let millis = timeout.unwrap();
    assert!(millis > 9_000 && millis <= 10_000);
    runtime.poll_with(Some(Duration::ZERO));
    assert!(!source.check(0));
}

#[test]
fn driver_source_keeps_itself_after_running_tasks() {
    let source = DriverSource::new(Runtime::new().unwrap());
    let done = std::rc::Rc::new(std::cell::Cell::new(false));
    let flag = done.clone();
    source.runtime.spawn(async move { flag.set(true) }).detach();
    let runtime = source.runtime.clone();
    runtime.enter(|| runtime.run());
    assert!(done.get());
    assert_eq!(source.dispatch(), ControlFlow::Continue);
}
