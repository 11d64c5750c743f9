use rusteventloop::run_loop::{
    descriptor_action, observer_action, timer_action, RunLoopAction, RuntimeReport,
};

#[test]
fn dropped_runtime_invalidates_every_callback() {
    assert_eq!(descriptor_action(RuntimeReport::Gone, true), RunLoopAction::InvalidateSelf);
    assert_eq!(timer_action(RuntimeReport::Gone), RunLoopAction::InvalidateSelf);
    assert_eq!(observer_action(RuntimeReport::Gone, true), RunLoopAction::InvalidateSelf);
}

#[test]
fn callbacks_follow_the_runtime_timer() {
    let report = RuntimeReport::Driven(Some(1_000));
    assert_eq!(descriptor_action(report, true), RunLoopAction::RescheduleTimer(1_000));
    assert_eq!(timer_action(report), RunLoopAction::RescheduleTimer(1_000));
    assert_eq!(observer_action(report, true), RunLoopAction::RescheduleTimer(1_000));
}

#[test]
fn callbacks_without_runtime_timer_stay_idle() {
    let report = RuntimeReport::Driven(None);
    assert_eq!(descriptor_action(report, true), RunLoopAction::Idle);
    assert_eq!(descriptor_action(report, false), RunLoopAction::Idle);
    assert_eq!(timer_action(report), RunLoopAction::Idle);
    assert_eq!(observer_action(report, false), RunLoopAction::Idle);
}

#[test]
fn lost_timer_invalidates_descriptor_but_not_observer() {
    let report = RuntimeReport::Driven(Some(5));
    assert_eq!(descriptor_action(report, false), RunLoopAction::InvalidateSelf);
    assert_eq!(observer_action(report, false), RunLoopAction::Idle);
}
