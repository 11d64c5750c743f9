use compio::runtime::Runtime;
use rusteventloop::message_loop::{
    filter_drives_runtime, filter_tick, filter_timer, message_loop, message_queue, timer_interval,
    timer_tick, FutureJob, JobTrait, LoopAction, LoopEvent, LoopPhase, MessageLoop, NeverJob,
    QueueMessage, USER_TIMER_MAXIMUM, WM_QUIT,
};

fn quit(code: usize) -> QueueMessage {
    QueueMessage { message: WM_QUIT, w_param: code }
}

fn paint() -> QueueMessage {
    QueueMessage { message: 0x000F, w_param: 0 }
}

#[test]
fn timer_interval_without_timer_is_the_maximum() {
    assert_eq!(timer_interval(None), USER_TIMER_MAXIMUM);
    assert_eq!(timer_interval(Some(0)), 0);
    assert_eq!(timer_interval(Some(42_000_000)), 42);
}

#[test]
fn only_dialog_and_message_boxes_drive_the_runtime() {
    assert!(filter_drives_runtime(0));
    assert!(filter_drives_runtime(1));
    assert!(!filter_drives_runtime(2));
    assert!(!filter_drives_runtime(5));
    assert!(!filter_drives_runtime(-1));
    assert_eq!(filter_timer(None), None);
    assert_eq!(filter_timer(Some(2_000_000)), Some(2));
}

#[test]
fn never_job_ends_on_quit_only() {
    let mut job = NeverJob::new();
    assert_eq!(job.check(None), None);
    assert_eq!(job.check(Some(paint())), None);
    assert_eq!(job.check(Some(quit(3))), Some(3));
    assert_eq!(job.check(Some(quit(usize::MAX))), Some(-1));
}

#[test]
fn future_job_hands_out_its_output_once() {
    let mut job: FutureJob<&str> = FutureJob::new();
    assert_eq!(job.check(None), None);
    job.complete("done");
    assert_eq!(job.check(Some(paint())), Some("done"));
    assert_eq!(job.check(None), None);
}

#[test]
fn message_loop_runs_until_quit() {
    let mut l = message_loop();
    assert_eq!(l.phase, LoopPhase::AwaitRun);
    assert_eq!(l.step(LoopEvent::Ran { tasks_remain: false }), LoopAction::QueryTimeout);
    assert_eq!(l.step(LoopEvent::Timeout(Some(7_000_000))), LoopAction::ArmTimerAndWait(7));
    assert_eq!(l.step(LoopEvent::Waited { failed: false }), LoopAction::Peek);
    assert_eq!(l.step(LoopEvent::Peeked(Some(paint()))), LoopAction::OfferToDialog);
    assert_eq!(l.step(LoopEvent::DialogHandled(false)), LoopAction::Dispatch);
    assert_eq!(l.step(LoopEvent::Peeked(None)), LoopAction::PollAndRun);
    assert_eq!(l.step(LoopEvent::Ran { tasks_remain: true }), LoopAction::ArmTimerAndWait(0));
    assert_eq!(l.step(LoopEvent::Waited { failed: false }), LoopAction::Peek);
    assert_eq!(l.step(LoopEvent::Peeked(Some(paint()))), LoopAction::OfferToDialog);
    assert_eq!(l.step(LoopEvent::DialogHandled(true)), LoopAction::Peek);
    assert_eq!(l.step(LoopEvent::Peeked(Some(quit(4)))), LoopAction::Finish(4));
    assert_eq!(l.phase, LoopPhase::Finished);
}

#[test]
fn finished_loop_ignores_events() {
    let mut l = message_loop();
    l.step(LoopEvent::Ran { tasks_remain: true });
    l.step(LoopEvent::Waited { failed: false });
    assert_eq!(l.step(LoopEvent::Peeked(Some(quit(0)))), LoopAction::Finish(0));
    assert_eq!(l.step(LoopEvent::Ran { tasks_remain: false }), LoopAction::Ignore);
    assert_eq!(l.step(LoopEvent::Peeked(Some(quit(9)))), LoopAction::Ignore);
    assert_eq!(l.phase, LoopPhase::Finished);
}

#[test]
fn events_out_of_phase_are_ignored() {
    let mut l = message_loop();
    assert_eq!(l.step(LoopEvent::Peeked(Some(quit(1)))), LoopAction::Ignore);
    assert_eq!(l.step(LoopEvent::Waited { failed: true }), LoopAction::Ignore);
    assert_eq!(l.phase, LoopPhase::AwaitRun);
}

#[test]
fn failed_wait_ends_the_loop() {
    let mut l = message_loop();
    l.step(LoopEvent::Ran { tasks_remain: true });
    assert_eq!(l.step(LoopEvent::Waited { failed: true }), LoopAction::Fail);
    assert_eq!(l.phase, LoopPhase::Failed);
    assert_eq!(l.step(LoopEvent::Waited { failed: false }), LoopAction::Ignore);
}

#[test]
fn message_queue_ends_with_the_future_output() {
    let mut l = message_queue::<u64>();
    assert_eq!(l.step(LoopEvent::Ran { tasks_remain: false }), LoopAction::QueryTimeout);
    assert_eq!(l.step(LoopEvent::Timeout(None)), LoopAction::ArmTimerAndWait(USER_TIMER_MAXIMUM));
    assert_eq!(l.step(LoopEvent::Waited { failed: false }), LoopAction::Peek);
    assert_eq!(l.step(LoopEvent::Peeked(Some(quit(2)))), LoopAction::OfferToDialog);
    assert_eq!(l.step(LoopEvent::DialogHandled(false)), LoopAction::Dispatch);
    assert_eq!(l.step(LoopEvent::Peeked(None)), LoopAction::PollAndRun);
    l.job.complete(77);
    assert_eq!(l.step(LoopEvent::Ran { tasks_remain: true }), LoopAction::Finish(77));
    assert_eq!(l.job.variable, None);
}

#[test]
fn message_queue_output_can_arrive_with_quit() {
    let mut l: MessageLoop<FutureJob<i64>> = message_queue();
    l.step(LoopEvent::Ran { tasks_remain: true });
    l.step(LoopEvent::Waited { failed: false });
    l.job.complete(-5);
    assert_eq!(l.step(LoopEvent::Peeked(Some(quit(0)))), LoopAction::Finish(-5));
}

#[test]
fn iteration_on_an_idle_runtime_sleeps_without_limit() {
    let runtime = Runtime::new().unwrap();
    let mut l = message_loop();
    let action = runtime.enter(|| {
        runtime.poll_with(Some(std::time::Duration::ZERO));
        let tasks_remain = runtime.run();
        l.after_run(tasks_remain, &runtime)
    });
    assert_eq!(action, LoopAction::ArmTimerAndWait(USER_TIMER_MAXIMUM));
    assert_eq!(l.phase, LoopPhase::AwaitWait);
    assert_eq!(timer_tick(&runtime), USER_TIMER_MAXIMUM);
    assert_eq!(filter_tick(0, &runtime), None);
    assert_eq!(filter_tick(2, &runtime), None);
}

#[test]
fn iteration_finishes_a_completed_future() {
    let runtime = Runtime::new().unwrap();
    let output = std::rc::Rc::new(std::cell::RefCell::new(None));
    let slot = output.clone();
    runtime.spawn(async move { *slot.borrow_mut() = Some("out".to_string()) }).detach();
    let mut l = message_queue::<String>();
    let action = runtime.enter(|| {
        runtime.poll_with(Some(std::time::Duration::ZERO));
        let tasks_remain = runtime.run();
        if let Some(value) = output.borrow_mut().take() {
            l.job.complete(value);
        }
        l.after_run(tasks_remain, &runtime)
    });
    assert_eq!(action, LoopAction::Finish("out".to_string()));
    assert_eq!(l.phase, LoopPhase::Finished);
}

#[test]
fn iteration_waits_for_the_runtime_timer() {
    let runtime = Runtime::new().unwrap();
    runtime
        .spawn(async {
            compio::runtime::time::sleep(std::time::Duration::from_secs(20)).await;
        })
        .detach();
    let mut l = message_loop();
    let action = runtime.enter(|| {
        runtime.poll_with(Some(std::time::Duration::ZERO));
        let tasks_remain = runtime.run();
        l.after_run(tasks_remain, &runtime)
    });
    match action {
        LoopAction::ArmTimerAndWait(ms) => assert!(ms == 0 || (ms > 19_000 && ms <= 20_000)),
        other => panic!("unexpected action {:?}", other),
    }
    let interval = runtime.enter(|| {
        runtime.poll_with(Some(std::time::Duration::ZERO));
        runtime.run();
        timer_tick(&runtime)
    });
    assert!(interval > 19_000 && interval <= 20_000);
    let hook = runtime.enter(|| {
        runtime.run();
        filter_tick(1, &runtime)
    });
    assert!(matches!(hook, Some(ms) if ms > 19_000 && ms <= 20_000));
}
