//! A compio runtime inside a Win32 message loop: which timer to arm, when a
//! job has its result, and what to do with each message taken off the queue.

use vstd::prelude::*;
use compio::runtime::Runtime;
use crate::runtime::current_timeout_nanos;
use crate::timing::{millis_u32, spec_millis_u32};

verus! {

/// `WM_QUIT`: the message that `PostQuitMessage` posts.
pub const WM_QUIT: u32 = 18;

/// `USER_TIMER_MAXIMUM`: the longest interval `SetTimer` takes, in milliseconds.
pub const USER_TIMER_MAXIMUM: u32 = 0x7fff_ffff;

/// Message-filter hook codes: a dialog box, a message box, a menu and a
/// scroll bar run their own modal message loop.
pub const MSGF_DIALOGBOX: u32 = 0;

pub const MSGF_MESSAGEBOX: u32 = 1;

pub const MSGF_MENU: u32 = 2;

pub const MSGF_SCROLLBAR: u32 = 5;

/// What the loop reads of a queued `MSG`: its identifier and `wParam`.
#[derive(Clone, Copy, Debug, PartialEq, Eq, Structural)]
pub struct QueueMessage {
    pub message: u32,
    pub w_param: usize,
}

/// The timer interval, in milliseconds, that stands for a runtime timeout:
/// the longest interval there is when the runtime has no timer.
pub open spec fn spec_timer_interval(timeout: Option<u128>) -> u32 {
    match timeout {
        Some(nanos) => spec_millis_u32(nanos),
        None => USER_TIMER_MAXIMUM,
    }
}

pub fn timer_interval(timeout: Option<u128>) -> (r: u32)
    ensures
        r == spec_timer_interval(timeout),
{
    match timeout {
        Some(nanos) => millis_u32(nanos),
        None => USER_TIMER_MAXIMUM,
    }
}

/// The timer callback, once it has polled and run the runtime: the interval
/// to re-arm the timer with, taken from the runtime's nearest timer.
pub fn timer_tick(runtime: &Runtime) -> (interval: u32)
    ensures
        exists|timeout: Option<u128>| interval == spec_timer_interval(timeout),
{
    let timeout = current_timeout_nanos(runtime);
    timer_interval(timeout)
}

/// A message-filter hook call drives the runtime while a dialog box or a
/// message box runs its modal loop; menus, scroll bars and other codes are
/// left alone.
pub open spec fn spec_filter_drives_runtime(code: i32) -> bool {
    code as u32 == MSGF_DIALOGBOX || code as u32 == MSGF_MESSAGEBOX
}

pub fn filter_drives_runtime(code: i32) -> (r: bool)
    ensures
        r == spec_filter_drives_runtime(code),
{
    let kind: u32 = code as u32;
    kind == MSGF_DIALOGBOX || kind == MSGF_MESSAGEBOX
}

/// After a hook call has driven the runtime: re-arm the timer only when the
/// runtime has a timer (the hook is called often, so without one the timer
/// is left as it is).
pub open spec fn spec_filter_timer(timeout: Option<u128>) -> Option<u32> {
    match timeout {
        Some(nanos) => Some(spec_millis_u32(nanos)),
        None => None,
    }
}

pub fn filter_timer(timeout: Option<u128>) -> (r: Option<u32>)
    ensures
        r == spec_filter_timer(timeout),
{
    match timeout {
        Some(nanos) => Some(millis_u32(nanos)),
        None => None,
    }
}

/// The message-filter hook: for a dialog box or a message box (whose call
/// has polled and run the runtime first, as `filter_drives_runtime` asks),
/// the interval to re-arm the timer with, if any; for other codes the
/// runtime is not read and the answer is `None`.
pub fn filter_tick(code: i32, runtime: &Runtime) -> (interval: Option<u32>)
    ensures
        !spec_filter_drives_runtime(code) ==> interval is None,
        spec_filter_drives_runtime(code) ==> exists|timeout: Option<u128>|
            interval == spec_filter_timer(timeout),
{
    if filter_drives_runtime(code) {
        let timeout = current_timeout_nanos(runtime);
        filter_timer(timeout)
    } else {
        None
    }
}

/// The work a message loop waits on. `check` is asked for the result at the
/// top of each iteration (with no message) and again for each `WM_QUIT`
/// taken off the queue; `Some` ends the loop with that result.
pub trait JobTrait: Sized {
    type Output;

    /// The job after the check, and the result the check gives.
    spec fn check_spec(&self, msg: Option<QueueMessage>) -> (Self, Option<Self::Output>);

    fn check(&mut self, msg: Option<QueueMessage>) -> (result: Option<Self::Output>)
        ensures
            (*final(self), result) == old(self).check_spec(msg),
    ;
}

/// A job that never finishes by itself: the loop ends with the exit code of
/// the first `WM_QUIT`.
#[derive(Clone, Copy, Debug, PartialEq, Eq, Structural)]
pub struct NeverJob {}

impl NeverJob {
    pub fn new() -> (job: NeverJob)
        ensures
            job == (NeverJob {}),
    {
        NeverJob {}
    }
}

/// The exit code that a message gives a `NeverJob` loop: the `wParam` of a
/// `WM_QUIT`, as the C `int` that `PostQuitMessage` took.
pub open spec fn spec_quit_code(msg: Option<QueueMessage>) -> Option<i32> {
    match msg {
        Some(m) => if m.message == WM_QUIT { Some(m.w_param as i32) } else { None },
        None => None,
    }
}

impl JobTrait for NeverJob {
    type Output = i32;

    open spec fn check_spec(&self, msg: Option<QueueMessage>) -> (NeverJob, Option<i32>) {
        (*self, spec_quit_code(msg))
    }

    fn check(&mut self, msg: Option<QueueMessage>) -> (result: Option<i32>) {
        match msg {
            None => None,
            Some(m) => {
                if m.message == WM_QUIT {
                    Some(m.w_param as i32)
                } else {
                    None
                }
            },
        }
    }
}

/// A job that waits for a future: `variable` holds the future's output once
/// it has completed, until the loop takes it.
pub struct FutureJob<T> {
    pub variable: Option<T>,
}

impl<T> FutureJob<T> {
    pub fn new() -> (job: FutureJob<T>)
        ensures
            job.variable is None,
    {
        FutureJob { variable: None }
    }

    /// Stores the output of the completed future.
    pub fn complete(&mut self, output: T)
        ensures
            final(self).variable == Some(output),
    {
        self.variable = Some(output);
    }
}

impl<T> JobTrait for FutureJob<T> {
    type Output = T;

    open spec fn check_spec(&self, msg: Option<QueueMessage>) -> (FutureJob<T>, Option<T>) {
        (FutureJob { variable: None }, self.variable)
    }

    fn check(&mut self, msg: Option<QueueMessage>) -> (result: Option<T>) {
        self.variable.take()
    }
}

/// Where a message loop stands between two events.
#[derive(Clone, Copy, Debug, PartialEq, Eq, Structural)]
pub enum LoopPhase {
    /// The runtime is being polled and run.
    AwaitRun,
    /// The runtime's nearest timer is being read.
    AwaitTimeout,
    /// The thread waits for messages or for the runtime's driver.
    AwaitWait,
    /// A message is being taken off the queue.
    AwaitPeek,
    /// The message taken is offered to the dialog box it belongs to.
    AwaitDialog,
    /// The job has its result; the loop is over.
    Finished,
    /// Waiting failed; the loop is over.
    Failed,
}

/// What the outside world reports back to a message loop.
#[derive(Clone, Copy, Debug, PartialEq, Eq, Structural)]
pub enum LoopEvent {
    /// The runtime was polled and run; `tasks_remain` is what `run` answered.
    Ran { tasks_remain: bool },
    /// The runtime's nearest timer, in nanoseconds.
    Timeout(Option<u128>),
    /// The wait for messages or for the driver returned.
    Waited { failed: bool },
    /// The next message of the queue, or `None` when the queue is empty.
    Peeked(Option<QueueMessage>),
    /// Whether the dialog box handled the message.
    DialogHandled(bool),
}

/// What a message loop asks the outside world to do next.
#[derive(Clone, Copy, Debug, PartialEq, Eq)]
pub enum LoopAction<T> {
    /// Poll the runtime's driver without blocking, run the runtime, report `Ran`.
    PollAndRun,
    /// Read the runtime's nearest timer, report `Timeout`.
    QueryTimeout,
    /// Arm the loop's timer with this many milliseconds, wait for messages
    /// or the driver, report `Waited`.
    ArmTimerAndWait(u32),
    /// Take the next message off the queue, report `Peeked`.
    Peek,
    /// Offer the message taken to its dialog box, report `DialogHandled`.
    OfferToDialog,
    /// Translate and dispatch the message taken, then take the next one and
    /// report `Peeked`.
    Dispatch,
    /// The loop is over with this result.
    Finish(T),
    /// The loop is over: waiting failed.
    Fail,
    /// The event does not belong to this phase; nothing changed.
    Ignore,
}

/// A message loop that waits for a job.
pub struct MessageLoop<J> {
    pub phase: LoopPhase,
    pub job: J,
}

impl<J: JobTrait> MessageLoop<J> {
    /// The loop after `event`, and what it asks for next.
    pub open spec fn next(self, event: LoopEvent) -> (MessageLoop<J>, LoopAction<J::Output>) {
        match self.phase {
            LoopPhase::AwaitRun => match event {
                LoopEvent::Ran { tasks_remain } => {
                    let (job, result) = self.job.check_spec(None);
                    match result {
                        Some(v) => (MessageLoop { phase: LoopPhase::Finished, job }, LoopAction::Finish(v)),
                        None => if tasks_remain {
                            (
                                MessageLoop { phase: LoopPhase::AwaitWait, job },
                                LoopAction::ArmTimerAndWait(spec_timer_interval(Some(0u128))),
                            )
                        } else {
                            (MessageLoop { phase: LoopPhase::AwaitTimeout, job }, LoopAction::QueryTimeout)
                        },
                    }
                },
                _ => (self, LoopAction::Ignore),
            },
            LoopPhase::AwaitTimeout => match event {
                LoopEvent::Timeout(timeout) => (
                    MessageLoop { phase: LoopPhase::AwaitWait, job: self.job },
                    LoopAction::ArmTimerAndWait(spec_timer_interval(timeout)),
                ),
                _ => (self, LoopAction::Ignore),
            },
            LoopPhase::AwaitWait => match event {
                LoopEvent::Waited { failed } => if failed {
                    (MessageLoop { phase: LoopPhase::Failed, job: self.job }, LoopAction::Fail)
                } else {
                    (MessageLoop { phase: LoopPhase::AwaitPeek, job: self.job }, LoopAction::Peek)
                },
                _ => (self, LoopAction::Ignore),
            },
            LoopPhase::AwaitPeek => match event {
                LoopEvent::Peeked(None) => (
                    MessageLoop { phase: LoopPhase::AwaitRun, job: self.job },
                    LoopAction::PollAndRun,
                ),
                LoopEvent::Peeked(Some(m)) => if m.message == WM_QUIT {
                    let (job, result) = self.job.check_spec(Some(m));
                    match result {
                        Some(v) => (MessageLoop { phase: LoopPhase::Finished, job }, LoopAction::Finish(v)),
                        None => (MessageLoop { phase: LoopPhase::AwaitDialog, job }, LoopAction::OfferToDialog),
                    }
                } else {
                    (MessageLoop { phase: LoopPhase::AwaitDialog, job: self.job }, LoopAction::OfferToDialog)
                },
                _ => (self, LoopAction::Ignore),
            },
            LoopPhase::AwaitDialog => match event {
                LoopEvent::DialogHandled(handled) => if handled {
                    (MessageLoop { phase: LoopPhase::AwaitPeek, job: self.job }, LoopAction::Peek)
                } else {
                    (MessageLoop { phase: LoopPhase::AwaitPeek, job: self.job }, LoopAction::Dispatch)
                },
                _ => (self, LoopAction::Ignore),
            },
            LoopPhase::Finished => (self, LoopAction::Ignore),
            LoopPhase::Failed => (self, LoopAction::Ignore),
        }
    }

    /// One trip through the runtime: the loop after it reports `Ran`, and,
    /// when the loop then asks for the nearest timer, after it reports that.
    pub open spec fn iteration_outcome(self, tasks_remain: bool, timeout: Option<u128>) -> (
        MessageLoop<J>,
        LoopAction<J::Output>,
    ) {
        let (after_run, action) = self.next(LoopEvent::Ran { tasks_remain });
        if action is QueryTimeout {
            after_run.next(LoopEvent::Timeout(timeout))
        } else {
            (after_run, action)
        }
    }

    /// A loop whose first step is to poll and run the runtime.
    pub fn new(job: J) -> (l: MessageLoop<J>)
        ensures
            l.phase == LoopPhase::AwaitRun,
            l.job == job,
    {
        MessageLoop { phase: LoopPhase::AwaitRun, job }
    }

    /// Takes one event and answers what to do next.
    pub fn step(&mut self, event: LoopEvent) -> (action: LoopAction<J::Output>)
        ensures
            (*final(self), action) == old(self).next(event),
    {
        match self.phase {
            LoopPhase::AwaitRun => match event {
                LoopEvent::Ran { tasks_remain } => {
                    match self.job.check(None) {
                        Some(v) => {
                            self.phase = LoopPhase::Finished;
                            LoopAction::Finish(v)
                        },
                        None => if tasks_remain {
                            self.phase = LoopPhase::AwaitWait;
                            LoopAction::ArmTimerAndWait(timer_interval(Some(0)))
                        } else {
                            self.phase = LoopPhase::AwaitTimeout;
                            LoopAction::QueryTimeout
                        },
                    }
                },
                _ => LoopAction::Ignore,
            },
            LoopPhase::AwaitTimeout => match event {
                LoopEvent::Timeout(timeout) => {
                    self.phase = LoopPhase::AwaitWait;
                    LoopAction::ArmTimerAndWait(timer_interval(timeout))
                },
                _ => LoopAction::Ignore,
            },
            LoopPhase::AwaitWait => match event {
                LoopEvent::Waited { failed } => if failed {
                    self.phase = LoopPhase::Failed;
                    LoopAction::Fail
                } else {
                    self.phase = LoopPhase::AwaitPeek;
                    LoopAction::Peek
                },
                _ => LoopAction::Ignore,
            },
            LoopPhase::AwaitPeek => match event {
                LoopEvent::Peeked(None) => {
                    self.phase = LoopPhase::AwaitRun;
                    LoopAction::PollAndRun
                },
                LoopEvent::Peeked(Some(m)) => {
                    if m.message == WM_QUIT {
                        match self.job.check(Some(m)) {
                            Some(v) => {
                                self.phase = LoopPhase::Finished;
                                return LoopAction::Finish(v);
                            },
                            None => {},
                        }
                    }
                    self.phase = LoopPhase::AwaitDialog;
                    LoopAction::OfferToDialog
                },
                _ => LoopAction::Ignore,
            },
            LoopPhase::AwaitDialog => match event {
                LoopEvent::DialogHandled(handled) => {
                    self.phase = LoopPhase::AwaitPeek;
                    if handled {
                        LoopAction::Peek
                    } else {
                        LoopAction::Dispatch
                    }
                },
                _ => LoopAction::Ignore,
            },
            LoopPhase::Finished => LoopAction::Ignore,
            LoopPhase::Failed => LoopAction::Ignore,
        }
    }
}

impl<J: JobTrait> MessageLoop<J> {
    /// Takes the report of a run of the runtime (`tasks_remain` is what the
    /// run answered); when the job has no result and no task remains, reads
    /// the runtime's nearest timer and takes that too. It answers a timer to
    /// arm and wait on, or the end of the loop.
    pub fn after_run(&mut self, tasks_remain: bool, runtime: &Runtime) -> (action: LoopAction<J::Output>)
        requires
            old(self).phase == LoopPhase::AwaitRun,
        ensures
            exists|timeout: Option<u128>|
                (*final(self), action) == old(self).iteration_outcome(tasks_remain, timeout),
            !(action is QueryTimeout),
    {
        let ghost start = *self;
        let action = self.step(LoopEvent::Ran { tasks_remain });
        match action {
            LoopAction::QueryTimeout => {
                let timeout = current_timeout_nanos(runtime);
                let next_action = self.step(LoopEvent::Timeout(timeout));
                assert((*self, next_action) == start.iteration_outcome(tasks_remain, timeout));
                next_action
            },
            _ => {
                assert((*self, action) == start.iteration_outcome(tasks_remain, None));
                action
            },
        }
    }
}

/// The loop that runs a future to completion: it ends with the future's
/// output once `complete` has stored it.
pub fn message_queue<T>() -> (l: MessageLoop<FutureJob<T>>)
    ensures
        l.phase == LoopPhase::AwaitRun,
        l.job.variable is None,
{
    MessageLoop::new(FutureJob::new())
}

/// The plain message loop: it ends with the exit code of the first
/// `WM_QUIT`.
pub fn message_loop() -> (l: MessageLoop<NeverJob>)
    ensures
        l.phase == LoopPhase::AwaitRun,
        l.job == (NeverJob {}),
{
    MessageLoop::new(NeverJob::new())
}

/// A loop that is over (finished or failed) ignores every event and stays as
/// it is.
pub proof fn lemma_stopped_loop_ignores_events<J: JobTrait>(l: MessageLoop<J>, event: LoopEvent)
    requires
        l.phase == LoopPhase::Finished || l.phase == LoopPhase::Failed,
    ensures
        l.next(event) == (l, LoopAction::<J::Output>::Ignore),
{
}

/// The plain message loop ends on a `WM_QUIT` taken off the queue, with its
/// `wParam` as the exit code.
pub proof fn lemma_quit_message_ends_message_loop(l: MessageLoop<NeverJob>, m: QueueMessage)
    requires
        l.phase == LoopPhase::AwaitPeek,
        m.message == WM_QUIT,
    ensures
        l.next(LoopEvent::Peeked(Some(m))).0.phase == LoopPhase::Finished,
        l.next(LoopEvent::Peeked(Some(m))).1 == LoopAction::Finish(m.w_param as i32),
{
}

/// The plain message loop ends on nothing but a `WM_QUIT`, and its result is
/// that message's exit code.
pub proof fn lemma_message_loop_ends_only_on_quit(
    l: MessageLoop<NeverJob>,
    event: LoopEvent,
    code: i32,
)
    requires
        l.next(event).1 == LoopAction::Finish(code),
    ensures
        l.phase == LoopPhase::AwaitPeek,
        exists|m: QueueMessage|
            event == LoopEvent::Peeked(Some(m)) && m.message == WM_QUIT && code == m.w_param as i32,
{
    match event {
        LoopEvent::Peeked(Some(m)) => {
            assert(event == LoopEvent::Peeked(Some(m)));
        },
        _ => {},
    }
}

/// Once the future's output is stored, the next report of a run ends the
/// loop with that output, and the job no longer holds it.
pub proof fn lemma_completed_future_ends_queue<T>(
    l: MessageLoop<FutureJob<T>>,
    output: T,
    tasks_remain: bool,
)
    requires
        l.phase == LoopPhase::AwaitRun,
        l.job.variable == Some(output),
    ensures
        l.next(LoopEvent::Ran { tasks_remain }) == (
            MessageLoop { phase: LoopPhase::Finished, job: FutureJob::<T> { variable: None } },
            LoopAction::Finish(output),
        ),
{
}

/// While the future has not completed, the loop that waits for it does not
/// end with a result.
pub proof fn lemma_pending_future_does_not_finish<T>(
    l: MessageLoop<FutureJob<T>>,
    event: LoopEvent,
)
    requires
        l.job.variable is None,
    ensures
        !(l.next(event).1 is Finish),
        l.next(event).0.job.variable is None,
{
}

/// A future's output is handed out once: the check after the one that took
/// it finds nothing.
pub proof fn lemma_future_output_taken_once<T>(
    job: FutureJob<T>,
    first: Option<QueueMessage>,
    second: Option<QueueMessage>,
)
    ensures
        job.check_spec(first).0.check_spec(second).1 is None,
{
}

/// With tasks still queued the loop does not sleep: it arms its timer to
/// fire at once.
pub proof fn lemma_busy_runtime_wakes_at_once<J: JobTrait>(l: MessageLoop<J>)
    requires
        l.phase == LoopPhase::AwaitRun,
        l.job.check_spec(None).1 is None,
    ensures
        l.next(LoopEvent::Ran { tasks_remain: true }).1 == LoopAction::<J::Output>::ArmTimerAndWait(0),
{
}

/// Without a runtime timer the loop's timer is armed with the longest
/// interval there is.
pub proof fn lemma_no_timer_arms_longest_interval<J: JobTrait>(l: MessageLoop<J>)
    requires
        l.phase == LoopPhase::AwaitTimeout,
    ensures
        l.next(LoopEvent::Timeout(None)).1 == LoopAction::<J::Output>::ArmTimerAndWait(
            USER_TIMER_MAXIMUM,
        ),
{
}

/// A message other than `WM_QUIT` leaves the job as it is and goes first to
/// its dialog box, then, if the dialog box does not handle it, to its window.
pub proof fn lemma_other_messages_are_dispatched<J: JobTrait>(l: MessageLoop<J>, m: QueueMessage)
    requires
        l.phase == LoopPhase::AwaitPeek,
        m.message != WM_QUIT,
    ensures
        l.next(LoopEvent::Peeked(Some(m))).1 == LoopAction::<J::Output>::OfferToDialog,
        l.next(LoopEvent::Peeked(Some(m))).0.job == l.job,
        l.next(LoopEvent::Peeked(Some(m))).0.next(LoopEvent::DialogHandled(false)).1
            == LoopAction::<J::Output>::Dispatch,
{
}

impl<J: JobTrait> MessageLoop<J> {
    /// What the job is asked at this step: `Some(None)` for the check after a
    /// run of the runtime, `Some(Some(m))` for a `WM_QUIT` taken off the
    /// queue, `None` when the job is not asked.
    pub open spec fn query(self, event: LoopEvent) -> Option<Option<QueueMessage>> {
        match event {
            LoopEvent::Ran { .. } => if self.phase == LoopPhase::AwaitRun {
                Some(None)
            } else {
                None
            },
            LoopEvent::Peeked(Some(m)) => if self.phase == LoopPhase::AwaitPeek && m.message
                == WM_QUIT {
                Some(Some(m))
            } else {
                None
            },
            _ => None,
        }
    }

    /// The loop after the first `i` events of a run.
    pub open spec fn state_at(self, events: Seq<LoopEvent>, i: nat) -> MessageLoop<J>
        decreases i,
    {
        if i == 0 {
            self
        } else {
            self.state_at(events, (i - 1) as nat).next(events[i - 1]).0
        }
    }

    /// What the loop asks for after the event at index `i` of a run.
    pub open spec fn action_at(self, events: Seq<LoopEvent>, i: nat) -> LoopAction<J::Output> {
        self.state_at(events, i).next(events[i as int]).1
    }

    /// What the job is asked at the event at index `i` of a run.
    pub open spec fn query_at(self, events: Seq<LoopEvent>, i: nat) -> Option<Option<QueueMessage>> {
        self.state_at(events, i).query(events[i as int])
    }
}

/// One step: an ignored event changes nothing; the job changes only by the
/// check it is asked, and the loop finishes exactly when that check gives a
/// result, with that result.
pub proof fn lemma_step_asks_the_job<J: JobTrait>(l: MessageLoop<J>, event: LoopEvent)
    ensures
        l.next(event).1 is Ignore ==> l.next(event).0 == l,
        l.next(event).0.job == match l.query(event) {
            Some(q) => l.job.check_spec(q).0,
            None => l.job,
        },
        l.next(event).1 is Finish <==> (l.query(event) is Some && l.job.check_spec(
            l.query(event)->0,
        ).1 is Some),
        l.next(event).1 is Finish ==> l.next(event).0.phase == LoopPhase::Finished && Some(
            l.next(event).1->Finish_0,
        ) == l.job.check_spec(l.query(event)->0).1,
        l.query(event) is Some ==> !(l.next(event).1 is Ignore),
        l.phase == LoopPhase::Finished ==> l.next(event).0.phase == LoopPhase::Finished,
{
}

/// Within a run, a stretch of ignored events leaves the loop as it was.
pub proof fn lemma_ignored_events_change_nothing<J: JobTrait>(
    l: MessageLoop<J>,
    events: Seq<LoopEvent>,
    start: nat,
    end: nat,
)
    requires
        start <= end <= events.len(),
        forall|k: nat| start <= k < end ==> #[trigger] l.action_at(events, k) is Ignore,
    ensures
        l.state_at(events, end) == l.state_at(events, start),
    decreases end - start,
{
    if start < end {
        let last = (end - 1) as nat;
        lemma_ignored_events_change_nothing(l, events, start, last);
        assert(l.action_at(events, last) is Ignore);
        lemma_step_asks_the_job(l.state_at(events, last), events[last as int]);
    }
}

/// Within a run, a finished loop stays finished.
proof fn lemma_finished_stays<J: JobTrait>(
    l: MessageLoop<J>,
    events: Seq<LoopEvent>,
    start: nat,
    end: nat,
)
    requires
        start <= end <= events.len(),
        l.state_at(events, start).phase == LoopPhase::Finished,
    ensures
        l.state_at(events, end) == l.state_at(events, start),
    decreases end - start,
{
    if start < end {
        let last = (end - 1) as nat;
        lemma_finished_stays(l, events, start, last);
        lemma_stopped_loop_ignores_events(l.state_at(events, last), events[last as int]);
    }
}

/// The first result of the job ends the run: every later event is ignored
/// and the loop stays finished.
pub proof fn lemma_first_result_ends_run<J: JobTrait>(
    l: MessageLoop<J>,
    events: Seq<LoopEvent>,
    i: nat,
    j: nat,
)
    requires
        i < j < events.len(),
        l.action_at(events, i) is Finish,
    ensures
        l.action_at(events, j) is Ignore,
        l.state_at(events, j).phase == LoopPhase::Finished,
{
    lemma_step_asks_the_job(l.state_at(events, i), events[i as int]);
    assert(l.state_at(events, i + 1) == l.state_at(events, i).next(events[i as int]).0);
    lemma_finished_stays(l, events, i + 1, j);
    lemma_stopped_loop_ignores_events(l.state_at(events, j), events[j as int]);
}

/// Within a run, the job is asked only right after a run of the runtime
/// (with no message) and for a `WM_QUIT` taken off the queue (with that
/// message); every run report and every `WM_QUIT` the loop takes is put to
/// it; and the job changes only by the checks it is asked.
pub proof fn lemma_job_asked_after_runs_and_quits<J: JobTrait>(
    l: MessageLoop<J>,
    events: Seq<LoopEvent>,
    i: nat,
)
    requires
        i < events.len(),
    ensures
        l.query_at(events, i) == Some(Option::<QueueMessage>::None) ==> events[i as int] is Ran,
        l.query_at(events, i) is Some && l.query_at(events, i)->0 is Some ==> events[i as int]
            == LoopEvent::Peeked(l.query_at(events, i)->0) && (l.query_at(events, i)->0)->0.message
            == WM_QUIT,
        events[i as int] is Ran && !(l.action_at(events, i) is Ignore) ==> l.query_at(events, i)
            == Some(Option::<QueueMessage>::None),
        forall|m: QueueMessage|
            events[i as int] == LoopEvent::Peeked(Some(m)) && m.message == WM_QUIT && !(
            l.action_at(events, i) is Ignore) ==> l.query_at(events, i) == Some(Some(m)),
        l.state_at(events, i + 1).job == match l.query_at(events, i) {
            Some(q) => l.state_at(events, i).job.check_spec(q).0,
            None => l.state_at(events, i).job,
        },
{
    lemma_step_asks_the_job(l.state_at(events, i), events[i as int]);
    assert(l.state_at(events, i + 1) == l.state_at(events, i).next(events[i as int]).0);
}

/// A run ends with the result of the first check of the job that gives one:
/// the check made at the finishing event gives it, and every check asked
/// before gave none.
pub proof fn lemma_result_is_first_job_result<J: JobTrait>(
    l: MessageLoop<J>,
    events: Seq<LoopEvent>,
    i: nat,
)
    requires
        i < events.len(),
        l.action_at(events, i) is Finish,
    ensures
        l.query_at(events, i) is Some,
        l.state_at(events, i).job.check_spec(l.query_at(events, i)->0).1 == Some(
            l.action_at(events, i)->Finish_0,
        ),
        forall|k: nat|
            k < i && #[trigger] l.query_at(events, k) is Some ==> l.state_at(events, k).job.check_spec(
                l.query_at(events, k)->0,
            ).1 is None,
{
    lemma_step_asks_the_job(l.state_at(events, i), events[i as int]);
    assert forall|k: nat|
        k < i && #[trigger] l.query_at(events, k) is Some implies l.state_at(
            events,
            k,
        ).job.check_spec(l.query_at(events, k)->0).1 is None by {
        lemma_step_asks_the_job(l.state_at(events, k), events[k as int]);
        if l.state_at(events, k).job.check_spec(l.query_at(events, k)->0).1 is Some {
            lemma_first_result_ends_run(l, events, k, i);
        }
    }
}

/// A message offered to its dialog box is, at the loop's next step, either
/// handled by the dialog box or dispatched, once, before any other message
/// is taken; and the offered message is the one just taken off the queue.
pub proof fn lemma_offered_message_is_handled_or_dispatched<J: JobTrait>(
    l: MessageLoop<J>,
    events: Seq<LoopEvent>,
    i: nat,
    j: nat,
)
    requires
        i < j < events.len(),
        l.action_at(events, i) == LoopAction::<J::Output>::OfferToDialog,
        forall|k: nat| i < k < j ==> #[trigger] l.action_at(events, k) is Ignore,
        !(l.action_at(events, j) is Ignore),
    ensures
        events[i as int] is Peeked && events[i as int]->Peeked_0 is Some,
        events[j as int] is DialogHandled,
        l.action_at(events, j) == if events[j as int] == LoopEvent::DialogHandled(true) {
            LoopAction::<J::Output>::Peek
        } else {
            LoopAction::<J::Output>::Dispatch
        },
        l.state_at(events, j + 1).phase == LoopPhase::AwaitPeek,
{
    let before = l.state_at(events, i);
    assert(l.state_at(events, i + 1) == before.next(events[i as int]).0);
    assert(before.next(events[i as int]).0.phase == LoopPhase::AwaitDialog);
    assert forall|k: nat| i + 1 <= k < j implies #[trigger] l.action_at(events, k) is Ignore by {}
    lemma_ignored_events_change_nothing(l, events, i + 1, j);
    assert(l.state_at(events, j + 1) == l.state_at(events, j).next(events[j as int]).0);
}

/// In a run from the loop's start, a message is dispatched only right after
/// it was offered to its dialog box and the dialog box did not handle it.
pub proof fn lemma_dispatch_follows_offer<J: JobTrait>(
    l: MessageLoop<J>,
    events: Seq<LoopEvent>,
    j: nat,
)
    requires
        l.phase == LoopPhase::AwaitRun,
        j < events.len(),
        l.action_at(events, j) == LoopAction::<J::Output>::Dispatch,
    ensures
        events[j as int] == LoopEvent::DialogHandled(false),
        exists|i: nat|
            i < j && l.action_at(events, i) == LoopAction::<J::Output>::OfferToDialog && (forall|
                k: nat,
            | i < k < j ==> #[trigger] l.action_at(events, k) is Ignore),
{
    lemma_last_offer(l, events, j, j);
}

/// Going back from a point where the loop waits on a dialog box, the last
/// event it did not ignore is the one that offered the message.
proof fn lemma_last_offer<J: JobTrait>(
    l: MessageLoop<J>,
    events: Seq<LoopEvent>,
    j: nat,
    at: nat,
)
    requires
        l.phase == LoopPhase::AwaitRun,
        at <= j < events.len(),
        l.state_at(events, at).phase == LoopPhase::AwaitDialog,
        l.state_at(events, at) == l.state_at(events, j),
        forall|k: nat| at <= k < j ==> #[trigger] l.action_at(events, k) is Ignore,
        l.action_at(events, j) == LoopAction::<J::Output>::Dispatch,
    ensures
        events[j as int] == LoopEvent::DialogHandled(false),
        exists|i: nat|
            i < j && l.action_at(events, i) == LoopAction::<J::Output>::OfferToDialog && (forall|
                k: nat,
            | i < k < j ==> #[trigger] l.action_at(events, k) is Ignore),
    decreases at,
{
    let prev = (at - 1) as nat;
    assert(at != 0);
    assert(l.state_at(events, at) == l.state_at(events, prev).next(events[prev as int]).0);
    lemma_step_asks_the_job(l.state_at(events, prev), events[prev as int]);
    if l.action_at(events, prev) is Ignore {
        lemma_last_offer(l, events, j, prev);
    } else {
        assert(l.action_at(events, prev) == LoopAction::<J::Output>::OfferToDialog);
        assert forall|k: nat| prev < k < j implies #[trigger] l.action_at(events, k) is Ignore by {}
    }
}

/// The loop's timer follows the runtime's nearest timer: the longest
/// interval only when the runtime has no timer, and otherwise the whole
/// milliseconds of the runtime's timeout (when they fit in 32 bits), never
/// longer than the timeout and less than a millisecond shorter.
pub proof fn lemma_timer_follows_the_runtime_timer(timeout: Option<u128>)
    ensures
        timeout is None ==> spec_timer_interval(timeout) == USER_TIMER_MAXIMUM,
        timeout is Some && timeout->0 < 0x1_0000_0000 * 1_000_000 ==> spec_timer_interval(timeout)
            * 1_000_000 <= timeout->0 < (spec_timer_interval(timeout) + 1) * 1_000_000,
{
    if timeout is Some && timeout->0 < 0x1_0000_0000 * 1_000_000 {
        crate::timing::lemma_millis_bracket(timeout->0);
    }
}

/// The hook drives the runtime for a dialog box and for a message box alike
/// (codes 0 and 1) and for no other code; once it has, it re-arms the timer
/// exactly when the runtime has a timer, with the same interval the timer
/// callback would choose.
pub proof fn lemma_hook_rearms_for_every_runtime_timer(code: i32, timeout: Option<u128>)
    ensures
        spec_filter_drives_runtime(code) <==> (code == 0 || code == 1),
        spec_filter_timer(timeout) is Some <==> timeout is Some,
        timeout is Some ==> spec_filter_timer(timeout) == Some(spec_timer_interval(timeout)),
{
    assert(spec_filter_drives_runtime(code) <==> (code == 0 || code == 1)) by (bit_vector);
}

/// After a run that leaves no task and no result, the loop reads the
/// runtime's nearest timer and arms its own timer to that timeout: the
/// longest interval only when the runtime has no timer.
pub proof fn lemma_idle_loop_waits_for_the_runtime_timer<J: JobTrait>(
    l: MessageLoop<J>,
    timeout: Option<u128>,
)
    requires
        l.phase == LoopPhase::AwaitRun,
        l.job.check_spec(None).1 is None,
    ensures
        l.next(LoopEvent::Ran { tasks_remain: false }).1 == LoopAction::<J::Output>::QueryTimeout,
        l.iteration_outcome(false, timeout).1 == LoopAction::<J::Output>::ArmTimerAndWait(
            spec_timer_interval(timeout),
        ),
        l.iteration_outcome(false, timeout).0.phase == LoopPhase::AwaitWait,
        timeout is None ==> l.iteration_outcome(false, timeout).1
            == LoopAction::<J::Output>::ArmTimerAndWait(USER_TIMER_MAXIMUM),
{
}

} // verus!
