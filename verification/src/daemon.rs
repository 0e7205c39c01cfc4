//! The daemon controller: it makes sure that a background scheduler is
//! running, and restarts a running one so that it loads the lists anew.
//!
//! The caller looks at the PID file, signals, spawns and sleeps; this module
//! decides what comes next. The caller starts with `ControlState::Initial`
//! and the event `Begin`, performs each action it is given, and hands back
//! what came of it, until it is given `Finish`.

use vstd::prelude::*;
use crate::number::{decimal, decimal_text};
use crate::text::{append, append_str, owned, string_of};

verus! {

/// How a call of the controller ended well.
#[derive(Debug, Clone, Copy, PartialEq, Eq)]
pub enum SchedulerStatus {
    /// No scheduler was running; this one was started.
    Started(u32),
    /// A scheduler was running; it was stopped and this one was started.
    Reloaded(u32),
}

/// Why a call of the controller failed.
#[derive(Debug, Clone, Copy, PartialEq, Eq)]
pub enum ControlError {
    /// The PID file could not be read.
    PidFileUnreadable,
    /// The running scheduler could not be signalled.
    TerminateFailed { pid: u32 },
    /// The running scheduler was still there after the last look.
    StopTimeout,
    /// The new scheduler could not be spawned.
    SpawnFailed,
    /// The new scheduler had not shown itself after the last look.
    StartTimeout,
    /// The caller handed in an event that does not answer the last action.
    OutOfTurn,
}

/// How many times the controller looks at the PID file while it waits for a
/// scheduler to stop, and again while it waits for one to start.
pub const POLL_LIMIT: u8 = 40;

/// The milliseconds between two looks at the PID file.
pub const POLL_INTERVAL_MILLIS: u64 = 100;

/// Where a call of the controller stands.
#[derive(Debug, Clone, Copy, PartialEq, Eq)]
pub enum ControlState {
    /// Nothing has been done.
    Initial,
    /// The first look at the PID file is under way.
    Checking,
    /// The running scheduler is being signalled.
    Terminating { old_pid: u32 },
    /// A look is under way, to see the old scheduler gone; `polls` looks
    /// found it still there.
    Stopping { polls: u8 },
    /// The pause after a look that found the old scheduler still there.
    StopPause { polls: u8 },
    /// The new scheduler is being spawned.
    Spawning { reload: bool },
    /// A look is under way, to see the new scheduler; `polls` looks found
    /// none.
    Starting { reload: bool, polls: u8 },
    /// The pause after a look that found no scheduler.
    StartPause { reload: bool, polls: u8 },
    /// The call is over.
    Finished,
}

/// What came of the last action.
#[derive(Debug, Clone, Copy, PartialEq, Eq)]
pub enum ControlEvent {
    /// The call begins.
    Begin,
    /// The PID file was looked at: the live scheduler it names, if any.
    Observed(Option<u32>),
    /// The PID file could not be read.
    ObserveFailed,
    /// The termination signal was sent, or not.
    Terminated { ok: bool },
    /// The new scheduler was spawned, or not.
    Spawned { ok: bool },
    /// The pause is over.
    Slept,
}

/// What the caller does next.
#[derive(Debug, Clone, Copy, PartialEq, Eq)]
pub enum ControlAction {
    /// Look at the PID file and say which live scheduler it names.
    Observe,
    /// Send the termination signal to this process.
    Terminate(u32),
    /// Spawn a detached scheduler process.
    Spawn,
    /// Pause.
    Sleep { millis: u64 },
    /// Return this.
    Finish(Result<SchedulerStatus, ControlError>),
}

/// One more look: the count of looks, which stops at the largest number it
/// can hold.
pub open spec fn one_more(polls: u8) -> u8 {
    if polls < 255 {
        (polls + 1) as u8
    } else {
        polls
    }
}

fn count_look(polls: u8) -> (next: u8)
    ensures
        next == one_more(polls),
{
    if polls < 255 {
        polls + 1
    } else {
        polls
    }
}

/// The step that ends a call with an error.
pub open spec fn fail(error: ControlError) -> (ControlState, ControlAction) {
    (ControlState::Finished, ControlAction::Finish(Err(error)))
}

/// After the termination signal: on success the controller looks for the old
/// scheduler to be gone.
pub open spec fn after_terminate(old_pid: u32, event: ControlEvent) -> (
    ControlState,
    ControlAction,
) {
    match event {
        ControlEvent::Terminated { ok } => if ok {
            (ControlState::Stopping { polls: 0 }, ControlAction::Observe)
        } else {
            fail(ControlError::TerminateFailed { pid: old_pid })
        },
        _ => fail(ControlError::OutOfTurn),
    }
}

/// Waiting for the old scheduler to stop: once a look finds none, the new
/// one is spawned; each look that finds one is followed by a pause, and
/// after the pause that follows the last look the call fails.
pub open spec fn while_stopping(state: ControlState, event: ControlEvent) -> (
    ControlState,
    ControlAction,
) {
    match (state, event) {
        (ControlState::Stopping { polls }, ControlEvent::Observed(None)) => (
            ControlState::Spawning { reload: true },
            ControlAction::Spawn,
        ),
        (ControlState::Stopping { polls }, ControlEvent::Observed(Some(_))) => (
            ControlState::StopPause { polls: one_more(polls) },
            ControlAction::Sleep { millis: 100 },
        ),
        (ControlState::Stopping { polls }, ControlEvent::ObserveFailed) => fail(
            ControlError::PidFileUnreadable,
        ),
        (ControlState::StopPause { polls }, ControlEvent::Slept) => if polls >= 40 {
            fail(ControlError::StopTimeout)
        } else {
            (ControlState::Stopping { polls }, ControlAction::Observe)
        },
        _ => fail(ControlError::OutOfTurn),
    }
}

/// After the spawn: on success the controller looks for the new scheduler.
pub open spec fn after_spawn(reload: bool, event: ControlEvent) -> (ControlState, ControlAction) {
    match event {
        ControlEvent::Spawned { ok } => if ok {
            (ControlState::Starting { reload, polls: 0 }, ControlAction::Observe)
        } else {
            fail(ControlError::SpawnFailed)
        },
        _ => fail(ControlError::OutOfTurn),
    }
}

/// Waiting for the new scheduler to start: once a look finds one, the call
/// ends well with its process id; each look that finds none is followed by a
/// pause, and after the pause that follows the last look the call fails.
pub open spec fn while_starting(state: ControlState, event: ControlEvent) -> (
    ControlState,
    ControlAction,
) {
    match (state, event) {
        (ControlState::Starting { reload, polls }, ControlEvent::Observed(Some(pid))) => (
            ControlState::Finished,
            ControlAction::Finish(
                Ok(
                    if reload {
                        SchedulerStatus::Reloaded(pid)
                    } else {
                        SchedulerStatus::Started(pid)
                    },
                ),
            ),
        ),
        (ControlState::Starting { reload, polls }, ControlEvent::Observed(None)) => (
            ControlState::StartPause { reload, polls: one_more(polls) },
            ControlAction::Sleep { millis: 100 },
        ),
        (ControlState::Starting { reload, polls }, ControlEvent::ObserveFailed) => fail(
            ControlError::PidFileUnreadable,
        ),
        (ControlState::StartPause { reload, polls }, ControlEvent::Slept) => if polls >= 40 {
            fail(ControlError::StartTimeout)
        } else {
            (ControlState::Starting { reload, polls }, ControlAction::Observe)
        },
        _ => fail(ControlError::OutOfTurn),
    }
}

/// One step of the controller: the state and the action that follow a state
/// and an event.
///
/// The call begins with a look at the PID file. If it names a live
/// scheduler, that one is signalled to terminate, the controller waits for
/// it to be gone, spawns a new one and waits for it to show itself: the call
/// ends with `Reloaded`. If it names none, a scheduler is spawned and waited
/// for: the call ends with `Started`.
pub open spec fn control_step(state: ControlState, event: ControlEvent) -> (
    ControlState,
    ControlAction,
) {
    match state {
        ControlState::Initial => match event {
            ControlEvent::Begin => (ControlState::Checking, ControlAction::Observe),
            _ => fail(ControlError::OutOfTurn),
        },
        ControlState::Checking => match event {
            ControlEvent::Observed(Some(pid)) => (
                ControlState::Terminating { old_pid: pid },
                ControlAction::Terminate(pid),
            ),
            ControlEvent::Observed(None) => (
                ControlState::Spawning { reload: false },
                ControlAction::Spawn,
            ),
            ControlEvent::ObserveFailed => fail(ControlError::PidFileUnreadable),
            _ => fail(ControlError::OutOfTurn),
        },
        ControlState::Terminating { old_pid } => after_terminate(old_pid, event),
        ControlState::Stopping { polls } => while_stopping(state, event),
        ControlState::StopPause { polls } => while_stopping(state, event),
        ControlState::Spawning { reload } => after_spawn(reload, event),
        ControlState::Starting { reload, polls } => while_starting(state, event),
        ControlState::StartPause { reload, polls } => while_starting(state, event),
        ControlState::Finished => fail(ControlError::OutOfTurn),
    }
}

fn fail_with(error: ControlError) -> (next: (ControlState, ControlAction))
    ensures
        next == fail(error),
{
    (ControlState::Finished, ControlAction::Finish(Err(error)))
}

/// The step after the termination signal was sent to `old_pid`.
pub fn step_after_terminate(old_pid: u32, event: ControlEvent) -> (next: (
    ControlState,
    ControlAction,
))
    ensures
        next == after_terminate(old_pid, event),
{
    match event {
        ControlEvent::Terminated { ok } => if ok {
            (ControlState::Stopping { polls: 0 }, ControlAction::Observe)
        } else {
            fail_with(ControlError::TerminateFailed { pid: old_pid })
        },
        _ => fail_with(ControlError::OutOfTurn),
    }
}

/// A step of the wait for the old scheduler to stop.
pub fn wait_until_stopped(state: ControlState, event: ControlEvent) -> (next: (
    ControlState,
    ControlAction,
))
    ensures
        next == while_stopping(state, event),
{
    match state {
        ControlState::Stopping { polls } => match event {
            ControlEvent::Observed(None) => (
                ControlState::Spawning { reload: true },
                ControlAction::Spawn,
            ),
            ControlEvent::Observed(Some(_)) => (
                ControlState::StopPause { polls: count_look(polls) },
                ControlAction::Sleep { millis: POLL_INTERVAL_MILLIS },
            ),
            ControlEvent::ObserveFailed => fail_with(ControlError::PidFileUnreadable),
            _ => fail_with(ControlError::OutOfTurn),
        },
        ControlState::StopPause { polls } => match event {
            ControlEvent::Slept => if polls >= POLL_LIMIT {
                fail_with(ControlError::StopTimeout)
            } else {
                (ControlState::Stopping { polls }, ControlAction::Observe)
            },
            _ => fail_with(ControlError::OutOfTurn),
        },
        _ => fail_with(ControlError::OutOfTurn),
    }
}

/// The step after the new scheduler was spawned.
pub fn step_after_spawn(reload: bool, event: ControlEvent) -> (next: (
    ControlState,
    ControlAction,
))
    ensures
        next == after_spawn(reload, event),
{
    match event {
        ControlEvent::Spawned { ok } => if ok {
            (ControlState::Starting { reload, polls: 0 }, ControlAction::Observe)
        } else {
            fail_with(ControlError::SpawnFailed)
        },
        _ => fail_with(ControlError::OutOfTurn),
    }
}

/// A step of the wait for the new scheduler to start.
pub fn wait_until_started(state: ControlState, event: ControlEvent) -> (next: (
    ControlState,
    ControlAction,
))
    ensures
        next == while_starting(state, event),
{
    match state {
        ControlState::Starting { reload, polls } => match event {
            ControlEvent::Observed(Some(pid)) => {
                let status = if reload {
                    SchedulerStatus::Reloaded(pid)
                } else {
                    SchedulerStatus::Started(pid)
                };
                (ControlState::Finished, ControlAction::Finish(Ok(status)))
            },
            ControlEvent::Observed(None) => (
                ControlState::StartPause { reload, polls: count_look(polls) },
                ControlAction::Sleep { millis: POLL_INTERVAL_MILLIS },
            ),
            ControlEvent::ObserveFailed => fail_with(ControlError::PidFileUnreadable),
            _ => fail_with(ControlError::OutOfTurn),
        },
        ControlState::StartPause { reload, polls } => match event {
            ControlEvent::Slept => if polls >= POLL_LIMIT {
                fail_with(ControlError::StartTimeout)
            } else {
                (ControlState::Starting { reload, polls }, ControlAction::Observe)
            },
            _ => fail_with(ControlError::OutOfTurn),
        },
        _ => fail_with(ControlError::OutOfTurn),
    }
}

/// One step of making sure that a scheduler is running: takes the state of
/// the call and what came of the last action, and gives the next state and
/// the next action.
pub fn ensure_scheduler_running(state: ControlState, event: ControlEvent) -> (next: (
    ControlState,
    ControlAction,
))
    ensures
        next == control_step(state, event),
        next.1 is Finish <==> next.0 is Finished,
        next.1 matches ControlAction::Finish(Ok(status)) ==> exists|pid: u32|
            event == ControlEvent::Observed(Some(pid)) && (status == SchedulerStatus::Started(pid)
                || status == SchedulerStatus::Reloaded(pid)),
{
    match state {
        ControlState::Initial => match event {
            ControlEvent::Begin => (ControlState::Checking, ControlAction::Observe),
            _ => fail_with(ControlError::OutOfTurn),
        },
        ControlState::Checking => match event {
            ControlEvent::Observed(Some(pid)) => (
                ControlState::Terminating { old_pid: pid },
                ControlAction::Terminate(pid),
            ),
            ControlEvent::Observed(None) => (
                ControlState::Spawning { reload: false },
                ControlAction::Spawn,
            ),
            ControlEvent::ObserveFailed => fail_with(ControlError::PidFileUnreadable),
            _ => fail_with(ControlError::OutOfTurn),
        },
        ControlState::Terminating { old_pid } => step_after_terminate(old_pid, event),
        ControlState::Stopping { polls } => wait_until_stopped(state, event),
        ControlState::StopPause { polls } => wait_until_stopped(state, event),
        ControlState::Spawning { reload } => step_after_spawn(reload, event),
        ControlState::Starting { reload, polls } => wait_until_started(state, event),
        ControlState::StartPause { reload, polls } => wait_until_started(state, event),
        ControlState::Finished => fail_with(ControlError::OutOfTurn),
    }
}

impl ControlError {
    /// The text that reports this error.
    pub fn message(&self) -> (text: String)
        ensures
            text@ == control_error_text(*self),
    {
        match self {
            ControlError::PidFileUnreadable => owned("scheduler pid file could not be read"),
            ControlError::TerminateFailed { pid } => {
                let mut out: Vec<char> = Vec::new();
                append_str(&mut out, "failed to stop existing scheduler process ");
                append(&mut out, &decimal(*pid as u64));
                string_of(&out)
            },
            ControlError::StopTimeout => owned(
                "scheduler stop requested, but existing process is still running",
            ),
            ControlError::SpawnFailed => owned("failed to spawn scheduler background process"),
            ControlError::StartTimeout => owned(
                "scheduler process start requested, but pid file was not detected",
            ),
            ControlError::OutOfTurn => owned("scheduler control steps were taken out of turn"),
        }
    }
}

/// The text that reports a controller error.
pub open spec fn control_error_text(error: ControlError) -> Seq<char> {
    match error {
        ControlError::PidFileUnreadable => "scheduler pid file could not be read"@,
        ControlError::TerminateFailed { pid } => "failed to stop existing scheduler process "@
            + decimal_text(pid as nat),
        ControlError::StopTimeout =>
            "scheduler stop requested, but existing process is still running"@,
        ControlError::SpawnFailed => "failed to spawn scheduler background process"@,
        ControlError::StartTimeout =>
            "scheduler process start requested, but pid file was not detected"@,
        ControlError::OutOfTurn => "scheduler control steps were taken out of turn"@,
    }
}

/// What is said of the scheduler after a job or a hook was created: that
/// one was started or reloaded, with its process id, or a warning that
/// carries the failure and tells the user to run `goldagent serve` by hand.
/// The record is stored either way.
pub open spec fn scheduler_note_text(outcome: Result<SchedulerStatus, Seq<char>>) -> Seq<char> {
    match outcome {
        Ok(SchedulerStatus::Started(pid)) => "已自动启动调度服务（pid="@
            + decimal_text(pid as nat) + "）。"@,
        Ok(SchedulerStatus::Reloaded(pid)) => "已重载调度服务以应用新任务（pid="@
            + decimal_text(pid as nat) + "）。"@,
        Err(failure) => "警告：任务已创建，但自动启动调度服务失败："@ + failure
            + "。请手动执行 `goldagent serve`。"@,
    }
}

/// The outcome of a call of the controller as plain values.
pub open spec fn note_outcome(outcome: Result<SchedulerStatus, String>) -> Result<
    SchedulerStatus,
    Seq<char>,
> {
    match outcome {
        Ok(status) => Ok(status),
        Err(failure) => Err(failure@),
    }
}

/// Writes what is said of the scheduler after a job or a hook was created;
/// a failure comes as its text.
pub fn scheduler_note(outcome: &Result<SchedulerStatus, String>) -> (note: String)
    ensures
        note@ == scheduler_note_text(note_outcome(*outcome)),
{
    let mut out: Vec<char> = Vec::new();
    match outcome {
        Ok(SchedulerStatus::Started(pid)) => {
            append_str(&mut out, "已自动启动调度服务（pid=");
            append(&mut out, &decimal(*pid as u64));
            append_str(&mut out, "）。");
        },
        Ok(SchedulerStatus::Reloaded(pid)) => {
            append_str(&mut out, "已重载调度服务以应用新任务（pid=");
            append(&mut out, &decimal(*pid as u64));
            append_str(&mut out, "）。");
        },
        Err(failure) => {
            append_str(&mut out, "警告：任务已创建，但自动启动调度服务失败：");
            append_str(&mut out, failure.as_str());
            append_str(&mut out, "。请手动执行 `goldagent serve`。");
        },
    }
    string_of(&out)
}

// ---------------------------------------------------------------------------
// Whole calls
// ---------------------------------------------------------------------------

/// The state of a call after a run of events.
pub open spec fn state_after(state: ControlState, events: Seq<ControlEvent>) -> ControlState
    decreases events.len(),
{
    if events.len() == 0 {
        state
    } else {
        control_step(state_after(state, events.drop_last()), events.last()).0
    }
}

/// The actions that a run of events is answered with, in order.
pub open spec fn actions_over(state: ControlState, events: Seq<ControlEvent>) -> Seq<
    ControlAction,
>
    decreases events.len(),
{
    if events.len() == 0 {
        Seq::empty()
    } else {
        actions_over(state, events.drop_last()).push(
            control_step(state_after(state, events.drop_last()), events.last()).1,
        )
    }
}

/// `count` rounds of a look that finds no scheduler and the pause after it.
pub open spec fn idle_rounds(count: nat) -> Seq<ControlEvent>
    decreases count,
{
    if count == 0 {
        Seq::empty()
    } else {
        idle_rounds((count - 1) as nat) + seq![ControlEvent::Observed(None), ControlEvent::Slept]
    }
}

/// For each process in `seen`, a round of a look that finds it alive and the
/// pause after it.
pub open spec fn busy_rounds(seen: Seq<u32>) -> Seq<ControlEvent>
    decreases seen.len(),
{
    if seen.len() == 0 {
        Seq::empty()
    } else {
        busy_rounds(seen.drop_last()) + seq![
            ControlEvent::Observed(Some(seen.last())),
            ControlEvent::Slept,
        ]
    }
}

/// A run of events is answered as its first part and then, from the state
/// reached, its second part.
pub proof fn lemma_run_in_parts(state: ControlState, a: Seq<ControlEvent>, b: Seq<ControlEvent>)
    ensures
        state_after(state, a + b) == state_after(state_after(state, a), b),
        actions_over(state, a + b) == actions_over(state, a) + actions_over(
            state_after(state, a),
            b,
        ),
    decreases b.len(),
{
    if b.len() == 0 {
        assert(a + b =~= a);
        assert(actions_over(state, a) + Seq::<ControlAction>::empty() =~= actions_over(state, a));
    } else {
        assert((a + b).drop_last() =~= a + b.drop_last());
        assert((a + b).last() == b.last());
        lemma_run_in_parts(state, a, b.drop_last());
        assert(actions_over(state, a + b) =~= actions_over(state, a) + actions_over(
            state_after(state, a),
            b,
        ));
    }
}

/// A run of two events.
pub proof fn lemma_run_pair(state: ControlState, first: ControlEvent, second: ControlEvent)
    ensures
        state_after(state, seq![first, second]) == control_step(
            control_step(state, first).0,
            second,
        ).0,
        actions_over(state, seq![first, second]) == seq![
            control_step(state, first).1,
            control_step(control_step(state, first).0, second).1,
        ],
{
    let both = seq![first, second];
    let one = seq![first];
    lemma_run_one(state, first);
    assert(both.drop_last() =~= one);
    assert(both.last() == second);
    assert(actions_over(state, both) =~= seq![
        control_step(state, first).1,
        control_step(control_step(state, first).0, second).1,
    ]);
}

/// A run of one event.
pub proof fn lemma_run_one(state: ControlState, event: ControlEvent)
    ensures
        state_after(state, seq![event]) == control_step(state, event).0,
        actions_over(state, seq![event]) == seq![control_step(state, event).1],
{
    let one = seq![event];
    let none = Seq::<ControlEvent>::empty();
    assert(one.drop_last() =~= none);
    assert(one.last() == event);
    assert(state_after(state, none) == state);
    assert(actions_over(state, none) =~= Seq::<ControlAction>::empty());
    assert(actions_over(state, one) =~= seq![control_step(state, event).1]);
}

/// What `count` rounds of waiting are answered with: after each look a
/// pause, and after each pause the next look.
pub open spec fn waiting_actions(count: nat) -> Seq<ControlAction>
    decreases count,
{
    if count == 0 {
        Seq::empty()
    } else {
        waiting_actions((count - 1) as nat) + seq![
            ControlAction::Sleep { millis: 100 },
            ControlAction::Observe,
        ]
    }
}

/// Waiting holds nothing but pauses and looks.
pub proof fn lemma_waiting_only_waits(count: nat)
    ensures
        waiting_actions(count).len() == 2 * count,
        forall|i: int|
            0 <= i < waiting_actions(count).len() ==> (#[trigger] waiting_actions(count)[i])
                is Sleep || waiting_actions(count)[i] is Observe,
    decreases count,
{
    if count > 0 {
        lemma_waiting_only_waits((count - 1) as nat);
    }
}

/// While fewer than forty looks have found no scheduler, the wait for the
/// new one goes on: each round is answered with a pause and the next look.
pub proof fn lemma_idle_rounds_keep_waiting(reload: bool, count: nat)
    requires
        count < 40,
    ensures
        state_after(ControlState::Starting { reload, polls: 0 }, idle_rounds(count)) == (
        ControlState::Starting { reload, polls: count as u8 }),
        actions_over(ControlState::Starting { reload, polls: 0 }, idle_rounds(count))
            == waiting_actions(count),
    decreases count,
{
    let start = ControlState::Starting { reload, polls: 0 };
    if count > 0 {
        let before = (count - 1) as nat;
        lemma_idle_rounds_keep_waiting(reload, before);
        let round = seq![ControlEvent::Observed(None), ControlEvent::Slept];
        lemma_run_in_parts(start, idle_rounds(before), round);
        lemma_run_pair(
            ControlState::Starting { reload, polls: before as u8 },
            ControlEvent::Observed(None),
            ControlEvent::Slept,
        );
    }
}

/// While fewer than forty looks have found the old scheduler alive, the wait
/// for it to stop goes on: each round is answered with a pause and the next
/// look.
pub proof fn lemma_busy_rounds_keep_waiting(seen: Seq<u32>)
    requires
        seen.len() < 40,
    ensures
        state_after(ControlState::Stopping { polls: 0 }, busy_rounds(seen)) == (
        ControlState::Stopping { polls: seen.len() as u8 }),
        actions_over(ControlState::Stopping { polls: 0 }, busy_rounds(seen)) == waiting_actions(
            seen.len(),
        ),
    decreases seen.len(),
{
    let start = ControlState::Stopping { polls: 0 };
    if seen.len() > 0 {
        let before = seen.drop_last();
        lemma_busy_rounds_keep_waiting(before);
        let round = seq![ControlEvent::Observed(Some(seen.last())), ControlEvent::Slept];
        lemma_run_in_parts(start, busy_rounds(before), round);
        lemma_run_pair(
            ControlState::Stopping { polls: before.len() as u8 },
            ControlEvent::Observed(Some(seen.last())),
            ControlEvent::Slept,
        );
    }
}

/// The events of a call that finds no scheduler, spawns one, and sees it
/// at the look after `idle` looks that found none.
pub open spec fn start_events(idle: nat, pid: u32) -> Seq<ControlEvent> {
    seq![ControlEvent::Begin, ControlEvent::Observed(None), ControlEvent::Spawned { ok: true }]
        + idle_rounds(idle) + seq![ControlEvent::Observed(Some(pid))]
}

/// The events of a call that finds the scheduler `old_pid`, signals it, sees
/// it alive at the looks in `still`, then gone, spawns a new one, and sees it
/// at the look after `idle` looks that found none.
pub open spec fn reload_events(old_pid: u32, still: Seq<u32>, idle: nat, new_pid: u32) -> Seq<
    ControlEvent,
> {
    seq![
        ControlEvent::Begin,
        ControlEvent::Observed(Some(old_pid)),
        ControlEvent::Terminated { ok: true },
    ] + busy_rounds(still) + seq![ControlEvent::Observed(None), ControlEvent::Spawned { ok: true }]
        + idle_rounds(idle) + seq![ControlEvent::Observed(Some(new_pid))]
}

/// With no scheduler running, the call looks, spawns one, waits for it, and
/// ends with `Started` and the process id that the PID file then showed
/// alive. Nothing is signalled.
pub proof fn lemma_started(idle: nat, pid: u32)
    requires
        idle < 40,
    ensures
        state_after(ControlState::Initial, start_events(idle, pid)) == ControlState::Finished,
        actions_over(ControlState::Initial, start_events(idle, pid)) == seq![
            ControlAction::Observe,
            ControlAction::Spawn,
            ControlAction::Observe,
        ] + waiting_actions(idle) + seq![ControlAction::Finish(Ok(SchedulerStatus::Started(pid)))],
{
    let head = seq![
        ControlEvent::Begin,
        ControlEvent::Observed(None),
        ControlEvent::Spawned { ok: true },
    ];
    let tail = seq![ControlEvent::Observed(Some(pid))];
    let init = ControlState::Initial;
    let waiting = ControlState::Starting { reload: false, polls: 0 };
    // the head
    lemma_run_pair(init, ControlEvent::Begin, ControlEvent::Observed(None));
    lemma_run_one(ControlState::Spawning { reload: false }, ControlEvent::Spawned { ok: true });
    lemma_run_in_parts(
        init,
        seq![ControlEvent::Begin, ControlEvent::Observed(None)],
        seq![ControlEvent::Spawned { ok: true }],
    );
    assert(seq![ControlEvent::Begin, ControlEvent::Observed(None)] + seq![
        ControlEvent::Spawned { ok: true },
    ] =~= head);
    assert(state_after(init, head) == waiting);
    assert(actions_over(init, head) =~= seq![
        ControlAction::Observe,
        ControlAction::Spawn,
        ControlAction::Observe,
    ]);
    // the rounds
    lemma_idle_rounds_keep_waiting(false, idle);
    lemma_run_in_parts(init, head, idle_rounds(idle));
    // the last look
    lemma_run_one(ControlState::Starting { reload: false, polls: idle as u8 }, tail[0]);
    lemma_run_in_parts(init, head + idle_rounds(idle), tail);
}

/// With a scheduler running, the call looks, signals exactly that one, waits
/// until the PID file shows none, spawns a new one, waits for it, and ends
/// with `Reloaded` and the process id that the PID file then showed alive.
pub proof fn lemma_reloaded(old_pid: u32, still: Seq<u32>, idle: nat, new_pid: u32)
    requires
        still.len() < 40,
        idle < 40,
    ensures
        state_after(ControlState::Initial, reload_events(old_pid, still, idle, new_pid))
            == ControlState::Finished,
        actions_over(ControlState::Initial, reload_events(old_pid, still, idle, new_pid)) == seq![
            ControlAction::Observe,
            ControlAction::Terminate(old_pid),
            ControlAction::Observe,
        ] + waiting_actions(still.len()) + seq![ControlAction::Spawn, ControlAction::Observe]
            + waiting_actions(idle) + seq![
            ControlAction::Finish(Ok(SchedulerStatus::Reloaded(new_pid))),
        ],
{
    let init = ControlState::Initial;
    let head = seq![
        ControlEvent::Begin,
        ControlEvent::Observed(Some(old_pid)),
        ControlEvent::Terminated { ok: true },
    ];
    let middle = seq![ControlEvent::Observed(None), ControlEvent::Spawned { ok: true }];
    let tail = seq![ControlEvent::Observed(Some(new_pid))];
    // the head
    lemma_run_pair(init, ControlEvent::Begin, ControlEvent::Observed(Some(old_pid)));
    lemma_run_one(
        ControlState::Terminating { old_pid },
        ControlEvent::Terminated { ok: true },
    );
    lemma_run_in_parts(
        init,
        seq![ControlEvent::Begin, ControlEvent::Observed(Some(old_pid))],
        seq![ControlEvent::Terminated { ok: true }],
    );
    assert(seq![ControlEvent::Begin, ControlEvent::Observed(Some(old_pid))] + seq![
        ControlEvent::Terminated { ok: true },
    ] =~= head);
    assert(state_after(init, head) == ControlState::Stopping { polls: 0 });
    assert(actions_over(init, head) =~= seq![
        ControlAction::Observe,
        ControlAction::Terminate(old_pid),
        ControlAction::Observe,
    ]);
    // the old scheduler goes
    lemma_busy_rounds_keep_waiting(still);
    lemma_run_in_parts(init, head, busy_rounds(still));
    let a = head + busy_rounds(still);
    // the spawn
    lemma_run_pair(
        ControlState::Stopping { polls: still.len() as u8 },
        ControlEvent::Observed(None),
        ControlEvent::Spawned { ok: true },
    );
    lemma_run_in_parts(init, a, middle);
    let b = a + middle;
    assert(state_after(init, b) == ControlState::Starting { reload: true, polls: 0 });
    // the new scheduler comes
    lemma_idle_rounds_keep_waiting(true, idle);
    lemma_run_in_parts(init, b, idle_rounds(idle));
    let c = b + idle_rounds(idle);
    lemma_run_one(ControlState::Starting { reload: true, polls: idle as u8 }, tail[0]);
    lemma_run_in_parts(init, c, tail);
}

/// If forty looks in a row find no new scheduler, the call fails after the
/// pause that follows the last of them.
pub proof fn lemma_start_times_out(reload: bool)
    ensures
        state_after(ControlState::Starting { reload, polls: 0 }, idle_rounds(40))
            == ControlState::Finished,
        actions_over(ControlState::Starting { reload, polls: 0 }, idle_rounds(40))
            == waiting_actions(39) + seq![
            ControlAction::Sleep { millis: 100 },
            ControlAction::Finish(Err(ControlError::StartTimeout)),
        ],
{
    let start = ControlState::Starting { reload, polls: 0 };
    lemma_idle_rounds_keep_waiting(reload, 39);
    let round = seq![ControlEvent::Observed(None), ControlEvent::Slept];
    lemma_run_in_parts(start, idle_rounds(39), round);
    lemma_run_pair(
        ControlState::Starting { reload, polls: 39 },
        ControlEvent::Observed(None),
        ControlEvent::Slept,
    );
    assert(idle_rounds(40) == idle_rounds(39) + round);
}

/// If forty looks in a row find the old scheduler alive, the call fails
/// after the pause that follows the last of them, and nothing is spawned.
pub proof fn lemma_stop_times_out(seen: Seq<u32>)
    requires
        seen.len() == 40,
    ensures
        state_after(ControlState::Stopping { polls: 0 }, busy_rounds(seen))
            == ControlState::Finished,
        actions_over(ControlState::Stopping { polls: 0 }, busy_rounds(seen)) == waiting_actions(39)
            + seq![
            ControlAction::Sleep { millis: 100 },
            ControlAction::Finish(Err(ControlError::StopTimeout)),
        ],
        forall|i: int|
            0 <= i < actions_over(ControlState::Stopping { polls: 0 }, busy_rounds(seen)).len()
                ==> #[trigger] actions_over(ControlState::Stopping { polls: 0 }, busy_rounds(seen))[i]
                != ControlAction::Spawn,
{
    let start = ControlState::Stopping { polls: 0 };
    let before = seen.drop_last();
    lemma_busy_rounds_keep_waiting(before);
    let round = seq![ControlEvent::Observed(Some(seen.last())), ControlEvent::Slept];
    lemma_run_in_parts(start, busy_rounds(before), round);
    lemma_run_pair(
        ControlState::Stopping { polls: 39 },
        ControlEvent::Observed(Some(seen.last())),
        ControlEvent::Slept,
    );
    lemma_waiting_only_waits(39);
    let acts = actions_over(start, busy_rounds(seen));
    assert forall|i: int| 0 <= i < acts.len() implies #[trigger] acts[i]
        != ControlAction::Spawn by {
        if i < 78 {
            assert(acts[i] == waiting_actions(39)[i]);
        }
    }
}

} // verus!
