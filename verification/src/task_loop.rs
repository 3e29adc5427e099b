//! The recurring loop and the shutdown that stops it.
//!
//! The loop runs one pipeline per tick until it is cancelled or a run fails.
//! It is written as a machine: the driver reports what happened (a tick, the
//! end of a run, a request to cancel) and [`TaskLoop::handle`] answers with
//! what to do. The driver has to wait for the next tick and for a
//! cancellation at the same time, so that a cancellation is reported the
//! moment it is requested; the machine then guarantees that no run starts
//! after it, and that a run in flight is left to finish.
//!
//! [`ShutdownCoordinator`] is the other half: it turns the first interrupt
//! into a cancellation and lets the process end once the loop has stopped.

use vstd::prelude::*;

verus! {

/// When the timer fires: first after `first_tick_after_secs`, then every
/// `every_secs`.
#[derive(Clone, Copy, Debug, PartialEq, Eq, Structural)]
pub struct Schedule {
    pub first_tick_after_secs: u64,
    pub every_secs: u64,
}

/// The schedule for a period of `period_secs` seconds, or `None` for a period
/// of zero, which no timer can keep.
///
/// The first tick comes after one full period, not at once.
pub fn schedule(period_secs: u64) -> (plan: Option<Schedule>)
    ensures
        period_secs == 0 ==> plan is None,
        period_secs > 0 ==> plan == Some(
            Schedule { first_tick_after_secs: period_secs, every_secs: period_secs },
        ),
{
    if period_secs == 0 {
        None
    } else {
        Some(Schedule { first_tick_after_secs: period_secs, every_secs: period_secs })
    }
}

/// Where the loop stands.
#[derive(Clone, Copy, Debug, PartialEq, Eq, Structural)]
pub enum LoopState {
    /// Set up, not yet waiting for ticks.
    Created,
    /// Waiting for the next tick or for a cancellation.
    Running,
    /// A pipeline run is in flight.
    Executing,
    /// The loop has been told to leave and has not left yet.
    Stopping,
    /// The loop has left. Nothing follows.
    Stopped,
}

/// Why the loop stopped.
#[derive(Clone, Copy, Debug, PartialEq, Eq, Structural)]
pub enum StopReason {
    /// A cancellation was requested.
    Cancelled,
    /// A pipeline run failed.
    RunFailed,
}

/// What the driver reports to the loop.
#[derive(Clone, Copy, Debug, PartialEq, Eq, Structural)]
pub enum LoopEvent {
    /// The loop has begun to wait for ticks.
    Started,
    /// The timer fired.
    Tick,
    /// The pipeline run that was in flight ended well.
    RunSucceeded,
    /// The pipeline run that was in flight failed.
    RunFailed,
    /// A cancellation was requested.
    CancelRequested,
    /// The loop has left.
    Exited,
}

/// What the loop asks of the driver.
#[derive(Clone, Copy, Debug, PartialEq, Eq, Structural)]
pub enum LoopAction {
    /// Wait for the next tick or a cancellation, whichever comes first.
    Wait,
    /// Run the pipeline to its end and report how it went.
    RunPipeline,
    /// Leave the loop.
    Exit,
    /// Nothing new: go on with what is under way.
    Continue,
}

/// The loop.
#[derive(Clone, Copy, Debug, PartialEq, Eq, Structural)]
pub struct TaskLoop {
    pub state: LoopState,
    /// Whether a cancellation has been requested. Once set it stays set.
    pub cancel_requested: bool,
    /// The number of runs that ended well, for progress reports only. It
    /// stays at the largest number once it gets there.
    pub completed_runs: u64,
    /// Why the loop stopped, once it has been told to.
    pub stop_reason: Option<StopReason>,
}

impl TaskLoop {
    /// The loop before it is started.
    pub open spec fn created() -> TaskLoop {
        TaskLoop {
            state: LoopState::Created,
            cancel_requested: false,
            completed_runs: 0,
            stop_reason: None,
        }
    }

    /// The loop once it has been told to leave for `reason`. A reason that was
    /// given before stays.
    pub open spec fn stopping(self, reason: StopReason) -> TaskLoop {
        TaskLoop {
            state: LoopState::Stopping,
            stop_reason: if self.stop_reason is Some {
                self.stop_reason
            } else {
                Some(reason)
            },
            ..self
        }
    }

    /// The count of runs after one more.
    pub open spec fn one_more(self) -> u64 {
        if self.completed_runs < u64::MAX {
            (self.completed_runs + 1) as u64
        } else {
            self.completed_runs
        }
    }

    /// What `event` leads to: the loop afterwards and what to do.
    ///
    /// An event that does not fit the state changes nothing.
    pub open spec fn next(self, event: LoopEvent) -> (TaskLoop, LoopAction) {
        match (self.state, event) {
            (LoopState::Created, LoopEvent::Started) => if self.cancel_requested {
                (self.stopping(StopReason::Cancelled), LoopAction::Exit)
            } else {
                (TaskLoop { state: LoopState::Running, ..self }, LoopAction::Wait)
            },
            (LoopState::Created, LoopEvent::CancelRequested) => (
                TaskLoop { cancel_requested: true, ..self },
                LoopAction::Continue,
            ),
            (LoopState::Running, LoopEvent::Tick) => if self.cancel_requested {
                (self.stopping(StopReason::Cancelled), LoopAction::Exit)
            } else {
                (TaskLoop { state: LoopState::Executing, ..self }, LoopAction::RunPipeline)
            },
            (LoopState::Running, LoopEvent::CancelRequested) => (
                (TaskLoop { cancel_requested: true, ..self }).stopping(StopReason::Cancelled),
                LoopAction::Exit,
            ),
            (LoopState::Executing, LoopEvent::RunSucceeded) => {
                let counted = TaskLoop { completed_runs: self.one_more(), ..self };
                if self.cancel_requested {
                    (counted.stopping(StopReason::Cancelled), LoopAction::Exit)
                } else {
                    (TaskLoop { state: LoopState::Running, ..counted }, LoopAction::Wait)
                }
            },
            (LoopState::Executing, LoopEvent::RunFailed) => (
                self.stopping(StopReason::RunFailed),
                LoopAction::Exit,
            ),
            (LoopState::Executing, LoopEvent::CancelRequested) => (
                TaskLoop { cancel_requested: true, ..self },
                LoopAction::Continue,
            ),
            (LoopState::Stopping, LoopEvent::CancelRequested) => (
                TaskLoop { cancel_requested: true, ..self },
                LoopAction::Continue,
            ),
            (LoopState::Stopping, LoopEvent::Exited) => (
                TaskLoop { state: LoopState::Stopped, ..self },
                LoopAction::Continue,
            ),
            _ => (self, LoopAction::Continue),
        }
    }

    /// The loop after `events`, one after the other.
    pub open spec fn after(self, events: Seq<LoopEvent>) -> TaskLoop
        decreases events.len(),
    {
        if events.len() == 0 {
            self
        } else {
            self.after(events.drop_last()).next(events.last()).0
        }
    }

    /// What the loop asks for on each of `events`, one after the other.
    pub open spec fn actions(self, events: Seq<LoopEvent>) -> Seq<LoopAction>
        decreases events.len(),
    {
        if events.len() == 0 {
            Seq::empty()
        } else {
            self.actions(events.drop_last()).push(
                self.after(events.drop_last()).next(events.last()).1,
            )
        }
    }

    /// A loop that has not been started.
    pub fn new() -> (task: TaskLoop)
        ensures
            task == TaskLoop::created(),
    {
        TaskLoop {
            state: LoopState::Created,
            cancel_requested: false,
            completed_runs: 0,
            stop_reason: None,
        }
    }

    fn stop(&mut self, reason: StopReason)
        ensures
            *final(self) == old(self).stopping(reason),
    {
        self.state = LoopState::Stopping;
        if self.stop_reason.is_none() {
            self.stop_reason = Some(reason);
        }
    }

    /// Takes what the driver reports and answers with what to do.
    pub fn handle(&mut self, event: LoopEvent) -> (action: LoopAction)
        ensures
            (*final(self), action) == old(self).next(event),
    {
        match (self.state, event) {
            (LoopState::Created, LoopEvent::Started) => {
                if self.cancel_requested {
                    self.stop(StopReason::Cancelled);
                    LoopAction::Exit
                } else {
                    self.state = LoopState::Running;
                    LoopAction::Wait
                }
            },
            (LoopState::Running, LoopEvent::Tick) => {
                if self.cancel_requested {
                    self.stop(StopReason::Cancelled);
                    LoopAction::Exit
                } else {
                    self.state = LoopState::Executing;
                    LoopAction::RunPipeline
                }
            },
            (LoopState::Running, LoopEvent::CancelRequested) => {
                self.cancel_requested = true;
                self.stop(StopReason::Cancelled);
                LoopAction::Exit
            },
            (LoopState::Executing, LoopEvent::RunSucceeded) => {
                if self.completed_runs < u64::MAX {
                    self.completed_runs = self.completed_runs + 1;
                }
                if self.cancel_requested {
                    self.stop(StopReason::Cancelled);
                    LoopAction::Exit
                } else {
                    self.state = LoopState::Running;
                    LoopAction::Wait
                }
            },
            (LoopState::Executing, LoopEvent::RunFailed) => {
                self.stop(StopReason::RunFailed);
                LoopAction::Exit
            },
            (LoopState::Created, LoopEvent::CancelRequested)
            | (LoopState::Executing, LoopEvent::CancelRequested)
            | (LoopState::Stopping, LoopEvent::CancelRequested) => {
                self.cancel_requested = true;
                LoopAction::Continue
            },
            (LoopState::Stopping, LoopEvent::Exited) => {
                self.state = LoopState::Stopped;
                LoopAction::Continue
            },
            _ => LoopAction::Continue,
        }
    }

    /// Handles `events` one after the other and answers with what the loop
    /// asked for on each.
    pub fn replay(&mut self, events: &Vec<LoopEvent>) -> (asked: Vec<LoopAction>)
        ensures
            *final(self) == old(self).after(events@),
            asked@ == old(self).actions(events@),
    {
        let mut asked: Vec<LoopAction> = Vec::new();
        let mut i: usize = 0;
        while i < events.len()
            invariant
                i <= events.len(),
                *self == old(self).after(events@.take(i as int)),
                asked@ == old(self).actions(events@.take(i as int)),
            decreases events.len() - i,
        {
            proof {
                let upto = events@.take(i + 1);
                assert(upto.drop_last() == events@.take(i as int));
                assert(upto.last() == events@[i as int]);
            }
            let action = self.handle(events[i]);
            asked.push(action);
            i += 1;
        }
        proof {
            assert(events@.take(i as int) == events@);
        }
        asked
    }
}

/// Where the shutdown stands.
#[derive(Clone, Copy, Debug, PartialEq, Eq, Structural)]
pub enum ShutdownState {
    /// Waiting for the interrupt.
    Waiting,
    /// The loop has been cancelled and is waited for.
    Joining,
    /// The loop has stopped: the process may end.
    Done,
}

/// What the driver reports to the coordinator.
#[derive(Clone, Copy, Debug, PartialEq, Eq, Structural)]
pub enum ShutdownEvent {
    /// The interrupt arrived.
    Interrupt,
    /// The loop has stopped.
    LoopStopped,
}

/// What the coordinator asks of the driver.
#[derive(Clone, Copy, Debug, PartialEq, Eq, Structural)]
pub enum ShutdownAction {
    /// Request the cancellation of the loop, then wait until it has stopped.
    CancelAndJoin,
    /// End the process.
    Exit,
    /// Nothing new.
    Continue,
}

/// The coordinator of the shutdown.
#[derive(Clone, Copy, Debug, PartialEq, Eq, Structural)]
pub struct ShutdownCoordinator {
    pub state: ShutdownState,
}

impl ShutdownCoordinator {
    /// What `event` leads to. Only the first interrupt cancels the loop; one
    /// that comes again changes nothing.
    pub open spec fn next(self, event: ShutdownEvent) -> (ShutdownCoordinator, ShutdownAction) {
        match (self.state, event) {
            (ShutdownState::Waiting, ShutdownEvent::Interrupt) => (
                ShutdownCoordinator { state: ShutdownState::Joining },
                ShutdownAction::CancelAndJoin,
            ),
            (ShutdownState::Joining, ShutdownEvent::LoopStopped) => (
                ShutdownCoordinator { state: ShutdownState::Done },
                ShutdownAction::Exit,
            ),
            _ => (self, ShutdownAction::Continue),
        }
    }

    /// A coordinator that waits for the interrupt.
    pub fn new() -> (coordinator: ShutdownCoordinator)
        ensures
            coordinator.state == ShutdownState::Waiting,
    {
        ShutdownCoordinator { state: ShutdownState::Waiting }
    }

    /// Takes what the driver reports and answers with what to do.
    pub fn handle(&mut self, event: ShutdownEvent) -> (action: ShutdownAction)
        ensures
            (*final(self), action) == old(self).next(event),
    {
        match (self.state, event) {
            (ShutdownState::Waiting, ShutdownEvent::Interrupt) => {
                self.state = ShutdownState::Joining;
                ShutdownAction::CancelAndJoin
            },
            (ShutdownState::Joining, ShutdownEvent::LoopStopped) => {
                self.state = ShutdownState::Done;
                ShutdownAction::Exit
            },
            _ => ShutdownAction::Continue,
        }
    }
}

/// A cancellation that is requested while the loop waits between two ticks
/// stops the loop at once, without another run.
pub proof fn lemma_cancel_while_waiting(task: TaskLoop)
    requires
        task.state == LoopState::Running,
    ensures
        task.next(LoopEvent::CancelRequested).0.state == LoopState::Stopping,
        task.next(LoopEvent::CancelRequested).0.cancel_requested,
        task.next(LoopEvent::CancelRequested).0.completed_runs == task.completed_runs,
        task.next(LoopEvent::CancelRequested).1 == LoopAction::Exit,
{
}

/// A cancellation that is requested while a run is in flight does not touch
/// the run: the loop goes on executing, and stops when the run has ended. A
/// run that ended well is counted.
pub proof fn lemma_cancel_during_run(task: TaskLoop)
    requires
        task.state == LoopState::Executing,
    ensures
        task.next(LoopEvent::CancelRequested).0.state == LoopState::Executing,
        task.next(LoopEvent::CancelRequested).1 == LoopAction::Continue,
        task.next(LoopEvent::CancelRequested).0.next(LoopEvent::RunSucceeded).0.state
            == LoopState::Stopping,
        task.next(LoopEvent::CancelRequested).0.next(LoopEvent::RunSucceeded).0.completed_runs
            == task.one_more(),
        task.next(LoopEvent::CancelRequested).0.next(LoopEvent::RunSucceeded).1
            == LoopAction::Exit,
        task.next(LoopEvent::CancelRequested).0.next(LoopEvent::RunFailed).0.state
            == LoopState::Stopping,
        task.next(LoopEvent::CancelRequested).0.next(LoopEvent::RunFailed).1 == LoopAction::Exit,
{
}

/// Once a cancellation has been requested, no run is ever started again,
/// whatever is reported to the loop afterwards.
pub proof fn lemma_no_run_after_cancel(task: TaskLoop, events: Seq<LoopEvent>)
    requires
        task.cancel_requested,
    ensures
        task.after(events).cancel_requested,
        task.actions(events).len() == events.len(),
        forall|k: int|
            0 <= k < events.len() ==> #[trigger] task.actions(events)[k] != LoopAction::RunPipeline,
    decreases events.len(),
{
    if events.len() > 0 {
        lemma_no_run_after_cancel(task, events.drop_last());
    }
}

/// A run is only started on a tick, from waiting, and while a run is in
/// flight no second one is started: at most one run is under way.
pub proof fn lemma_one_run_at_a_time(task: TaskLoop, event: LoopEvent)
    ensures
        task.next(event).1 == LoopAction::RunPipeline ==> {
            &&& task.state == LoopState::Running
            &&& event == LoopEvent::Tick
            &&& !task.cancel_requested
            &&& task.next(event).0.state == LoopState::Executing
        },
        task.state == LoopState::Executing ==> task.next(event).1 != LoopAction::RunPipeline,
{
}

/// A run that fails stops the loop; it is not tried again.
pub proof fn lemma_failure_stops(task: TaskLoop)
    requires
        task.state == LoopState::Executing,
    ensures
        task.next(LoopEvent::RunFailed).0.state == LoopState::Stopping,
        task.next(LoopEvent::RunFailed).0.completed_runs == task.completed_runs,
        task.next(LoopEvent::RunFailed).1 == LoopAction::Exit,
{
}

/// A loop that has stopped stays stopped and asks for nothing.
pub proof fn lemma_stopped_is_final(task: TaskLoop, events: Seq<LoopEvent>)
    requires
        task.state == LoopState::Stopped,
    ensures
        task.after(events) == task,
        task.actions(events).len() == events.len(),
        forall|k: int| 0 <= k < events.len() ==> #[trigger] task.actions(events)[k] == LoopAction::Continue,
    decreases events.len(),
{
    if events.len() > 0 {
        lemma_stopped_is_final(task, events.drop_last());
    }
}

/// An interrupt that is delivered twice cancels the loop once.
pub proof fn lemma_second_interrupt_is_ignored(coordinator: ShutdownCoordinator)
    requires
        coordinator.state == ShutdownState::Waiting,
    ensures
        coordinator.next(ShutdownEvent::Interrupt).1 == ShutdownAction::CancelAndJoin,
        coordinator.next(ShutdownEvent::Interrupt).0.next(ShutdownEvent::Interrupt) == (
            coordinator.next(ShutdownEvent::Interrupt).0,
            ShutdownAction::Continue,
        ),
{
}

/// Requesting a cancellation again changes nothing and asks for nothing.
pub proof fn lemma_cancel_is_idempotent(task: TaskLoop)
    ensures
        task.next(LoopEvent::CancelRequested).0.next(LoopEvent::CancelRequested) == (
            task.next(LoopEvent::CancelRequested).0,
            LoopAction::Continue,
        ),
{
}

} // verus!
