use btc_tracker::task_loop::{
    schedule, LoopAction, LoopEvent, LoopState, Schedule, ShutdownAction, ShutdownCoordinator,
    ShutdownEvent, ShutdownState, StopReason, TaskLoop,
};

fn running() -> TaskLoop {
    let mut task = TaskLoop::new();
    assert_eq!(task.handle(LoopEvent::Started), LoopAction::Wait);
    task
}

fn executing() -> TaskLoop {
    let mut task = running();
    assert_eq!(task.handle(LoopEvent::Tick), LoopAction::RunPipeline);
    task
}

#[test]
fn the_first_tick_comes_after_a_full_period() {
    assert_eq!(
        schedule(1800),
        Some(Schedule { first_tick_after_secs: 1800, every_secs: 1800 })
    );
    assert_eq!(schedule(1), Some(Schedule { first_tick_after_secs: 1, every_secs: 1 }));
}

#[test]
fn a_period_of_zero_has_no_schedule() {
    assert_eq!(schedule(0), None);
}

#[test]
fn a_new_loop_is_created_and_has_run_nothing() {
    let task = TaskLoop::new();
    assert_eq!(task.state, LoopState::Created);
    assert!(!task.cancel_requested);
    assert_eq!(task.completed_runs, 0);
    assert_eq!(task.stop_reason, None);
}

#[test]
fn ticks_run_the_pipeline_one_at_a_time() {
    let mut task = running();
    assert_eq!(task.state, LoopState::Running);
    assert_eq!(task.handle(LoopEvent::Tick), LoopAction::RunPipeline);
    assert_eq!(task.state, LoopState::Executing);
    assert_eq!(task.handle(LoopEvent::Tick), LoopAction::Continue);
    assert_eq!(task.state, LoopState::Executing);
    assert_eq!(task.handle(LoopEvent::RunSucceeded), LoopAction::Wait);
    assert_eq!(task.state, LoopState::Running);
    assert_eq!(task.completed_runs, 1);
    assert_eq!(task.handle(LoopEvent::Tick), LoopAction::RunPipeline);
    assert_eq!(task.handle(LoopEvent::RunSucceeded), LoopAction::Wait);
    assert_eq!(task.completed_runs, 2);
}

#[test]
fn cancelling_between_ticks_stops_without_another_run() {
    let mut task = running();
    assert_eq!(task.handle(LoopEvent::CancelRequested), LoopAction::Exit);
    assert_eq!(task.state, LoopState::Stopping);
    assert_eq!(task.stop_reason, Some(StopReason::Cancelled));
    assert_eq!(task.handle(LoopEvent::Tick), LoopAction::Continue);
    assert_eq!(task.completed_runs, 0);
    assert_eq!(task.handle(LoopEvent::Exited), LoopAction::Continue);
    assert_eq!(task.state, LoopState::Stopped);
}

#[test]
fn cancelling_during_a_run_lets_the_run_finish() {
    let mut task = executing();
    assert_eq!(task.handle(LoopEvent::CancelRequested), LoopAction::Continue);
    assert_eq!(task.state, LoopState::Executing);
    assert!(task.cancel_requested);
    assert_eq!(task.handle(LoopEvent::RunSucceeded), LoopAction::Exit);
    assert_eq!(task.state, LoopState::Stopping);
    assert_eq!(task.completed_runs, 1);
    assert_eq!(task.stop_reason, Some(StopReason::Cancelled));
}

#[test]
fn cancelling_before_the_start_stops_at_the_start() {
    let mut task = TaskLoop::new();
    assert_eq!(task.handle(LoopEvent::CancelRequested), LoopAction::Continue);
    assert_eq!(task.state, LoopState::Created);
    assert_eq!(task.handle(LoopEvent::Started), LoopAction::Exit);
    assert_eq!(task.state, LoopState::Stopping);
    assert_eq!(task.stop_reason, Some(StopReason::Cancelled));
}

#[test]
fn a_failed_run_stops_the_loop() {
    let mut task = executing();
    assert_eq!(task.handle(LoopEvent::RunFailed), LoopAction::Exit);
    assert_eq!(task.state, LoopState::Stopping);
    assert_eq!(task.stop_reason, Some(StopReason::RunFailed));
    assert_eq!(task.completed_runs, 0);
    assert_eq!(task.handle(LoopEvent::CancelRequested), LoopAction::Continue);
    assert_eq!(task.stop_reason, Some(StopReason::RunFailed));
}

#[test]
fn a_stopped_loop_stays_stopped() {
    let mut task = running();
    task.handle(LoopEvent::CancelRequested);
    task.handle(LoopEvent::Exited);
    let stopped = task;
    let asked = task.replay(&vec![
        LoopEvent::Started,
        LoopEvent::Tick,
        LoopEvent::RunSucceeded,
        LoopEvent::RunFailed,
        LoopEvent::CancelRequested,
        LoopEvent::Exited,
    ]);
    assert_eq!(asked, vec![LoopAction::Continue; 6]);
    assert_eq!(task, stopped);
}

#[test]
fn a_recorded_day_replays_to_the_same_end() {
    let mut task = TaskLoop::new();
    let asked = task.replay(&vec![
        LoopEvent::Started,
        LoopEvent::Tick,
        LoopEvent::RunSucceeded,
        LoopEvent::Tick,
        LoopEvent::CancelRequested,
        LoopEvent::RunSucceeded,
        LoopEvent::Tick,
        LoopEvent::Exited,
    ]);
    assert_eq!(
        asked,
        vec![
            LoopAction::Wait,
            LoopAction::RunPipeline,
            LoopAction::Wait,
            LoopAction::RunPipeline,
            LoopAction::Continue,
            LoopAction::Exit,
            LoopAction::Continue,
            LoopAction::Continue,
        ]
    );
    assert_eq!(
        task,
        TaskLoop {
            state: LoopState::Stopped,
            cancel_requested: true,
            completed_runs: 2,
            stop_reason: Some(StopReason::Cancelled),
        }
    );
}

#[test]
fn no_run_starts_once_cancelled() {
    let mut task = TaskLoop {
        state: LoopState::Running,
        cancel_requested: true,
        completed_runs: 7,
        stop_reason: None,
    };
    let asked = task.replay(&vec![LoopEvent::Tick, LoopEvent::Tick, LoopEvent::Started]);
    assert!(!asked.contains(&LoopAction::RunPipeline));
    assert_eq!(asked[0], LoopAction::Exit);
    assert_eq!(task.state, LoopState::Stopping);
    assert_eq!(task.completed_runs, 7);
}

#[test]
fn the_run_count_stays_at_its_largest() {
    let mut task = TaskLoop {
        state: LoopState::Executing,
        cancel_requested: false,
        completed_runs: u64::MAX,
        stop_reason: None,
    };
    assert_eq!(task.handle(LoopEvent::RunSucceeded), LoopAction::Wait);
    assert_eq!(task.completed_runs, u64::MAX);
}

#[test]
fn the_first_interrupt_cancels_and_the_second_is_ignored() {
    let mut coordinator = ShutdownCoordinator::new();
    assert_eq!(coordinator.state, ShutdownState::Waiting);
    assert_eq!(coordinator.handle(ShutdownEvent::Interrupt), ShutdownAction::CancelAndJoin);
    assert_eq!(coordinator.state, ShutdownState::Joining);
    assert_eq!(coordinator.handle(ShutdownEvent::Interrupt), ShutdownAction::Continue);
    assert_eq!(coordinator.state, ShutdownState::Joining);
    assert_eq!(coordinator.handle(ShutdownEvent::LoopStopped), ShutdownAction::Exit);
    assert_eq!(coordinator.state, ShutdownState::Done);
    assert_eq!(coordinator.handle(ShutdownEvent::Interrupt), ShutdownAction::Continue);
    assert_eq!(coordinator.state, ShutdownState::Done);
}

#[test]
fn a_loop_that_stops_by_itself_does_not_end_the_wait_for_the_interrupt() {
    let mut coordinator = ShutdownCoordinator::new();
    assert_eq!(coordinator.handle(ShutdownEvent::LoopStopped), ShutdownAction::Continue);
    assert_eq!(coordinator.state, ShutdownState::Waiting);
}
