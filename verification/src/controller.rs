//! The loop around the cycles: run one, report how it ended, sleep for the
//! interval, run the next.
//!
//! However a cycle ends, the controller goes on to the next interval; it has
//! no action that stops the process. There is no backoff and no retry: a
//! cycle that keeps failing fails once per interval.

use crate::cycle::CycleError;
use crate::cycle::CycleOutcome;
use crate::cycle::CycleResult;
use vstd::prelude::*;

verus! {

/// The interval between cycles where none is configured, in seconds.
pub const DEFAULT_INTERVAL_SECS: u64 = 3600;

/// What the controller waits for.
#[derive(Clone, Copy, Debug, PartialEq, Eq, Structural)]
pub enum ControllerState {
    /// Waiting to be started.
    Ready,
    /// Waiting for the running cycle to end.
    Running,
    /// Waiting for the interval to pass.
    Sleeping,
}

/// What happened outside.
#[derive(Clone, Copy, Debug, PartialEq, Eq, Structural)]
pub enum ControllerEvent {
    /// The process has started.
    Started,
    /// The running cycle has ended.
    CycleEnded(CycleOutcome),
    /// The sleep is over.
    Woke,
}

/// The line to log when a cycle has ended.
#[derive(Clone, Copy, Debug, PartialEq, Eq, Structural)]
pub enum Report {
    /// The cycle went through, with these figures.
    Completed(CycleResult),
    /// The cycle failed for this reason.
    Failed(CycleError),
}

/// What the driver is to do next.
#[derive(Clone, Copy, Debug, PartialEq, Eq, Structural)]
pub enum ControllerAction {
    /// Run one cycle to its end; answer with `CycleEnded`.
    RunCycle,
    /// Log the report, then sleep for so many seconds; answer with `Woke`.
    ReportAndSleep { report: Report, seconds: u64 },
    /// Nothing: the event does not fit what the controller waits for.
    Ignore,
}

/// The report of an outcome: a cycle that harvested nothing counts as gone
/// through.
pub open spec fn report_of(outcome: CycleOutcome) -> Report {
    match outcome {
        CycleOutcome::NothingHarvested(result) => Report::Completed(result),
        CycleOutcome::Distributed(result) => Report::Completed(result),
        CycleOutcome::Failed(error) => Report::Failed(error),
    }
}

/// The step of the controller.
pub open spec fn controller_next(
    state: ControllerState,
    event: ControllerEvent,
    interval_secs: u64,
) -> (ControllerState, ControllerAction) {
    match (state, event) {
        (ControllerState::Ready, ControllerEvent::Started) => (
            ControllerState::Running,
            ControllerAction::RunCycle,
        ),
        (ControllerState::Running, ControllerEvent::CycleEnded(outcome)) => (
            ControllerState::Sleeping,
            ControllerAction::ReportAndSleep { report: report_of(outcome), seconds: interval_secs },
        ),
        (ControllerState::Sleeping, ControllerEvent::Woke) => (
            ControllerState::Running,
            ControllerAction::RunCycle,
        ),
        _ => (state, ControllerAction::Ignore),
    }
}

/// The loop around the cycles.
#[derive(Clone, Copy, Debug, PartialEq, Eq)]
pub struct Controller {
    state: ControllerState,
    interval_secs: u64,
}

impl Controller {
    /// What the controller waits for.
    pub closed spec fn state(&self) -> ControllerState {
        self.state
    }

    /// Seconds between the end of a cycle and the start of the next.
    pub closed spec fn interval_secs(&self) -> u64 {
        self.interval_secs
    }

    /// A controller that waits to be started.
    pub fn new(interval_secs: u64) -> (controller: Controller)
        ensures
            controller.state() == ControllerState::Ready,
            controller.interval_secs() == interval_secs,
    {
        Controller { state: ControllerState::Ready, interval_secs }
    }

    /// Takes what happened outside and answers with what to do next.
    pub fn step(&mut self, event: ControllerEvent) -> (action: ControllerAction)
        ensures
            final(self).interval_secs() == old(self).interval_secs(),
            final(self).state() == controller_next(
                old(self).state(),
                event,
                old(self).interval_secs(),
            ).0,
            action == controller_next(old(self).state(), event, old(self).interval_secs()).1,
    {
        match (self.state, event) {
            (ControllerState::Ready, ControllerEvent::Started) => {
                self.state = ControllerState::Running;
                ControllerAction::RunCycle
            },
            (ControllerState::Running, ControllerEvent::CycleEnded(outcome)) => {
                self.state = ControllerState::Sleeping;
                let report = match outcome {
                    CycleOutcome::NothingHarvested(result) => Report::Completed(result),
                    CycleOutcome::Distributed(result) => Report::Completed(result),
                    CycleOutcome::Failed(error) => Report::Failed(error),
                };
                ControllerAction::ReportAndSleep { report, seconds: self.interval_secs }
            },
            (ControllerState::Sleeping, ControllerEvent::Woke) => {
                self.state = ControllerState::Running;
                ControllerAction::RunCycle
            },
            _ => ControllerAction::Ignore,
        }
    }
}

/// However a cycle ends, and in particular where it failed, the controller
/// reports it, sleeps for the interval and then runs the next cycle.
pub proof fn lemma_next_cycle_follows(outcome: CycleOutcome, interval_secs: u64)
    ensures
        ({
            let ended = controller_next(
                ControllerState::Running,
                ControllerEvent::CycleEnded(outcome),
                interval_secs,
            );
            let woke = controller_next(ended.0, ControllerEvent::Woke, interval_secs);
            &&& ended.0 == ControllerState::Sleeping
            &&& ended.1 == ControllerAction::ReportAndSleep {
                report: report_of(outcome),
                seconds: interval_secs,
            }
            &&& outcome is Failed ==> report_of(outcome) == Report::Failed(outcome->Failed_0)
            &&& woke.0 == ControllerState::Running
            &&& woke.1 == ControllerAction::RunCycle
        }),
{
}

/// No two cycles overlap: while one runs, nothing starts another.
pub proof fn lemma_one_cycle_at_a_time(event: ControllerEvent, interval_secs: u64)
    ensures
        controller_next(ControllerState::Running, event, interval_secs).1
            != ControllerAction::RunCycle,
{
}

} // verus!
