//! The scan and report task as a state machine.
//!
//! The task waits for its trigger, has the pad scanned, composes the report
//! and has it transmitted, once or followed by a report with no key, and
//! waits again. It performs none of this itself: each step names the action
//! to perform, and the next step takes the outcome of that action.
//!
//! A task that is woken by a signal has the columns driven high before it
//! waits: the scan leaves them low, and a key can raise the signal only
//! through an active column.

use crate::key::Key;
use crate::pressed::PressedKeys;
use crate::report::{lemma_release_is_all_zero, KeyboardReport};
use vstd::prelude::*;

verus! {

/// What wakes the task for its next cycle.
#[derive(Clone, Copy, PartialEq, Eq, Debug, Structural)]
pub enum Trigger {
    /// A fixed interval: the task sleeps for `millis` and scans.
    Interval { millis: u64 },
    /// A wake signal that tells of a key that is likely pressed. After a
    /// cycle the task first lets `settle_millis` pass, where that is not 0,
    /// then has the columns activated and waits for the signal.
    Edge { settle_millis: u64 },
}

/// How the task is set up.
#[derive(Clone, Copy, PartialEq, Eq, Debug, Structural)]
pub struct TaskConfig {
    /// What wakes the task.
    pub trigger: Trigger,
    /// Whether every report is followed at once by a report with no key.
    /// The pad does not tell releases from presses; without the second
    /// report the host takes a key as held until the next cycle.
    pub release_after_report: bool,
}

/// Where the task stands.
#[derive(Clone, Copy, PartialEq, Eq, Debug)]
pub enum TaskState {
    /// Letting the settle time pass after a cycle.
    Settling,
    /// Having every column driven high, so that a pressed key can raise the
    /// wake signal.
    Arming,
    /// Waiting for the trigger.
    Waiting,
    /// Having the pad scanned.
    Scanning,
    /// Having the composed report transmitted.
    Reporting(KeyboardReport),
    /// Having the report with no key transmitted.
    Releasing,
    /// Ended by a hardware fault on a line of the matrix.
    Stopped,
}

/// What the firmware is to do next.
#[derive(Clone, Copy, PartialEq, Eq, Debug)]
pub enum TaskAction {
    /// Let `millis` milliseconds pass.
    Sleep { millis: u64 },
    /// Drive every column high.
    ArmColumns,
    /// Wait for the wake signal.
    AwaitEdge,
    /// Scan the whole pad.
    Scan,
    /// Transmit the report on the input endpoint.
    Transmit(KeyboardReport),
    /// End the task: a line of the matrix met a hardware fault.
    Stop,
}

/// How an action ended.
#[derive(Clone, Copy, PartialEq, Eq, Debug)]
pub enum TaskEvent {
    /// The sleep is over, or the wake signal came.
    Woken,
    /// Every column is driven high.
    Armed,
    /// The scan is complete and found these keys.
    Scanned(PressedKeys),
    /// A line of the matrix could not be driven or read: the scan, or the
    /// activation of the columns, was abandoned.
    LineFault,
    /// The report was transmitted.
    Sent,
    /// The report could not be transmitted.
    SendFailed,
}

/// Something worth a trace that happened in a step.
#[derive(Clone, Copy, PartialEq, Eq, Debug, Structural)]
pub enum Diagnostic {
    /// A report was not transmitted and is dropped. The next cycle reports
    /// the keys as they are then.
    ReportDropped,
}

/// One step of the task: the state it is in now, the action to perform,
/// and what there is to trace.
#[derive(Clone, Copy, PartialEq, Eq, Debug)]
pub struct TaskStep {
    pub state: TaskState,
    pub action: TaskAction,
    pub diagnostic: Option<Diagnostic>,
}

impl TaskConfig {
    /// How long the task lets pass in the state `Settling`: the settle time
    /// of an edge trigger, the interval of an interval trigger.
    pub open spec fn pause_millis(self) -> u64 {
        match self.trigger {
            Trigger::Interval { millis } => millis,
            Trigger::Edge { settle_millis } => settle_millis,
        }
    }

    /// The state in which the task waits for its next cycle once a cycle is
    /// over.
    pub open spec fn rest(self) -> TaskState {
        match self.trigger {
            Trigger::Interval { .. } => TaskState::Waiting,
            Trigger::Edge { settle_millis } => if settle_millis == 0 {
                TaskState::Arming
            } else {
                TaskState::Settling
            },
        }
    }

    /// The state in which the task begins: waiting for its first trigger,
    /// once the columns are active where the trigger is a signal.
    pub open spec fn first(self) -> TaskState {
        match self.trigger {
            Trigger::Interval { .. } => TaskState::Waiting,
            Trigger::Edge { .. } => TaskState::Arming,
        }
    }

    /// The state that follows a transmission of the composed report.
    pub open spec fn after_report(self) -> TaskState {
        if self.release_after_report {
            TaskState::Releasing
        } else {
            self.rest()
        }
    }

    /// The state in which the task waits for its next cycle once a cycle is
    /// over.
    pub fn resting_state(&self) -> (state: TaskState)
        ensures
            state == self.rest(),
    {
        match self.trigger {
            Trigger::Interval { .. } => TaskState::Waiting,
            Trigger::Edge { settle_millis } => if settle_millis == 0 {
                TaskState::Arming
            } else {
                TaskState::Settling
            },
        }
    }
}

impl TaskState {
    /// Whether `action` is the action that belongs to this state.
    pub open spec fn calls_for(self, config: TaskConfig, action: TaskAction) -> bool {
        match self {
            TaskState::Settling => action == (TaskAction::Sleep { millis: config.pause_millis() }),
            TaskState::Arming => action == TaskAction::ArmColumns,
            TaskState::Waiting => match config.trigger {
                Trigger::Interval { millis } => action == (TaskAction::Sleep { millis }),
                Trigger::Edge { .. } => action == TaskAction::AwaitEdge,
            },
            TaskState::Scanning => action == TaskAction::Scan,
            TaskState::Reporting(report) => action == TaskAction::Transmit(report),
            TaskState::Releasing => action matches TaskAction::Transmit(report) && report.reports(
                Set::<Key>::empty(),
            ),
            TaskState::Stopped => action == TaskAction::Stop,
        }
    }

    /// Whether `event` is an outcome of the action that belongs to this
    /// state.
    pub open spec fn awaits(self, event: TaskEvent) -> bool {
        match self {
            TaskState::Settling | TaskState::Waiting => event is Woken,
            TaskState::Arming => event is Armed || event is LineFault,
            TaskState::Scanning => event is Scanned || event is LineFault,
            TaskState::Reporting(_) | TaskState::Releasing => event is Sent || event is SendFailed,
            TaskState::Stopped => false,
        }
    }

    /// Whether `next` is the state that follows this one on `event`.
    ///
    /// The trigger leads to a scan, a complete scan to the transmission of
    /// the report composed from it, a transmission to the release report or
    /// to the next wait, whether it succeeded or not. A fault on a line of
    /// the matrix stops the task for good. An event that the state does not
    /// await changes nothing.
    pub open spec fn leads_to(self, config: TaskConfig, event: TaskEvent, next: TaskState) -> bool {
        match (self, event) {
            (TaskState::Settling, TaskEvent::Woken) => next == config.first(),
            (TaskState::Arming, TaskEvent::Armed) => next == TaskState::Waiting,
            (TaskState::Arming, TaskEvent::LineFault) => next == TaskState::Stopped,
            (TaskState::Waiting, TaskEvent::Woken) => next == TaskState::Scanning,
            (TaskState::Scanning, TaskEvent::Scanned(pressed)) => next matches TaskState::Reporting(
                report,
            ) && report.reports(pressed@),
            (TaskState::Scanning, TaskEvent::LineFault) => next == TaskState::Stopped,
            (TaskState::Reporting(_), TaskEvent::Sent) => next == config.after_report(),
            (TaskState::Reporting(_), TaskEvent::SendFailed) => next == config.after_report(),
            (TaskState::Releasing, TaskEvent::Sent) => next == config.rest(),
            (TaskState::Releasing, TaskEvent::SendFailed) => next == config.rest(),
            _ => next == self,
        }
    }

    /// What a step from this state on `event` has to trace: a dropped report
    /// where a transmission that the state awaited has failed.
    pub open spec fn traces(self, event: TaskEvent) -> Option<Diagnostic> {
        if event is SendFailed && self.awaits(event) {
            Some(Diagnostic::ReportDropped)
        } else {
            None
        }
    }

    /// The state in which the task begins: waiting for its first trigger,
    /// once the columns are active where the trigger is a signal.
    pub fn start(config: &TaskConfig) -> (state: TaskState)
        ensures
            state == config.first(),
    {
        match config.trigger {
            Trigger::Interval { .. } => TaskState::Waiting,
            Trigger::Edge { .. } => TaskState::Arming,
        }
    }

    /// The action that belongs to this state.
    pub fn action(&self, config: &TaskConfig) -> (action: TaskAction)
        ensures
            self.calls_for(*config, action),
    {
        match self {
            TaskState::Settling => match config.trigger {
                Trigger::Edge { settle_millis } => TaskAction::Sleep { millis: settle_millis },
                Trigger::Interval { millis } => TaskAction::Sleep { millis },
            },
            TaskState::Arming => TaskAction::ArmColumns,
            TaskState::Waiting => match config.trigger {
                Trigger::Interval { millis } => TaskAction::Sleep { millis },
                Trigger::Edge { .. } => TaskAction::AwaitEdge,
            },
            TaskState::Scanning => TaskAction::Scan,
            TaskState::Reporting(report) => TaskAction::Transmit(*report),
            TaskState::Releasing => TaskAction::Transmit(KeyboardReport::released()),
            TaskState::Stopped => TaskAction::Stop,
        }
    }
}

/// One step of the scan and report task: takes the outcome of the action
/// that the task was waiting on and says where the task stands now and what
/// is to be done next.
///
/// Within a cycle the order is fixed: the scan is complete before the report
/// is composed, and the report is composed before it is handed out for
/// transmission. A transmission that fails is traced and not tried again;
/// where a release is to follow the report, it follows a failed one too.
pub fn report_keystrokes(config: &TaskConfig, state: TaskState, event: TaskEvent) -> (step:
    TaskStep)
    ensures
        state.leads_to(*config, event, step.state),
        step.state.calls_for(*config, step.action),
        step.diagnostic == state.traces(event),
{
    let mut diagnostic: Option<Diagnostic> = None;
    let next = match state {
        TaskState::Settling => match event {
            TaskEvent::Woken => TaskState::start(config),
            _ => state,
        },
        TaskState::Arming => match event {
            TaskEvent::Armed => TaskState::Waiting,
            TaskEvent::LineFault => TaskState::Stopped,
            _ => state,
        },
        TaskState::Waiting => match event {
            TaskEvent::Woken => TaskState::Scanning,
            _ => state,
        },
        TaskState::Scanning => match event {
            TaskEvent::Scanned(pressed) => TaskState::Reporting(KeyboardReport::compose(&pressed)),
            TaskEvent::LineFault => TaskState::Stopped,
            _ => state,
        },
        TaskState::Reporting(_) => match event {
            TaskEvent::Sent => after_report(config),
            TaskEvent::SendFailed => {
                diagnostic = Some(Diagnostic::ReportDropped);
                after_report(config)
            },
            _ => state,
        },
        TaskState::Releasing => match event {
            TaskEvent::Sent => config.resting_state(),
            TaskEvent::SendFailed => {
                diagnostic = Some(Diagnostic::ReportDropped);
                config.resting_state()
            },
            _ => state,
        },
        TaskState::Stopped => state,
    };
    let action = next.action(config);
    TaskStep { state: next, action, diagnostic }
}

/// The state that follows a transmission of the composed report.
fn after_report(config: &TaskConfig) -> (state: TaskState)
    ensures
        state == config.after_report(),
{
    if config.release_after_report {
        TaskState::Releasing
    } else {
        config.resting_state()
    }
}

/// Where every report is to be followed by a release, a complete scan leads
/// to two transmissions in a row: first the report composed from the scan,
/// then the report with no key, whether the first was transmitted or not.
/// After the second the task waits for its next cycle.
pub proof fn lemma_release_follows_report(
    config: TaskConfig,
    pressed: PressedKeys,
    reporting: TaskStep,
    first_outcome: TaskEvent,
    releasing: TaskStep,
    second_outcome: TaskEvent,
    resting: TaskStep,
)
    requires
        config.release_after_report,
        first_outcome is Sent || first_outcome is SendFailed,
        second_outcome is Sent || second_outcome is SendFailed,
        TaskState::Scanning.leads_to(config, TaskEvent::Scanned(pressed), reporting.state),
        reporting.state.calls_for(config, reporting.action),
        reporting.state.leads_to(config, first_outcome, releasing.state),
        releasing.state.calls_for(config, releasing.action),
        releasing.state.leads_to(config, second_outcome, resting.state),
    ensures
        reporting.action matches TaskAction::Transmit(report) && report.reports(pressed@),
        releasing.action matches TaskAction::Transmit(report) && report.wire() == Seq::new(
            8,
            |i: int| 0u8,
        ),
        resting.state == config.rest(),
{
    match releasing.action {
        TaskAction::Transmit(report) => {
            lemma_release_is_all_zero(report);
        },
        _ => {},
    }
}

/// Without an event that it awaits the task does not move, and once stopped
/// it stays stopped.
pub proof fn lemma_unawaited_event_changes_nothing(
    config: TaskConfig,
    state: TaskState,
    event: TaskEvent,
    next: TaskState,
)
    requires
        state.leads_to(config, event, next),
        !state.awaits(event),
    ensures
        next == state,
{
}

} // verus!
