use usb_keypad::host::{respond, HostRequest, HostResponse, ReportKind};
use usb_keypad::key::Key;
use usb_keypad::pressed::PressedKeys;
use usb_keypad::report::KeyboardReport;
use usb_keypad::task::{
    report_keystrokes, Diagnostic, TaskAction, TaskConfig, TaskEvent, TaskState, TaskStep, Trigger,
};

fn pressed_of(keys: &[Key]) -> PressedKeys {
    let mut pressed = PressedKeys::new();
    for key in keys {
        pressed.insert(*key);
    }
    pressed
}

fn edge_with_release() -> TaskConfig {
    TaskConfig { trigger: Trigger::Edge { settle_millis: 150 }, release_after_report: true }
}

fn interval_single() -> TaskConfig {
    TaskConfig { trigger: Trigger::Interval { millis: 20 }, release_after_report: false }
}

/// Feeds the events to the task one by one, from its start, and returns the
/// steps it took.
fn steps(config: &TaskConfig, events: &[TaskEvent]) -> Vec<TaskStep> {
    let mut state = TaskState::start(config);
    let mut taken = Vec::new();
    for event in events {
        let step = report_keystrokes(config, state, *event);
        state = step.state;
        taken.push(step);
    }
    taken
}

#[test]
fn the_interval_task_starts_by_sleeping() {
    let config = interval_single();
    assert_eq!(TaskState::start(&config), TaskState::Waiting);
    assert_eq!(TaskState::start(&config).action(&config), TaskAction::Sleep { millis: 20 });
}

#[test]
fn the_edge_task_starts_by_activating_the_columns() {
    let config = edge_with_release();
    assert_eq!(TaskState::start(&config), TaskState::Arming);
    assert_eq!(TaskState::start(&config).action(&config), TaskAction::ArmColumns);
    let step = report_keystrokes(&config, TaskState::Arming, TaskEvent::Armed);
    assert_eq!(step.state, TaskState::Waiting);
    assert_eq!(step.action, TaskAction::AwaitEdge);
}

#[test]
fn a_key_press_is_reported_and_then_released() {
    let config = edge_with_release();
    let taken = steps(
        &config,
        &[
            TaskEvent::Armed,
            TaskEvent::Woken,
            TaskEvent::Scanned(pressed_of(&[Key::Num7])),
            TaskEvent::Sent,
            TaskEvent::Sent,
        ],
    );
    let actions: Vec<TaskAction> = taken.iter().map(|step| step.action).collect();
    let report = KeyboardReport { modifier: 0, reserved: 0, keycodes: [0x24, 0, 0, 0, 0, 0] };
    assert_eq!(
        actions,
        vec![
            TaskAction::AwaitEdge,
            TaskAction::Scan,
            TaskAction::Transmit(report),
            TaskAction::Transmit(KeyboardReport::released()),
            TaskAction::Sleep { millis: 150 },
        ]
    );
    assert!(taken.iter().all(|step| step.diagnostic.is_none()));
    match (actions[2], actions[3]) {
        (TaskAction::Transmit(first), TaskAction::Transmit(second)) => {
            assert_eq!(first.to_bytes(), [0, 0, 0x24, 0, 0, 0, 0, 0]);
            assert_eq!(second.to_bytes(), [0, 0, 0, 0, 0, 0, 0, 0]);
        }
        other => panic!("two transmissions were expected: {:?}", other),
    }
}

#[test]
fn the_edge_task_settles_and_waits_for_the_signal_again() {
    let config = edge_with_release();
    let taken = steps(
        &config,
        &[
            TaskEvent::Armed,
            TaskEvent::Woken,
            TaskEvent::Scanned(PressedKeys::new()),
            TaskEvent::Sent,
            TaskEvent::Sent,
            TaskEvent::Woken,
            TaskEvent::Armed,
            TaskEvent::Woken,
        ],
    );
    let states: Vec<TaskState> = taken.iter().map(|step| step.state).collect();
    assert_eq!(
        states,
        vec![
            TaskState::Waiting,
            TaskState::Scanning,
            TaskState::Reporting(KeyboardReport::released()),
            TaskState::Releasing,
            TaskState::Settling,
            TaskState::Arming,
            TaskState::Waiting,
            TaskState::Scanning,
        ]
    );
    assert_eq!(taken[4].action, TaskAction::Sleep { millis: 150 });
    assert_eq!(taken[5].action, TaskAction::ArmColumns);
    assert_eq!(taken[6].action, TaskAction::AwaitEdge);
    assert_eq!(taken[7].action, TaskAction::Scan);
}

#[test]
fn an_edge_task_without_settle_time_activates_the_columns_at_once() {
    let config =
        TaskConfig { trigger: Trigger::Edge { settle_millis: 0 }, release_after_report: false };
    let taken = steps(
        &config,
        &[
            TaskEvent::Armed,
            TaskEvent::Woken,
            TaskEvent::Scanned(pressed_of(&[Key::A])),
            TaskEvent::Sent,
            TaskEvent::Armed,
        ],
    );
    assert_eq!(taken[3].state, TaskState::Arming);
    assert_eq!(taken[3].action, TaskAction::ArmColumns);
    assert_eq!(taken[4].state, TaskState::Waiting);
    assert_eq!(taken[4].action, TaskAction::AwaitEdge);
}

#[test]
fn the_interval_task_transmits_once_and_sleeps() {
    let config = interval_single();
    let taken = steps(
        &config,
        &[
            TaskEvent::Woken,
            TaskEvent::Scanned(pressed_of(&[Key::Num5, Key::A])),
            TaskEvent::Sent,
            TaskEvent::Woken,
        ],
    );
    let actions: Vec<TaskAction> = taken.iter().map(|step| step.action).collect();
    let report =
        KeyboardReport { modifier: 0, reserved: 0, keycodes: [0x22, 0x04, 0, 0, 0, 0] };
    assert_eq!(
        actions,
        vec![
            TaskAction::Scan,
            TaskAction::Transmit(report),
            TaskAction::Sleep { millis: 20 },
            TaskAction::Scan,
        ]
    );
}

#[test]
fn a_failed_transmission_is_traced_and_not_repeated() {
    let config = interval_single();
    let taken = steps(
        &config,
        &[TaskEvent::Woken, TaskEvent::Scanned(pressed_of(&[Key::D])), TaskEvent::SendFailed],
    );
    assert_eq!(taken[2].diagnostic, Some(Diagnostic::ReportDropped));
    assert_eq!(taken[2].state, TaskState::Waiting);
    assert_eq!(taken[2].action, TaskAction::Sleep { millis: 20 });
}

#[test]
fn the_release_follows_a_failed_report_too() {
    let config = edge_with_release();
    let taken = steps(
        &config,
        &[
            TaskEvent::Armed,
            TaskEvent::Woken,
            TaskEvent::Scanned(pressed_of(&[Key::Pound])),
            TaskEvent::SendFailed,
            TaskEvent::SendFailed,
        ],
    );
    assert_eq!(taken[3].diagnostic, Some(Diagnostic::ReportDropped));
    assert_eq!(taken[3].action, TaskAction::Transmit(KeyboardReport::released()));
    assert_eq!(taken[4].diagnostic, Some(Diagnostic::ReportDropped));
    assert_eq!(taken[4].state, TaskState::Settling);
}

#[test]
fn a_fault_while_activating_the_columns_stops_the_task() {
    let config = edge_with_release();
    let taken = steps(&config, &[TaskEvent::LineFault]);
    assert_eq!(taken[0].state, TaskState::Stopped);
    assert_eq!(taken[0].action, TaskAction::Stop);
}

#[test]
fn a_scan_fault_stops_the_task_for_good() {
    let config = edge_with_release();
    let taken = steps(&config, &[TaskEvent::Armed, TaskEvent::Woken, TaskEvent::LineFault]);
    assert_eq!(taken[2].state, TaskState::Stopped);
    assert_eq!(taken[2].action, TaskAction::Stop);
    for event in [
        TaskEvent::Woken,
        TaskEvent::Armed,
        TaskEvent::Scanned(PressedKeys::new()),
        TaskEvent::LineFault,
        TaskEvent::Sent,
        TaskEvent::SendFailed,
    ] {
        let step = report_keystrokes(&config, TaskState::Stopped, event);
        assert_eq!(step.state, TaskState::Stopped);
        assert_eq!(step.action, TaskAction::Stop);
        assert_eq!(step.diagnostic, None);
    }
}

#[test]
fn an_event_that_is_not_awaited_changes_nothing() {
    let config = edge_with_release();
    let report = KeyboardReport::compose(&pressed_of(&[Key::Num1]));
    let cases = [
        (TaskState::Waiting, TaskEvent::Sent),
        (TaskState::Waiting, TaskEvent::SendFailed),
        (TaskState::Waiting, TaskEvent::Scanned(pressed_of(&[Key::Num1]))),
        (TaskState::Waiting, TaskEvent::LineFault),
        (TaskState::Waiting, TaskEvent::Armed),
        (TaskState::Settling, TaskEvent::LineFault),
        (TaskState::Arming, TaskEvent::Woken),
        (TaskState::Arming, TaskEvent::Sent),
        (TaskState::Scanning, TaskEvent::Woken),
        (TaskState::Scanning, TaskEvent::Armed),
        (TaskState::Scanning, TaskEvent::SendFailed),
        (TaskState::Reporting(report), TaskEvent::Woken),
        (TaskState::Releasing, TaskEvent::LineFault),
    ];
    for (state, event) in cases {
        let step = report_keystrokes(&config, state, event);
        assert_eq!(step.state, state);
        assert_eq!(step.action, state.action(&config));
        assert_eq!(step.diagnostic, None);
    }
}

#[test]
fn the_action_of_a_step_is_that_of_its_state() {
    let config = edge_with_release();
    let events = [
        TaskEvent::Armed,
        TaskEvent::Woken,
        TaskEvent::Scanned(pressed_of(&[Key::B, Key::C])),
        TaskEvent::Sent,
        TaskEvent::SendFailed,
        TaskEvent::Woken,
        TaskEvent::Armed,
    ];
    for step in steps(&config, &events) {
        assert_eq!(step.action, step.state.action(&config));
    }
}

#[test]
fn resting_state_follows_the_trigger() {
    assert_eq!(interval_single().resting_state(), TaskState::Waiting);
    assert_eq!(edge_with_release().resting_state(), TaskState::Settling);
    let config =
        TaskConfig { trigger: Trigger::Edge { settle_millis: 0 }, release_after_report: true };
    assert_eq!(config.resting_state(), TaskState::Arming);
    assert_eq!(TaskState::start(&config), TaskState::Arming);
    assert_eq!(TaskState::start(&interval_single()), TaskState::Waiting);
}

#[test]
fn what_the_host_sets_is_accepted() {
    let request = HostRequest::SetReport { kind: ReportKind::Output, id: 0, length: 1 };
    assert_eq!(respond(&request), HostResponse::Accepted);
    let request = HostRequest::SetReport { kind: ReportKind::Feature, id: 9, length: 64 };
    assert_eq!(respond(&request), HostResponse::Accepted);
    assert_eq!(
        respond(&HostRequest::SetIdle { report: None, millis: 500 }),
        HostResponse::Accepted
    );
    assert_eq!(
        respond(&HostRequest::SetIdle { report: Some(3), millis: u32::MAX }),
        HostResponse::Accepted
    );
}

#[test]
fn what_the_host_asks_for_is_not_supported() {
    for kind in [ReportKind::Input, ReportKind::Output, ReportKind::Feature] {
        for id in [0u8, 1, 255] {
            assert_eq!(
                respond(&HostRequest::GetReport { kind, id }),
                HostResponse::NotSupported
            );
        }
    }
    assert_eq!(respond(&HostRequest::GetIdle { report: None }), HostResponse::NotSupported);
    assert_eq!(respond(&HostRequest::GetIdle { report: Some(0) }), HostResponse::NotSupported);
}
