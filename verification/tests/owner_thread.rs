use virtual_joystick::JoystickThreadCommand::{PressButton, ReleaseButton, Terminate};
use virtual_joystick::{
    Error, GatewayCall, OwnerAction, OwnerEvent, OwnerPhase, OwnerState, OwnerThread, Stat,
};

/// Runs `events` through a new owner thread of `device` and collects what it
/// does.
fn run(device: u32, events: &[OwnerEvent]) -> (OwnerThread, Vec<OwnerAction>) {
    let mut owner = OwnerThread::new(device);
    let mut actions = Vec::new();
    for event in events {
        actions.push(owner.step(*event));
    }
    (owner, actions)
}

fn calls(actions: &[OwnerAction]) -> Vec<GatewayCall> {
    let mut calls = Vec::new();
    for action in actions {
        if let OwnerAction::Call(call) = action {
            calls.push(*call);
        }
    }
    calls
}

#[test]
fn new_owner_is_initializing() {
    let owner = OwnerThread::new(4);
    assert_eq!(owner.device, 4);
    assert_eq!(owner.phase, OwnerPhase::Starting);
    assert_eq!(owner.state(), OwnerState::Initializing);
}

#[test]
fn owned_device_is_reset() {
    let (owner, actions) = run(
        1,
        &[
            OwnerEvent::Started,
            OwnerEvent::Status(Stat::Own),
            OwnerEvent::Flag(true),
            OwnerEvent::Announced,
        ],
    );
    assert_eq!(
        actions,
        vec![
            OwnerAction::Call(GatewayCall::GetStatus { device: 1 }),
            OwnerAction::Call(GatewayCall::Reset { device: 1 }),
            OwnerAction::Announce(Ok(())),
            OwnerAction::Receive,
        ]
    );
    assert_eq!(owner.state(), OwnerState::Running);
    assert_eq!(owner.phase, OwnerPhase::Listening);
}

#[test]
fn free_device_is_acquired_then_reset() {
    let (owner, actions) = run(
        2,
        &[
            OwnerEvent::Started,
            OwnerEvent::Status(Stat::Free),
            OwnerEvent::Flag(true),
            OwnerEvent::Flag(true),
            OwnerEvent::Announced,
        ],
    );
    assert_eq!(
        actions,
        vec![
            OwnerAction::Call(GatewayCall::GetStatus { device: 2 }),
            OwnerAction::Call(GatewayCall::Acquire { device: 2 }),
            OwnerAction::Call(GatewayCall::Reset { device: 2 }),
            OwnerAction::Announce(Ok(())),
            OwnerAction::Receive,
        ]
    );
    assert_eq!(owner.state(), OwnerState::Running);
}

#[test]
fn failed_acquire_is_reported_as_free() {
    let (owner, actions) = run(
        2,
        &[
            OwnerEvent::Started,
            OwnerEvent::Status(Stat::Free),
            OwnerEvent::Flag(false),
            OwnerEvent::Announced,
        ],
    );
    assert_eq!(
        actions,
        vec![
            OwnerAction::Call(GatewayCall::GetStatus { device: 2 }),
            OwnerAction::Call(GatewayCall::Acquire { device: 2 }),
            OwnerAction::Announce(Err(Error::CouldNotAcquire(Stat::Free))),
            OwnerAction::Exit,
        ]
    );
    assert_eq!(owner.state(), OwnerState::Terminated);
}

#[test]
fn busy_device_is_not_acquired() {
    let (owner, actions) =
        run(1, &[OwnerEvent::Started, OwnerEvent::Status(Stat::Busy), OwnerEvent::Announced]);
    assert_eq!(
        actions,
        vec![
            OwnerAction::Call(GatewayCall::GetStatus { device: 1 }),
            OwnerAction::Announce(Err(Error::CouldNotAcquire(Stat::Busy))),
            OwnerAction::Exit,
        ]
    );
    assert_eq!(calls(&actions), vec![GatewayCall::GetStatus { device: 1 }]);
    assert_eq!(owner.phase, OwnerPhase::Terminated);
}

#[test]
fn missing_device_is_reported_missing() {
    let (_, actions) =
        run(9, &[OwnerEvent::Started, OwnerEvent::Status(Stat::Missing), OwnerEvent::Announced]);
    assert_eq!(actions[1], OwnerAction::Announce(Err(Error::CouldNotAcquire(Stat::Missing))));
    assert_eq!(actions[2], OwnerAction::Exit);
    assert_eq!(calls(&actions), vec![GatewayCall::GetStatus { device: 9 }]);
}

#[test]
fn unknown_device_is_reported_unknown() {
    let (_, actions) =
        run(9, &[OwnerEvent::Started, OwnerEvent::Status(Stat::Unknown), OwnerEvent::Announced]);
    assert_eq!(actions[1], OwnerAction::Announce(Err(Error::CouldNotAcquire(Stat::Unknown))));
    assert_eq!(actions[2], OwnerAction::Exit);
}

#[test]
fn failed_reset_still_starts_the_owner() {
    let (owner, actions) = run(
        1,
        &[
            OwnerEvent::Started,
            OwnerEvent::Status(Stat::Own),
            OwnerEvent::Flag(false),
            OwnerEvent::Announced,
        ],
    );
    assert_eq!(actions[2], OwnerAction::Announce(Ok(())));
    assert_eq!(actions[3], OwnerAction::Receive);
    assert_eq!(owner.state(), OwnerState::Running);
}

#[test]
fn commands_become_calls_in_order() {
    let (owner, actions) = run(
        1,
        &[
            OwnerEvent::Started,
            OwnerEvent::Status(Stat::Own),
            OwnerEvent::Flag(true),
            OwnerEvent::Announced,
            OwnerEvent::Received(PressButton(3)),
            OwnerEvent::Flag(true),
            OwnerEvent::Received(PressButton(200)),
            OwnerEvent::Flag(true),
            OwnerEvent::Received(ReleaseButton(3)),
            OwnerEvent::Flag(true),
        ],
    );
    assert_eq!(
        calls(&actions[4..]),
        vec![
            GatewayCall::SetButton { pressed: true, device: 1, button: 3 },
            GatewayCall::SetButton { pressed: true, device: 1, button: 200 },
            GatewayCall::SetButton { pressed: false, device: 1, button: 3 },
        ]
    );
    assert_eq!(actions[5], OwnerAction::Receive);
    assert_eq!(actions[9], OwnerAction::Receive);
    assert_eq!(owner.phase, OwnerPhase::Listening);
}

#[test]
fn failed_button_call_is_passed_over() {
    let (owner, actions) = run(
        1,
        &[
            OwnerEvent::Started,
            OwnerEvent::Status(Stat::Own),
            OwnerEvent::Flag(true),
            OwnerEvent::Announced,
            OwnerEvent::Received(PressButton(3)),
            OwnerEvent::Flag(false),
        ],
    );
    assert_eq!(
        actions[4],
        OwnerAction::Call(GatewayCall::SetButton { pressed: true, device: 1, button: 3 })
    );
    assert_eq!(actions[5], OwnerAction::Receive);
    assert_eq!(owner.state(), OwnerState::Running);
}

#[test]
fn terminate_relinquishes_once_and_leaves() {
    let (owner, actions) = run(
        6,
        &[
            OwnerEvent::Started,
            OwnerEvent::Status(Stat::Free),
            OwnerEvent::Flag(true),
            OwnerEvent::Flag(true),
            OwnerEvent::Announced,
            OwnerEvent::Received(PressButton(1)),
            OwnerEvent::Flag(true),
            OwnerEvent::Received(Terminate),
            OwnerEvent::Relinquished,
            OwnerEvent::Received(ReleaseButton(1)),
            OwnerEvent::Received(Terminate),
        ],
    );
    assert_eq!(actions[7], OwnerAction::Call(GatewayCall::Relinquish { device: 6 }));
    assert_eq!(actions[8], OwnerAction::Exit);
    assert_eq!(actions[9], OwnerAction::Exit);
    assert_eq!(actions[10], OwnerAction::Exit);
    let relinquished = calls(&actions)
        .iter()
        .filter(|call| **call == GatewayCall::Relinquish { device: 6 })
        .count();
    assert_eq!(relinquished, 1);
    assert_eq!(owner.state(), OwnerState::Terminated);
    assert_eq!(owner.phase, OwnerPhase::Terminated);
}

#[test]
fn relinquishing_counts_as_terminated() {
    let (owner, _) = run(
        6,
        &[
            OwnerEvent::Started,
            OwnerEvent::Status(Stat::Own),
            OwnerEvent::Flag(true),
            OwnerEvent::Announced,
            OwnerEvent::Received(Terminate),
        ],
    );
    assert_eq!(owner.phase, OwnerPhase::Relinquishing);
    assert_eq!(owner.state(), OwnerState::Terminated);
}

#[test]
fn lost_channel_aborts_without_relinquish() {
    let (owner, actions) = run(
        1,
        &[
            OwnerEvent::Started,
            OwnerEvent::Status(Stat::Own),
            OwnerEvent::Flag(true),
            OwnerEvent::Announced,
            OwnerEvent::Disconnected,
        ],
    );
    assert_eq!(actions[4], OwnerAction::Abort);
    assert_eq!(owner.phase, OwnerPhase::Terminated);
    assert_eq!(
        calls(&actions),
        vec![GatewayCall::GetStatus { device: 1 }, GatewayCall::Reset { device: 1 }]
    );
}

#[test]
fn event_out_of_turn_aborts() {
    let (owner, actions) = run(1, &[OwnerEvent::Started, OwnerEvent::Flag(true)]);
    assert_eq!(actions[1], OwnerAction::Abort);
    assert_eq!(owner.phase, OwnerPhase::Terminated);

    let (owner, actions) = run(1, &[OwnerEvent::Received(PressButton(1))]);
    assert_eq!(actions[0], OwnerAction::Abort);
    assert_eq!(owner.phase, OwnerPhase::Terminated);

    let (owner, actions) = run(
        1,
        &[
            OwnerEvent::Started,
            OwnerEvent::Status(Stat::Own),
            OwnerEvent::Flag(true),
            OwnerEvent::Announced,
            OwnerEvent::Received(PressButton(1)),
            OwnerEvent::Received(ReleaseButton(1)),
        ],
    );
    assert_eq!(actions[5], OwnerAction::Abort);
    assert_eq!(owner.phase, OwnerPhase::Terminated);
}

#[test]
fn command_before_the_announcement_is_not_applied() {
    let (_, actions) = run(
        1,
        &[
            OwnerEvent::Started,
            OwnerEvent::Status(Stat::Own),
            OwnerEvent::Flag(true),
            OwnerEvent::Received(PressButton(1)),
        ],
    );
    assert_eq!(actions[3], OwnerAction::Abort);
}

#[test]
fn states_follow_the_phases() {
    let at = |phase: OwnerPhase| OwnerThread { device: 0, phase }.state();
    assert_eq!(at(OwnerPhase::Starting), OwnerState::Initializing);
    assert_eq!(at(OwnerPhase::QueryingStatus), OwnerState::Initializing);
    assert_eq!(at(OwnerPhase::Acquiring), OwnerState::Initializing);
    assert_eq!(at(OwnerPhase::Resetting), OwnerState::Initializing);
    assert_eq!(at(OwnerPhase::AnnouncingSuccess), OwnerState::Initializing);
    assert_eq!(at(OwnerPhase::AnnouncingFailure(Error::Disabled)), OwnerState::Initializing);
    assert_eq!(at(OwnerPhase::Listening), OwnerState::Running);
    assert_eq!(at(OwnerPhase::Applying), OwnerState::Running);
    assert_eq!(at(OwnerPhase::Relinquishing), OwnerState::Terminated);
    assert_eq!(at(OwnerPhase::Terminated), OwnerState::Terminated);
}
