use virtual_joystick::config::{DEFAULT_BUTTON_PRESS_DURATION_MS, MAX_BUTTON_PRESS_DURATION_MS};
use virtual_joystick::{
    is_button_down, Error, GatewayCall, Handshake, Stat, VirtualJoystickConfig,
};

#[test]
fn status_codes_decode_in_order() {
    assert_eq!(Stat::from_code(0), Stat::Own);
    assert_eq!(Stat::from_code(1), Stat::Free);
    assert_eq!(Stat::from_code(2), Stat::Busy);
    assert_eq!(Stat::from_code(3), Stat::Missing);
    assert_eq!(Stat::from_code(4), Stat::Unknown);
}

#[test]
fn unheard_of_status_codes_are_unknown() {
    assert_eq!(Stat::from_code(5), Stat::Unknown);
    assert_eq!(Stat::from_code(-1), Stat::Unknown);
    assert_eq!(Stat::from_code(i32::MAX), Stat::Unknown);
    assert_eq!(Stat::from_code(i32::MIN), Stat::Unknown);
}

#[test]
fn default_config_holds_a_quarter_second() {
    let config = VirtualJoystickConfig::default();
    assert_eq!(config.button_press_duration_ms, 250);
    assert_eq!(DEFAULT_BUTTON_PRESS_DURATION_MS, 250);
    assert!(config.is_schedulable());
}

#[test]
fn schedulable_delays_end_at_the_bound() {
    let at = |ms: i64| VirtualJoystickConfig { button_press_duration_ms: ms };
    assert_eq!(MAX_BUTTON_PRESS_DURATION_MS, 4_000_000_000_000_000);
    assert!(at(0).is_schedulable());
    assert!(at(500).is_schedulable());
    assert!(at(-500).is_schedulable());
    assert!(at(MAX_BUTTON_PRESS_DURATION_MS).is_schedulable());
    assert!(at(-MAX_BUTTON_PRESS_DURATION_MS).is_schedulable());
    assert!(!at(MAX_BUTTON_PRESS_DURATION_MS + 1).is_schedulable());
    assert!(!at(-MAX_BUTTON_PRESS_DURATION_MS - 1).is_schedulable());
    assert!(!at(i64::MAX).is_schedulable());
    assert!(!at(i64::MIN).is_schedulable());
}

#[test]
fn handshake_starts_empty() {
    let cell = Handshake::new();
    assert!(!cell.is_started());
    assert_eq!(cell.outcome(), None);
}

#[test]
fn handshake_keeps_a_success() {
    let mut cell = Handshake::new();
    assert!(cell.announce(Ok(())));
    assert!(cell.is_started());
    assert_eq!(cell.outcome(), Some(Ok(())));
}

#[test]
fn handshake_keeps_a_failure() {
    let mut cell = Handshake::new();
    assert!(cell.announce(Err(Error::CouldNotAcquire(Stat::Busy))));
    assert!(cell.is_started());
    assert_eq!(cell.outcome(), Some(Err(Error::CouldNotAcquire(Stat::Busy))));
}

#[test]
fn handshake_is_written_once() {
    let mut cell = Handshake::new();
    assert!(cell.announce(Err(Error::CouldNotAcquire(Stat::Missing))));
    assert!(!cell.announce(Ok(())));
    assert_eq!(cell.outcome(), Some(Err(Error::CouldNotAcquire(Stat::Missing))));
    assert!(!cell.announce(Err(Error::Disabled)));
    assert_eq!(cell.outcome(), Some(Err(Error::CouldNotAcquire(Stat::Missing))));
}

#[test]
fn buttons_start_up() {
    assert!(!is_button_down(&[], 1, 3));
}

#[test]
fn button_follows_the_last_call() {
    let down = GatewayCall::SetButton { pressed: true, device: 1, button: 3 };
    let up = GatewayCall::SetButton { pressed: false, device: 1, button: 3 };
    assert!(is_button_down(&[down], 1, 3));
    assert!(!is_button_down(&[down, up], 1, 3));
    assert!(is_button_down(&[down, up, down], 1, 3));
    assert!(is_button_down(&[down, down], 1, 3));
    // Another button, another device.
    assert!(!is_button_down(&[down], 1, 4));
    assert!(!is_button_down(&[down], 2, 3));
}

#[test]
fn stale_release_changes_no_button() {
    let log = vec![
        GatewayCall::GetStatus { device: 1 },
        GatewayCall::Acquire { device: 1 },
        GatewayCall::Reset { device: 1 },
        GatewayCall::SetButton { pressed: true, device: 1, button: 3 },
        GatewayCall::SetButton { pressed: true, device: 1, button: 4 },
        GatewayCall::SetButton { pressed: false, device: 1, button: 3 },
    ];
    let mut again = log.clone();
    again.push(GatewayCall::SetButton { pressed: false, device: 1, button: 3 });
    for button in 0..=255u8 {
        assert_eq!(is_button_down(&again, 1, button), is_button_down(&log, 1, button));
    }
    assert!(!is_button_down(&again, 1, 3));
    assert!(is_button_down(&again, 1, 4));
}

#[test]
fn reset_lets_every_button_go() {
    let log = vec![
        GatewayCall::SetButton { pressed: true, device: 1, button: 3 },
        GatewayCall::SetButton { pressed: true, device: 2, button: 3 },
        GatewayCall::Reset { device: 1 },
    ];
    assert!(!is_button_down(&log, 1, 3));
    assert!(is_button_down(&log, 2, 3));
}
